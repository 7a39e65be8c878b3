//! The effects that the command plans ask the bot to carry out, in order.

use vstd::prelude::*;

verus! {

/// One field of an embedded message: a heading and a line under it.
#[derive(Debug, PartialEq, Eq)]
pub struct MenuField {
    pub name: String,
    pub value: String,
}

/// One thing for the bot to do on Discord, in the voice connection or on
/// its console.
#[derive(Debug, PartialEq, Eq)]
pub enum Action {
    /// Send a message to the channel the command came from.
    Say(String),
    /// Answer the command's message.
    Reply(String),
    /// Write a line to standard output.
    Print(String),
    /// Write a line to standard error.
    PrintErr(String),
    /// Write "Joined voice channel" and the channel's name, debug-quoted.
    LogJoinedChannel(String),
    /// Have the voice call report tracks that fail.
    AttachTrackErrorNotifier,
    /// Leave the voice call of the guild.
    LeaveCall,
    /// Skip the track that plays now.
    SkipTrack,
    /// Add the track at this link to the queue, at the bot's volume.
    EnqueueTrack(String),
    /// Add the track at this link to the queue with this title: at the bot's
    /// volume, announced when it starts, its title kept with it.
    EnqueueTitledTrack(String, String),
    /// Run the join command for the message's author.
    JoinAuthorChannel,
    /// Send an embedded message with this title and these fields.
    ShowMenu(String, Vec<MenuField>),
    /// Delete the embedded message sent before.
    DeleteMenu,
    /// Run the queue command on this link.
    QueueLink(String),
}

/// What an `Action` asks for, over plain texts.
pub enum Effect {
    Say(Seq<char>),
    Reply(Seq<char>),
    Print(Seq<char>),
    PrintErr(Seq<char>),
    LogJoinedChannel(Seq<char>),
    AttachTrackErrorNotifier,
    LeaveCall,
    SkipTrack,
    EnqueueTrack(Seq<char>),
    EnqueueTitledTrack(Seq<char>, Seq<char>),
    JoinAuthorChannel,
    ShowMenu(Seq<char>, Seq<(Seq<char>, Seq<char>)>),
    DeleteMenu,
    QueueLink(Seq<char>),
}

/// The heading and line of each field.
pub open spec fn field_texts(fields: Seq<MenuField>) -> Seq<(Seq<char>, Seq<char>)> {
    fields.map_values(|f: MenuField| (f.name@, f.value@))
}

impl View for Action {
    type V = Effect;

    open spec fn view(&self) -> Effect {
        match self {
            Action::Say(s) => Effect::Say(s@),
            Action::Reply(s) => Effect::Reply(s@),
            Action::Print(s) => Effect::Print(s@),
            Action::PrintErr(s) => Effect::PrintErr(s@),
            Action::LogJoinedChannel(s) => Effect::LogJoinedChannel(s@),
            Action::AttachTrackErrorNotifier => Effect::AttachTrackErrorNotifier,
            Action::LeaveCall => Effect::LeaveCall,
            Action::SkipTrack => Effect::SkipTrack,
            Action::EnqueueTrack(s) => Effect::EnqueueTrack(s@),
            Action::EnqueueTitledTrack(u, t) => Effect::EnqueueTitledTrack(u@, t@),
            Action::JoinAuthorChannel => Effect::JoinAuthorChannel,
            Action::ShowMenu(t, f) => Effect::ShowMenu(t@, field_texts(f@)),
            Action::DeleteMenu => Effect::DeleteMenu,
            Action::QueueLink(s) => Effect::QueueLink(s@),
        }
    }
}

/// What a list of actions asks for.
pub open spec fn effects(actions: Seq<Action>) -> Seq<Effect> {
    actions.map_values(|a: Action| a@)
}

} // verus!
