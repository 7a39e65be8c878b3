//! `?bind_playlist id`: note the playlist to bind and ask the API for the
//! channel's content details.

use crate::arguments::{first_argument, nth_argument};
use vstd::prelude::*;
use vstd::string::*;

verus! {

/// The playlist bound when the command names none.
pub open spec fn default_playlist_id() -> Seq<char> {
    "PLSVx1ksr-QK3hDUzO3s1zUNgcq4akDOA8"@
}

/// The address the command requests.
pub open spec fn channels_url() -> Seq<char> {
    "https://www.googleapis.com/youtube/v3/channels?part=contentDetails"@
}

/// `?bind_playlist` on the command's text: the playlist id (the first
/// argument, or the default one) and the address to request.
pub fn bind_playlist(message: &str) -> (res: (String, String))
    ensures
        res.0@ == match nth_argument(message@, ' ', 0) {
            Some(id) => id,
            None => default_playlist_id(),
        },
        res.1@ == channels_url(),
{
    let id = match first_argument(message, ' ') {
        Some(id) => id,
        None => String::from_str("PLSVx1ksr-QK3hDUzO3s1zUNgcq4akDOA8"),
    };
    (id, String::from_str("https://www.googleapis.com/youtube/v3/channels?part=contentDetails"))
}

} // verus!
