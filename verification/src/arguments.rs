//! Splitting a command's text into arguments, the way serenity's standard
//! framework does for its commands.

use serenity::framework::standard::{Args, Delimiter};
use crate::text::texts;
use vstd::prelude::*;

verus! {

/// The arguments that serenity's `Args::new(message, &[Delimiter::Single(delimiter)])`
/// holds, in order: what successive calls of `single::<String>()` hand out.
pub uninterp spec fn serenity_arguments(message: Seq<char>, delimiter: char) -> Seq<Seq<char>>;

/// serenity's `Args::new` with one single-character delimiter, read out with
/// `raw()`. Claimed: the result is `serenity_arguments` of the message and the
/// delimiter; the splitting rules themselves (quotes, empty pieces) are left to
/// that name.
#[verifier::external_body]
#[allow(deprecated)]
fn serenity_split(message: &str, delimiter: char) -> (res: Vec<String>)
    ensures
        texts(res@) == serenity_arguments(message@, delimiter),
{
    Args::new(message, &[Delimiter::Single(delimiter)]).raw().map(String::from).collect()
}

/// The arguments of a command's text, split at `delimiter`.
pub fn split_arguments(message: &str, delimiter: char) -> (res: Vec<String>)
    ensures
        texts(res@) == serenity_arguments(message@, delimiter),
{
    serenity_split(message, delimiter)
}

/// The `n`-th argument of a command's text (counting from 0), if it has one.
pub open spec fn nth_argument(message: Seq<char>, delimiter: char, n: int) -> Option<Seq<char>> {
    let args = serenity_arguments(message, delimiter);
    if 0 <= n < args.len() {
        Some(args[n])
    } else {
        None
    }
}

/// The first argument of a command's text, as `args.single::<String>()`
/// gives it, or `None` when the text holds no argument.
pub fn first_argument(message: &str, delimiter: char) -> (res: Option<String>)
    ensures
        match nth_argument(message@, delimiter, 0) {
            Some(a) => res is Some && res->0@ == a,
            None => res is None,
        },
{
    let mut args = serenity_split(message, delimiter);
    if args.len() == 0 {
        None
    } else {
        assert(texts(args@)[0] == args@[0]@);
        Some(args.swap_remove(0))
    }
}

} // verus!
