//! The commands that an administrator can give.

use crate::history::{HistoryStore, StoreView};
use vstd::prelude::*;
use vstd::string::*;

pub mod forget;

verus! {

/// The answer to a command, and the store after it.
pub open spec fn answered(store: StoreView, name: Seq<char>, channel: Option<u64>) -> (
    StoreView,
    Seq<char>,
) {
    if name == "forget"@ {
        (forget::forgotten(store, channel), forget::confirmation(channel))
    } else {
        (store, "Error, command not implemented!"@)
    }
}

/// Carries out the command `name` and says what is answered. A command that
/// is not known changes nothing.
pub fn respond(store: &mut HistoryStore, name: &str, channel: Option<u64>) -> (content: String)
    ensures
        (final(store)@, content@) == answered(old(store)@, name@, channel),
{
    if String::from_str(name) == String::from_str("forget") {
        forget::run(store, channel)
    } else {
        String::from_str("Error, command not implemented!")
    }
}

} // verus!
