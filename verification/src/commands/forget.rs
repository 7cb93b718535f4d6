//! `forget`: drop what is remembered of one conversation, or of all.

use crate::history::{HistoryStore, StoreView, TurnView};
use crate::text::{decimal, decimal_string};
use vstd::prelude::*;
use vstd::string::*;

verus! {

/// The store after the command.
pub open spec fn forgotten(store: StoreView, channel: Option<u64>) -> StoreView {
    match channel {
        Some(key) => store.remove(key),
        None => Map::<u64, Seq<TurnView>>::empty(),
    }
}

/// What the command answers.
pub open spec fn confirmation(channel: Option<u64>) -> Seq<char> {
    match channel {
        Some(key) => "forgetting channel <#"@ + decimal(key as nat) + ">"@,
        None => "forgetting everything"@,
    }
}

/// Forgets the transcript of `channel`, or every transcript where no channel
/// is given, and confirms it. It always succeeds.
pub fn run(store: &mut HistoryStore, channel: Option<u64>) -> (content: String)
    ensures
        final(store)@ == forgotten(old(store)@, channel),
        content@ == confirmation(channel),
{
    match channel {
        Some(key) => {
            store.remove(key);
            String::from_str("forgetting channel <#").concat(decimal_string(key).as_str()).concat(
                ">",
            )
        },
        None => {
            store.clear_all();
            String::from_str("forgetting everything")
        },
    }
}

} // verus!
