//! The prompt that is sent to the backend for one event.

use crate::event::{referenced_view, Referenced, ReferencedView};
use crate::text::{decimal, decimal_string, string_views};
use vstd::prelude::*;
use vstd::string::*;

verus! {

/// The prompt before any image description: who wrote, what they wrote, and,
/// where the message replies to another, that message and its author first.
pub open spec fn base_prompt(
    text: Seq<char>,
    referenced: Option<ReferencedView>,
    author: u64,
) -> Seq<char> {
    match referenced {
        Some(r) => "SYSTEM: Referenced message: "@ + r.content
            + ". Referenced author's ID: <@"@ + decimal(r.author as nat) + ">. User's ID: <@"@
            + decimal(author as nat) + ">. User's message:> "@ + text,
        None => "SYSTEM: User's ID: <@"@ + decimal(author as nat) + ">. User's message:> "@
            + text,
    }
}

/// The prompt with one more image description, under its number.
pub open spec fn with_description(prompt: Seq<char>, label: nat, description: Seq<char>) -> Seq<
    char,
> {
    prompt + " Image description #"@ + decimal(label) + ": "@ + description
}

/// The prompt with each description in order, numbered from 1.
pub open spec fn with_descriptions(prompt: Seq<char>, descriptions: Seq<Seq<char>>) -> Seq<char>
    decreases descriptions.len(),
{
    if descriptions.len() == 0 {
        prompt
    } else {
        with_description(
            with_descriptions(prompt, descriptions.drop_last()),
            descriptions.len(),
            descriptions.last(),
        )
    }
}

/// Writes the prompt before any image description.
pub fn opening(raw_text: &str, referenced: &Option<Referenced>, author: u64) -> (prompt: String)
    ensures
        prompt@ == base_prompt(raw_text@, referenced_view(*referenced), author),
{
    match referenced {
        Some(r) => String::from_str("SYSTEM: Referenced message: ").concat(
            r.content.as_str(),
        ).concat(". Referenced author's ID: <@").concat(decimal_string(r.author).as_str()).concat(
            ">. User's ID: <@",
        ).concat(decimal_string(author).as_str()).concat(">. User's message:> ").concat(raw_text),
        None => String::from_str("SYSTEM: User's ID: <@").concat(
            decimal_string(author).as_str(),
        ).concat(">. User's message:> ").concat(raw_text),
    }
}

/// Adds one image description to a prompt, under the number `label`.
pub fn describe_image(prompt: String, label: u64, description: &str) -> (extended: String)
    ensures
        extended@ == with_description(prompt@, label as nat, description@),
{
    prompt.concat(" Image description #").concat(decimal_string(label).as_str()).concat(
        ": ",
    ).concat(description)
}

/// Builds the whole prompt of one event. Nothing is cut off, however long it
/// gets.
pub fn compose(
    raw_text: &str,
    referenced: &Option<Referenced>,
    author: u64,
    summaries: &Vec<String>,
) -> (prompt: String)
    ensures
        prompt@ == with_descriptions(
            base_prompt(raw_text@, referenced_view(*referenced), author),
            string_views(summaries@),
        ),
{
    let mut prompt = opening(raw_text, referenced, author);
    let ghost base = prompt@;
    let ghost all = string_views(summaries@);
    let mut i: usize = 0;
    while i < summaries.len()
        invariant
            i <= summaries@.len(),
            all == string_views(summaries@),
            prompt@ == with_descriptions(base, all.take(i as int)),
        decreases summaries@.len() - i,
    {
        proof {
            assert(all.take(i + 1).drop_last() =~= all.take(i as int));
            assert(all.take(i + 1).last() == summaries@[i as int]@);
        }
        let label: u64 = i as u64 + 1;
        prompt = describe_image(prompt, label, summaries[i].as_str());
        i += 1;
    }
    assert(all.take(i as int) =~= all);
    prompt
}

} // verus!
