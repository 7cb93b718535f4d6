//! Turning image attachments into text: which attachments are images, and
//! what is asked of the backend about each.

use crate::event::{attachment_views, Attachment, AttachmentView};
use crate::text::{occurs_in, str_contains};
use vstd::prelude::*;

verus! {

/// The standard base64 text, with padding, of a sequence of bytes.
pub uninterp spec fn base64_standard(bytes: Seq<u8>) -> Seq<char>;

/// Whether the base64 text of `len` bytes has a length that fits the machine.
pub open spec fn fits_encoding(len: nat) -> bool {
    len / 3 * 4 + 4 <= usize::MAX
}

/// An attachment counts as an image where its declared content type says so.
pub open spec fn is_image(attachment: AttachmentView) -> bool {
    attachment.content_type matches Some(declared) && occurs_in("image"@, declared)
}

/// The first image among the attachments at or after `from`, or their number
/// where there is none.
pub open spec fn next_image(attachments: Seq<AttachmentView>, from: int) -> int
    decreases attachments.len() - from,
{
    if from < 0 || from >= attachments.len() {
        attachments.len() as int
    } else if is_image(attachments[from]) {
        from
    } else {
        next_image(attachments, from + 1)
    }
}

/// The next image is found at or after the place where the search starts, and
/// it is an image; where there is none, the search ends behind the last
/// attachment.
pub proof fn lemma_next_image_bounds(attachments: Seq<AttachmentView>, from: int)
    ensures
        next_image(attachments, from) <= attachments.len(),
        0 <= from <= attachments.len() ==> from <= next_image(attachments, from),
        next_image(attachments, from) < attachments.len() ==> is_image(
            attachments[next_image(attachments, from)],
        ),
        forall|i: int|
            0 <= from <= i < next_image(attachments, from) ==> !is_image(#[trigger] attachments[i]),
    decreases attachments.len() - from,
{
    if 0 <= from < attachments.len() && !is_image(attachments[from]) {
        lemma_next_image_bounds(attachments, from + 1);
    }
}

/// Calls `Engine::encode` of base64 on the engine `STANDARD`. Trusted: the
/// result is taken to be the standard base64 text of the bytes, the same for
/// the same bytes. Inputs whose encoded length would not fit, on which the
/// call panics, are left out.
#[verifier::external_body]
fn encode_standard(bytes: &[u8]) -> (encoded: String)
    requires
        fits_encoding(bytes@.len()),
    ensures
        encoded@ == base64_standard(bytes@),
{
    base64::Engine::encode(&base64::engine::general_purpose::STANDARD, bytes)
}

/// Encodes an image for transport, where its encoded length fits the machine.
pub fn encode_image(bytes: &[u8]) -> (encoded: Option<String>)
    ensures
        encoded is Some <==> fits_encoding(bytes@.len()),
        encoded matches Some(text) ==> text@ == base64_standard(bytes@),
{
    if bytes.len() / 3 <= (usize::MAX - 4) / 4 {
        Some(encode_standard(bytes))
    } else {
        None
    }
}

/// Whether `attachment` is an image.
pub fn is_image_attachment(attachment: &Attachment) -> (yes: bool)
    ensures
        yes == is_image(attachment@),
{
    match &attachment.content_type {
        Some(declared) => str_contains(declared.as_str(), "image"),
        None => false,
    }
}

/// Finds the first image at or after `from`.
pub fn next_image_from(attachments: &Vec<Attachment>, from: usize) -> (at: usize)
    ensures
        at == next_image(attachment_views(attachments@), from as int),
        from <= at <= attachments@.len() || (from > attachments@.len() && at == attachments@.len()),
{
    let mut at: usize = from;
    while at < attachments.len()
        invariant
            from <= at,
            next_image(attachment_views(attachments@), at as int) == next_image(
                attachment_views(attachments@),
                from as int,
            ),
        decreases attachments@.len() - at,
    {
        if is_image_attachment(&attachments[at]) {
            return at;
        }
        at += 1;
    }
    attachments.len()
}

} // verus!
