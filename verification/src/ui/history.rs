//! The history window: how a prompt is listed.
use crate::text::{decimal, push_decimal};
use vstd::prelude::*;
use vstd::string::*;
use vstd::utf8::*;

verus! {

/// The most bytes of a prompt that its row shows.
pub const PREVIEW_BYTES: usize = 100;

/// A prompt can be shortened where it is short enough to be shown whole,
/// or where its first `PREVIEW_BYTES` bytes end with a whole character.
pub open spec fn can_preview(text: Seq<char>) -> bool {
    encode_utf8(text).len() > PREVIEW_BYTES ==> is_char_boundary(
        encode_utf8(text),
        PREVIEW_BYTES as int,
    )
}

/// The line that stands for a prompt: the prompt itself, or the first
/// `PREVIEW_BYTES` bytes of a longer one, followed by three dots.
pub open spec fn preview_text(text: Seq<char>) -> Seq<char> {
    if encode_utf8(text).len() > PREVIEW_BYTES {
        decode_utf8(encode_utf8(text).subrange(0, PREVIEW_BYTES as int)) + "..."@
    } else {
        text
    }
}

/// Whether a prompt can be shortened.
pub fn previewable(text: &str) -> (ok: bool)
    ensures
        ok == can_preview(text@),
{
    text.as_bytes().len() <= PREVIEW_BYTES || text.is_char_boundary(PREVIEW_BYTES)
}

/// The line that stands for a prompt in the history.
pub fn preview(text: &str) -> (line: String)
    requires
        can_preview(text@),
    ensures
        line@ == preview_text(text@),
{
    if text.as_bytes().len() > PREVIEW_BYTES {
        let (head, _) = text.split_at(PREVIEW_BYTES);
        proof {
            encode_utf8_decode_utf8(head@);
        }
        String::from_str(head).concat("...")
    } else {
        String::from_str(text)
    }
}

/// The number of words as shown beside a prompt.
pub open spec fn word_label_text(words: usize) -> Seq<char> {
    decimal(words as nat) + " words"@
}

/// The number of words as shown beside a prompt: `12 words`.
pub fn word_label(words: usize) -> (label: String)
    ensures
        label@ == word_label_text(words),
{
    let mut label = String::new();
    push_decimal(&mut label, words as u64);
    label.append(" words");
    label
}

} // verus!
