//! Raw input bytes and the removal of terminal escape sequences from them.

use vstd::prelude::*;
use vstd::string::*;

use crate::escape::{
    all_printable, decode, decoded_actions, filter_actions, filtered_text, is_display_safe,
    lemma_filtered_text_is_display_safe, lemma_no_escape_without_colors, Action, ESCAPE,
};

verus! {

/// Bytes as they arrive from outside; they need not be valid UTF-8.
#[derive(Clone, Debug, PartialEq, Eq)]
pub struct RawBytes(pub Vec<u8>);

impl RawBytes {
    /// No bytes at all.
    pub fn default() -> (bytes: RawBytes)
        ensures
            bytes.0@ == Seq::<u8>::empty(),
    {
        RawBytes(Vec::new())
    }

    /// The UTF-8 encoding of `string`.
    pub fn from_string(string: &str) -> (bytes: RawBytes)
        ensures
            bytes.0@ == string.spec_bytes(),
    {
        RawBytes(string.as_bytes_vec())
    }

    /// Whether there are no bytes.
    pub fn is_empty(&self) -> (empty: bool)
        ensures
            empty == (self.0@.len() == 0),
    {
        self.0.len() == 0
    }

    /// The terminal actions that the bytes decode to, in their order. Every
    /// action that prints holds printable characters only.
    pub fn actions(&self) -> (actions: Vec<Action>)
        ensures
            actions.deep_view() == decoded_actions(self.0@),
            all_printable(actions.deep_view()),
    {
        decode(self.0.as_slice())
    }

    /// The text of the bytes without dangerous terminal escape sequences:
    /// what the filter lets through of the actions that the bytes decode
    /// to. It holds no control character but backspace, tab, line feed,
    /// vertical tab, form feed and carriage return and, where `keep_colors`
    /// holds, the escape that opens a well-formed graphic rendition; where
    /// it does not hold, the text holds no escape at all.
    pub fn strip_ansi_escapes(&self, keep_colors: bool) -> (out: String)
        ensures
            out@ == filtered_text(decoded_actions(self.0@), keep_colors),
            is_display_safe(out@, keep_colors),
            !keep_colors ==> !out@.contains(ESCAPE),
    {
        let actions = self.actions();
        proof {
            lemma_filtered_text_is_display_safe(actions.deep_view(), keep_colors);
            lemma_no_escape_without_colors(actions.deep_view());
        }
        filter_actions(&actions, keep_colors)
    }
}

} // verus!
