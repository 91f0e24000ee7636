//! The two stages of a text.

use vstd::prelude::*;

use crate::unicode_string::StringState;

verus! {

/// The text is as it came in: it may hold dangerous characters. It can be
/// examined, and cleaned.
pub struct RawInput {}

/// The text has been cleaned: it can be transformed further.
pub struct CleanedText {}

impl StringState for RawInput {
    open spec fn cleaned() -> bool {
        false
    }
}

impl StringState for CleanedText {
    open spec fn cleaned() -> bool {
        true
    }
}

} // verus!
