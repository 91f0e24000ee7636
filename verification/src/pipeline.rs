//! The whole way of a text through the library: which operations are run
//! on it, in which order, and how the run ends.

use vstd::prelude::*;

use crate::detector::{
    all_reports, is_ascii_only_identifier, skeleton_of, verdict_of, Verdict, VerdictView,
};
use crate::links::{defanged, link_spans, DefangError};
use crate::report::{CharacterReport, CharacterReportView};
use crate::transforms::{censored, slug_of, stripped_of_tags, transliteration};
use crate::unicode_string::UnicodeString;

verus! {

/// The operations that a caller has selected.
#[derive(Clone, Copy, Debug, PartialEq, Eq, Structural)]
pub struct Options {
    /// Transliterate the text into ASCII.
    pub clean: bool,
    /// Remove markup.
    pub strip: bool,
    /// Defang links.
    pub defang: bool,
    /// Replace profane terms.
    pub censor: bool,
    /// Turn the text into a slug.
    pub slugify: bool,
    /// Judge whether the text holds dangerous characters.
    pub detect: bool,
    /// Report every character of the text.
    pub chars: bool,
}

/// How a run ends.
#[derive(Clone, Debug, PartialEq, Eq)]
pub enum Outcome {
    /// The transformed text, to be handed out.
    Text(String),
    /// The text was judged safe; it is handed out as it came in.
    Safe(String),
    /// The text was judged unsafe; the report is handed out in its place.
    Unsafe(Vec<CharacterReport>),
    /// The report of every character of the text.
    Characters(Vec<CharacterReport>),
    /// No operation was selected: no text is handed out.
    NoOperation,
}

/// What an outcome is to specifications.
pub enum OutcomeView {
    Text(Seq<char>),
    Safe(Seq<char>),
    Unsafe(Seq<CharacterReportView>),
    Characters(Seq<CharacterReportView>),
    NoOperation,
}

impl View for Outcome {
    type V = OutcomeView;

    open spec fn view(&self) -> OutcomeView {
        match self {
            Outcome::Text(text) => OutcomeView::Text(text@),
            Outcome::Safe(text) => OutcomeView::Safe(text@),
            Outcome::Unsafe(report) => OutcomeView::Unsafe(report.deep_view()),
            Outcome::Characters(report) => OutcomeView::Characters(report.deep_view()),
            Outcome::NoOperation => OutcomeView::NoOperation,
        }
    }
}

/// The status with which a run that ended successfully is left.
pub const STATUS_SUCCESS: u8 = 0;

/// The status with which a run is left for which no operation was selected.
pub const STATUS_NO_OPERATION: u8 = 1;

/// The status with which a run is left that handed out a report in place
/// of the text.
pub const STATUS_REPORT: u8 = 2;

impl Options {
    /// Whether the caller asked for the text to be changed.
    pub open spec fn transforms(self) -> bool {
        self.clean || self.strip || self.defang || self.censor || self.slugify
    }
}

/// The status with which a run of the given outcome is left: success for
/// text handed out, whether transformed or judged safe; the status of a
/// report where one is handed out in place of the text; and one of its own
/// where no operation was selected.
pub open spec fn status_of(outcome: OutcomeView) -> u8 {
    match outcome {
        OutcomeView::Text(_) => STATUS_SUCCESS,
        OutcomeView::Safe(_) => STATUS_SUCCESS,
        OutcomeView::Unsafe(_) => STATUS_REPORT,
        OutcomeView::Characters(_) => STATUS_REPORT,
        OutcomeView::NoOperation => STATUS_NO_OPERATION,
    }
}

/// `text` without its markup, or as it is where that is not selected.
pub open spec fn stripped_if(selected: bool, text: Seq<char>) -> Seq<char> {
    if selected {
        stripped_of_tags(text)
    } else {
        text
    }
}

/// `text` with its links defanged, or as it is where that is not selected.
pub open spec fn defanged_if(selected: bool, text: Seq<char>) -> Result<Seq<char>, DefangError> {
    if selected {
        defanged(link_spans(text))
    } else {
        Ok(text)
    }
}

/// `text` censored, or as it is where that is not selected.
pub open spec fn censored_if(selected: bool, text: Seq<char>) -> Seq<char> {
    if selected {
        censored(text)
    } else {
        text
    }
}

/// The slug of `text`, or `text` as it is where that is not selected.
pub open spec fn slug_if(selected: bool, text: Seq<char>) -> Seq<char> {
    if selected {
        slug_of(text)
    } else {
        text
    }
}

/// The text that the selected transformations make of `text`: it is
/// cleaned first, whatever is selected; then markup is removed, links are
/// defanged, profane terms are replaced and the slug is made, each where
/// selected and in this order.
pub open spec fn transformed(text: Seq<char>, options: Options) -> Result<Seq<char>, DefangError> {
    match defanged_if(options.defang, stripped_if(options.strip, transliteration(text))) {
        Ok(defanged) => Ok(slug_if(options.slugify, censored_if(options.censor, defanged))),
        Err(e) => Err(e),
    }
}

/// How the run on `text` with `options` ends. Examining comes before
/// transforming, and judging before reporting every character; with
/// nothing selected the run ends at once.
pub open spec fn outcome_of(text: Seq<char>, options: Options) -> Result<OutcomeView, DefangError> {
    if options.detect {
        Ok(
            match verdict_of(text, is_ascii_only_identifier(text), skeleton_of(text)) {
                VerdictView::Safe(safe) => OutcomeView::Safe(safe),
                VerdictView::Unsafe(report) => OutcomeView::Unsafe(report),
            },
        )
    } else if options.chars {
        Ok(OutcomeView::Characters(all_reports(skeleton_of(text))))
    } else if !options.transforms() {
        Ok(OutcomeView::NoOperation)
    } else {
        match transformed(text, options) {
            Ok(out) => Ok(OutcomeView::Text(out)),
            Err(e) => Err(e),
        }
    }
}

impl Outcome {
    /// The status with which the run is left.
    pub fn exit_status(&self) -> (status: u8)
        ensures
            status == status_of(self@),
    {
        match self {
            Outcome::Text(_) => STATUS_SUCCESS,
            Outcome::Safe(_) => STATUS_SUCCESS,
            Outcome::Unsafe(_) => STATUS_REPORT,
            Outcome::Characters(_) => STATUS_REPORT,
            Outcome::NoOperation => STATUS_NO_OPERATION,
        }
    }
}

/// Runs the selected transformations on `input`.
pub fn transform(input: String, options: &Options) -> (out: Result<String, DefangError>)
    ensures
        match out {
            Ok(text) => transformed(input@, *options) == Ok::<Seq<char>, DefangError>(text@),
            Err(e) => transformed(input@, *options) == Err::<Seq<char>, DefangError>(e),
        },
{
    let mut cleaned = UnicodeString::new(input).clean();
    if options.strip {
        cleaned = cleaned.strip_html();
    }
    if options.defang {
        match cleaned.defang_links() {
            Ok(defanged) => {
                cleaned = defanged;
            },
            Err(e) => {
                return Err(e);
            },
        }
    }
    if options.censor {
        cleaned = cleaned.censor_profanity();
    }
    if options.slugify {
        cleaned = cleaned.sluggify();
    }
    Ok(cleaned.into_string())
}

/// Runs the selected operations on `input` and says how the run ends. The
/// error is that of a link that cannot be defanged.
pub fn run(input: String, options: &Options) -> (out: Result<Outcome, DefangError>)
    ensures
        match out {
            Ok(outcome) => outcome_of(input@, *options) == Ok::<OutcomeView, DefangError>(
                outcome@,
            ),
            Err(e) => outcome_of(input@, *options) == Err::<OutcomeView, DefangError>(e),
        },
{
    if options.detect {
        match UnicodeString::new(input).detect_dangerous_chars() {
            Verdict::Safe(text) => Ok(Outcome::Safe(text)),
            Verdict::Unsafe(report) => Ok(Outcome::Unsafe(report)),
        }
    } else if options.chars {
        Ok(Outcome::Characters(UnicodeString::new(input).show_character_info()))
    } else if !(options.clean || options.strip || options.defang || options.censor
        || options.slugify) {
        Ok(Outcome::NoOperation)
    } else {
        match transform(input, options) {
            Ok(text) => Ok(Outcome::Text(text)),
            Err(e) => Err(e),
        }
    }
}

} // verus!
