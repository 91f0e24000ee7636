//! A text together with its stage. A text enters as raw input, where it
//! can be examined for dangerous characters, and becomes cleaned text by
//! `clean` alone; only cleaned text can be transformed. Each operation
//! exists for the stage it belongs to and for no other.

use std::marker::PhantomData;
use vstd::prelude::*;
use vstd::string::*;

use crate::detector::{
    all_reports, check_ascii_only, is_ascii_only_identifier, judge, report_all, skeleton_chars,
    skeleton_of, verdict_of, Verdict,
};
use crate::links::{
    all_plain, defang_spans, defanged, find_spans, joined, lemma_defanged_plain_text_is_unchanged,
    link_spans, DefangError,
};
use crate::report::CharacterReport;
use crate::transforms::{
    censor, censored, is_ascii_text, is_plain_ascii, is_slug, slug_of, slugify, strip_tags,
    stripped_of_tags, transliterate, transliteration,
};

pub mod string_states;

verus! {

/// A stage of a text.
pub trait StringState {
    /// Whether text in this stage has been cleaned.
    spec fn cleaned() -> bool;
}

/// A transformation of cleaned text.
#[derive(Clone, Copy, Debug, PartialEq, Eq, Structural)]
pub enum Step {
    /// Markup is removed.
    StripHtml,
    /// Links are defanged.
    DefangLinks,
    /// Profane terms are replaced.
    CensorProfanity,
    /// The text is turned into a slug.
    Sluggify,
}

/// What `step` makes of `text`, where it succeeds.
pub open spec fn step_result(step: Step, text: Seq<char>) -> Option<Seq<char>> {
    match step {
        Step::StripHtml => Some(stripped_of_tags(text)),
        Step::DefangLinks => match defanged(link_spans(text)) {
            Ok(out) => Some(out),
            Err(_) => None,
        },
        Step::CensorProfanity => Some(censored(text)),
        Step::Sluggify => Some(slug_of(text)),
    }
}

/// The cleaned text that stems from the raw text `origin`: `origin` is
/// transliterated, and then goes through `steps` in their order, which all
/// have to succeed.
pub open spec fn derived(origin: Seq<char>, steps: Seq<Step>) -> Option<Seq<char>>
    decreases steps.len(),
{
    if steps.len() == 0 {
        Some(transliteration(origin))
    } else {
        match derived(origin, steps.drop_last()) {
            Some(text) => step_result(steps.last(), text),
            None => None,
        }
    }
}

/// A text in the stage `S`.
///
/// A value of this type remembers, for proofs alone, the raw text that it
/// stems from and the transformations that it went through. Cleaned text
/// is at all times what these make of that raw text, so there is no
/// cleaned text that did not come out of `clean`.
pub struct UnicodeString<S: StringState> {
    text: String,
    origin: Ghost<Seq<char>>,
    steps: Ghost<Seq<Step>>,
    _marker: PhantomData<S>,
}

impl<S: StringState> View for UnicodeString<S> {
    type V = Seq<char>;

    /// The characters of the text.
    closed spec fn view(&self) -> Seq<char> {
        self.text@
    }
}

impl<S: StringState> UnicodeString<S> {
    #[verifier::type_invariant]
    spec fn well_formed(self) -> bool {
        if S::cleaned() {
            derived(self.origin@, self.steps@) == Some(self.text@)
        } else {
            self.origin@ == self.text@ && self.steps@.len() == 0
        }
    }

    /// The raw text that this text stems from.
    pub closed spec fn origin(&self) -> Seq<char> {
        self.origin@
    }

    /// The transformations that this text went through since it was
    /// cleaned, in their order.
    pub closed spec fn steps(&self) -> Seq<Step> {
        self.steps@
    }
}

impl UnicodeString<string_states::RawInput> {
    /// Takes `text` in as raw input.
    pub fn new(text: String) -> (raw: Self)
        ensures
            raw@ == text@,
            raw.origin() == text@,
            raw.steps().len() == 0,
    {
        Self { origin: Ghost(text@), steps: Ghost(Seq::empty()), text, _marker: PhantomData }
    }

    /// The text as it is.
    pub fn to_string(&self) -> (text: &str)
        ensures
            text@ == self@,
            self.origin() == self@,
    {
        proof {
            use_type_invariant(self);
        }
        self.text.as_str()
    }

    /// Transliterates the text into ASCII: the one step from raw input to
    /// cleaned text. A text that is plain ASCII already is left as it is.
    pub fn clean(self) -> (cleaned: UnicodeString<string_states::CleanedText>)
        ensures
            cleaned@ == transliteration(self@),
            is_ascii_text(cleaned@),
            is_plain_ascii(self@) ==> cleaned@ == self@,
            cleaned.origin() == self@,
            cleaned.steps().len() == 0,
    {
        let origin = Ghost(self.text@);
        UnicodeString::<string_states::CleanedText> {
            text: transliterate(self.text.as_str()),
            origin,
            steps: Ghost(Seq::empty()),
            _marker: PhantomData,
        }
    }

    /// Turns the raw text into a slug at once. The text has not passed
    /// through `clean`, so the slug is a plain string and no cleaned text:
    /// nothing more can be done to it here.
    pub fn sluggify(self) -> (slug: String)
        ensures
            slug@ == slug_of(self@),
            is_slug(slug@),
    {
        slugify(self.text.as_str())
    }

    /// Judges the text: safe where it meets the restriction to ASCII
    /// identifiers or its skeleton holds no dangerous character, and the
    /// text is then handed back as it was; else unsafe, with a row for
    /// each dangerous character of the skeleton.
    pub fn detect_dangerous_chars(self) -> (verdict: Verdict)
        ensures
            verdict@ == verdict_of(self@, is_ascii_only_identifier(self@), skeleton_of(self@)),
    {
        let restricted = check_ascii_only(self.text.as_str());
        let skeleton = skeleton_chars(self.text.as_str());
        judge(self.text, restricted, &skeleton)
    }

    /// One row for each character of the skeleton of the text, dangerous
    /// or not.
    pub fn show_character_info(self) -> (report: Vec<CharacterReport>)
        ensures
            report.deep_view() == all_reports(skeleton_of(self@)),
    {
        let skeleton = skeleton_chars(self.text.as_str());
        report_all(&skeleton)
    }
}

impl UnicodeString<string_states::CleanedText> {
    /// Removes all markup.
    pub fn strip_html(self) -> (stripped: Self)
        ensures
            stripped@ == stripped_of_tags(self@),
            stripped.origin() == self.origin(),
            stripped.steps() == self.steps().push(Step::StripHtml),
    {
        proof {
            use_type_invariant(&self);
        }
        let origin = Ghost(self.origin@);
        let steps = Ghost(self.steps@.push(Step::StripHtml));
        assert(steps@.drop_last() =~= self.steps@);
        Self { text: strip_tags(self.text.as_str()), origin, steps, _marker: PhantomData }
    }

    /// Defangs the links of the text: web addresses and e-mail addresses
    /// are rewritten so that nothing takes them for links, and the text
    /// between them stays. A link of another kind is an error. The spans
    /// of the text, taken together, are the text: a text without links is
    /// handed back as it was.
    pub fn defang_links(self) -> (out: Result<Self, DefangError>)
        ensures
            joined(link_spans(self@)) == self@,
            all_plain(link_spans(self@)) ==> out is Ok && out->Ok_0@ == self@,
            match out {
                Ok(text) => {
                    &&& defanged(link_spans(self@)) == Ok::<Seq<char>, DefangError>(text@)
                    &&& text.origin() == self.origin()
                    &&& text.steps() == self.steps().push(Step::DefangLinks)
                },
                Err(e) => defanged(link_spans(self@)) == Err::<Seq<char>, DefangError>(e),
            },
    {
        proof {
            use_type_invariant(&self);
        }
        let origin = Ghost(self.origin@);
        let steps = Ghost(self.steps@.push(Step::DefangLinks));
        assert(steps@.drop_last() =~= self.steps@);
        let spans = find_spans(self.text.as_str());
        proof {
            if all_plain(spans.deep_view()) {
                lemma_defanged_plain_text_is_unchanged(spans.deep_view());
            }
        }
        match defang_spans(&spans) {
            Ok(text) => Ok(Self { text, origin, steps, _marker: PhantomData }),
            Err(e) => Err(e),
        }
    }

    /// Replaces profane terms by placeholders.
    pub fn censor_profanity(self) -> (out: Self)
        ensures
            out@ == censored(self@),
            out.origin() == self.origin(),
            out.steps() == self.steps().push(Step::CensorProfanity),
    {
        proof {
            use_type_invariant(&self);
        }
        let origin = Ghost(self.origin@);
        let steps = Ghost(self.steps@.push(Step::CensorProfanity));
        assert(steps@.drop_last() =~= self.steps@);
        Self { text: censor(self.text.as_str()), origin, steps, _marker: PhantomData }
    }

    /// Turns the text into a slug: lower-case ASCII letters, digits and
    /// the separator `-`.
    pub fn sluggify(self) -> (slug: Self)
        ensures
            slug@ == slug_of(self@),
            is_slug(slug@),
            slug.origin() == self.origin(),
            slug.steps() == self.steps().push(Step::Sluggify),
    {
        proof {
            use_type_invariant(&self);
        }
        let origin = Ghost(self.origin@);
        let steps = Ghost(self.steps@.push(Step::Sluggify));
        assert(steps@.drop_last() =~= self.steps@);
        Self { text: slugify(self.text.as_str()), origin, steps, _marker: PhantomData }
    }

    /// The text itself. Whatever cleaned text is handed out, it is what
    /// `clean` and the transformations after it made of some raw text.
    pub fn into_string(self) -> (text: String)
        ensures
            text@ == self@,
            derived(self.origin(), self.steps()) == Some(text@),
    {
        proof {
            use_type_invariant(&self);
        }
        self.text
    }
}

} // verus!
