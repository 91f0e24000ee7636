//! The detector of dangerous characters: it judges a text safe or reports
//! the characters of its skeleton that are neither visible ASCII nor ASCII
//! whitespace.

use unicode_security::skeleton;
use unicode_security::RestrictionLevel;
use unicode_security::RestrictionLevelDetection;
use vstd::prelude::*;

use crate::report::{character_info, report_of, CharacterReport, CharacterReportView};

verus! {

/// The outcome of the detector.
#[derive(Clone, Debug, PartialEq, Eq)]
pub enum Verdict {
    /// The text is safe; it is handed back as it was.
    Safe(String),
    /// The text is not safe: one row for each dangerous character of its
    /// skeleton, in the order of the skeleton.
    Unsafe(Vec<CharacterReport>),
}

/// What a verdict is to specifications.
pub enum VerdictView {
    Safe(Seq<char>),
    Unsafe(Seq<CharacterReportView>),
}

impl View for Verdict {
    type V = VerdictView;

    open spec fn view(&self) -> VerdictView {
        match self {
            Verdict::Safe(text) => VerdictView::Safe(text@),
            Verdict::Unsafe(report) => VerdictView::Unsafe(report.deep_view()),
        }
    }
}

/// Whether `c` is a visible ASCII character: U+0021 to U+007E.
pub open spec fn is_ascii_graphic(c: char) -> bool {
    '!' <= c <= '~'
}

/// Whether `c` is ASCII whitespace: space, tab, line feed, form feed or
/// carriage return.
pub open spec fn is_ascii_whitespace(c: char) -> bool {
    c == ' ' || c == '\t' || c == '\n' || c == '\x0c' || c == '\r'
}

/// Whether `c` is reported as dangerous: it is neither a visible ASCII
/// character nor ASCII whitespace.
pub open spec fn is_dangerous(c: char) -> bool {
    !(is_ascii_graphic(c) || is_ascii_whitespace(c))
}

/// Whether no character of `text` is dangerous.
pub open spec fn is_harmless(text: Seq<char>) -> bool {
    forall|i: int| 0 <= i < text.len() ==> !is_dangerous(#[trigger] text[i])
}

/// One row for each character of `skeleton`, in order.
pub open spec fn all_reports(skeleton: Seq<char>) -> Seq<CharacterReportView> {
    Seq::new(skeleton.len(), |i: int| report_of(i as nat, skeleton[i]))
}

/// One row for each dangerous character of `skeleton`, in order; the row
/// holds the position of the character in `skeleton`.
pub open spec fn dangerous_reports(skeleton: Seq<char>) -> Seq<CharacterReportView>
    decreases skeleton.len(),
{
    if skeleton.len() == 0 {
        Seq::empty()
    } else if is_dangerous(skeleton.last()) {
        dangerous_reports(skeleton.drop_last()).push(
            report_of((skeleton.len() - 1) as nat, skeleton.last()),
        )
    } else {
        dangerous_reports(skeleton.drop_last())
    }
}

/// The verdict on `text`, given whether it meets the restriction to ASCII
/// identifiers and given its skeleton: safe where it meets the restriction
/// or its skeleton is harmless, else unsafe with the dangerous characters
/// of the skeleton.
pub open spec fn verdict_of(text: Seq<char>, restricted: bool, skeleton: Seq<char>) -> VerdictView {
    if restricted || dangerous_reports(skeleton).len() == 0 {
        VerdictView::Safe(text)
    } else {
        VerdictView::Unsafe(dangerous_reports(skeleton))
    }
}

/// Whether `text` meets the restriction level of identifiers made of ASCII
/// alone.
pub uninterp spec fn is_ascii_only_identifier(text: Seq<char>) -> bool;

/// The skeleton of `text`: the text with each character replaced by the
/// representative of those that look like it.
pub uninterp spec fn skeleton_of(text: Seq<char>) -> Seq<char>;

/// Checks `text` against the restriction level of ASCII-only identifiers.
///
/// Trusted: this is
/// `unicode_security::RestrictionLevelDetection::check_restriction_level`
/// on a string slice, with the level `ASCIIOnly`. The result depends on
/// the text alone.
#[verifier::external_body]
pub(crate) fn check_ascii_only(text: &str) -> (restricted: bool)
    ensures
        restricted == is_ascii_only_identifier(text@),
{
    text.check_restriction_level(RestrictionLevel::ASCIIOnly)
}

/// Computes the skeleton of `text`.
///
/// Trusted: this is `unicode_security::skeleton`, its characters gathered
/// in order. The result depends on the text alone.
#[verifier::external_body]
pub(crate) fn skeleton_chars(text: &str) -> (chars: Vec<char>)
    ensures
        chars@ == skeleton_of(text@),
{
    skeleton(text).collect()
}

/// Whether `c` is a visible ASCII character.
pub fn check_ascii_graphic(c: char) -> (graphic: bool)
    ensures
        graphic == is_ascii_graphic(c),
{
    '!' <= c && c <= '~'
}

/// Whether `c` is ASCII whitespace.
pub fn check_ascii_whitespace(c: char) -> (whitespace: bool)
    ensures
        whitespace == is_ascii_whitespace(c),
{
    c == ' ' || c == '\t' || c == '\n' || c == '\x0c' || c == '\r'
}

/// One row for each character of `skeleton`, in order.
pub fn report_all(skeleton: &Vec<char>) -> (report: Vec<CharacterReport>)
    ensures
        report.deep_view() == all_reports(skeleton@),
{
    let mut report: Vec<CharacterReport> = Vec::new();
    let mut i: usize = 0;
    while i < skeleton.len()
        invariant
            i <= skeleton.len(),
            report.deep_view() == all_reports(skeleton@.take(i as int)),
        decreases skeleton.len() - i,
    {
        let row = character_info(i, skeleton[i]);
        let ghost before = report.deep_view();
        report.push(row);
        assert(report.deep_view() =~= before.push(row@));
        assert(report.deep_view() =~= all_reports(skeleton@.take(i + 1)));
        i += 1;
    }
    assert(skeleton@.take(skeleton@.len() as int) == skeleton@);
    report
}

/// One row for each dangerous character of `skeleton`, in order.
pub fn report_dangerous(skeleton: &Vec<char>) -> (report: Vec<CharacterReport>)
    ensures
        report.deep_view() == dangerous_reports(skeleton@),
{
    let mut report: Vec<CharacterReport> = Vec::new();
    let mut i: usize = 0;
    while i < skeleton.len()
        invariant
            i <= skeleton.len(),
            report.deep_view() == dangerous_reports(skeleton@.take(i as int)),
        decreases skeleton.len() - i,
    {
        let c = skeleton[i];
        proof {
            assert(skeleton@.take(i + 1).drop_last() == skeleton@.take(i as int));
            assert(skeleton@.take(i + 1).last() == c);
        }
        if !(check_ascii_graphic(c) || check_ascii_whitespace(c)) {
            let row = character_info(i, c);
            let ghost before = report.deep_view();
            report.push(row);
            assert(report.deep_view() =~= before.push(row@));
        }
        i += 1;
    }
    assert(skeleton@.take(skeleton@.len() as int) == skeleton@);
    report
}

/// The verdict on `text`, given whether it meets the restriction to ASCII
/// identifiers and given its skeleton.
pub fn judge(text: String, restricted: bool, skeleton: &Vec<char>) -> (verdict: Verdict)
    ensures
        verdict@ == verdict_of(text@, restricted, skeleton@),
{
    if restricted {
        return Verdict::Safe(text);
    }
    let report = report_dangerous(skeleton);
    if report.len() == 0 {
        Verdict::Safe(text)
    } else {
        Verdict::Unsafe(report)
    }
}

/// Each row of the report of dangerous characters holds the position of a
/// dangerous character of the skeleton and what is known of that
/// character, and the rows stand in the order of the positions.
pub proof fn lemma_reports_are_of_dangerous_chars(skeleton: Seq<char>)
    ensures
        forall|k: int|
            #![trigger dangerous_reports(skeleton)[k]]
            0 <= k < dangerous_reports(skeleton).len() ==> {
                let row = dangerous_reports(skeleton)[k];
                &&& row.index < skeleton.len()
                &&& is_dangerous(skeleton[row.index as int])
                &&& row == report_of(row.index, skeleton[row.index as int])
            },
        forall|j: int, k: int|
            #![trigger dangerous_reports(skeleton)[j], dangerous_reports(skeleton)[k]]
            0 <= j < k < dangerous_reports(skeleton).len() ==> dangerous_reports(skeleton)[j].index
                < dangerous_reports(skeleton)[k].index,
    decreases skeleton.len(),
{
    if skeleton.len() > 0 {
        let shorter = skeleton.drop_last();
        lemma_reports_are_of_dangerous_chars(shorter);
        let rows = dangerous_reports(skeleton);
        let before = dangerous_reports(shorter);
        assert forall|k: int| #![trigger rows[k]] 0 <= k < rows.len() implies {
            let row = rows[k];
            &&& row.index < skeleton.len()
            &&& is_dangerous(skeleton[row.index as int])
            &&& row == report_of(row.index, skeleton[row.index as int])
        } by {
            if k < before.len() {
                assert(rows[k] == before[k]);
                assert(shorter[before[k].index as int] == skeleton[before[k].index as int]);
            }
        }
        assert forall|j: int, k: int| #![trigger rows[j], rows[k]] 0 <= j < k < rows.len() implies rows[j].index
            < rows[k].index by {
            assert(rows[j] == before[j]);
            if k < before.len() {
                assert(rows[k] == before[k]);
            }
        }
    }
}

/// Every dangerous character of the skeleton has its row in the report of
/// dangerous characters.
pub proof fn lemma_dangerous_char_is_reported(skeleton: Seq<char>, i: int)
    requires
        0 <= i < skeleton.len(),
        is_dangerous(skeleton[i]),
    ensures
        dangerous_reports(skeleton).contains(report_of(i as nat, skeleton[i])),
    decreases skeleton.len(),
{
    let shorter = skeleton.drop_last();
    let rows = dangerous_reports(skeleton);
    if i == skeleton.len() - 1 {
        assert(rows.last() == report_of(i as nat, skeleton[i]));
    } else {
        lemma_dangerous_char_is_reported(shorter, i);
        let before = dangerous_reports(shorter);
        let k = choose|k: int| 0 <= k < before.len() && before[k] == report_of(i as nat, shorter[i]);
        assert(rows[k] == before[k]);
    }
}

/// A text is judged safe exactly where it meets the restriction to ASCII
/// identifiers or its skeleton is harmless, and a safe text is handed back
/// as it was.
pub proof fn lemma_safe_iff_restricted_or_harmless(
    text: Seq<char>,
    restricted: bool,
    skeleton: Seq<char>,
)
    ensures
        verdict_of(text, restricted, skeleton) is Safe <==> restricted || is_harmless(skeleton),
        verdict_of(text, restricted, skeleton) is Safe ==> verdict_of(text, restricted, skeleton)
            == VerdictView::Safe(text),
{
    lemma_reports_are_of_dangerous_chars(skeleton);
    if is_harmless(skeleton) {
        if dangerous_reports(skeleton).len() > 0 {
            let row = dangerous_reports(skeleton)[0];
            assert(is_dangerous(skeleton[row.index as int]));
        }
    } else {
        let i = choose|i: int| 0 <= i < skeleton.len() && is_dangerous(#[trigger] skeleton[i]);
        lemma_dangerous_char_is_reported(skeleton, i);
    }
}

/// A text that does not meet the restriction to ASCII identifiers and
/// whose skeleton holds a dangerous character is judged unsafe, and the
/// report holds the row of that character: its position in the skeleton
/// and, among the rest, its identifier classification.
pub proof fn lemma_dangerous_skeleton_is_unsafe(text: Seq<char>, skeleton: Seq<char>, i: int)
    requires
        0 <= i < skeleton.len(),
        is_dangerous(skeleton[i]),
    ensures
        verdict_of(text, false, skeleton) == VerdictView::Unsafe(dangerous_reports(skeleton)),
        dangerous_reports(skeleton).contains(report_of(i as nat, skeleton[i])),
{
    lemma_dangerous_char_is_reported(skeleton, i);
}

} // verus!
