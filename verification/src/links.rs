//! Hyperlinks in a text, and how they are made harmless.

use linkify::LinkFinder;
use linkify::LinkKind as FoundKind;
use vstd::prelude::*;
use vstd::string::*;

use crate::text::{chars_of, string_of};

verus! {

/// What kind of link a stretch of text is.
#[derive(Clone, Copy, Debug, PartialEq, Eq, Structural)]
pub enum LinkKind {
    /// An address of a resource, such as `https://example.org`.
    Url,
    /// An e-mail address.
    Email,
    /// A kind of link that this library does not know how to defang.
    Unsupported,
}

/// A stretch of a text: a link of some kind, or plain text between links.
#[derive(Clone, Debug, PartialEq, Eq)]
pub struct Span {
    /// The characters of the stretch.
    pub text: String,
    /// The kind of link, or `None` for plain text.
    pub kind: Option<LinkKind>,
}

/// What a span is to specifications.
pub struct SpanView {
    pub text: Seq<char>,
    pub kind: Option<LinkKind>,
}

impl View for Span {
    type V = SpanView;

    open spec fn view(&self) -> SpanView {
        SpanView { text: self.text@, kind: self.kind }
    }
}

impl DeepView for Span {
    type V = SpanView;

    open spec fn deep_view(&self) -> SpanView {
        self@
    }
}

/// Why links could not be defanged.
#[derive(Clone, Copy, Debug, PartialEq, Eq, Structural)]
pub enum DefangError {
    /// The text holds a link of a kind that this library cannot defang.
    UnsupportedLinkKind,
}

/// `text` with each occurrence of `from` replaced by `to`. Occurrences are
/// found from the left and do not overlap. An empty `from` occurs nowhere.
pub open spec fn replaced(text: Seq<char>, from: Seq<char>, to: Seq<char>) -> Seq<char>
    decreases text.len(),
{
    if from.len() == 0 || text.len() < from.len() {
        text
    } else if text.take(from.len() as int) == from {
        to + replaced(text.skip(from.len() as int), from, to)
    } else {
        seq![text[0]] + replaced(text.skip(1), from, to)
    }
}

/// A web address made harmless: `ftp` becomes `fXp`, then `http` becomes
/// `hXXp`, then each `.` becomes `[.]`.
pub open spec fn defanged_url(text: Seq<char>) -> Seq<char> {
    replaced(replaced(replaced(text, "ftp"@, "fXp"@), "http"@, "hXXp"@), "."@, "[.]"@)
}

/// An e-mail address made harmless: each `@` becomes `[@]`, then each `.`
/// becomes `[.]`.
pub open spec fn defanged_email(text: Seq<char>) -> Seq<char> {
    replaced(replaced(text, "@"@, "[@]"@), "."@, "[.]"@)
}

/// What becomes of one span: plain text stays, a link is defanged after its
/// kind, and a link of an unsupported kind is an error.
pub open spec fn defanged_span(span: SpanView) -> Result<Seq<char>, DefangError> {
    match span.kind {
        None => Ok(span.text),
        Some(LinkKind::Url) => Ok(defanged_url(span.text)),
        Some(LinkKind::Email) => Ok(defanged_email(span.text)),
        Some(LinkKind::Unsupported) => Err(DefangError::UnsupportedLinkKind),
    }
}

/// The texts of `spans`, one after the other.
pub open spec fn joined(spans: Seq<SpanView>) -> Seq<char>
    decreases spans.len(),
{
    if spans.len() == 0 {
        Seq::empty()
    } else {
        joined(spans.drop_last()) + spans.last().text
    }
}

/// Whether some span of `spans` is a link of an unsupported kind.
pub open spec fn has_unsupported_link(spans: Seq<SpanView>) -> bool {
    exists|i: int| 0 <= i < spans.len() && (#[trigger] spans[i]).kind == Some(LinkKind::Unsupported)
}

/// What becomes of each span of `spans`, one after the other, where every
/// link is of a supported kind.
pub open spec fn defanged_spans(spans: Seq<SpanView>) -> Seq<char>
    decreases spans.len(),
{
    if spans.len() == 0 {
        Seq::empty()
    } else {
        defanged_spans(spans.drop_last()) + match defanged_span(spans.last()) {
            Ok(text) => text,
            Err(_) => Seq::empty(),
        }
    }
}

/// The text made of `spans` with its links defanged, or the error where a
/// link is of an unsupported kind.
pub open spec fn defanged(spans: Seq<SpanView>) -> Result<Seq<char>, DefangError> {
    if has_unsupported_link(spans) {
        Err(DefangError::UnsupportedLinkKind)
    } else {
        Ok(defanged_spans(spans))
    }
}

/// Whether no span of `spans` is a link.
pub open spec fn all_plain(spans: Seq<SpanView>) -> bool {
    forall|i: int| 0 <= i < spans.len() ==> (#[trigger] spans[i]).kind is None
}

/// Where no span is a link, defanging changes nothing: the result is the
/// texts of the spans, one after the other.
pub proof fn lemma_defanged_plain_text_is_unchanged(spans: Seq<SpanView>)
    requires
        all_plain(spans),
    ensures
        defanged(spans) == Ok::<Seq<char>, DefangError>(joined(spans)),
    decreases spans.len(),
{
    if has_unsupported_link(spans) {
        let i = choose|i: int|
            0 <= i < spans.len() && (#[trigger] spans[i]).kind == Some(LinkKind::Unsupported);
        assert(spans[i].kind is None);
    }
    if spans.len() > 0 {
        assert(all_plain(spans.drop_last())) by {
            assert forall|i: int| 0 <= i < spans.drop_last().len() implies (
            #[trigger] spans.drop_last()[i]).kind is None by {
                assert(spans.drop_last()[i] == spans[i]);
            }
        }
        lemma_defanged_plain_text_is_unchanged(spans.drop_last());
        assert(spans.last() == spans[spans.len() - 1]);
        assert(!has_unsupported_link(spans.drop_last())) by {
            if has_unsupported_link(spans.drop_last()) {
                let i = choose|i: int|
                    0 <= i < spans.drop_last().len() && (#[trigger] spans.drop_last()[i]).kind
                        == Some(LinkKind::Unsupported);
                assert(spans.drop_last()[i].kind is None);
            }
        }
    }
}

/// The spans into which `text` falls apart: its links and the plain text
/// between them, in their order.
pub uninterp spec fn link_spans(text: Seq<char>) -> Seq<SpanView>;

/// Splits `text` into links and the plain text between them.
///
/// Trusted: this is `linkify::LinkFinder::spans` with the default
/// settings, each span rewritten as a `Span`; a kind other than URL and
/// e-mail becomes `Unsupported`. The result depends on the text alone.
/// The spans are documented as consecutive and, taken together, as the
/// whole text.
#[verifier::external_body]
pub(crate) fn find_spans(text: &str) -> (spans: Vec<Span>)
    ensures
        spans.deep_view() == link_spans(text@),
        joined(spans.deep_view()) == text@,
{
    LinkFinder::new().spans(text).map(|s| Span {
        text: s.as_str().to_string(),
        kind: match s.kind() {
            None => None,
            Some(FoundKind::Url) => Some(LinkKind::Url),
            Some(FoundKind::Email) => Some(LinkKind::Email),
            Some(_) => Some(LinkKind::Unsupported),
        },
    }).collect()
}

/// Whether `pattern` stands in `text` at position `at`.
fn occurs_at(text: &Vec<char>, at: usize, pattern: &Vec<char>) -> (found: bool)
    requires
        at <= text.len(),
    ensures
        found == (text@.skip(at as int).len() >= pattern@.len() && text@.skip(at as int).take(
            pattern@.len() as int,
        ) == pattern@),
{
    if text.len() - at < pattern.len() {
        return false;
    }
    let ghost window = text@.skip(at as int).take(pattern@.len() as int);
    let mut k: usize = 0;
    while k < pattern.len()
        invariant
            k <= pattern.len(),
            at + pattern.len() <= text.len(),
            window == text@.skip(at as int).take(pattern@.len() as int),
            forall|j: int| 0 <= j < k ==> window[j] == pattern@[j],
        decreases pattern.len() - k,
    {
        if text[at + k] != pattern[k] {
            assert(window[k as int] != pattern@[k as int]);
            return false;
        }
        k += 1;
    }
    assert(window =~= pattern@);
    true
}

/// `text` with each occurrence of `from` replaced by `to`.
pub fn replace_all(text: &Vec<char>, from: &Vec<char>, to: &Vec<char>) -> (out: Vec<char>)
    ensures
        out@ == replaced(text@, from@, to@),
{
    let mut out: Vec<char> = Vec::new();
    let mut i: usize = 0;
    assert(text@.skip(0) == text@);
    while i < text.len()
        invariant
            i <= text.len(),
            replaced(text@, from@, to@) == out@ + replaced(text@.skip(i as int), from@, to@),
        decreases text.len() - i,
    {
        let ghost rest = text@.skip(i as int);
        if from.len() > 0 && occurs_at(text, i, from) {
            let mut k: usize = 0;
            let ghost before = out@;
            while k < to.len()
                invariant
                    k <= to.len(),
                    out@ == before + to@.take(k as int),
                decreases to.len() - k,
            {
                out.push(to[k]);
                k += 1;
                assert(to@.take(k as int) == to@.take(k - 1).push(to@[k - 1]));
            }
            assert(to@.take(to@.len() as int) == to@);
            assert(rest.skip(from@.len() as int) == text@.skip(i + from@.len()));
            assert(out@ + replaced(text@.skip(i + from@.len()), from@, to@) == before + (to@
                + replaced(rest.skip(from@.len() as int), from@, to@)));
            i += from.len();
        } else {
            out.push(text[i]);
            assert(rest.skip(1) == text@.skip(i + 1));
            assert(rest[0] == text@[i as int]);
            assert(replaced(rest, from@, to@) == seq![rest[0]] + replaced(
                rest.skip(1),
                from@,
                to@,
            )) by {
                if from@.len() == 0 || rest.len() < from@.len() {
                    assert(replaced(rest.skip(1), from@, to@) == rest.skip(1));
                    assert(rest == seq![rest[0]] + rest.skip(1));
                }
            }
            assert(out@ + replaced(text@.skip(i + 1), from@, to@) == (out@.drop_last() + (
            seq![rest[0]] + replaced(rest.skip(1), from@, to@))));
            i += 1;
        }
    }
    assert(text@.skip(text@.len() as int) == Seq::<char>::empty());
    out
}

/// A web address made harmless.
pub fn defang_url(text: &Vec<char>) -> (out: Vec<char>)
    ensures
        out@ == defanged_url(text@),
{
    let step = replace_all(text, &chars_of("ftp"), &chars_of("fXp"));
    let step = replace_all(&step, &chars_of("http"), &chars_of("hXXp"));
    replace_all(&step, &chars_of("."), &chars_of("[.]"))
}

/// An e-mail address made harmless.
pub fn defang_email(text: &Vec<char>) -> (out: Vec<char>)
    ensures
        out@ == defanged_email(text@),
{
    let step = replace_all(text, &chars_of("@"), &chars_of("[@]"));
    replace_all(&step, &chars_of("."), &chars_of("[.]"))
}

/// The text made of `spans` with its links defanged. A link of an
/// unsupported kind is an error: it is not passed through.
pub fn defang_spans(spans: &Vec<Span>) -> (out: Result<String, DefangError>)
    ensures
        match out {
            Ok(text) => defanged(spans.deep_view()) == Ok::<Seq<char>, DefangError>(text@),
            Err(e) => defanged(spans.deep_view()) == Err::<Seq<char>, DefangError>(e),
        },
{
    let mut out = String::new();
    let mut i: usize = 0;
    let ghost views = spans.deep_view();
    while i < spans.len()
        invariant
            i <= spans.len(),
            views == spans.deep_view(),
            !has_unsupported_link(views.take(i as int)),
            out@ == defanged_spans(views.take(i as int)),
        decreases spans.len() - i,
    {
        let span = &spans[i];
        proof {
            assert(views.take(i + 1).drop_last() == views.take(i as int));
            assert(views.take(i + 1).last() == span@);
            assert(views[i as int] == span@);
        }
        match span.kind {
            None => {
                out.append(span.text.as_str());
            },
            Some(LinkKind::Url) => {
                let link = defang_url(&chars_of(span.text.as_str()));
                out.append(string_of(&link).as_str());
            },
            Some(LinkKind::Email) => {
                let link = defang_email(&chars_of(span.text.as_str()));
                out.append(string_of(&link).as_str());
            },
            Some(LinkKind::Unsupported) => {
                return Err(DefangError::UnsupportedLinkKind);
            },
        }
        proof {
            let next = views.take(i + 1);
            if has_unsupported_link(next) {
                let j = choose|j: int|
                    0 <= j < next.len() && (#[trigger] next[j]).kind == Some(
                        LinkKind::Unsupported,
                    );
                if j < i {
                    assert(views.take(i as int)[j] == next[j]);
                }
            }
        }
        i += 1;
    }
    assert(views.take(spans.len() as int) == views);
    Ok(out)
}

} // verus!
