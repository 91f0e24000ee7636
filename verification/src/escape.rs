//! Terminal actions decoded from raw bytes, and the filter that keeps the
//! harmless ones.

use termwiz::escape::parser::Parser;
use termwiz::escape::Action as Decoded;
use termwiz::escape::CSI;
use vstd::prelude::*;
use vstd::string::*;

use crate::text::push_char;

verus! {

/// The code of the control character backspace.
pub const BACKSPACE: u8 = 0x08;

/// The code of the control character horizontal tab.
pub const HORIZONTAL_TAB: u8 = 0x09;

/// The code of the control character line feed.
pub const LINE_FEED: u8 = 0x0a;

/// The code of the control character vertical tab.
pub const VERTICAL_TAB: u8 = 0x0b;

/// The code of the control character form feed.
pub const FORM_FEED: u8 = 0x0c;

/// The code of the control character carriage return.
pub const CARRIAGE_RETURN: u8 = 0x0d;

/// The control character escape, which opens every escape sequence.
pub const ESCAPE: char = '\x1b';

/// A control sequence, by what the filter has to know of it.
#[derive(Clone, Debug, PartialEq, Eq)]
pub enum CsiKind {
    /// Select graphic rendition: colors and styles of the text that follows.
    /// It holds the sequence's parameters followed by its final character
    /// `m`, without the two characters that introduce the sequence.
    Sgr(String),
    /// Any other control sequence: cursor movement, editing, modes, device
    /// and window reports, mouse, keyboard, character path, unspecified.
    Other,
}

/// One unit of a terminal's input, as decoded from raw bytes.
#[derive(Clone, Debug, PartialEq, Eq)]
pub enum Action {
    /// One character to show.
    PrintChar(char),
    /// Several characters to show.
    PrintString(String),
    /// A control character, by its code.
    Control(u8),
    /// A control sequence.
    Csi(CsiKind),
    /// A device control string.
    DeviceControl,
    /// An operating system command.
    OsCommand,
    /// Image data.
    ImageData,
    /// A query for the terminal's capabilities.
    CapabilityQuery,
    /// Anything else.
    Unrecognized,
}

/// What a control sequence is to specifications.
pub enum CsiKindView {
    Sgr(Seq<char>),
    Other,
}

/// What an action is to specifications.
pub enum ActionView {
    PrintChar(char),
    PrintString(Seq<char>),
    Control(u8),
    Csi(CsiKindView),
    DeviceControl,
    OsCommand,
    ImageData,
    CapabilityQuery,
    Unrecognized,
}

impl View for CsiKind {
    type V = CsiKindView;

    open spec fn view(&self) -> CsiKindView {
        match self {
            CsiKind::Sgr(rendition) => CsiKindView::Sgr(rendition@),
            CsiKind::Other => CsiKindView::Other,
        }
    }
}

impl View for Action {
    type V = ActionView;

    open spec fn view(&self) -> ActionView {
        match self {
            Action::PrintChar(c) => ActionView::PrintChar(*c),
            Action::PrintString(s) => ActionView::PrintString(s@),
            Action::Control(code) => ActionView::Control(*code),
            Action::Csi(kind) => ActionView::Csi(kind@),
            Action::DeviceControl => ActionView::DeviceControl,
            Action::OsCommand => ActionView::OsCommand,
            Action::ImageData => ActionView::ImageData,
            Action::CapabilityQuery => ActionView::CapabilityQuery,
            Action::Unrecognized => ActionView::Unrecognized,
        }
    }
}

impl DeepView for Action {
    type V = ActionView;

    open spec fn deep_view(&self) -> ActionView {
        self@
    }
}

/// Whether `c` is one of the control characters U+0000 to U+001F.
pub open spec fn is_c0_control(c: char) -> bool {
    (c as u32) < 0x20
}

/// Whether the control character with this code is kept: backspace,
/// horizontal tab, line feed, vertical tab, form feed, carriage return.
pub open spec fn is_kept_control(code: u8) -> bool {
    code == BACKSPACE || code == HORIZONTAL_TAB || code == LINE_FEED || code == VERTICAL_TAB
        || code == FORM_FEED || code == CARRIAGE_RETURN
}

/// Whether `c` may stand among the parameters of a control sequence that
/// selects a graphic rendition: a digit, `:` or `;`.
pub open spec fn is_sgr_parameter(c: char) -> bool {
    '0' <= c <= '9' || c == ':' || c == ';'
}

/// Whether `rendition` is the tail of a well-formed control sequence that
/// selects a graphic rendition: parameters, then the final character `m`.
pub open spec fn is_sgr_rendition(rendition: Seq<char>) -> bool {
    &&& rendition.len() >= 1
    &&& rendition.last() == 'm'
    &&& forall|i: int| 0 <= i < rendition.len() - 1 ==> is_sgr_parameter(#[trigger] rendition[i])
}

/// The two characters that introduce a control sequence.
pub open spec fn csi_introducer() -> Seq<char> {
    seq![ESCAPE, '[']
}

/// What the filter lets through of one action.
pub open spec fn emitted(action: ActionView, keep_colors: bool) -> Seq<char> {
    match action {
        ActionView::PrintChar(c) => seq![c],
        ActionView::PrintString(s) => s,
        ActionView::Control(code) => if is_kept_control(code) {
            seq![code as char]
        } else {
            Seq::empty()
        },
        ActionView::Csi(CsiKindView::Sgr(rendition)) => if keep_colors && is_sgr_rendition(
            rendition,
        ) {
            csi_introducer() + rendition
        } else {
            Seq::empty()
        },
        _ => Seq::empty(),
    }
}

/// What the filter lets through of a sequence of actions: what it lets
/// through of each, in the order of the actions.
pub open spec fn filtered_text(actions: Seq<ActionView>, keep_colors: bool) -> Seq<char>
    decreases actions.len(),
{
    if actions.len() == 0 {
        Seq::empty()
    } else {
        filtered_text(actions.drop_last(), keep_colors) + emitted(actions.last(), keep_colors)
    }
}

/// Whether the control character with this code is kept.
pub fn keeps_control(code: u8) -> (kept: bool)
    ensures
        kept == is_kept_control(code),
{
    code == BACKSPACE || code == HORIZONTAL_TAB || code == LINE_FEED || code == VERTICAL_TAB
        || code == FORM_FEED || code == CARRIAGE_RETURN
}

/// Whether `rendition` is the tail of a well-formed control sequence that
/// selects a graphic rendition.
pub fn check_sgr_rendition(rendition: &str) -> (valid: bool)
    ensures
        valid == is_sgr_rendition(rendition@),
{
    broadcast use vstd::string::group_string_axioms;

    let mut last: Option<char> = None;
    let mut parameters_valid = true;
    for c in it: rendition.chars()
        invariant
            it.seq() == rendition@,
            last == if it.index() == 0 {
                None
            } else {
                Some(rendition@[it.index() - 1])
            },
            parameters_valid == (forall|i: int|
                0 <= i < it.index() - 1 ==> is_sgr_parameter(#[trigger] rendition@[i])),
    {
        if let Some(previous) = last {
            let parameter = ('0' <= previous && previous <= '9') || previous == ':' || previous
                == ';';
            parameters_valid = parameters_valid && parameter;
        }
        last = Some(c);
    }
    match last {
        Some(c) => parameters_valid && c == 'm',
        None => false,
    }
}

/// Appends to `out` what the filter lets through of `action`.
pub fn emit(out: &mut String, action: &Action, keep_colors: bool)
    ensures
        final(out)@ == old(out)@ + emitted(action@, keep_colors),
{
    match action {
        Action::PrintChar(c) => {
            push_char(out, *c);
        },
        Action::PrintString(s) => {
            out.append(s.as_str());
        },
        Action::Control(code) => {
            if keeps_control(*code) {
                push_char(out, *code as char);
            }
        },
        Action::Csi(CsiKind::Sgr(rendition)) => {
            if keep_colors && check_sgr_rendition(rendition.as_str()) {
                push_char(out, ESCAPE);
                push_char(out, '[');
                out.append(rendition.as_str());
            }
        },
        _ => {},
    }
}

/// The text that is left of `actions` when only the harmless ones are
/// kept: printed text, the six kept control characters and, where
/// `keep_colors` holds, well-formed graphic renditions.
pub fn filter_actions(actions: &Vec<Action>, keep_colors: bool) -> (out: String)
    ensures
        out@ == filtered_text(actions.deep_view(), keep_colors),
{
    let mut out = String::new();
    let mut i: usize = 0;
    while i < actions.len()
        invariant
            i <= actions.len(),
            out@ == filtered_text(actions.deep_view().take(i as int), keep_colors),
        decreases actions.len() - i,
    {
        proof {
            let views = actions.deep_view();
            assert(views.take(i + 1).drop_last() == views.take(i as int));
            assert(views.take(i + 1).last() == actions@[i as int]@);
        }
        emit(&mut out, &actions[i], keep_colors);
        i += 1;
    }
    assert(actions.deep_view().take(actions.len() as int) == actions.deep_view());
    out
}

/// Whether no character that `action` prints is a control character
/// U+0000 to U+001F.
pub open spec fn is_printable(action: ActionView) -> bool {
    match action {
        ActionView::PrintChar(c) => !is_c0_control(c),
        ActionView::PrintString(s) => forall|i: int|
            0 <= i < s.len() ==> !is_c0_control(#[trigger] s[i]),
        _ => true,
    }
}

/// Whether every action of `actions` prints printable characters only.
pub open spec fn all_printable(actions: Seq<ActionView>) -> bool {
    forall|i: int| 0 <= i < actions.len() ==> is_printable(#[trigger] actions[i])
}

/// The actions that a terminal's decoder makes of `bytes`, fed to it from
/// its initial state.
pub uninterp spec fn decoded_actions(bytes: Seq<u8>) -> Seq<ActionView>;

/// Decodes `bytes` into terminal actions.
///
/// Trusted: this is `termwiz::escape::parser::Parser::parse_as_vec` on a
/// new parser, each action rewritten as an `Action` of this library. The
/// result depends on the bytes alone. The decoder documents a print action
/// as carrying printable characters: it prints the bytes 0x20 to 0x7F and
/// decoded multi-byte characters, and turns the bytes below 0x20 into
/// control actions, so no printed character is below U+0020.
#[verifier::external_body]
pub(crate) fn decode(bytes: &[u8]) -> (actions: Vec<Action>)
    ensures
        actions.deep_view() == decoded_actions(bytes@),
        all_printable(actions.deep_view()),
{
    Parser::new().parse_as_vec(bytes).into_iter().map(|a| match a {
        Decoded::Print(c) => Action::PrintChar(c),
        Decoded::PrintString(s) => Action::PrintString(s),
        Decoded::Control(code) => Action::Control(code as u8),
        Decoded::CSI(CSI::Sgr(sgr)) => Action::Csi(CsiKind::Sgr(sgr.to_string())),
        Decoded::CSI(_) => Action::Csi(CsiKind::Other),
        Decoded::DeviceControl(_) => Action::DeviceControl,
        Decoded::OperatingSystemCommand(_) => Action::OsCommand,
        Decoded::Sixel(_) | Decoded::KittyImage(_) => Action::ImageData,
        Decoded::XtGetTcap(_) => Action::CapabilityQuery,
        Decoded::Esc(_) => Action::Unrecognized,
    }).collect()
}

/// The filter keeps the order of the actions: what it lets through of two
/// sequences of actions, one after the other, is what it lets through of
/// the first, followed by what it lets through of the second.
pub proof fn lemma_filtered_text_keeps_order(
    first: Seq<ActionView>,
    second: Seq<ActionView>,
    keep_colors: bool,
)
    ensures
        filtered_text(first + second, keep_colors) == filtered_text(first, keep_colors)
            + filtered_text(second, keep_colors),
    decreases second.len(),
{
    if second.len() == 0 {
        assert(first + second =~= first);
    } else {
        assert((first + second).drop_last() =~= first + second.drop_last());
        assert((first + second).last() == second.last());
        lemma_filtered_text_keeps_order(first, second.drop_last(), keep_colors);
    }
}

/// Whether `c` is one of the six control characters that the filter keeps.
pub open spec fn is_kept_control_char(c: char) -> bool {
    c == '\x08' || c == '\t' || c == '\n' || c == '\x0b' || c == '\x0c' || c == '\r'
}

/// Whether the characters of `text` from `start` to `end` are a well-formed
/// control sequence that selects a graphic rendition: escape, `[`,
/// parameters, and `m` at `end`.
pub open spec fn is_sgr_sequence(text: Seq<char>, start: int, end: int) -> bool {
    &&& 0 <= start
    &&& start + 2 <= end < text.len()
    &&& text[start] == ESCAPE
    &&& text[start + 1] == '['
    &&& text[end] == 'm'
    &&& forall|k: int| start + 2 <= k < end ==> is_sgr_parameter(#[trigger] text[k])
}

/// Whether a well-formed control sequence that selects a graphic rendition
/// starts at `start` in `text`.
pub open spec fn sgr_sequence_at(text: Seq<char>, start: int) -> bool {
    exists|end: int| #[trigger] is_sgr_sequence(text, start, end)
}

/// Whether `text` is free of dangerous control characters: each control
/// character in it is one of the six kept ones, or, where `keep_colors`
/// holds, the escape that opens a well-formed graphic rendition.
pub open spec fn is_display_safe(text: Seq<char>, keep_colors: bool) -> bool {
    forall|i: int|
        0 <= i < text.len() && is_c0_control(#[trigger] text[i]) ==> is_kept_control_char(text[i])
            || (keep_colors && sgr_sequence_at(text, i))
}

/// What the filter lets through of printable actions holds no control
/// character but the six kept ones and, where colors are kept, the escape
/// at the start of each well-formed graphic rendition.
pub proof fn lemma_filtered_text_is_display_safe(actions: Seq<ActionView>, keep_colors: bool)
    requires
        all_printable(actions),
    ensures
        is_display_safe(filtered_text(actions, keep_colors), keep_colors),
    decreases actions.len(),
{
    if actions.len() > 0 {
        let before = filtered_text(actions.drop_last(), keep_colors);
        let piece = emitted(actions.last(), keep_colors);
        let text = filtered_text(actions, keep_colors);
        assert(all_printable(actions.drop_last())) by {
            assert forall|i: int| 0 <= i < actions.drop_last().len() implies is_printable(
                #[trigger] actions.drop_last()[i],
            ) by {
                assert(actions.drop_last()[i] == actions[i]);
            }
        }
        lemma_filtered_text_is_display_safe(actions.drop_last(), keep_colors);
        assert(is_printable(actions.last()));
        assert forall|i: int| 0 <= i < text.len() && is_c0_control(#[trigger] text[i]) implies
            is_kept_control_char(text[i]) || (keep_colors && sgr_sequence_at(text, i)) by {
            if i < before.len() {
                assert(text[i] == before[i]);
                if !is_kept_control_char(before[i]) {
                    let end = choose|end: int| #[trigger] is_sgr_sequence(before, i, end);
                    assert(is_sgr_sequence(text, i, end)) by {
                        assert forall|k: int| i + 2 <= k < end implies is_sgr_parameter(
                            #[trigger] text[k],
                        ) by {
                            assert(text[k] == before[k]);
                        }
                    }
                }
            } else {
                let j = i - before.len();
                assert(text[i] == piece[j]);
                match actions.last() {
                    ActionView::Csi(CsiKindView::Sgr(rendition)) => {
                        assert(piece == csi_introducer() + rendition);
                        if j == 0 {
                            let end = i + 1 + rendition.len();
                            assert(is_sgr_sequence(text, i, end)) by {
                                assert(text[i + 1] == piece[1]);
                                assert(text[end] == piece[end - before.len()]);
                                assert forall|k: int| i + 2 <= k < end implies is_sgr_parameter(
                                    #[trigger] text[k],
                                ) by {
                                    assert(text[k] == piece[k - before.len()]);
                                    assert(piece[k - before.len()] == rendition[k - i - 2]);
                                }
                            }
                        } else if j >= 2 {
                            assert(piece[j] == rendition[j - 2]);
                            if j - 2 < rendition.len() - 1 {
                                assert(is_sgr_parameter(rendition[j - 2]));
                            }
                        }
                    },
                    _ => {},
                }
            }
        }
    }
}

/// Where colors are not kept, what the filter lets through of printable
/// actions holds no escape character.
pub proof fn lemma_no_escape_without_colors(actions: Seq<ActionView>)
    requires
        all_printable(actions),
    ensures
        !filtered_text(actions, false).contains(ESCAPE),
{
    lemma_filtered_text_is_display_safe(actions, false);
    let text = filtered_text(actions, false);
    if text.contains(ESCAPE) {
        let i = choose|i: int| 0 <= i < text.len() && text[i] == ESCAPE;
        assert(is_c0_control(text[i]));
    }
}

} // verus!
