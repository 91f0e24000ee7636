use eunicode::escape::{check_sgr_rendition, emit, filter_actions, keeps_control, Action, CsiKind};
use eunicode::raw_bytes::RawBytes;

fn is_kept_control(c: char) -> bool {
    ('\u{08}'..='\u{0d}').contains(&c)
}

#[test]
fn default_is_empty() {
    let bytes = RawBytes::default();
    assert!(bytes.is_empty());
    assert_eq!(bytes.0, Vec::<u8>::new());
    assert_eq!(bytes.strip_ansi_escapes(true), "");
}

#[test]
fn from_string_holds_the_utf8_bytes() {
    let bytes = RawBytes::from_string("h\u{e9}");
    assert!(!bytes.is_empty());
    assert_eq!(bytes.0, vec![0x68, 0xc3, 0xa9]);
}

#[test]
fn plain_text_passes_unchanged() {
    let bytes = RawBytes::from_string("hello world");
    assert_eq!(bytes.strip_ansi_escapes(false), "hello world");
    assert_eq!(bytes.strip_ansi_escapes(true), "hello world");
}

#[test]
fn non_ascii_text_passes_unchanged() {
    let bytes = RawBytes::from_string("h\u{e9}llo \u{4e2d}\u{56fd}");
    assert_eq!(bytes.strip_ansi_escapes(false), "h\u{e9}llo \u{4e2d}\u{56fd}");
}

#[test]
fn colors_are_dropped_unless_kept() {
    let bytes = RawBytes(b"\x1b[31mred\x1b[0m".to_vec());
    assert_eq!(bytes.strip_ansi_escapes(false), "red");
    assert_eq!(bytes.strip_ansi_escapes(true), "\x1b[31mred\x1b[0m");
}

#[test]
fn kept_colors_are_written_anew() {
    let bytes = RawBytes(b"\x1b[1;4mbold\x1b[m".to_vec());
    assert_eq!(bytes.strip_ansi_escapes(true), "\x1b[1m\x1b[4mbold\x1b[0m");
}

#[test]
fn cursor_and_erase_sequences_are_dropped() {
    let bytes = RawBytes(b"\x1b[2Jcleared\x1b[10;20H!".to_vec());
    assert_eq!(bytes.strip_ansi_escapes(true), "cleared!");
    assert_eq!(bytes.strip_ansi_escapes(false), "cleared!");
}

#[test]
fn operating_system_commands_are_dropped() {
    let bytes = RawBytes(b"\x1b]0;evil title\x07text".to_vec());
    assert_eq!(bytes.strip_ansi_escapes(true), "text");
}

#[test]
fn device_control_strings_are_dropped() {
    let bytes = RawBytes(b"a\x1bP$qm\x1b\\b".to_vec());
    assert_eq!(bytes.strip_ansi_escapes(true), "ab");
}

#[test]
fn capability_queries_are_dropped() {
    let bytes = RawBytes(b"a\x1bP+q544e\x1b\\b".to_vec());
    assert_eq!(bytes.strip_ansi_escapes(true), "ab");
    assert!(bytes.actions().contains(&Action::CapabilityQuery));
}

#[test]
fn two_character_escapes_are_dropped() {
    let bytes = RawBytes(b"a\x1bcb".to_vec());
    assert_eq!(bytes.strip_ansi_escapes(true), "ab");
    assert_eq!(
        bytes.actions(),
        vec![Action::PrintChar('a'), Action::Unrecognized, Action::PrintChar('b')]
    );
}

#[test]
fn six_control_characters_are_kept() {
    let bytes = RawBytes(b"a\x08b\tc\nd\x0be\x0cf\rg".to_vec());
    assert_eq!(bytes.strip_ansi_escapes(false), "a\u{08}b\tc\nd\u{0b}e\u{0c}f\rg");
}

#[test]
fn other_control_characters_are_dropped() {
    let bytes = RawBytes(b"a\x00b\x07c\x0ed\x1fe\x7f".to_vec());
    assert_eq!(bytes.strip_ansi_escapes(false), "abcde\u{7f}");
}

#[test]
fn every_c0_control_has_its_disposition() {
    for code in 0u8..0x20 {
        let bytes = RawBytes(vec![b'<', code, b'>']);
        let out = bytes.strip_ansi_escapes(true);
        if code == 0x1b {
            assert!(!out.contains('\u{1b}'));
        } else if (0x08..=0x0d).contains(&code) {
            assert_eq!(out, format!("<{}>", code as char));
        } else {
            assert_eq!(out, "<>");
        }
        assert_eq!(keeps_control(code), (0x08..=0x0d).contains(&code));
    }
    assert!(!keeps_control(0x20));
    assert!(!keeps_control(0x85));
    assert!(!keeps_control(0xff));
}

#[test]
fn decoded_actions_come_in_order() {
    let bytes = RawBytes(b"hi\n\x1b[1mB\x1b[2K".to_vec());
    assert_eq!(
        bytes.actions(),
        vec![
            Action::PrintChar('h'),
            Action::PrintChar('i'),
            Action::Control(0x0a),
            Action::Csi(CsiKind::Sgr("1m".to_string())),
            Action::PrintChar('B'),
            Action::Csi(CsiKind::Other),
        ]
    );
}

#[test]
fn printable_bytes_are_all_accounted_for() {
    let input: Vec<u8> = (0x20u8..0x7f).collect();
    let bytes = RawBytes(input.clone());
    let actions = bytes.actions();
    assert_eq!(actions.len(), input.len());
    for (action, byte) in actions.iter().zip(input.iter()) {
        assert_eq!(*action, Action::PrintChar(*byte as char));
    }
    assert_eq!(filter_actions(&actions, true).into_bytes(), input);
}

#[test]
fn decoded_print_actions_hold_no_control_character() {
    let mut input: Vec<u8> = (0u8..=255).collect();
    input.extend_from_slice(b"\x1b[31mx\x1b]0;t\x07\xc2\x9b1m\xc2\x85");
    for action in RawBytes(input).actions() {
        match action {
            Action::PrintChar(c) => assert!(c >= ' '),
            Action::PrintString(s) => assert!(s.chars().all(|c| c >= ' ')),
            _ => {}
        }
    }
}

#[test]
fn output_holds_no_dangerous_control_character() {
    let mut input: Vec<u8> = (0u8..=255).collect();
    input.extend_from_slice(b"\x1b[31mred\x1b[0m\x1b[2J\x1b]0;t\x07\x1bP+q544e\x1b\\end");
    let bytes = RawBytes(input);
    let plain = bytes.strip_ansi_escapes(false);
    assert!(!plain.contains('\u{1b}'));
    assert!(plain.chars().all(|c| c >= ' ' || is_kept_control(c)));
    let colored: Vec<char> = bytes.strip_ansi_escapes(true).chars().collect();
    for (i, c) in colored.iter().enumerate() {
        if *c < ' ' && !is_kept_control(*c) {
            assert_eq!(*c, '\u{1b}');
            assert_eq!(colored[i + 1], '[');
            let rest = &colored[i + 2..];
            let end = rest.iter().position(|c| *c == 'm').unwrap();
            assert!(rest[..end].iter().all(|c| c.is_ascii_digit() || *c == ':' || *c == ';'));
        }
    }
    assert!(plain.ends_with("redend"));
}

#[test]
fn invalid_utf8_is_not_an_error() {
    let bytes = RawBytes(vec![b'a', 0xff, b'b', 0xc3, b'c']);
    let out = bytes.strip_ansi_escapes(false);
    assert!(out.starts_with('a'));
    assert!(!out.contains('\u{1b}'));
}

#[test]
fn unfinished_sequence_prints_nothing() {
    let bytes = RawBytes(b"ok\x1b[31".to_vec());
    assert_eq!(bytes.strip_ansi_escapes(true), "ok");
}

#[test]
fn filter_keeps_order_of_kept_actions() {
    let actions = vec![
        Action::PrintChar('a'),
        Action::Control(0x07),
        Action::PrintString("bc".to_string()),
        Action::Csi(CsiKind::Other),
        Action::Control(0x0a),
        Action::OsCommand,
        Action::DeviceControl,
        Action::ImageData,
        Action::CapabilityQuery,
        Action::Unrecognized,
        Action::PrintChar('d'),
    ];
    assert_eq!(filter_actions(&actions, true), "abc\nd");
    assert_eq!(filter_actions(&actions, false), "abc\nd");
}

#[test]
fn filter_of_nothing_is_empty() {
    assert_eq!(filter_actions(&Vec::new(), true), "");
}

#[test]
fn filter_writes_graphic_renditions_as_control_sequences() {
    let actions = vec![
        Action::Csi(CsiKind::Sgr("38:2::1:2:3m".to_string())),
        Action::PrintChar('x'),
        Action::Csi(CsiKind::Sgr("0m".to_string())),
    ];
    assert_eq!(filter_actions(&actions, true), "\x1b[38:2::1:2:3mx\x1b[0m");
    assert_eq!(filter_actions(&actions, false), "x");
}

#[test]
fn filter_drops_malformed_graphic_renditions() {
    let actions = vec![
        Action::Csi(CsiKind::Sgr("".to_string())),
        Action::Csi(CsiKind::Sgr("1;2".to_string())),
        Action::Csi(CsiKind::Sgr("2J".to_string())),
        Action::Csi(CsiKind::Sgr("1m\x1b]0;t\x07".to_string())),
        Action::Csi(CsiKind::Sgr("?25hm".to_string())),
        Action::PrintChar('x'),
    ];
    assert_eq!(filter_actions(&actions, true), "x");
}

#[test]
fn graphic_rendition_is_parameters_then_m() {
    assert!(check_sgr_rendition("m"));
    assert!(check_sgr_rendition("0m"));
    assert!(check_sgr_rendition("1;31m"));
    assert!(check_sgr_rendition("38:5:200m"));
    assert!(!check_sgr_rendition(""));
    assert!(!check_sgr_rendition("0"));
    assert!(!check_sgr_rendition("0mm"));
    assert!(!check_sgr_rendition("m0"));
    assert!(!check_sgr_rendition(" 0m"));
    assert!(!check_sgr_rendition("\x1b[0m"));
    assert!(!check_sgr_rendition("0M"));
}

#[test]
fn emit_appends_to_what_is_there() {
    let mut out = String::from("so far ");
    emit(&mut out, &Action::PrintString("more".to_string()), false);
    emit(&mut out, &Action::Control(0x09), false);
    emit(&mut out, &Action::Control(0x1b), false);
    emit(&mut out, &Action::Csi(CsiKind::Sgr("1m".to_string())), false);
    emit(&mut out, &Action::Csi(CsiKind::Sgr("1m".to_string())), true);
    emit(&mut out, &Action::PrintChar('!'), true);
    assert_eq!(out, "so far more\t\x1b[1m!");
}
