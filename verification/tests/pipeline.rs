use eunicode::detector::Verdict;
use eunicode::links::DefangError;
use eunicode::pipeline::{
    run, transform, Options, Outcome, STATUS_NO_OPERATION, STATUS_REPORT, STATUS_SUCCESS,
};
use eunicode::report::character_info;
use eunicode::unicode_string::UnicodeString;

fn none() -> Options {
    Options {
        clean: false,
        strip: false,
        defang: false,
        censor: false,
        slugify: false,
        detect: false,
        chars: false,
    }
}

fn run_on(text: &str, options: Options) -> Result<Outcome, DefangError> {
    run(text.to_string(), &options)
}

#[test]
fn statuses_are_zero_one_two() {
    assert_eq!(STATUS_SUCCESS, 0);
    assert_eq!(STATUS_NO_OPERATION, 1);
    assert_eq!(STATUS_REPORT, 2);
}

#[test]
fn nothing_selected_hands_out_nothing() {
    let outcome = run_on("unvetted \u{200B} text", none()).unwrap();
    assert_eq!(outcome, Outcome::NoOperation);
    assert_eq!(outcome.exit_status(), 1);
}

#[test]
fn detection_of_safe_text_hands_the_text_out() {
    let outcome = run_on("hello world", Options { detect: true, ..none() }).unwrap();
    assert_eq!(outcome, Outcome::Safe("hello world".to_string()));
    assert_eq!(outcome.exit_status(), 0);
}

#[test]
fn detection_of_unsafe_text_hands_the_report_out() {
    let outcome = run_on("admin\u{200B}admin", Options { detect: true, ..none() }).unwrap();
    assert_eq!(outcome, Outcome::Unsafe(vec![character_info(6, '\u{200B}')]));
    assert_eq!(outcome.exit_status(), 2);
}

#[test]
fn detection_agrees_with_the_detector() {
    for text in ["hello world", "admin\u{200B}admin", "100%", "caf\u{e9}", ""] {
        let outcome = run_on(text, Options { detect: true, ..none() }).unwrap();
        let expected = match UnicodeString::new(text.to_string()).detect_dangerous_chars() {
            Verdict::Safe(safe) => Outcome::Safe(safe),
            Verdict::Unsafe(report) => Outcome::Unsafe(report),
        };
        assert_eq!(outcome, expected);
    }
}

#[test]
fn enumeration_hands_the_report_out_whatever_the_text() {
    let outcome = run_on("hi", Options { chars: true, ..none() }).unwrap();
    assert_eq!(outcome, Outcome::Characters(vec![character_info(0, 'h'), character_info(1, 'i')]));
    assert_eq!(outcome.exit_status(), 2);
}

#[test]
fn detection_comes_before_enumeration_and_transformation() {
    let all = Options {
        clean: true,
        strip: true,
        defang: true,
        censor: true,
        slugify: true,
        detect: true,
        chars: true,
    };
    assert_eq!(run_on("a b", all).unwrap(), Outcome::Safe("a b".to_string()));
    let outcome = run_on("a b", Options { detect: false, ..all }).unwrap();
    assert_eq!(
        outcome,
        Outcome::Characters(vec![
            character_info(0, 'a'),
            character_info(1, ' '),
            character_info(2, 'b')
        ])
    );
}

#[test]
fn any_transformation_cleans_first() {
    for options in [
        Options { clean: true, ..none() },
        Options { strip: true, ..none() },
        Options { defang: true, ..none() },
        Options { censor: true, ..none() },
    ] {
        let outcome = run_on("h\u{e9}llo", options).unwrap();
        assert_eq!(outcome, Outcome::Text("hello".to_string()));
        assert_eq!(outcome.exit_status(), 0);
    }
    let outcome = run_on("H\u{e9}llo", Options { slugify: true, ..none() }).unwrap();
    assert_eq!(outcome, Outcome::Text("hello".to_string()));
}

#[test]
fn transformations_run_in_their_order() {
    let text = "<b>See http://evil.com</b> &c.";
    let options = Options { strip: true, defang: true, ..none() };
    assert_eq!(
        transform(text.to_string(), &options),
        Ok("See hXXp://evil[.]com &amp;c.".to_string())
    );
    let options = Options { strip: true, defang: true, slugify: true, ..none() };
    assert_eq!(
        transform(text.to_string(), &options),
        Ok("see-hxxp-evil-com-amp-c".to_string())
    );
    let options = Options { defang: true, ..none() };
    assert_eq!(
        transform(text.to_string(), &options),
        Ok("<b>See hXXp://evil[.]com</b> &c.".to_string())
    );
    let options = Options { censor: true, slugify: true, ..none() };
    assert_eq!(transform("Oh shit!".to_string(), &options), Ok("oh-s".to_string()));
}

#[test]
fn transform_without_selection_only_cleans() {
    assert_eq!(transform("\u{4e2d}\u{56fd}".to_string(), &none()), Ok("Zhong Guo".to_string()));
}
