use calculon::protocol::{bytes_eq, classify, verb_keyword, LineOutcome, Op, Verb};
use calculon::words::split_words;

fn line(s: &str) -> Vec<u8> {
    s.as_bytes().to_vec()
}

fn words(s: &str) -> Vec<Vec<u8>> {
    split_words(&line(s))
}

#[test]
fn split_words_empty_and_blank() {
    assert_eq!(words(""), Vec::<Vec<u8>>::new());
    assert_eq!(words("   \t  "), Vec::<Vec<u8>>::new());
}

#[test]
fn split_words_single_word() {
    assert_eq!(words("SHOW"), vec![b"SHOW".to_vec()]);
    assert_eq!(words("  SHOW  "), vec![b"SHOW".to_vec()]);
}

#[test]
fn split_words_many_separators() {
    assert_eq!(
        words(" ADD \t\t 5  9 "),
        vec![b"ADD".to_vec(), b"5".to_vec(), b"9".to_vec()]
    );
}

#[test]
fn bytes_eq_compares_contents() {
    assert!(bytes_eq(&line("ADD"), &line("ADD")));
    assert!(!bytes_eq(&line("ADD"), &line("ADC")));
    assert!(!bytes_eq(&line("ADD"), &line("AD")));
}

#[test]
fn verb_keywords_spell_the_commands() {
    assert_eq!(verb_keyword(Verb::Add), b"ADD".to_vec());
    assert_eq!(verb_keyword(Verb::Subtract), b"SUBTRACT".to_vec());
    assert_eq!(verb_keyword(Verb::Power), b"POWER".to_vec());
    assert_eq!(verb_keyword(Verb::Show), b"SHOW".to_vec());
}

#[test]
fn classify_blank_lines_skip() {
    assert!(matches!(classify(&line("")), LineOutcome::Skip));
    assert!(matches!(classify(&line(" \t ")), LineOutcome::Skip));
}

#[test]
fn classify_arithmetic_commands() {
    match classify(&line("ADD 5")) {
        LineOutcome::Apply(Op::Add, word) => assert_eq!(word, b"5".to_vec()),
        other => panic!("unexpected outcome: {:?}", other),
    }
    match classify(&line("SUBTRACT 2.5")) {
        LineOutcome::Apply(Op::Subtract, word) => assert_eq!(word, b"2.5".to_vec()),
        other => panic!("unexpected outcome: {:?}", other),
    }
    match classify(&line("POWER 2")) {
        LineOutcome::Apply(Op::Power, word) => assert_eq!(word, b"2".to_vec()),
        other => panic!("unexpected outcome: {:?}", other),
    }
}

#[test]
fn classify_show() {
    assert!(matches!(classify(&line("SHOW")), LineOutcome::ShowCurrent));
    assert!(matches!(classify(&line("  SHOW  ")), LineOutcome::ShowCurrent));
}

#[test]
fn classify_wrong_argument_counts() {
    assert!(matches!(
        classify(&line("ADD")),
        LineOutcome::WrongArgCount(Verb::Add)
    ));
    assert!(matches!(
        classify(&line("SUBTRACT 1 2")),
        LineOutcome::WrongArgCount(Verb::Subtract)
    ));
    assert!(matches!(
        classify(&line("POWER")),
        LineOutcome::WrongArgCount(Verb::Power)
    ));
    assert!(matches!(
        classify(&line("SHOW 1")),
        LineOutcome::WrongArgCount(Verb::Show)
    ));
}

#[test]
fn classify_unknown_commands() {
    match classify(&line("FOO")) {
        LineOutcome::Unknown(word) => assert_eq!(word, b"FOO".to_vec()),
        other => panic!("unexpected outcome: {:?}", other),
    }
    // command names are case-sensitive
    match classify(&line("add 1")) {
        LineOutcome::Unknown(word) => assert_eq!(word, b"add".to_vec()),
        other => panic!("unexpected outcome: {:?}", other),
    }
    // an unparsable operand still classifies as the arithmetic command;
    // the parse failure is decided later and is fatal to the session
    match classify(&line("ADD abc")) {
        LineOutcome::Apply(Op::Add, word) => assert_eq!(word, b"abc".to_vec()),
        other => panic!("unexpected outcome: {:?}", other),
    }
}
