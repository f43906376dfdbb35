use wcount::bytes;
use wcount::characters;
use wcount::config;
use wcount::lines;
use wcount::measure;
use wcount::words;
use wcount::Conf;

fn all_enabled() -> Conf {
    Conf {
        bytes: true,
        characters: true,
        lines: true,
        files_from: false,
        max_line_length: 0,
        words: true,
    }
}

#[test]
fn default_mode_resolution() {
    let c = config(false, false, false, false, false);
    assert!(c.bytes);
    assert!(c.lines);
    assert!(c.words);
    assert!(!c.characters);
    assert!(!c.files_from);
    assert_eq!(c.max_line_length, 0);
}

#[test]
fn chars_flag_still_defaults_count_trio() {
    let c = config(false, false, false, true, false);
    assert!(c.bytes);
    assert!(c.lines);
    assert!(c.words);
    assert!(c.characters);
}

#[test]
fn explicit_flags_respected() {
    let c = config(true, false, false, false, false);
    assert!(c.bytes);
    assert!(!c.lines);
    assert!(!c.words);
    assert!(!c.characters);

    let c = config(false, true, true, false, true);
    assert!(!c.bytes);
    assert!(c.lines);
    assert!(c.words);
    assert!(c.files_from);
}

#[test]
fn byte_count_ascii() {
    let c = all_enabled();
    let s = String::from("test all the things");
    assert_eq!(bytes(&c, &s), Some(19));
}

#[test]
fn byte_count_multibyte() {
    let c = all_enabled();
    let s = String::from("h\u{e9}llo");
    assert_eq!(bytes(&c, &s), Some(6));
    assert_eq!(characters(&c, &s), Some(5));
}

#[test]
fn line_count_no_trailing_terminator() {
    let c = all_enabled();
    let s = String::from("test all the things\nand other things");
    assert_eq!(lines(&c, &s), Some(2));
}

#[test]
fn line_count_trailing_terminator() {
    let c = all_enabled();
    let s = String::from("a\nb\n");
    assert_eq!(lines(&c, &s), Some(2));
}

#[test]
fn character_and_word_count() {
    let c = all_enabled();
    let s = String::from("test all the things\nand other things");
    assert_eq!(characters(&c, &s), Some(36));
    assert_eq!(words(&c, &s), Some(7));
}

#[test]
fn word_count_punctuation_and_numbers() {
    let c = all_enabled();
    let s = String::from("don't stop; it's 42.5 km, right?");
    assert_eq!(words(&c, &s), Some(6));
}

#[test]
fn disabled_metrics_absent() {
    let c = Conf {
        bytes: false,
        characters: false,
        lines: false,
        files_from: false,
        max_line_length: 0,
        words: true,
    };
    let s = String::from("some text here");
    assert_eq!(bytes(&c, &s), None);
    assert_eq!(characters(&c, &s), None);
    assert_eq!(lines(&c, &s), None);
    assert_eq!(words(&c, &s), Some(3));
}

#[test]
fn empty_content_zeroes() {
    let c = all_enabled();
    let s = String::new();
    assert_eq!(bytes(&c, &s), Some(0));
    assert_eq!(characters(&c, &s), Some(0));
    assert_eq!(lines(&c, &s), Some(0));
    assert_eq!(words(&c, &s), Some(0));
}

#[test]
fn attributes_cursor() {
    let c = all_enabled();
    let s = String::from("one two\n");
    let mut a = measure(&c, &s);
    assert_eq!(a.bytes, Some(8));
    assert_eq!(a.characters, Some(8));
    assert_eq!(a.lines, Some(1));
    assert_eq!(a.words, Some(2));
    assert_eq!(a.pos, 0);
    assert_eq!(a.next(), Some(Some(8)));
    assert_eq!(a.next(), Some(Some(1)));
    assert_eq!(a.next(), Some(Some(2)));
    assert_eq!(a.next(), None);
    assert_eq!(a.next(), None);
    assert_eq!(a.pos, 5);
    assert_eq!(a.next(), None);
    assert_eq!(a.pos, 5);
}
