use std::sync::Arc;

use msh_lib::scanning::error::ScanError;
use msh_lib::scanning::source::CodeSource;
use msh_lib::scanning::span::SourceSpan;
use msh_lib::scanning::text::SourceText;
use msh_lib::scanning::token::TokenStream;

fn stream(text: &str) -> TokenStream {
    TokenStream::from(Arc::from(SourceText::from_memory(text)))
}

#[test]
fn token_stream_parse() {
    let source = Arc::from(SourceText::from_memory("a line\n123yes\nbelow"));
    let mut stream = TokenStream::from(source.clone());

    stream.read_identification().unwrap();
    stream.skip_blank();
    stream.read_identification().unwrap();
    stream.skip_blank();
    let r = stream.read_identification();
    assert!(r.is_err());
}

#[test]
fn code_source_descriptions() {
    assert_eq!(CodeSource::unknown_source().from, "unknown code source");
    assert_eq!(CodeSource::new("somewhere").from, "somewhere");
    assert_eq!(CodeSource::from_file("a/b.msh").from, "file:a/b.msh");
    assert_eq!(CodeSource::from_memory().from, "memory");
}

#[test]
fn buffer_char_index_byte_offsets() {
    let text = SourceText::from_memory("a\u{e9}\u{20ac}\u{1f642}x");
    assert_eq!(text.text, "a\u{e9}\u{20ac}\u{1f642}x");
    assert_eq!(text.source.from, "memory");
    assert_eq!(
        text.text_chars,
        vec![(0, 'a'), (1, '\u{e9}'), (3, '\u{20ac}'), (6, '\u{1f642}'), (10, 'x')]
    );
}

#[test]
fn char_at_each_position() {
    let mut s = stream("h\u{e9}!");
    assert_eq!(s.get_current(), Some('h'));
    assert!(!s.move_next());
    assert_eq!(s.get_current(), Some('\u{e9}'));
    assert!(!s.move_next());
    assert_eq!(s.get_current(), Some('!'));
    assert!(s.move_next());
    assert_eq!(s.get_current(), None);
    assert!(s.move_next());
    assert!(s.is_end());
}

#[test]
fn move_back_stops_at_front() {
    let mut s = stream("ab");
    assert!(s.is_front());
    s.move_next();
    s.move_back();
    assert!(s.is_front());
    s.move_back();
    assert!(s.is_front());
    assert_eq!(s.get_current(), Some('a'));
}

#[test]
fn identifier_round_trip_consumes_all() {
    let mut s = stream("abc123");
    let got = s.read_identification().unwrap();
    assert_eq!(got, "abc123");
    assert!(s.is_end());
}

#[test]
fn identifier_stops_at_boundary() {
    let mut s = stream("line\nbelow");
    assert_eq!(s.read_identification().unwrap(), "line");
    assert_eq!(s.get_current(), Some('\n'));
}

#[test]
fn identifier_rejects_digit_start() {
    let mut s = stream("1abc");
    let err = s.read_identification().unwrap_err();
    assert_eq!(err.expect, "a unicode xid start code point");
    assert_eq!(err.actual, "others");
    assert_eq!(err.diagnostic.src, "1abc");
    assert_eq!(err.diagnostic.err_span.range, (0, 1));
    assert_eq!(s.get_current(), Some('1'));
}

#[test]
fn identifier_error_has_byte_accurate_span() {
    let mut s = stream("\u{e9}1");
    s.move_next();
    let err = s.read_identification().unwrap_err();
    assert_eq!(err.diagnostic.err_span.range, (2, 3));
    assert_eq!(err.diagnostic.err_span.source.text, "\u{e9}1");
}

#[test]
fn end_to_end_three_lines() {
    let mut s = stream("a line\n123yes\nbelow");
    assert_eq!(s.read_identification().unwrap(), "a");
    s.skip_blank();
    assert_eq!(s.read_identification().unwrap(), "line");
    s.skip_blank();
    let err = s.read_identification().unwrap_err();
    assert_eq!(err.expect, "a unicode xid start code point");
    assert_eq!(s.get_current(), Some('1'));
}

#[test]
fn skip_blank_twice_stays_put() {
    let mut s = stream("ab \t\u{a0} cd");
    s.move_next();
    s.move_next();
    s.skip_blank();
    assert_eq!(s.index, 6);
    s.skip_blank();
    assert_eq!(s.index, 6);
    assert_eq!(s.read_identification().unwrap(), "cd");
}

#[test]
fn skip_line_passes_the_newline() {
    let mut s = stream("ab\ncd");
    s.skip_line();
    assert_eq!(s.get_current(), Some('c'));
    s.skip_line();
    assert!(s.is_end());
}

#[test]
fn line_boundaries_inside_second_line() {
    let mut s = stream("a line\n123yes\nbelow");
    for _ in 0..9 {
        s.move_next();
    }
    assert_eq!(s.get_line_begin(), 7);
    assert_eq!(s.get_line_end(), 13);
    let span = s.get_current_line_span();
    assert_eq!(span.range, (7, 13));
    assert_eq!(span.source.text, "a line\n123yes\nbelow");
}

#[test]
fn line_boundaries_first_line() {
    let mut s = stream("ab\ncd");
    s.move_next();
    assert_eq!(s.get_line_begin(), 0);
    assert_eq!(s.get_line_end(), 2);
}

#[test]
fn get_some_takes_and_advances() {
    let mut s = stream("abcde");
    assert_eq!(s.get_some(3), Some("abc".to_string()));
    assert_eq!(s.get_current(), Some('d'));
    assert_eq!(s.get_some(9), None);
    assert!(s.is_end());
}

#[test]
fn string_plain() {
    let mut s = stream("\"hi\" rest");
    assert_eq!(s.read_string().unwrap(), "hi");
    assert_eq!(s.get_current(), Some(' '));
}

#[test]
fn string_escape_round_trip() {
    let mut s = stream("\"\\n\\t\\\"\"");
    assert_eq!(s.read_string().unwrap(), "\n\t\"");
    assert!(s.is_end());
}

#[test]
fn string_all_simple_escapes() {
    let mut s = stream("\"\\0\\\\\\r\\n\\t\\'\\\"\"");
    assert_eq!(s.read_string().unwrap(), "\0\\\r\n\t'\"");
}

#[test]
fn string_hex_escape_decodes() {
    let mut s = stream("\"\\x41\"");
    assert_eq!(s.read_string().unwrap(), "A");
}

#[test]
fn string_unicode_escape_decodes() {
    let mut s = stream("\"\\u0041\"");
    assert_eq!(s.read_string().unwrap(), "A");
    let mut s2 = stream("\"\\u20ac!\"");
    assert_eq!(s2.read_string().unwrap(), "\u{20ac}!");
}

#[test]
fn string_bad_hex_digit_fails() {
    let mut s = stream("\"\\xzz\"");
    match s.read_string().unwrap_err() {
        ScanError::UnexpectCharacter(e) => {
            assert_eq!(e.expect, "a hexadecimal unicode code point");
            assert_eq!(e.actual, "a non-hexadecimal character");
        }
        ScanError::UnexpectEndOfSource(_) => panic!("wrong error kind"),
    }
    assert_eq!(s.get_current(), Some('z'));
}

#[test]
fn string_truncated_hex_fails_at_end() {
    let mut s = stream("\"\\x4");
    match s.read_string().unwrap_err() {
        ScanError::UnexpectEndOfSource(e) => {
            assert_eq!(e.expect, "a hexadecimal unicode code point");
        }
        ScanError::UnexpectCharacter(_) => panic!("wrong error kind"),
    }
    assert!(s.is_end());
}

#[test]
fn string_surrogate_escape_fails() {
    let mut s = stream("\"\\ud800\"");
    match s.read_string().unwrap_err() {
        ScanError::UnexpectCharacter(e) => {
            assert_eq!(e.expect, "a unicode scalar value after \\u");
        }
        ScanError::UnexpectEndOfSource(_) => panic!("wrong error kind"),
    }
}

#[test]
fn string_unknown_escape_fails_on_it() {
    let mut s = stream("\"\\q\"");
    match s.read_string().unwrap_err() {
        ScanError::UnexpectCharacter(e) => {
            assert_eq!(e.expect, "a escape sequence after \\");
            assert_eq!(e.actual, "unknown escape sequence");
        }
        ScanError::UnexpectEndOfSource(_) => panic!("wrong error kind"),
    }
    assert_eq!(s.get_current(), Some('q'));
}

#[test]
fn string_backslash_at_end_backtracks_onto_it() {
    let mut s = stream("\"a\\");
    match s.read_string().unwrap_err() {
        ScanError::UnexpectEndOfSource(e) => {
            assert_eq!(e.expect, "a escape sequence after \\");
            assert_eq!(e.diagnostic.err_span.range, (2, 3));
        }
        ScanError::UnexpectCharacter(_) => panic!("wrong error kind"),
    }
    assert!(!s.is_end());
    assert_eq!(s.get_current(), Some('\\'));
    assert_eq!(s.index, 2);
}

#[test]
fn unterminated_string_fails_at_end() {
    let mut s = stream("\"abc");
    match s.read_string().unwrap_err() {
        ScanError::UnexpectEndOfSource(e) => {
            assert_eq!(e.expect, "a \" to end string");
            assert_eq!(e.diagnostic.src, "\"abc");
            assert_eq!(e.diagnostic.err_span.range, (4, 5));
        }
        ScanError::UnexpectCharacter(_) => panic!("wrong error kind"),
    }
    assert!(s.is_end());
}

#[test]
fn string_start_missing_fails_without_consuming() {
    let mut s = stream("abc");
    match s.read_string().unwrap_err() {
        ScanError::UnexpectCharacter(e) => {
            assert_eq!(e.expect, "a string begin with \"");
        }
        ScanError::UnexpectEndOfSource(_) => panic!("wrong error kind"),
    }
    assert!(s.is_front());
}

#[test]
fn diagnostic_points_at_cursor_byte() {
    let s = stream("\u{20ac}a");
    let d = s.get_diagnotic(1);
    assert_eq!(d.src, "\u{20ac}a");
    assert_eq!(d.err_span.range, (0, 1));
    let mut s2 = stream("\u{20ac}a");
    s2.move_next();
    let d2 = s2.get_diagnotic(2);
    assert_eq!(d2.err_span.range, (3, 5));
}

#[test]
fn span_keeps_its_range() {
    let buffer = Arc::from(SourceText::from_memory("abc"));
    let span = SourceSpan::from(buffer, (1, 2));
    assert_eq!(span.range, (1, 2));
    assert_eq!(span.source.text, "abc");
}

#[test]
fn span_text_covers_logical_range() {
    let buffer = Arc::from(SourceText::from_memory("h\u{e9}llo"));
    let span = SourceSpan::from(buffer, (1, 3));
    assert_eq!(span.text(), "\u{e9}l");
}

#[test]
fn current_line_span_text_is_the_line() {
    let mut s = stream("a line\n123yes\nbelow");
    for _ in 0..9 {
        s.move_next();
    }
    assert_eq!(s.get_current_line_span().text(), "123yes");
}

#[test]
fn text_to_chars_matches_scalars() {
    let chars = SourceText::text_to_chars("n\u{303}");
    assert_eq!(chars, vec![(0, 'n'), (1, '\u{303}')]);
    assert!(SourceText::text_to_chars("").is_empty());
}
