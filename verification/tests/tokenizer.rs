use exst::lang::tokenizer::InputCharStream;
use exst::lang::utility::char_stream_from_buf_read_from_str;
use exst::lang::tokenizer::create_token_iterator;
use exst::lang::tokenizer::empty_token_stream;
use exst::lang::tokenizer::new_token_stream_from_str;
use exst::lang::tokenizer::string_of;
use exst::lang::tokenizer::TokenIterator;
use exst::lang::tokenizer::TokenStream;
use exst::lang::tokenizer::TokenWithComment;
use exst::lang::tokenizer::TokenizerError;
use exst::lang::tokenizer::TokenizerErrorReason;
use exst::lang::tokenizer::ValueToken;
use exst::lang::utility::CharReaderFromString;
use exst::lang::utility::CharStreamFromBufRead;
use exst::lang::utility::IoFailure;

#[test]
fn test_int_value_radix10() {
    let mut tokens = new_token_stream_from_str("1");
    assert_eq!(tokens.next().unwrap().unwrap(), ValueToken::IntValue(1));
    let mut tokens = new_token_stream_from_str("999");
    assert_eq!(tokens.next().unwrap().unwrap(), ValueToken::IntValue(999));
    let mut tokens = new_token_stream_from_str("+1");
    assert_eq!(tokens.next().unwrap().unwrap(), ValueToken::IntValue(1));
    let mut tokens = new_token_stream_from_str("+999");
    assert_eq!(tokens.next().unwrap().unwrap(), ValueToken::IntValue(999));
    let mut tokens = new_token_stream_from_str("-1");
    assert_eq!(tokens.next().unwrap().unwrap(), ValueToken::IntValue(-1));
    let mut tokens = new_token_stream_from_str("-999");
    assert_eq!(tokens.next().unwrap().unwrap(), ValueToken::IntValue(-999));
    let mut tokens = new_token_stream_from_str("01");
    assert_eq!(tokens.next().unwrap().unwrap(), ValueToken::IntValue(1));
    let mut tokens = new_token_stream_from_str("0999");
    assert_eq!(tokens.next().unwrap().unwrap(), ValueToken::IntValue(999));
    let mut tokens = new_token_stream_from_str("-01");
    assert_eq!(tokens.next().unwrap().unwrap(), ValueToken::IntValue(-1));
    let mut tokens = new_token_stream_from_str("-0999");
    assert_eq!(tokens.next().unwrap().unwrap(), ValueToken::IntValue(-999));
    let mut tokens = new_token_stream_from_str("123_456_789");
    assert_eq!(tokens.next().unwrap().unwrap(), ValueToken::IntValue(123456789));
    let mut tokens = new_token_stream_from_str("-123_456_789");
    assert_eq!(tokens.next().unwrap().unwrap(), ValueToken::IntValue(-123456789));
    let mut tokens = new_token_stream_from_str("_000_123_456_789");
    assert_eq!(tokens.next().unwrap().unwrap(), ValueToken::IntValue(123456789));
    let mut tokens = new_token_stream_from_str("-000_123_456_789");
    assert_eq!(tokens.next().unwrap().unwrap(), ValueToken::IntValue(-123456789));
    let mut tokens = new_token_stream_from_str("0");
    assert_eq!(tokens.next().unwrap().unwrap(), ValueToken::IntValue(0));
    let mut tokens = new_token_stream_from_str("-0");
    assert_eq!(tokens.next().unwrap().unwrap(), ValueToken::IntValue(0));
    let mut tokens = new_token_stream_from_str("0000");
    assert_eq!(tokens.next().unwrap().unwrap(), ValueToken::IntValue(0));
    let mut tokens = new_token_stream_from_str("-0000");
    assert_eq!(tokens.next().unwrap().unwrap(), ValueToken::IntValue(0));
}

#[test]
fn test_int_value_radix16() {
    let mut tokens = new_token_stream_from_str("0xa");
    assert_eq!(tokens.next().unwrap().unwrap(), ValueToken::IntValue(10));
    let mut tokens = new_token_stream_from_str("+0xff");
    assert_eq!(tokens.next().unwrap().unwrap(), ValueToken::IntValue(255));
    let mut tokens = new_token_stream_from_str("-0xf");
    assert_eq!(tokens.next().unwrap().unwrap(), ValueToken::IntValue(-15));
    let mut tokens = new_token_stream_from_str("+0x0");
    assert_eq!(tokens.next().unwrap().unwrap(), ValueToken::IntValue(0));
    let mut tokens = new_token_stream_from_str("-0x0");
    assert_eq!(tokens.next().unwrap().unwrap(), ValueToken::IntValue(0));
    let mut tokens = new_token_stream_from_str("0x_0_f_0");
    assert_eq!(tokens.next().unwrap().unwrap(), ValueToken::IntValue(240));
    let mut tokens = new_token_stream_from_str("-0x_0_f_a");
    assert_eq!(tokens.next().unwrap().unwrap(), ValueToken::IntValue(-250));
    let mut tokens = new_token_stream_from_str("0x_00_00_00");
    assert_eq!(tokens.next().unwrap().unwrap(), ValueToken::IntValue(0));
}

#[test]
fn test_int_value_radix8() {
    let mut tokens = new_token_stream_from_str("0o21");
    assert_eq!(tokens.next().unwrap().unwrap(), ValueToken::IntValue(17));
    let mut tokens = new_token_stream_from_str("+0o22");
    assert_eq!(tokens.next().unwrap().unwrap(), ValueToken::IntValue(18));
    let mut tokens = new_token_stream_from_str("-0o23");
    assert_eq!(tokens.next().unwrap().unwrap(), ValueToken::IntValue(-19));
    let mut tokens = new_token_stream_from_str("+0o0");
    assert_eq!(tokens.next().unwrap().unwrap(), ValueToken::IntValue(0));
    let mut tokens = new_token_stream_from_str("-0o0");
    assert_eq!(tokens.next().unwrap().unwrap(), ValueToken::IntValue(0));
    let mut tokens = new_token_stream_from_str("0o_0_7_7");
    assert_eq!(tokens.next().unwrap().unwrap(), ValueToken::IntValue(63));
    let mut tokens = new_token_stream_from_str("-0o_0_3_0");
    assert_eq!(tokens.next().unwrap().unwrap(), ValueToken::IntValue(-24));
    let mut tokens = new_token_stream_from_str("0o_00_00_00");
    assert_eq!(tokens.next().unwrap().unwrap(), ValueToken::IntValue(0));
}

#[test]
fn test_int_value_radix2() {
    let mut tokens = new_token_stream_from_str("0b11");
    assert_eq!(tokens.next().unwrap().unwrap(), ValueToken::IntValue(3));
    let mut tokens = new_token_stream_from_str("+0b10");
    assert_eq!(tokens.next().unwrap().unwrap(), ValueToken::IntValue(2));
    let mut tokens = new_token_stream_from_str("-0b101");
    assert_eq!(tokens.next().unwrap().unwrap(), ValueToken::IntValue(-5));
    let mut tokens = new_token_stream_from_str("+0b0");
    assert_eq!(tokens.next().unwrap().unwrap(), ValueToken::IntValue(0));
    let mut tokens = new_token_stream_from_str("-0b0");
    assert_eq!(tokens.next().unwrap().unwrap(), ValueToken::IntValue(0));
    let mut tokens = new_token_stream_from_str("0b_0_1_0");
    assert_eq!(tokens.next().unwrap().unwrap(), ValueToken::IntValue(2));
    let mut tokens = new_token_stream_from_str("-0b_0_1_0");
    assert_eq!(tokens.next().unwrap().unwrap(), ValueToken::IntValue(-2));
    let mut tokens = new_token_stream_from_str("0b_00_00_00");
    assert_eq!(tokens.next().unwrap().unwrap(), ValueToken::IntValue(0));
}

#[test]
fn test_symbol() {
    let mut tokens = new_token_stream_from_str("abcd");
    assert_eq!(tokens.next().unwrap().unwrap(), ValueToken::Symbol("abcd".to_string()));
    let mut tokens = new_token_stream_from_str("ABCD");
    assert_eq!(tokens.next().unwrap().unwrap(), ValueToken::Symbol("ABCD".to_string()));
    let mut tokens = new_token_stream_from_str("-");
    assert_eq!(tokens.next().unwrap().unwrap(), ValueToken::Symbol("-".to_string()));
    let mut tokens = new_token_stream_from_str("+");
    assert_eq!(tokens.next().unwrap().unwrap(), ValueToken::Symbol("+".to_string()));
    let mut tokens = new_token_stream_from_str("0x");
    assert_eq!(tokens.next().unwrap().unwrap(), ValueToken::Symbol("0x".to_string()));
    let mut tokens = new_token_stream_from_str("0o");
    assert_eq!(tokens.next().unwrap().unwrap(), ValueToken::Symbol("0o".to_string()));
    let mut tokens = new_token_stream_from_str("0b");
    assert_eq!(tokens.next().unwrap().unwrap(), ValueToken::Symbol("0b".to_string()));
    let mut tokens = new_token_stream_from_str("0xZZZ");
    assert_eq!(tokens.next().unwrap().unwrap(), ValueToken::Symbol("0xZZZ".to_string()));
    let mut tokens = new_token_stream_from_str("(\"");
    assert_eq!(tokens.next().unwrap().unwrap(), ValueToken::Symbol("(\"".to_string()));
}

#[test]
fn test_str_value() {
    let mut tokens = new_token_stream_from_str("\"\"");
    assert_eq!(tokens.next().unwrap().unwrap(), ValueToken::StrValue("".to_string()));
    let mut tokens = new_token_stream_from_str("\"abc\"");
    assert_eq!(tokens.next().unwrap().unwrap(), ValueToken::StrValue("abc".to_string()));
    let mut tokens = new_token_stream_from_str("\"\\t\"");
    assert_eq!(tokens.next().unwrap().unwrap(), ValueToken::StrValue("\t".to_string()));
    let mut tokens = new_token_stream_from_str("\"\\r\"");
    assert_eq!(tokens.next().unwrap().unwrap(), ValueToken::StrValue("\r".to_string()));
    let mut tokens = new_token_stream_from_str("\"\\n\"");
    assert_eq!(tokens.next().unwrap().unwrap(), ValueToken::StrValue("\n".to_string()));
    let mut tokens = new_token_stream_from_str("\"\\\"\"");
    assert_eq!(tokens.next().unwrap().unwrap(), ValueToken::StrValue("\"".to_string()));
    let mut tokens = new_token_stream_from_str("\"\\u0040\"");
    assert_eq!(tokens.next().unwrap().unwrap(), ValueToken::StrValue("@".to_string()));
    let mut tokens = new_token_stream_from_str("\"abcd");
    assert_eq!(
        match tokens.next() {
            Some(Result::Err(TokenizerError(l, c, TokenizerErrorReason::StringLiteralIsNotClosed(ref v)))) if l == 1 && c == 1 && v == "abcd" => true,
            _ => false,
        },
        true
    );
    let mut tokens = new_token_stream_from_str("\"abc\\\"");
    assert_eq!(
        match tokens.next() {
            Some(Result::Err(TokenizerError(l, c, TokenizerErrorReason::StringLiteralIsNotClosed(ref v)))) if l == 1 && c == 1 && v == "abc\"" => true,
            _ => false,
        },
        true
    );
    let mut tokens = new_token_stream_from_str("\"\\u012\"");
    assert_eq!(
        match tokens.next() {
            Some(Result::Err(TokenizerError(l, c, TokenizerErrorReason::CannotParseUnicodeEscapeChar(ref v)))) if l == 1 && c == 1 && v == "012\"" => true,
            _ => false,
        },
        true
    );
    let mut tokens = new_token_stream_from_str("\"\\u00fg\"");
    assert_eq!(
        match tokens.next() {
            Some(Result::Err(TokenizerError(l, c, TokenizerErrorReason::CannotParseUnicodeEscapeChar(ref v)))) if l == 1 && c == 1 && v == "00fg" => true,
            _ => false,
        },
        true
    );
}

#[test]
fn test_comment() {
    let mut tokens = new_token_stream_from_str("#123 abc \"aaa\"");
    assert_eq!(tokens.next_token_with_comment().unwrap().unwrap(), TokenWithComment::Comment("123 abc \"aaa\"".to_string()));
    let mut tokens = new_token_stream_from_str("#123 abc \"aaa\"\n");
    assert_eq!(tokens.next_token_with_comment().unwrap().unwrap(), TokenWithComment::Comment("123 abc \"aaa\"".to_string()));
    let mut tokens = new_token_stream_from_str("#123 abc \"aaa\"\r\n");
    assert_eq!(tokens.next_token_with_comment().unwrap().unwrap(), TokenWithComment::Comment("123 abc \"aaa\"".to_string()));
    let mut tokens = new_token_stream_from_str("#");
    assert_eq!(tokens.next_token_with_comment().unwrap().unwrap(), TokenWithComment::Comment("".to_string()));
    let mut tokens = new_token_stream_from_str("#\n");
    assert_eq!(tokens.next_token_with_comment().unwrap().unwrap(), TokenWithComment::Comment("".to_string()));
    let mut tokens = new_token_stream_from_str("#\r\n");
    assert_eq!(tokens.next_token_with_comment().unwrap().unwrap(), TokenWithComment::Comment("".to_string()));
}

#[test]
fn test_next_token_with_comment() {
    let mut tokens = new_token_stream_from_str("123 aaa #aaa\n \"aaa\" #aaa");
    assert_eq!(tokens.next_token_with_comment().unwrap().unwrap(), TokenWithComment::Token(ValueToken::IntValue(123)));
    assert_eq!(tokens.next_token_with_comment().unwrap().unwrap(), TokenWithComment::Token(ValueToken::Symbol("aaa".to_string())));
    assert_eq!(tokens.next_token_with_comment().unwrap().unwrap(), TokenWithComment::Comment("aaa".to_string()));
    assert_eq!(tokens.next_token_with_comment().unwrap().unwrap(), TokenWithComment::Token(ValueToken::StrValue("aaa".to_string())));
    assert_eq!(tokens.next_token_with_comment().unwrap().unwrap(), TokenWithComment::Comment("aaa".to_string()));
    assert_eq!(tokens.next_token_with_comment().is_none(), true);
    assert_eq!(tokens.next_token_with_comment().is_none(), true);
}

#[test]
fn test_next() {
    let mut tokens = new_token_stream_from_str("123 aaa #aaa\n \"aaa\" #aaa");
    assert_eq!(tokens.next().unwrap().unwrap(), ValueToken::IntValue(123));
    assert_eq!(tokens.next().unwrap().unwrap(), ValueToken::Symbol("aaa".to_string()));
    assert_eq!(tokens.next().unwrap().unwrap(), ValueToken::StrValue("aaa".to_string()));
    assert_eq!(tokens.next().is_none(), true);
    assert_eq!(tokens.next().is_none(), true);
}

#[test]
fn tokenizer_test_io_error() {
    let src: Vec<u8> = vec![0x41, 0x42, 0x0a, 0xe3];
    let read = CharReaderFromString::from_bytes(src);
    let stream = CharStreamFromBufRead::new(read);
    let mut tokens = TokenStream::new(stream);
    assert_eq!(tokens.next().unwrap().unwrap(), ValueToken::Symbol("AB".to_string()));
    let result = tokens.next().unwrap();
    assert_eq!(result.is_err(), true);
    assert_eq!(
        match result {
            Result::Err(TokenizerError(_, _, TokenizerErrorReason::IOError(_))) => true,
            _ => false,
        },
        true
    );
    assert_eq!(tokens.next().is_none(), true);
    assert_eq!(tokens.next().is_none(), true);
}

fn only_token(text: &str) -> ValueToken {
    let mut tokens = new_token_stream_from_str(text);
    let token = tokens.next().unwrap().unwrap();
    assert!(tokens.next().is_none());
    token
}

#[test]
fn test_empty_input_has_no_token() {
    let mut tokens = new_token_stream_from_str("");
    assert!(tokens.next_token_with_comment().is_none());
    assert!(tokens.next().is_none());
    assert!(tokens.next_token().is_none());
    let mut tokens = new_token_stream_from_str(" \t\r\n ");
    assert!(tokens.next_token_with_comment().is_none());
    let mut tokens = empty_token_stream();
    assert!(tokens.next().is_none());
    assert_eq!(tokens.script_name(), "###DUMMY###");
}

#[test]
fn test_written_integers_read_back() {
    for n in [0, 1, -1, 9, 10, -10, 12345, -98765, i32::MAX, i32::MIN, i32::MIN + 1] {
        assert_eq!(only_token(&format!("{}", n)), ValueToken::IntValue(n));
    }
}

#[test]
fn test_integers_at_the_limits() {
    assert_eq!(only_token("2147483647"), ValueToken::IntValue(i32::MAX));
    assert_eq!(only_token("2147483648"), ValueToken::IntValue(i32::MIN));
    assert_eq!(only_token("4294967295"), ValueToken::IntValue(-1));
    assert_eq!(only_token("0xffffffff"), ValueToken::IntValue(-1));
    assert_eq!(only_token("-0xffffffff"), ValueToken::IntValue(1));
    assert_eq!(only_token("-2147483648"), ValueToken::IntValue(i32::MIN));
    assert_eq!(only_token("4294967296"), ValueToken::Symbol("4294967296".to_string()));
    assert_eq!(
        only_token("99999999999999999999"),
        ValueToken::Symbol("99999999999999999999".to_string())
    );
    assert_eq!(only_token("0b2"), ValueToken::Symbol("0b2".to_string()));
    assert_eq!(only_token("0o8"), ValueToken::Symbol("0o8".to_string()));
    assert_eq!(only_token("0XFF"), ValueToken::Symbol("0XFF".to_string()));
    assert_eq!(only_token("0xFf"), ValueToken::IntValue(255));
    assert_eq!(only_token("1a"), ValueToken::Symbol("1a".to_string()));
    assert_eq!(only_token("_"), ValueToken::Symbol("_".to_string()));
    assert_eq!(only_token("+_1_"), ValueToken::IntValue(1));
}

#[test]
fn test_escape_decoding() {
    let mut tokens = new_token_stream_from_str("\"\\u0041\\u0042\"");
    assert_eq!(tokens.next().unwrap().unwrap(), ValueToken::StrValue("AB".to_string()));
    let mut tokens = new_token_stream_from_str("\"\\u004\"");
    assert_eq!(
        match tokens.next() {
            Some(Result::Err(TokenizerError(
                1,
                1,
                TokenizerErrorReason::CannotParseUnicodeEscapeChar(ref v),
            ))) if v == "004\"" => true,
            _ => false,
        },
        true
    );
    let mut tokens = new_token_stream_from_str("\"\\ud800\"");
    assert!(matches!(
        tokens.next(),
        Some(Err(TokenizerError(_, _, TokenizerErrorReason::CannotParseUnicodeEscapeChar(ref v))))
            if v == "d800"
    ));
    let mut tokens = new_token_stream_from_str("\"\\u00");
    assert!(matches!(
        tokens.next(),
        Some(Err(TokenizerError(_, _, TokenizerErrorReason::CannotParseUnicodeEscapeChar(ref v))))
            if v == "00"
    ));
    assert_eq!(only_token("\"\\a\\\\\\x\""), ValueToken::StrValue("a\\x".to_string()));
    assert_eq!(only_token("\"a b\\tc\""), ValueToken::StrValue("a b\tc".to_string()));
}

#[test]
fn test_unterminated_string() {
    let mut tokens = new_token_stream_from_str("  \"never closed # no comment\n more");
    assert_eq!(
        match tokens.next() {
            Some(Result::Err(TokenizerError(
                1,
                3,
                TokenizerErrorReason::StringLiteralIsNotClosed(ref v),
            ))) if v == "never closed # no comment\n more" => true,
            _ => false,
        },
        true
    );
    assert!(tokens.next().is_none());
    let mut tokens = new_token_stream_from_str("\"x\\");
    assert!(matches!(
        tokens.next(),
        Some(Err(TokenizerError(_, _, TokenizerErrorReason::StringLiteralIsNotClosed(ref v))))
            if v == "x"
    ));
}

#[test]
fn test_lines_and_columns() {
    let mut tokens = new_token_stream_from_str("ab cd\n  ef");
    let t = tokens.next_token().unwrap();
    assert_eq!((t.line_number, t.column_number), (1, 0));
    assert_eq!(t.value_token.unwrap(), ValueToken::Symbol("ab".to_string()));
    let t = tokens.next_token().unwrap();
    assert_eq!((t.line_number, t.column_number), (1, 3));
    assert_eq!(t.value_token.unwrap(), ValueToken::Symbol("cd".to_string()));
    let t = tokens.next_token().unwrap();
    assert_eq!((t.line_number, t.column_number), (2, 0));
    assert_eq!(t.value_token.unwrap(), ValueToken::Symbol("ef".to_string()));
    assert!(tokens.next_token().is_none());
}

#[test]
fn test_failure_position() {
    let src: Vec<u8> = vec![b'a', b'\n', b' ', 0xff];
    let mut tokens = TokenStream::new(CharStreamFromBufRead::new(CharReaderFromString::from_bytes(src)));
    assert_eq!(tokens.next().unwrap().unwrap(), ValueToken::Symbol("a".to_string()));
    match tokens.next() {
        Some(Err(TokenizerError(line, column, TokenizerErrorReason::IOError(e)))) => {
            assert_eq!(line, 2);
            assert_eq!(column, 0);
            assert_eq!(e, IoFailure::InvalidData);
        }
        _ => panic!("the bytes that are no text are a failure"),
    }
}

#[test]
fn test_skip() {
    let mut tokens = new_token_stream_from_str("( a comment ) 1 ( open");
    assert_eq!(tokens.next().unwrap().unwrap(), ValueToken::Symbol("(".to_string()));
    assert_eq!(tokens.skip(')').unwrap(), " a comment ");
    assert_eq!(tokens.next().unwrap().unwrap(), ValueToken::IntValue(1));
    assert_eq!(tokens.next().unwrap().unwrap(), ValueToken::Symbol("(".to_string()));
    assert_eq!(tokens.skip(')').unwrap(), " open");
    assert_eq!(tokens.skip(')').unwrap(), "");
    assert!(tokens.next().is_none());
    let src: Vec<u8> = vec![b'a', b'\n', 0xff, b'\n', b')'];
    let mut tokens = create_token_iterator(&"bytes".to_string(), src);
    assert_eq!(tokens.script_name(), "bytes");
    assert!(matches!(
        tokens.skip(')'),
        Err(TokenizerError(2, 0, TokenizerErrorReason::IOError(IoFailure::InvalidData)))
    ));
    assert_eq!(tokens.skip(')').unwrap(), "");
}

#[test]
fn test_names_of_streams() {
    let tokens = new_token_stream_from_str("1");
    assert_eq!(tokens.script_name(), "##UNKNOWN###");
    let tokens = TokenStream::new_with_name(
        CharStreamFromBufRead::new(CharReaderFromString::new("1".to_string())),
        "mine".to_string(),
    );
    assert_eq!(tokens.script_name(), "mine");
    assert_eq!(string_of(&vec!['a', 'b']), "ab");
}

#[test]
fn test_comment_with_token_behind() {
    let mut tokens = new_token_stream_from_str("# first\n# second\n 7 # third");
    assert_eq!(tokens.next().unwrap().unwrap(), ValueToken::IntValue(7));
    assert!(tokens.next().is_none());
    let mut tokens = new_token_stream_from_str("a#b");
    assert_eq!(
        tokens.next_token_with_comment().unwrap().unwrap(),
        TokenWithComment::Token(ValueToken::Symbol("a#b".to_string()))
    );
}

#[test]
fn test_input_char_stream() {
    let mut stream = InputCharStream::new(char_stream_from_buf_read_from_str("ab\nc"));
    assert_eq!(stream.line_number(), 1);
    assert_eq!(stream.column_number(), 0);
    assert_eq!(stream.next(), Some(Ok('a')));
    assert_eq!(stream.column_number(), 1);
    stream.push('x');
    stream.push('y');
    assert_eq!(stream.next(), Some(Ok('y')));
    assert_eq!(stream.next(), Some(Ok('x')));
    assert_eq!(stream.column_number(), 1);
    assert_eq!(stream.next(), Some(Ok('b')));
    assert_eq!(stream.next(), Some(Ok('\n')));
    assert_eq!(stream.line_number(), 2);
    assert_eq!(stream.column_number(), 0);
    assert_eq!(stream.next(), Some(Ok('c')));
    assert_eq!(stream.next(), None);
    assert_eq!(stream.next(), None);
    assert_eq!(stream.line_number(), 2);
    assert_eq!(stream.column_number(), 1);
}
