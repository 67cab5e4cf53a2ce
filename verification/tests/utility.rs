use exst::lang::utility::char_stream_from_buf_read_from_str;
use exst::lang::utility::chars_of;
use exst::lang::utility::CharReaderFromString;
use exst::lang::utility::CharStreamFromBufRead;
use exst::lang::utility::IoFailure;

#[test]
fn test_multi_line() {
    let mut stream = char_stream_from_buf_read_from_str("abcde\nABCDE\rST\r\n\n");
    assert_eq!(stream.next().unwrap().unwrap(), 'a');
    assert_eq!(stream.next().unwrap().unwrap(), 'b');
    assert_eq!(stream.next().unwrap().unwrap(), 'c');
    assert_eq!(stream.next().unwrap().unwrap(), 'd');
    assert_eq!(stream.next().unwrap().unwrap(), 'e');
    assert_eq!(stream.next().unwrap().unwrap(), '\n');
    assert_eq!(stream.next().unwrap().unwrap(), 'A');
    assert_eq!(stream.next().unwrap().unwrap(), 'B');
    assert_eq!(stream.next().unwrap().unwrap(), 'C');
    assert_eq!(stream.next().unwrap().unwrap(), 'D');
    assert_eq!(stream.next().unwrap().unwrap(), 'E');
    assert_eq!(stream.next().unwrap().unwrap(), '\r');
    assert_eq!(stream.next().unwrap().unwrap(), 'S');
    assert_eq!(stream.next().unwrap().unwrap(), 'T');
    assert_eq!(stream.next().unwrap().unwrap(), '\r');
    assert_eq!(stream.next().unwrap().unwrap(), '\n');
    assert_eq!(stream.next().unwrap().unwrap(), '\n');
    assert_eq!(stream.next().is_none(), true);
    assert_eq!(stream.next().is_none(), true);
}

#[test]
fn utility_test_io_error() {
    let src: Vec<u8> = vec![0x41, 0x42, 0x0a, 0xe3];
    let read = CharReaderFromString::from_bytes(src);
    let mut stream = CharStreamFromBufRead::new(read);
    assert_eq!(stream.next().unwrap().unwrap(), 'A');
    assert_eq!(stream.next().unwrap().unwrap(), 'B');
    assert_eq!(stream.next().unwrap().unwrap(), '\n');
    assert_eq!(stream.next().unwrap().is_err(), true);
    assert_eq!(stream.next().is_none(), true);
    assert_eq!(stream.next().is_none(), true);
}

#[test]
fn test_string_stream() {
    let mut stream = CharReaderFromString::new(String::from("abcdefg"));
    let mut buf = [0u8; 3];
    assert_eq!(stream.read(&mut buf).unwrap(), 3);
    assert_eq!(buf[0], 'a' as u8);
    assert_eq!(buf[1], 'b' as u8);
    assert_eq!(buf[2], 'c' as u8);
    assert_eq!(stream.read(&mut buf).unwrap(), 3);
    assert_eq!(buf[0], 'd' as u8);
    assert_eq!(buf[1], 'e' as u8);
    assert_eq!(buf[2], 'f' as u8);
    assert_eq!(stream.read(&mut buf).unwrap(), 1);
    assert_eq!(buf[0], 'g' as u8);
    assert_eq!(stream.read(&mut buf).unwrap(), 0);
}

#[test]
fn test_read_line() {
    let mut reader = CharReaderFromString::new(String::from("ab\ncd"));
    assert_eq!(reader.read_line(), b"ab\n".to_vec());
    assert_eq!(reader.read_line(), b"cd".to_vec());
    assert_eq!(reader.read_line(), Vec::<u8>::new());
    assert_eq!(reader.read_line(), Vec::<u8>::new());
}

#[test]
fn test_failure_in_the_middle() {
    let src: Vec<u8> = vec![0x41, 0x0a, 0xff, 0x0a, 0x42];
    let mut stream = CharStreamFromBufRead::new(CharReaderFromString::from_bytes(src));
    assert_eq!(stream.next().unwrap().unwrap(), 'A');
    assert_eq!(stream.next().unwrap().unwrap(), '\n');
    assert_eq!(stream.next().unwrap().unwrap_err(), IoFailure::InvalidData);
    assert_eq!(stream.next().unwrap().unwrap(), 'B');
    assert!(stream.next().is_none());
}

#[test]
fn test_characters_of_more_than_one_byte() {
    let text = "a\u{e9}\u{3042}\u{1f600}\nz";
    let mut stream = char_stream_from_buf_read_from_str(text);
    let mut got = String::new();
    while let Some(item) = stream.next() {
        got.push(item.unwrap());
    }
    assert_eq!(got, text);
    assert_eq!(chars_of(text), text.chars().collect::<Vec<char>>());
}

#[test]
fn test_empty_stream() {
    let mut stream = char_stream_from_buf_read_from_str("");
    assert!(stream.next().is_none());
    assert!(stream.next().is_none());
}
