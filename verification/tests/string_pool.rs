use byteorder::{LittleEndian, WriteBytesExt};
use std::io::Write;

use axml::cursor::AxmlCursor;
use axml::error::FormatError;
use axml::string_pool::StringPool;

// Helper function to create a simple buffer for testing.
fn create_test_buffer() -> Vec<u8> {
    let mut buf = Vec::new();

    // Chunk header
    buf.write_u16::<LittleEndian>(0x0001).unwrap(); // ChunkType::ResStringPoolType
    buf.write_u16::<LittleEndian>(8).unwrap(); // Chunk header size
    buf.write_u32::<LittleEndian>(128).unwrap(); // Chunk data size

    // String pool header
    buf.write_u32::<LittleEndian>(2).unwrap(); // string_count
    buf.write_u32::<LittleEndian>(0).unwrap(); // style_count
    buf.write_u32::<LittleEndian>(1).unwrap(); // flags (is_sorted, not is_utf8)
    buf.write_u32::<LittleEndian>(36).unwrap(); // strings_start
    buf.write_u32::<LittleEndian>(20).unwrap(); // styles_start
    buf.write_u32::<LittleEndian>(0).unwrap(); // first string offset
    buf.write_u32::<LittleEndian>(14).unwrap(); // second string offset

    // String data
    buf.write_u16::<LittleEndian>(5).unwrap(); // Length of first string (UTF-16)
    buf.write_u16::<LittleEndian>(0x0048).unwrap(); // 'H'
    buf.write_u16::<LittleEndian>(0x0065).unwrap(); // 'e'
    buf.write_u16::<LittleEndian>(0x006C).unwrap(); // 'l'
    buf.write_u16::<LittleEndian>(0x006C).unwrap(); // 'l'
    buf.write_u16::<LittleEndian>(0x006F).unwrap(); // 'o'
    buf.write_u16::<LittleEndian>(0x0000).unwrap(); // Null terminator

    buf.write_u16::<LittleEndian>(5).unwrap(); // Length of second string (UTF-16)
    buf.write_u16::<LittleEndian>(0x0057).unwrap(); // 'W'
    buf.write_u16::<LittleEndian>(0x006F).unwrap(); // 'o'
    buf.write_u16::<LittleEndian>(0x0072).unwrap(); // 'r'
    buf.write_u16::<LittleEndian>(0x006C).unwrap(); // 'l'
    buf.write_u16::<LittleEndian>(0x0064).unwrap(); // 'd'
    buf.write_u16::<LittleEndian>(0x0000).unwrap(); // Null terminator

    buf
}

#[test]
fn test_string_pool_parse_utf16() {
    let mut buffer = AxmlCursor::new(create_test_buffer());

    // The `from_buff` function assumes we have read the chunk type already.
    buffer.read_u16().unwrap();

    let mut global_strings = Vec::new();

    // Parse string pool from buffer
    let string_pool = StringPool::from_buff(&mut buffer, &mut global_strings).unwrap();

    // Validate that the string pool is parsed correctly
    assert_eq!(string_pool.strings.len(), 2);
    assert_eq!(string_pool.strings[0], "Hello");
    assert_eq!(string_pool.strings[1], "World");
}

#[test]
fn test_string_pool_flags() {
    let mut buffer = AxmlCursor::new(create_test_buffer());

    // The `from_buff` function assumes we have read the chunk type already.
    buffer.read_u16().unwrap();

    let mut global_strings = Vec::new();

    // Parse string pool from buffer
    let string_pool = StringPool::from_buff(&mut buffer, &mut global_strings).unwrap();

    // Validate the flags
    assert!(string_pool.is_sorted);
    assert!(!string_pool.is_utf8);
}

#[test]
fn test_empty_pool() {
    // Test case with no strings in the pool
    let mut buf = Vec::new();

    buf.write_u16::<LittleEndian>(0x0001).unwrap(); // ChunkType::ResStringPoolType
    buf.write_u16::<LittleEndian>(8).unwrap(); // Chunk header size
    buf.write_u32::<LittleEndian>(128).unwrap(); // Chunk data size

    buf.write_u32::<LittleEndian>(0).unwrap(); // string_count = 0
    buf.write_u32::<LittleEndian>(0).unwrap(); // style_count = 0
    buf.write_u32::<LittleEndian>(0).unwrap(); // flags
    buf.write_u32::<LittleEndian>(32).unwrap(); // strings_start
    buf.write_u32::<LittleEndian>(20).unwrap(); // styles_start

    let mut buffer = AxmlCursor::new(buf);

    // The `from_buff` function assumes we have read the chunk type already.
    buffer.read_u16().unwrap();

    let mut global_strings = Vec::new();

    let string_pool = StringPool::from_buff(&mut buffer, &mut global_strings).unwrap();

    // Check that the string pool is correctly parsed and contains no strings
    assert_eq!(string_pool.strings.len(), 0);
}

#[test]
fn test_utf8_string_parsing() {
    // UTF-8 encoded string with length 5 (using mock data for simplicity)
    let mut buf = Vec::new();

    buf.write_u16::<LittleEndian>(0x0001).unwrap(); // ChunkType::ResStringPoolType
    buf.write_u16::<LittleEndian>(8).unwrap(); // Chunk header size
    buf.write_u32::<LittleEndian>(128).unwrap(); // Chunk data size

    buf.write_u32::<LittleEndian>(1).unwrap(); // string_count = 1
    buf.write_u32::<LittleEndian>(0).unwrap(); // style_count = 0
    buf.write_u32::<LittleEndian>(256).unwrap(); // flags (not sorted, utf8)
    buf.write_u32::<LittleEndian>(32).unwrap(); // strings_start
    buf.write_u32::<LittleEndian>(20).unwrap(); // styles_start
    buf.write_u32::<LittleEndian>(0).unwrap(); // Offset of the string

    buf.write_u8(0x05).unwrap(); // UTF-8 string length
    buf.write_u8(0x05).unwrap(); // UTF-8 string decoded length
    buf.write_all(b"Hello").unwrap(); // UTF-8 string data
    buf.write_u8(0x00).unwrap(); // Null terminator

    let mut buffer = AxmlCursor::new(buf);

    // The `from_buff` function assumes we have read the chunk type already.
    buffer.read_u16().unwrap();

    let mut global_strings = Vec::new();

    let string_pool = StringPool::from_buff(&mut buffer, &mut global_strings).unwrap();

    // Validate that the string pool has correctly decoded the UTF-8 string
    assert_eq!(string_pool.strings.len(), 1);
    assert_eq!(string_pool.strings[0], "Hello");
}

#[test]
fn test_utf8_multibyte_string() {
    // A two-byte UTF-8 character must come back decoded, not raw.
    let mut buf = Vec::new();
    buf.write_u16::<LittleEndian>(0x0001).unwrap();
    buf.write_u16::<LittleEndian>(8).unwrap();
    buf.write_u32::<LittleEndian>(128).unwrap();
    buf.write_u32::<LittleEndian>(1).unwrap(); // string_count
    buf.write_u32::<LittleEndian>(0).unwrap(); // style_count
    buf.write_u32::<LittleEndian>(256).unwrap(); // flags: utf8
    buf.write_u32::<LittleEndian>(32).unwrap(); // strings_start
    buf.write_u32::<LittleEndian>(0).unwrap(); // styles_start
    buf.write_u32::<LittleEndian>(0).unwrap(); // offset
    buf.write_u8(2).unwrap(); // encoded length
    buf.write_u8(3).unwrap(); // byte length
    buf.write_all("f\u{e9}".as_bytes()).unwrap(); // one ASCII and one two-byte character
    let mut buffer = AxmlCursor::new(buf);
    buffer.read_u16().unwrap();
    let mut global_strings = Vec::new();
    let string_pool = StringPool::from_buff(&mut buffer, &mut global_strings).unwrap();
    assert_eq!(string_pool.strings.len(), 1);
    assert_eq!(string_pool.strings[0], "f\u{e9}");
    assert_eq!(global_strings, vec![String::from("f\u{e9}")]);
}

#[test]
fn test_utf16_surrogate_pair() {
    // A surrogate pair decodes to one character beyond the basic plane.
    let mut buf = Vec::new();
    buf.write_u16::<LittleEndian>(0x0001).unwrap();
    buf.write_u16::<LittleEndian>(8).unwrap();
    buf.write_u32::<LittleEndian>(128).unwrap();
    buf.write_u32::<LittleEndian>(1).unwrap();
    buf.write_u32::<LittleEndian>(0).unwrap();
    buf.write_u32::<LittleEndian>(0).unwrap(); // flags: utf16
    buf.write_u32::<LittleEndian>(32).unwrap();
    buf.write_u32::<LittleEndian>(0).unwrap();
    buf.write_u32::<LittleEndian>(0).unwrap(); // offset
    buf.write_u16::<LittleEndian>(2).unwrap(); // two code units
    buf.write_u16::<LittleEndian>(0xd83d).unwrap();
    buf.write_u16::<LittleEndian>(0xde00).unwrap();
    let mut buffer = AxmlCursor::new(buf);
    buffer.read_u16().unwrap();
    let mut global_strings = Vec::new();
    let string_pool = StringPool::from_buff(&mut buffer, &mut global_strings).unwrap();
    assert_eq!(string_pool.strings, vec![String::from("\u{1f600}")]);
}

#[test]
fn test_invalid_utf8_entry() {
    let mut buf = Vec::new();
    buf.write_u16::<LittleEndian>(0x0001).unwrap();
    buf.write_u16::<LittleEndian>(8).unwrap();
    buf.write_u32::<LittleEndian>(128).unwrap();
    buf.write_u32::<LittleEndian>(1).unwrap();
    buf.write_u32::<LittleEndian>(0).unwrap();
    buf.write_u32::<LittleEndian>(256).unwrap(); // utf8
    buf.write_u32::<LittleEndian>(32).unwrap();
    buf.write_u32::<LittleEndian>(0).unwrap();
    buf.write_u32::<LittleEndian>(0).unwrap(); // offset
    buf.write_u8(1).unwrap();
    buf.write_u8(1).unwrap();
    buf.write_u8(0xff).unwrap(); // not valid UTF-8
    let mut buffer = AxmlCursor::new(buf);
    buffer.read_u16().unwrap();
    let mut global_strings = Vec::new();
    let result = StringPool::from_buff(&mut buffer, &mut global_strings);
    assert_eq!(result.unwrap_err(), FormatError::InvalidTextEncoding);
    assert!(global_strings.is_empty());
}

#[test]
fn test_lone_surrogate_rejected() {
    let mut buf = Vec::new();
    buf.write_u16::<LittleEndian>(0x0001).unwrap();
    buf.write_u16::<LittleEndian>(8).unwrap();
    buf.write_u32::<LittleEndian>(128).unwrap();
    buf.write_u32::<LittleEndian>(1).unwrap();
    buf.write_u32::<LittleEndian>(0).unwrap();
    buf.write_u32::<LittleEndian>(0).unwrap(); // utf16
    buf.write_u32::<LittleEndian>(32).unwrap();
    buf.write_u32::<LittleEndian>(0).unwrap();
    buf.write_u32::<LittleEndian>(0).unwrap(); // offset
    buf.write_u16::<LittleEndian>(1).unwrap();
    buf.write_u16::<LittleEndian>(0xd800).unwrap(); // high surrogate alone
    let mut buffer = AxmlCursor::new(buf);
    buffer.read_u16().unwrap();
    let mut global_strings = Vec::new();
    let result = StringPool::from_buff(&mut buffer, &mut global_strings);
    assert_eq!(result.unwrap_err(), FormatError::InvalidTextEncoding);
}

#[test]
fn test_long_string_unsupported() {
    // A UTF-16 length with the high bit set announces the long-string
    // continuation, which the decoder reports rather than mis-decodes.
    let mut buf = Vec::new();
    buf.write_u16::<LittleEndian>(0x0001).unwrap();
    buf.write_u16::<LittleEndian>(8).unwrap();
    buf.write_u32::<LittleEndian>(128).unwrap();
    buf.write_u32::<LittleEndian>(1).unwrap();
    buf.write_u32::<LittleEndian>(0).unwrap();
    buf.write_u32::<LittleEndian>(0).unwrap(); // utf16
    buf.write_u32::<LittleEndian>(32).unwrap();
    buf.write_u32::<LittleEndian>(0).unwrap();
    buf.write_u32::<LittleEndian>(0).unwrap(); // offset
    buf.write_u16::<LittleEndian>(0x8001).unwrap(); // high bit set
    let mut buffer = AxmlCursor::new(buf);
    buffer.read_u16().unwrap();
    let mut global_strings = Vec::new();
    let result = StringPool::from_buff(&mut buffer, &mut global_strings);
    assert_eq!(result.unwrap_err(), FormatError::UnsupportedLongString);
}

#[test]
fn test_pool_truncated() {
    // The string data runs past the end of the buffer.
    let mut buf = Vec::new();
    buf.write_u16::<LittleEndian>(0x0001).unwrap();
    buf.write_u16::<LittleEndian>(8).unwrap();
    buf.write_u32::<LittleEndian>(128).unwrap();
    buf.write_u32::<LittleEndian>(1).unwrap();
    buf.write_u32::<LittleEndian>(0).unwrap();
    buf.write_u32::<LittleEndian>(256).unwrap(); // utf8
    buf.write_u32::<LittleEndian>(32).unwrap();
    buf.write_u32::<LittleEndian>(0).unwrap();
    buf.write_u32::<LittleEndian>(0).unwrap(); // offset
    buf.write_u8(9).unwrap();
    buf.write_u8(9).unwrap();
    buf.write_all(b"abc").unwrap(); // only 3 of the announced 9 bytes
    let mut buffer = AxmlCursor::new(buf);
    buffer.read_u16().unwrap();
    let mut global_strings = Vec::new();
    let result = StringPool::from_buff(&mut buffer, &mut global_strings);
    assert_eq!(result.unwrap_err(), FormatError::TruncatedInput);
}

#[test]
fn test_pool_appends_to_global_strings() {
    // A second pool extends the same index space instead of replacing it.
    let mut global_strings = vec![String::from("earlier")];
    let mut buffer = AxmlCursor::new(create_test_buffer());
    buffer.read_u16().unwrap();
    let string_pool = StringPool::from_buff(&mut buffer, &mut global_strings).unwrap();
    assert_eq!(global_strings, vec![
        String::from("earlier"),
        String::from("Hello"),
        String::from("World"),
    ]);
    assert_eq!(string_pool.strings, global_strings);
}
