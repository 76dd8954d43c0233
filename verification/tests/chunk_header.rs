use axml::chunk_header::ChunkHeader;
use axml::chunk_types::ChunkType;
use axml::cursor::AxmlCursor;
use axml::error::FormatError;

#[test]
fn test_valid_case() {
    let valid_data = vec![1, 0, 8, 0, 16, 0, 0, 0];
    let mut cursor = AxmlCursor::new(valid_data);

    let expected_type = ChunkType::ResStringPoolType;
    let result = ChunkHeader::from_buff(&mut cursor, expected_type);

    assert!(result.is_ok());
    let chunk_header = result.unwrap();
    assert_eq!(chunk_header.chunk_type, expected_type);
    assert_eq!(chunk_header.header_size, 8);
    assert_eq!(chunk_header.chunk_size, 16);
}

#[test]
fn test_unexpected_chunk_type() {
    // A buffer with a chunk type that doesn't match the expected one.
    let invalid_data = vec![2, 0, 8, 0, 16, 0, 0, 0];
    let mut cursor = AxmlCursor::new(invalid_data);

    let expected_type = ChunkType::ResStringPoolType;
    let result = ChunkHeader::from_buff(&mut cursor, expected_type);
    assert_eq!(result.unwrap_err(), FormatError::UnexpectedChunkType);
}

#[test]
fn test_invalid_header_size() {
    // A buffer with a small header size (less than 8).
    let invalid_data = vec![1, 0, 4, 0, 16, 0, 0, 0];
    let mut cursor = AxmlCursor::new(invalid_data);

    let expected_type = ChunkType::ResStringPoolType;
    let result = ChunkHeader::from_buff(&mut cursor, expected_type);
    assert_eq!(result.unwrap_err(), FormatError::HeaderTooSmall);
}

#[test]
fn test_invalid_chunk_size() {
    // A buffer with an invalid chunk size (less than 8).
    let invalid_data = vec![1, 0, 8, 0, 4, 0, 0, 0];
    let mut cursor = AxmlCursor::new(invalid_data);

    let expected_type = ChunkType::ResStringPoolType;
    let result = ChunkHeader::from_buff(&mut cursor, expected_type);
    assert_eq!(result.unwrap_err(), FormatError::ChunkTooSmall);
}

#[test]
fn test_invalid_chunk_size_smaller_than_header() {
    // A buffer where the chunk size is smaller than the header size.
    // Both sizes pass the minimum check, so the comparison of the two
    // is what rejects this header.
    let invalid_data = vec![1, 0, 16, 0, 8, 0, 0, 0];
    let mut cursor = AxmlCursor::new(invalid_data);

    let expected_type = ChunkType::ResStringPoolType;
    let result = ChunkHeader::from_buff(&mut cursor, expected_type);
    assert_eq!(result.unwrap_err(), FormatError::ChunkSmallerThanHeader);
}

#[test]
fn test_header_truncated() {
    // Fewer than eight bytes cannot hold a chunk header.
    let mut cursor = AxmlCursor::new(vec![1, 0, 8, 0]);
    let result = ChunkHeader::from_buff(&mut cursor, ChunkType::ResStringPoolType);
    assert_eq!(result.unwrap_err(), FormatError::TruncatedInput);
}

#[test]
fn test_unknown_block_type() {
    // A tag outside the closed set of chunk types.
    let mut cursor = AxmlCursor::new(vec![0xab, 0x0a, 8, 0, 16, 0, 0, 0]);
    let result = ChunkHeader::from_buff(&mut cursor, ChunkType::ResStringPoolType);
    assert_eq!(result.unwrap_err(), FormatError::UnknownChunkType(0x0aab));
}

#[test]
fn test_cursor_little_endian_reads() {
    let mut cursor = AxmlCursor::new(vec![0x01, 0x02, 0x03, 0x04, 0x05, 0x06, 0x07]);
    assert_eq!(cursor.read_u16().unwrap(), 0x0201);
    assert_eq!(cursor.read_u32().unwrap(), 0x06050403);
    assert_eq!(cursor.read_u8().unwrap(), 0x07);
    assert_eq!(cursor.read_u8().unwrap_err(), FormatError::TruncatedInput);
    cursor.set_position(3);
    assert_eq!(cursor.read_u32().unwrap(), 0x07060504);
    assert_eq!(cursor.position(), 7);
}
