use chunk_type::{ChunkType, ChunkTypeError};

#[test]
fn test_chunk_type_from_bytes() {
    let expected = [82, 117, 83, 116];
    let actual = ChunkType::try_from([82, 117, 83, 116]).unwrap();

    assert_eq!(expected, actual.bytes());
}

#[test]
fn test_chunk_type_from_str() {
    let expected = ChunkType::try_from([82, 117, 83, 116]).unwrap();
    let actual = ChunkType::from_str("RuSt").unwrap();
    assert_eq!(expected, actual);
}

#[test]
fn test_chunk_type_is_critical() {
    let chunk = ChunkType::from_str("RuSt").unwrap();
    assert!(chunk.is_critical());
}

#[test]
fn test_chunk_type_is_not_critical() {
    let chunk = ChunkType::from_str("ruSt").unwrap();
    assert!(!chunk.is_critical());
}

#[test]
fn test_chunk_type_is_public() {
    let chunk = ChunkType::from_str("RUSt").unwrap();
    assert!(chunk.is_public());
}

#[test]
fn test_chunk_type_is_not_public() {
    let chunk = ChunkType::from_str("RuSt").unwrap();
    assert!(!chunk.is_public());
}

#[test]
fn test_chunk_type_is_reserved_bit_valid() {
    let chunk = ChunkType::from_str("RuSt").unwrap();
    assert!(chunk.is_reserved_bit_valid());
}

#[test]
fn test_chunk_type_is_reserved_bit_invalid() {
    let chunk = ChunkType::from_str("Rust").unwrap();
    assert!(!chunk.is_reserved_bit_valid());
}

#[test]
fn test_chunk_type_is_safe_to_copy() {
    let chunk = ChunkType::from_str("RuSt").unwrap();
    assert!(chunk.is_safe_to_copy());
}

#[test]
fn test_chunk_type_is_unsafe_to_copy() {
    let chunk = ChunkType::from_str("RuST").unwrap();
    assert!(!chunk.is_safe_to_copy());
}

#[test]
fn test_valid_chunk_is_valid() {
    let chunk = ChunkType::from_str("RuSt").unwrap();
    assert!(chunk.is_valid());
}

#[test]
fn test_invalid_chunk_is_valid() {
    let chunk = ChunkType::from_str("Rust").unwrap();
    assert!(!chunk.is_valid());

    let chunk = ChunkType::from_str("Ru1t");
    assert!(chunk.is_err());
}

#[test]
fn test_chunk_type_string() {
    let chunk = ChunkType::from_str("RuSt").unwrap();
    assert_eq!(&chunk.to_text(), "RuSt");
}

#[test]
fn test_chunk_type_trait_impls() {
    let chunk_type_1: ChunkType = ChunkType::try_from([82, 117, 83, 116]).unwrap();
    let chunk_type_2: ChunkType = ChunkType::from_str("RuSt").unwrap();
    let _chunk_string = chunk_type_1.to_text();
    let _are_chunks_equal = chunk_type_1 == chunk_type_2;
}

#[test]
fn test_from_bytes_all_flags() {
    let chunk = ChunkType::try_from([82, 117, 83, 116]).unwrap();
    assert!(chunk.is_critical());
    assert!(!chunk.is_public());
    assert!(chunk.is_reserved_bit_valid());
    assert!(chunk.is_safe_to_copy());
    assert!(chunk.is_valid());
}

#[test]
fn test_from_bytes_ignores_fourth_byte() {
    let chunk = ChunkType::try_from([82, 117, 83, 33]).unwrap();
    assert_eq!([82, 117, 83, 33], chunk.bytes());
}

#[test]
fn test_from_bytes_invalid_character_error() {
    let err = ChunkType::try_from([82, 49, 83, 116]).unwrap_err();
    assert_eq!(err, ChunkTypeError::InvalidCharacter);
}

#[test]
fn test_from_str_too_long_error() {
    let err = ChunkType::from_str("RuSty").unwrap_err();
    assert_eq!(err, ChunkTypeError::TooLong);
}

#[test]
fn test_from_str_invalid_character_error() {
    let err = ChunkType::from_str("Ru1t").unwrap_err();
    assert_eq!(err, ChunkTypeError::InvalidCharacter);
}

#[test]
fn test_short_text_matches_padded_bytes() {
    let from_text = ChunkType::from_str("RuS").unwrap();
    let from_bytes = ChunkType::try_from([82, 117, 83, 0]).unwrap();
    assert_eq!(from_text, from_bytes);
    assert_eq!([82, 117, 83, 0], from_text.bytes());
}

#[test]
fn test_empty_text_gives_zero_bytes() {
    let chunk = ChunkType::from_str("").unwrap();
    assert_eq!([0, 0, 0, 0], chunk.bytes());
    assert!(!chunk.is_valid());
}

#[test]
fn test_short_text_renders_with_null_bytes() {
    let chunk = ChunkType::from_str("Ru").unwrap();
    assert_eq!(&chunk.to_text(), "Ru\u{0}\u{0}");
}

#[test]
fn test_uppercase_fourth_byte_still_valid() {
    let chunk = ChunkType::from_str("RuST").unwrap();
    assert!(chunk.is_valid());
    assert!(!chunk.is_safe_to_copy());
}
