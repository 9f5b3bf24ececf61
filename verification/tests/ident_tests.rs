use post_service::ident::PostId;

const BYTES: [u8; 12] = [0x65, 0x0a, 0xbc, 0x01, 0x23, 0x45, 0x67, 0x89, 0xab, 0xcd, 0xef, 0xff];

#[test]
fn to_hex_writes_two_lower_case_digits_per_byte() {
    let id = PostId { bytes: BYTES };
    assert_eq!(id.to_hex(), "650abc0123456789abcdefff");
}

#[test]
fn to_hex_of_zero_bytes_is_twenty_four_zeros() {
    let id = PostId { bytes: [0; 12] };
    assert_eq!(id.to_hex(), "000000000000000000000000");
}

#[test]
fn parse_reads_lower_case_digits() {
    assert_eq!(PostId::parse("650abc0123456789abcdefff"), Some(PostId { bytes: BYTES }));
}

#[test]
fn parse_reads_upper_case_and_mixed_digits() {
    assert_eq!(PostId::parse("650ABC0123456789ABCDEFFF"), Some(PostId { bytes: BYTES }));
    assert_eq!(PostId::parse("650aBc0123456789AbCdEfFf"), Some(PostId { bytes: BYTES }));
}

#[test]
fn parse_refuses_text_that_is_no_identifier() {
    assert_eq!(PostId::parse("not-an-id"), None);
    assert_eq!(PostId::parse(""), None);
}

#[test]
fn parse_refuses_a_wrong_number_of_digits() {
    assert_eq!(PostId::parse("650abc0123456789abcdeff"), None);
    assert_eq!(PostId::parse("650abc0123456789abcdefff0"), None);
    assert_eq!(PostId::parse("650abc0123456789abcdefff00"), None);
    assert_eq!(PostId::parse("650abc0123456789abcdef"), None);
}

#[test]
fn parse_refuses_a_character_that_is_no_digit() {
    assert_eq!(PostId::parse("650abc0123456789abcdeffg"), None);
    assert_eq!(PostId::parse("g50abc0123456789abcdefff"), None);
    assert_eq!(PostId::parse("650abc0123456789abcdef f"), None);
}

#[test]
fn parse_refuses_text_of_twenty_four_bytes_with_wide_characters() {
    let text = "é50abc0123456789abcdeff";
    assert_eq!(text.len(), 24);
    assert_eq!(PostId::parse(text), None);
    let wide = "é50abc0123456789abcdefff";
    assert_eq!(wide.chars().count(), 24);
    assert_eq!(PostId::parse(wide), None);
}

#[test]
fn parse_gives_back_what_to_hex_wrote() {
    let ids = [[0u8; 12], [0xff; 12], BYTES, [1, 2, 3, 4, 5, 6, 7, 8, 9, 10, 11, 12]];
    for bytes in ids {
        let id = PostId { bytes };
        assert_eq!(PostId::parse(&id.to_hex()), Some(id));
    }
}
