use codex_wasi_boundary::{
    write_attribution_frame, AttributionFrameError, MAX_ATTRIBUTION_TOKEN_LEN,
    PROXY_ATTRIBUTION_TOKEN_ENV_KEY,
};

#[test]
fn frame_of_short_token_has_magic_length_and_bytes() {
    let mut out = Vec::new();
    assert_eq!(write_attribution_frame(&mut out, "abc"), Ok(()));
    assert_eq!(
        out,
        vec![0x00, b'C', b'D', b'X', b'P', b'X', b'Y', b'1', 0x00, 0x03, b'a', b'b', b'c']
    );
}

#[test]
fn frame_is_appended_after_existing_bytes() {
    let mut out = vec![0xff, 0xee];
    assert_eq!(write_attribution_frame(&mut out, "t"), Ok(()));
    assert_eq!(out, vec![0xff, 0xee, 0, 67, 68, 88, 80, 88, 89, 49, 0, 1, b't']);
}

#[test]
fn empty_token_is_refused_and_writer_untouched() {
    let mut out = vec![1, 2, 3];
    assert_eq!(
        write_attribution_frame(&mut out, ""),
        Err(AttributionFrameError::InvalidTokenLength)
    );
    assert_eq!(out, vec![1, 2, 3]);
}

#[test]
fn token_of_max_length_is_accepted() {
    let token = "x".repeat(MAX_ATTRIBUTION_TOKEN_LEN);
    let mut out = Vec::new();
    assert_eq!(write_attribution_frame(&mut out, &token), Ok(()));
    assert_eq!(out.len(), 10 + 128);
    assert_eq!(&out[8..10], &[0x00, 0x80]);
    assert_eq!(&out[10..], token.as_bytes());
}

#[test]
fn token_over_max_length_is_refused() {
    let token = "x".repeat(MAX_ATTRIBUTION_TOKEN_LEN + 1);
    let mut out = Vec::new();
    assert_eq!(
        write_attribution_frame(&mut out, &token),
        Err(AttributionFrameError::InvalidTokenLength)
    );
    assert!(out.is_empty());
}

#[test]
fn token_length_counts_utf8_bytes() {
    // 43 three-byte characters: 129 bytes, though only 43 characters.
    let token = "\u{20ac}".repeat(43);
    let mut out = Vec::new();
    assert!(write_attribution_frame(&mut out, &token).is_err());
    let token = "\u{20ac}".repeat(42);
    assert_eq!(write_attribution_frame(&mut out, &token), Ok(()));
    assert_eq!(&out[8..10], &[0x00, 126]);
}

#[test]
fn decoding_a_frame_gives_back_the_token() {
    let mut out = Vec::new();
    write_attribution_frame(&mut out, "session-token-42").unwrap();
    let len = u16::from_be_bytes([out[8], out[9]]) as usize;
    assert_eq!(&out[0..8], b"\0CDXPXY1");
    assert_eq!(std::str::from_utf8(&out[10..10 + len]).unwrap(), "session-token-42");
    assert_eq!(out.len(), 10 + len);
}

#[test]
fn refusal_message_matches_wire_side() {
    assert_eq!(
        AttributionFrameError::InvalidTokenLength.message(),
        "invalid network proxy attribution token length"
    );
    assert_eq!(PROXY_ATTRIBUTION_TOKEN_ENV_KEY, "CODEX_NETWORK_PROXY_ATTRIBUTION");
}
