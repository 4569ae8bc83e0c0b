//! Wire format of the managed-proxy attribution frame.
//!
//! The trusted sidecar consumes this frame. The guest keeps the real encoder,
//! so that protocol callers get neither a fake success nor a target-specific
//! wire format.

use vstd::prelude::*;
use vstd::string::StringSliceAdditionalSpecFns;

verus! {

/// Environment variable that carries the attribution token.
pub const PROXY_ATTRIBUTION_TOKEN_ENV_KEY: &'static str = "CODEX_NETWORK_PROXY_ATTRIBUTION";

/// Largest token, in bytes, that a frame may carry.
pub const MAX_ATTRIBUTION_TOKEN_LEN: usize = 128;

/// The eight bytes `"\0CDXPXY1"` that open every frame.
pub open spec fn attribution_frame_magic() -> Seq<u8> {
    seq![0x00u8, 0x43u8, 0x44u8, 0x58u8, 0x50u8, 0x58u8, 0x59u8, 0x31u8]
}

/// The big-endian bytes of a 16-bit length.
pub open spec fn be_u16_bytes(n: nat) -> Seq<u8> {
    seq![(n / 256) as u8, (n % 256) as u8]
}

/// A token is accepted when it holds between 1 and 128 bytes.
pub open spec fn attribution_token_valid(token: Seq<u8>) -> bool {
    1 <= token.len() <= MAX_ATTRIBUTION_TOKEN_LEN
}

/// The frame of a token: magic, the token's byte length as a big-endian
/// `u16`, then the token's bytes.
pub open spec fn attribution_frame(token: Seq<u8>) -> Seq<u8> {
    attribution_frame_magic() + be_u16_bytes(token.len()) + token
}

/// Why a token was refused.
#[derive(Debug, Clone, Copy, PartialEq, Eq)]
pub enum AttributionFrameError {
    /// The token is empty or longer than [`MAX_ATTRIBUTION_TOKEN_LEN`] bytes.
    InvalidTokenLength,
}

impl AttributionFrameError {
    /// The message that the error carries on the wire side.
    pub fn message(&self) -> (r: String)
        ensures
            r@ == "invalid network proxy attribution token length"@,
    {
        String::from_str("invalid network proxy attribution token length")
    }
}

/// Appends the attribution frame of `token` to `writer`.
///
/// Fails, leaving `writer` as it was, when the token is empty or longer than
/// [`MAX_ATTRIBUTION_TOKEN_LEN`] bytes.
pub fn write_attribution_frame(writer: &mut Vec<u8>, token: &str) -> (r: Result<(), AttributionFrameError>)
    ensures
        r.is_ok() <==> attribution_token_valid(token.spec_bytes()),
        r.is_ok() ==> final(writer)@ == old(writer)@ + attribution_frame(token.spec_bytes()),
        r.is_err() ==> r == Err::<(), AttributionFrameError>(AttributionFrameError::InvalidTokenLength)
            && final(writer)@ == old(writer)@,
{
    let bytes = token.as_bytes();
    let len = bytes.len();
    if len == 0 || len > MAX_ATTRIBUTION_TOKEN_LEN {
        return Err(AttributionFrameError::InvalidTokenLength);
    }
    let ghost start = writer@;
    let magic: [u8; 8] = [0x00u8, 0x43u8, 0x44u8, 0x58u8, 0x50u8, 0x58u8, 0x59u8, 0x31u8];
    for i in 0..8usize
        invariant
            magic@ == attribution_frame_magic(),
            writer@ == start + magic@.take(i as int),
    {
        writer.push(magic[i]);
        assert(magic@.take(i + 1) == magic@.take(i as int).push(magic@[i as int]));
    }
    assert(magic@.take(8) == magic@);
    let token_len: u16 = len as u16;
    writer.push((token_len / 256) as u8);
    writer.push((token_len % 256) as u8);
    let ghost framed = writer@;
    for i in 0..len
        invariant
            len == bytes@.len(),
            writer@ == framed + bytes@.take(i as int),
    {
        writer.push(bytes[i]);
        assert(bytes@.take(i + 1) == bytes@.take(i as int).push(bytes@[i as int]));
    }
    assert(bytes@.take(len as int) == bytes@);
    assert(writer@ == start + attribution_frame(token.spec_bytes()));
    Ok(())
}

/// A reader recovers the token from a frame: the frame opens with the magic,
/// its next two bytes give the token's length big-endian, and the token's
/// bytes follow to the end.
pub proof fn lemma_attribution_frame_layout(token: Seq<u8>)
    requires
        attribution_token_valid(token),
    ensures
        attribution_frame(token).len() == 10 + token.len(),
        attribution_frame(token).subrange(0, 8) == attribution_frame_magic(),
        attribution_frame(token)[8] as int * 256 + attribution_frame(token)[9] as int == token.len(),
        attribution_frame(token).subrange(10, attribution_frame(token).len() as int) == token,
{
    let f = attribution_frame(token);
    assert(f.subrange(0, 8) =~= attribution_frame_magic());
    assert(f.subrange(10, f.len() as int) =~= token);
    assert(f[8] == (token.len() / 256) as u8);
    assert(f[9] == (token.len() % 256) as u8);
}

/// Distinct tokens have distinct frames.
pub proof fn lemma_attribution_frame_injective(a: Seq<u8>, b: Seq<u8>)
    requires
        attribution_token_valid(a),
        attribution_token_valid(b),
        attribution_frame(a) == attribution_frame(b),
    ensures
        a == b,
{
    lemma_attribution_frame_layout(a);
    lemma_attribution_frame_layout(b);
}

} // verus!
