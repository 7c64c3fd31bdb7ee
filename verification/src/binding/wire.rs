//! How channel identifiers, track identifiers and audio frames cross the
//! boundary between the host and a plugin: as `i64` arguments and as bytes in
//! the plugin's memory.

use vstd::prelude::*;

use super::channel::{i64_of_bits, Frame, STEREO_FRAME_BYTE_SIZE};

verus! {

/// Bytes in an encoded track identifier.
pub const TRACK_ID_BYTE_SIZE: usize = 16;

/// 256 to the power `n`.
pub open spec fn pow256(n: nat) -> nat
    decreases n,
{
    if n == 0 {
        1
    } else {
        256 * pow256((n - 1) as nat)
    }
}

/// The number that the bytes `s` spell in big-endian order.
pub open spec fn be_value(s: Seq<u8>) -> nat
    decreases s.len(),
{
    if s.len() == 0 {
        0
    } else {
        be_value(s.drop_last()) * 256 + (s.last() as nat)
    }
}

/// The `n` low-order bytes of `x`, most significant first.
pub open spec fn be_bytes(x: nat, n: nat) -> Seq<u8>
    decreases n,
{
    if n == 0 {
        seq![]
    } else {
        be_bytes(x / 256, (n - 1) as nat).push((x % 256) as u8)
    }
}

/// `n` bytes spell a number below `256^n`.
pub proof fn lemma_be_value_bound(s: Seq<u8>)
    ensures
        be_value(s) < pow256(s.len()),
    decreases s.len(),
{
    if s.len() > 0 {
        lemma_be_value_bound(s.drop_last());
        let a = be_value(s.drop_last());
        let p = pow256((s.len() - 1) as nat);
        let b = s.last() as nat;
        assert(a * 256 + b < 256 * p) by (nonlinear_arith)
            requires
                a < p,
                b < 256,
        ;
    }
}

/// Writing a number below `256^n` in `n` big-endian bytes and reading them back gives the number.
pub proof fn lemma_be_bytes_value(x: nat, n: nat)
    requires
        x < pow256(n),
    ensures
        be_bytes(x, n).len() == n,
        be_value(be_bytes(x, n)) == x,
    decreases n,
{
    if n > 0 {
        let p = pow256((n - 1) as nat);
        assert(x / 256 < p) by (nonlinear_arith)
            requires
                x < 256 * p,
        ;
        lemma_be_bytes_value(x / 256, (n - 1) as nat);
        assert(be_bytes(x, n).drop_last() == be_bytes(x / 256, (n - 1) as nat));
        assert((x / 256) * 256 + x % 256 == x) by (nonlinear_arith);
    }
}

/// Reading bytes as a big-endian number and writing that number back in as many bytes gives the bytes.
pub proof fn lemma_be_value_bytes(s: Seq<u8>)
    ensures
        be_bytes(be_value(s), s.len()) == s,
    decreases s.len(),
{
    if s.len() > 0 {
        let a = be_value(s.drop_last());
        let b = s.last() as nat;
        assert((a * 256 + b) / 256 == a && (a * 256 + b) % 256 == b) by (nonlinear_arith)
            requires
                b < 256,
        ;
        lemma_be_value_bytes(s.drop_last());
        assert(be_bytes(be_value(s), s.len()) =~= s.drop_last().push(s.last()));
    }
}

/// `256^16` is `2^128`: every `u128` fits in sixteen bytes.
pub proof fn lemma_u128_fits()
    ensures
        pow256(16) == 0x1_0000_0000_0000_0000_0000_0000_0000_0000,
{
    reveal_with_fuel(pow256, 17);
}

/// The sixteen bytes of `x` in big-endian order.
///
/// Calls `u128::to_be_bytes`, documented as the memory representation of the
/// integer in big-endian byte order.
#[verifier::external_body]
fn u128_to_be_bytes(x: u128) -> (r: [u8; 16])
    ensures
        r@ == be_bytes(x as nat, 16),
{
    x.to_be_bytes()
}

/// The `u128` that the sixteen bytes `b` spell in big-endian order.
///
/// Calls `u128::from_be_bytes`, documented as building the integer from its
/// big-endian memory representation.
#[verifier::external_body]
fn u128_from_be_bytes(b: [u8; 16]) -> (r: u128)
    ensures
        r == be_value(b@),
{
    u128::from_be_bytes(b)
}

/// The bytes of `s` as an array of `N`, when `s` holds exactly `N` bytes.
///
/// Calls `TryFrom<&[u8]>` for `[u8; N]`, which succeeds exactly when the
/// lengths agree and then copies the bytes in order.
#[verifier::external_body]
fn array_from_slice<const N: usize>(s: &[u8]) -> (r: Option<[u8; N]>)
    ensures
        r is Some <==> s@.len() == N,
        r matches Some(a) ==> a@ == s@,
{
    <[u8; N]>::try_from(s).ok()
}

/// The channel identifier that a plugin passed as `raw`: the `u64` with the
/// same bits.
pub fn decode_channel_id(raw: i64) -> (r: u64)
    ensures
        i64_of_bits(r) == raw,
        r == (if raw >= 0 { raw as int } else { raw + 0x1_0000_0000_0000_0000 }),
{
    let r: u64 = raw as u64;
    assert(i64_of_bits(r) == raw) by (bit_vector)
        requires
            r == raw as u64,
    ;
    r
}

/// Whether the plugin asked for stereo audio: any positive `raw` does.
pub fn decode_is_stereo(raw: i64) -> (r: bool)
    ensures
        r == (raw > 0),
{
    raw > 0
}

/// The bytes under which a track identifier is handed to a plugin: its
/// sixteen bytes in big-endian order.
pub fn encode_track_id(track_id: u128) -> (r: [u8; 16])
    ensures
        r@ == be_bytes(track_id as nat, 16),
        r@.len() == TRACK_ID_BYTE_SIZE,
{
    proof {
        lemma_u128_fits();
        lemma_be_bytes_value(track_id as nat, 16);
    }
    u128_to_be_bytes(track_id)
}

/// The track identifier that a plugin handed back as `bytes`, if they are
/// exactly sixteen bytes; they are read in big-endian order.
pub fn decode_track_id(bytes: &[u8]) -> (r: Option<u128>)
    ensures
        r is Some <==> bytes@.len() == TRACK_ID_BYTE_SIZE,
        r matches Some(id) ==> id == be_value(bytes@),
{
    match array_from_slice::<16>(bytes) {
        Some(a) => Some(u128_from_be_bytes(a)),
        None => None,
    }
}

/// The audio frame that a plugin handed over as `bytes`, if they are exactly
/// one frame long.
pub fn frame_from_bytes(bytes: &[u8]) -> (r: Option<Frame>)
    ensures
        r is Some <==> bytes@.len() == STEREO_FRAME_BYTE_SIZE,
        r matches Some(f) ==> f@ == bytes@,
{
    array_from_slice::<STEREO_FRAME_BYTE_SIZE>(bytes)
}

/// A channel identifier that the host hands a plugin as an `i64` comes back
/// as the same `u64`.
pub proof fn law_channel_id_round_trip(id: u64, raw: i64, back: u64)
    requires
        raw == i64_of_bits(id),
        i64_of_bits(back) == raw,
    ensures
        back == id,
{
}

/// A track identifier that the host writes into a plugin's memory reads back
/// as the same identifier.
pub proof fn law_track_id_round_trip(track_id: u128)
    ensures
        be_bytes(track_id as nat, 16).len() == TRACK_ID_BYTE_SIZE,
        be_value(be_bytes(track_id as nat, 16)) == track_id,
{
    lemma_u128_fits();
    lemma_be_bytes_value(track_id as nat, 16);
}

} // verus!
