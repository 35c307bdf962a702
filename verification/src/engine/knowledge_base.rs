//! The key under which an analysis is cached: a BLAKE3 digest of the path and its
//! modification time. The cache itself is a database the caller keeps.
use vstd::prelude::*;
use vstd::string::StringSliceAdditionalSpecFns;
use crate::duplicates::{blake3_hex, is_hex_digit, ContentHasher};

verus! {

/// How long a cached analysis stays valid, in seconds.
pub const DEFAULT_TTL_SECONDS: i64 = 7 * 24 * 3600;
/// The file name of the cache database.
pub const KB_DB_NAME: &'static str = "cdrive_kb_v1.db";
/// The schema version written into the cache database.
pub const SCHEMA_VERSION: i32 = 1;

/// The `k` low bytes of `n`, least significant first.
pub open spec fn le_bytes(n: nat, k: nat) -> Seq<u8>
    decreases k,
{
    if k == 0 {
        Seq::empty()
    } else {
        seq![(n % 256) as u8] + le_bytes(n / 256, (k - 1) as nat)
    }
}

/// The eight bytes of a number, least significant first.
pub fn u64_le_bytes(n: u64) -> (r: Vec<u8>)
    ensures
        r@ == le_bytes(n as nat, 8),
{
    let mut r: Vec<u8> = Vec::new();
    let mut rest: u64 = n;
    let mut k: usize = 0;
    while k < 8
        invariant
            k <= 8,
            r@ + le_bytes(rest as nat, (8 - k) as nat) == le_bytes(n as nat, 8),
        decreases 8 - k,
    {
        let b = (rest % 256) as u8;
        proof {
            assert(le_bytes(rest as nat, (8 - k) as nat) == seq![b] + le_bytes((rest / 256) as nat, (8 - k - 1) as nat));
            assert(r@.push(b) + le_bytes((rest / 256) as nat, (8 - k - 1) as nat) =~= r@ + le_bytes(rest as nat, (8 - k) as nat));
        }
        r.push(b);
        rest = rest / 256;
        k = k + 1;
    }
    assert(le_bytes(rest as nat, 0) =~= Seq::<u8>::empty());
    assert(r@ + Seq::<u8>::empty() =~= r@);
    r
}

/// The cache key of a path modified at `modified`: the BLAKE3 digest, in lower-case hex,
/// of the path's UTF-8 bytes followed by the time's eight little-endian bytes.
pub fn cache_key(path: &str, modified: u64) -> (r: String)
    ensures
        r@ == blake3_hex(path.spec_bytes() + le_bytes(modified as nat, 8)),
        r@.len() == 64,
        forall|i: int| 0 <= i < 64 ==> is_hex_digit(#[trigger] r@[i]),
{
    let mut hasher = ContentHasher::new();
    hasher.update(path.as_bytes());
    let time = u64_le_bytes(modified);
    hasher.update(time.as_slice());
    hasher.finalize_hex()
}

} // verus!
