//! Block domain model: hashes, heights, headers, and a binary block
//! deserializer with an exact byte-level contract.
//!
//! A serialized block is a 140-byte fixed header (version, previous block
//! hash, merkle root, commitment bytes, time, difficulty bits, nonce),
//! followed by a length-prefixed solution, followed by the raw transaction
//! bytes, which this model keeps unparsed.

use vstd::prelude::*;
use vstd::slice::{slice_subrange, slice_to_vec};

use crate::serialization::SerializationError;

verus! {

/// A 32-byte block hash.
#[derive(Clone, Copy, Debug, PartialEq, Eq)]
pub struct Hash(pub [u8; 32]);

impl View for Hash {
    type V = Seq<u8>;

    open spec fn view(&self) -> Seq<u8> {
        self.0@
    }
}

/// A block height on a chain.
#[derive(Clone, Copy, Debug, PartialEq, Eq, Structural)]
pub struct Height(pub u32);

/// The fixed fields of a block header.
#[derive(Clone, Debug)]
pub struct Header {
    /// The block version number.
    pub version: u32,
    /// The hash declared for the previous block in the chain.
    pub previous_block_hash: Hash,
    /// The merkle root of the block's transactions.
    pub merkle_root: [u8; 32],
    /// The commitment bytes (the meaning varies with the block version).
    pub commitment_bytes: [u8; 32],
    /// The declared block time, in seconds.
    pub time: u32,
    /// The compact difficulty threshold.
    pub difficulty_bits: u32,
    /// The miner nonce.
    pub nonce: [u8; 32],
    /// The length-prefixed solution bytes.
    pub solution: Vec<u8>,
}

/// A block: its header and its raw transaction bytes.
#[derive(Clone, Debug)]
pub struct Block {
    /// The parsed header.
    pub header: Header,
    /// The serialized transactions, kept as raw bytes.
    pub transaction_bytes: Vec<u8>,
}

/// The value of the two bytes at `i` of `s`, read little-endian.
pub open spec fn le2(s: Seq<u8>, i: int) -> int
    recommends
        0 <= i,
        i + 2 <= s.len(),
{
    s[i] + 0x100 * s[i + 1]
}

/// The value of the three bytes at `i` of `s`, read little-endian.
pub open spec fn le3(s: Seq<u8>, i: int) -> int
    recommends
        0 <= i,
        i + 3 <= s.len(),
{
    s[i] + 0x100 * s[i + 1] + 0x1_0000 * s[i + 2]
}

/// The value of the four bytes at `i` of `s`, read little-endian.
pub open spec fn le4(s: Seq<u8>, i: int) -> int
    recommends
        0 <= i,
        i + 4 <= s.len(),
{
    s[i] + 0x100 * s[i + 1] + 0x1_0000 * s[i + 2] + 0x100_0000 * s[i + 3]
}

/// The value of the eight bytes at `i` of `s`, read little-endian.
pub open spec fn le8(s: Seq<u8>, i: int) -> int
    recommends
        0 <= i,
        i + 8 <= s.len(),
{
    le4(s, i) + 0x1_0000_0000 * le4(s, i + 4)
}

/// Decodes the variable-length integer at offset `i` of `s`: the value and
/// the number of bytes consumed. `None` where the bytes are truncated or the
/// value is written in a longer form than it needs (a non-canonical encoding).
pub open spec fn compact_size_decode(s: Seq<u8>, i: int) -> Option<(int, int)>
    recommends
        0 <= i,
{
    if s.len() < i + 1 {
        None
    } else if s[i] < 0xfd {
        Some((s[i] as int, 1))
    } else if s[i] == 0xfd {
        if s.len() < i + 3 {
            None
        } else if le2(s, i + 1) >= 0xfd {
            Some((le2(s, i + 1), 3))
        } else {
            None
        }
    } else if s[i] == 0xfe {
        if s.len() < i + 5 {
            None
        } else if le4(s, i + 1) >= 0x1_0000 {
            Some((le4(s, i + 1), 5))
        } else {
            None
        }
    } else {
        if s.len() < i + 9 {
            None
        } else if le8(s, i + 1) >= 0x1_0000_0000 {
            Some((le8(s, i + 1), 9))
        } else {
            None
        }
    }
}

/// The block height declared by the first transaction of the transaction
/// bytes `t` (a transaction count followed by transactions): the height that
/// the leading script operation of that transaction's first input pushes, by
/// the coinbase convention, as one to four little-endian bytes. `None` where
/// `t` does not reach such a push.
///
/// The first transaction starts with a four-byte version word; when its high
/// bit is set, a four-byte version group id follows, and a version-5
/// transaction then carries twelve more bytes (branch id, lock time, expiry
/// height) before its input count. Each input starts with a 36-byte outpoint
/// followed by its length-prefixed script.
pub open spec fn coinbase_height_of(t: Seq<u8>) -> Option<int> {
    match compact_size_decode(t, 0) {
        None => None,
        Some(ct) => if ct.0 < 1 {
            None
        } else {
            let p = ct.1;
            if t.len() < p + 4 {
                None
            } else {
                let vraw = le4(t, p);
                let overwintered = vraw >= 0x8000_0000;
                let version = if overwintered {
                    vraw - 0x8000_0000
                } else {
                    vraw
                };
                let q = if !overwintered {
                    p + 4
                } else if version == 5 {
                    p + 20
                } else {
                    p + 8
                };
                match compact_size_decode(t, q) {
                    None => None,
                    Some(ci) => if ci.0 < 1 {
                        None
                    } else {
                        let sl = q + ci.1 + 36;
                        match compact_size_decode(t, sl) {
                            None => None,
                            Some(cs) => {
                                let r = sl + cs.1;
                                if r + cs.0 > t.len() || cs.0 < 1 {
                                    None
                                } else {
                                    let op = t[r];
                                    if 1 <= op <= 4 && cs.0 >= 1 + op {
                                        if op == 1 {
                                            Some(t[r + 1] as int)
                                        } else if op == 2 {
                                            Some(le2(t, r + 1))
                                        } else if op == 3 {
                                            Some(le3(t, r + 1))
                                        } else {
                                            Some(le4(t, r + 1))
                                        }
                                    } else {
                                        None
                                    }
                                }
                            },
                        }
                    },
                }
            }
        },
    }
}

/// Whether `s` is a well-formed serialized block: long enough for the fixed
/// header, with a canonical solution length prefix at offset 140 and at least
/// that many solution bytes after the prefix.
pub open spec fn block_well_formed(s: Seq<u8>) -> bool {
    &&& s.len() >= 140
    &&& compact_size_decode(s, 140) matches Some(info)
    &&& 140 + info.1 + info.0 <= s.len()
}

/// The transaction bytes of the serialized block `s`: everything behind the
/// fixed header and the length-prefixed solution.
pub open spec fn block_transactions_of(s: Seq<u8>) -> Seq<u8>
    recommends
        block_well_formed(s),
{
    let info = compact_size_decode(s, 140)->Some_0;
    s.subrange(140 + info.1 + info.0, s.len() as int)
}

/// Whether block `b` holds exactly the fields serialized in `s`: each header
/// field read from its fixed offset, the solution from behind its length
/// prefix, and the transaction bytes from the remainder.
pub open spec fn block_matches(b: Block, s: Seq<u8>) -> bool
    recommends
        block_well_formed(s),
{
    let info = compact_size_decode(s, 140)->Some_0;
    let sol_start = 140 + info.1;
    let sol_end = sol_start + info.0;
    &&& b.header.version == le4(s, 0)
    &&& b.header.previous_block_hash@ == s.subrange(4, 36)
    &&& b.header.merkle_root@ == s.subrange(36, 68)
    &&& b.header.commitment_bytes@ == s.subrange(68, 100)
    &&& b.header.time == le4(s, 100)
    &&& b.header.difficulty_bits == le4(s, 104)
    &&& b.header.nonce@ == s.subrange(108, 140)
    &&& b.header.solution@ == s.subrange(sol_start, sol_end)
    &&& b.transaction_bytes@ == block_transactions_of(s)
}

/// Reads the four bytes at `start` as a little-endian integer.
fn read_u32_le(bytes: &[u8], start: usize) -> (r: u32)
    requires
        start + 4 <= bytes@.len(),
    ensures
        r == le4(bytes@, start as int),
{
    let b0 = bytes[start] as u32;
    let b1 = bytes[start + 1] as u32;
    let b2 = bytes[start + 2] as u32;
    let b3 = bytes[start + 3] as u32;
    b0 + 0x100 * b1 + 0x1_0000 * b2 + 0x100_0000 * b3
}

/// Copies the 32 bytes at `start` into an array.
fn read_array_32(bytes: &[u8], start: usize) -> (r: [u8; 32])
    requires
        start + 32 <= bytes@.len(),
    ensures
        r@ == bytes@.subrange(start as int, start as int + 32),
{
    let n: usize = bytes.len();
    let mut out: [u8; 32] = [0u8; 32];
    let mut i: usize = 0;
    while i < 32
        invariant
            0 <= i <= 32,
            n == bytes@.len(),
            start + 32 <= n,
            forall|j: int| 0 <= j < i ==> out@[j] == bytes@[start + j],
        decreases 32 - i,
    {
        out[i] = bytes[start + i];
        i += 1;
    }
    proof {
        assert(out@ =~= bytes@.subrange(start as int, start as int + 32));
    }
    out
}

/// Copies the `len` bytes at `start` into a vector.
fn read_vec(bytes: &[u8], start: usize, len: usize) -> (r: Vec<u8>)
    requires
        start + len <= bytes@.len(),
    ensures
        r@ == bytes@.subrange(start as int, start as int + len as int),
{
    let n: usize = bytes.len();
    assert(start + len <= n);
    slice_to_vec(slice_subrange(bytes, start, start + len))
}

/// Reads the variable-length integer at `start`: the value and the number of
/// bytes consumed, or `None` where the encoding is truncated or non-canonical.
fn read_compact_size(bytes: &[u8], start: usize) -> (r: Option<(u64, usize)>)
    requires
        start <= bytes@.len(),
    ensures
        match r {
            Some(p) => compact_size_decode(bytes@, start as int) == Some(
                (p.0 as int, p.1 as int),
            ) && start + p.1 <= bytes@.len(),
            None => compact_size_decode(bytes@, start as int) is None,
        },
{
    if bytes.len() - start < 1 {
        return None;
    }
    let b0 = bytes[start];
    if b0 < 0xfd {
        Some((b0 as u64, 1))
    } else if b0 == 0xfd {
        if bytes.len() - start < 3 {
            None
        } else {
            let v: u64 = (bytes[start + 1] as u64) + 0x100 * (bytes[start + 2] as u64);
            if v >= 0xfd {
                Some((v, 3))
            } else {
                None
            }
        }
    } else if b0 == 0xfe {
        if bytes.len() - start < 5 {
            None
        } else {
            let v: u64 = read_u32_le(bytes, start + 1) as u64;
            if v >= 0x1_0000 {
                Some((v, 5))
            } else {
                None
            }
        }
    } else {
        if bytes.len() - start < 9 {
            None
        } else {
            let lo = read_u32_le(bytes, start + 1) as u64;
            let hi = read_u32_le(bytes, start + 5) as u64;
            let v: u64 = lo + 0x1_0000_0000 * hi;
            if v >= 0x1_0000_0000 {
                Some((v, 9))
            } else {
                None
            }
        }
    }
}

impl Block {
    /// Deserializes a block from its binary form. Succeeds exactly on
    /// well-formed bytes, and then returns the block whose every field is the
    /// one serialized in the input.
    pub fn zcash_deserialize(bytes: &[u8]) -> (r: Result<Block, SerializationError>)
        ensures
            r is Ok <==> block_well_formed(bytes@),
            r matches Ok(b) ==> block_matches(b, bytes@),
            r matches Err(e) ==> e matches SerializationError::Parse(m) && m@
                == "malformed block bytes"@,
    {
        if bytes.len() < 140 {
            return Err(SerializationError::Parse("malformed block bytes"));
        }
        let (sol_len_raw, prefix_len) = match read_compact_size(bytes, 140) {
            Some(p) => p,
            None => {
                return Err(SerializationError::Parse("malformed block bytes"));
            },
        };
        let remaining = bytes.len() - 140 - prefix_len;
        if sol_len_raw > remaining as u64 {
            return Err(SerializationError::Parse("malformed block bytes"));
        }
        let sol_len = sol_len_raw as usize;
        let sol_start = 140 + prefix_len;
        let version = read_u32_le(bytes, 0);
        let previous_block_hash = Hash(read_array_32(bytes, 4));
        let merkle_root = read_array_32(bytes, 36);
        let commitment_bytes = read_array_32(bytes, 68);
        let time = read_u32_le(bytes, 100);
        let difficulty_bits = read_u32_le(bytes, 104);
        let nonce = read_array_32(bytes, 108);
        let solution = read_vec(bytes, sol_start, sol_len);
        let body_start = sol_start + sol_len;
        let transaction_bytes = read_vec(bytes, body_start, bytes.len() - body_start);
        Ok(
            Block {
                header: Header {
                    version,
                    previous_block_hash,
                    merkle_root,
                    commitment_bytes,
                    time,
                    difficulty_bits,
                    nonce,
                    solution,
                },
                transaction_bytes,
            },
        )
    }

    /// Returns the block height that the coinbase transaction declares in its
    /// leading script push, where the transaction bytes hold one.
    pub fn coinbase_height(&self) -> (r: Option<Height>)
        ensures
            match r {
                Some(h) => coinbase_height_of(self.transaction_bytes@) == Some(h.0 as int),
                None => coinbase_height_of(self.transaction_bytes@) is None,
            },
    {
        let t: &[u8] = self.transaction_bytes.as_slice();
        let (tx_count, c0) = match read_compact_size(t, 0) {
            Some(x) => x,
            None => {
                return None;
            },
        };
        if tx_count < 1 {
            return None;
        }
        let p = c0;
        if t.len() - p < 4 {
            return None;
        }
        let vraw = read_u32_le(t, p);
        let overwintered = vraw >= 0x8000_0000;
        let version = if overwintered {
            vraw - 0x8000_0000
        } else {
            vraw
        };
        let q = if !overwintered {
            p + 4
        } else if version == 5 {
            if t.len() - p < 20 {
                return None;
            }
            p + 20
        } else {
            if t.len() - p < 8 {
                return None;
            }
            p + 8
        };
        let (n_in, c1) = match read_compact_size(t, q) {
            Some(x) => x,
            None => {
                return None;
            },
        };
        if n_in < 1 {
            return None;
        }
        let after_vin = q + c1;
        if t.len() - after_vin < 36 {
            return None;
        }
        let sl = after_vin + 36;
        let (script_len_raw, c2) = match read_compact_size(t, sl) {
            Some(x) => x,
            None => {
                return None;
            },
        };
        let r_pos = sl + c2;
        if script_len_raw > (t.len() - r_pos) as u64 {
            return None;
        }
        let script_len = script_len_raw as usize;
        if script_len < 1 {
            return None;
        }
        let op = t[r_pos];
        if 1 <= op && op <= 4 && script_len >= 1 + (op as usize) {
            let h: u32 = if op == 1 {
                t[r_pos + 1] as u32
            } else if op == 2 {
                (t[r_pos + 1] as u32) + 0x100 * (t[r_pos + 2] as u32)
            } else if op == 3 {
                (t[r_pos + 1] as u32) + 0x100 * (t[r_pos + 2] as u32) + 0x1_0000 * (t[r_pos
                    + 3] as u32)
            } else {
                read_u32_le(t, r_pos + 1)
            };
            Some(Height(h))
        } else {
            None
        }
    }
}

/// Whether two blocks are bit-identical: every header field and the raw
/// transaction bytes agree.
pub open spec fn blocks_agree(b1: Block, b2: Block) -> bool {
    &&& b1.header.version == b2.header.version
    &&& b1.header.previous_block_hash@ == b2.header.previous_block_hash@
    &&& b1.header.merkle_root@ == b2.header.merkle_root@
    &&& b1.header.commitment_bytes@ == b2.header.commitment_bytes@
    &&& b1.header.time == b2.header.time
    &&& b1.header.difficulty_bits == b2.header.difficulty_bits
    &&& b1.header.nonce@ == b2.header.nonce@
    &&& b1.header.solution@ == b2.header.solution@
    &&& b1.transaction_bytes@ == b2.transaction_bytes@
}

/// Deserializing the same bytes twice yields bit-identical blocks: the
/// deserialization contract pins every field of the result, so any two blocks
/// that match the same serialization agree everywhere.
pub proof fn lemma_block_matches_unique(b1: Block, b2: Block, s: Seq<u8>)
    requires
        block_matches(b1, s),
        block_matches(b2, s),
    ensures
        blocks_agree(b1, b2),
{
}

} // verus!
