//! Wire primitives of the envelope's binary encoding.
//!
//! The envelope format encodes a `bool` as one byte (`0x00` or `0x01`), a
//! length as a compact unsigned integer (four little-endian modes selected
//! by the two low bits of the first byte, each value having exactly one
//! admissible mode), and a byte vector as its compact length followed by
//! its bytes.  Decoding reads a prefix and leaves the remainder untouched.

use vstd::arithmetic::div_mod::lemma_div_denominator;
use vstd::arithmetic::div_mod::lemma_fundamental_div_mod;
use vstd::prelude::*;

verus! {

/// Decodes a `bool` prefix: one byte, `0` or `1`.
pub open spec fn spec_bool_decode(b: Seq<u8>) -> Option<(bool, Seq<u8>)> {
    if b.len() >= 1 {
        if b[0] == 0 {
            Some((false, b.skip(1)))
        } else if b[0] == 1 {
            Some((true, b.skip(1)))
        } else {
            None
        }
    } else {
        None
    }
}

/// Encodes a `bool` as one byte.
pub open spec fn spec_bool_encode(v: bool) -> Seq<u8> {
    if v {
        seq![1u8]
    } else {
        seq![0u8]
    }
}

/// Decodes a compact unsigned integer prefix.  The two low bits of the
/// first byte pick the mode: `0` one byte for values below `2^6`, `1` two
/// little-endian bytes for values below `2^14`, `2` four for values below
/// `2^30`, `3` a marker byte followed by four little-endian bytes for the
/// rest.  A value written in a longer mode than it needs is rejected.
pub open spec fn spec_compact_decode(b: Seq<u8>) -> Option<(u32, Seq<u8>)> {
    if b.len() == 0 {
        None
    } else {
        let b0 = b[0] as int;
        if b0 % 4 == 0 {
            Some(((b0 / 4) as u32, b.skip(1)))
        } else if b0 % 4 == 1 {
            if b.len() < 2 {
                None
            } else {
                let v = b0 / 4 + (b[1] as int) * 64;
                if v >= 64 {
                    Some((v as u32, b.skip(2)))
                } else {
                    None
                }
            }
        } else if b0 % 4 == 2 {
            if b.len() < 4 {
                None
            } else {
                let v = b0 / 4 + (b[1] as int) * 64 + (b[2] as int) * 16384 + (b[3] as int)
                    * 4194304;
                if v >= 16384 {
                    Some((v as u32, b.skip(4)))
                } else {
                    None
                }
            }
        } else {
            if b0 / 4 != 0 {
                None
            } else if b.len() < 5 {
                None
            } else {
                let v = (b[1] as int) + (b[2] as int) * 256 + (b[3] as int) * 65536 + (b[4] as int)
                    * 16777216;
                if v >= 0x40000000 {
                    Some((v as u32, b.skip(5)))
                } else {
                    None
                }
            }
        }
    }
}

/// Encodes a compact unsigned integer in the shortest mode that holds it.
pub open spec fn spec_compact_encode(v: u32) -> Seq<u8> {
    let n = v as int;
    if n < 64 {
        seq![(n * 4) as u8]
    } else if n < 16384 {
        seq![((n % 64) * 4 + 1) as u8, (n / 64) as u8]
    } else if n < 0x40000000 {
        seq![
            ((n % 64) * 4 + 2) as u8,
            ((n / 64) % 256) as u8,
            ((n / 16384) % 256) as u8,
            (n / 4194304) as u8,
        ]
    } else {
        seq![
            3u8,
            (n % 256) as u8,
            ((n / 256) % 256) as u8,
            ((n / 65536) % 256) as u8,
            (n / 16777216) as u8,
        ]
    }
}

/// Decodes a byte-vector prefix: a compact length, then that many bytes.
pub open spec fn spec_bytes_decode(b: Seq<u8>) -> Option<(Seq<u8>, Seq<u8>)> {
    match spec_compact_decode(b) {
        Some((n, rest)) => if rest.len() >= n {
            Some((rest.take(n as int), rest.skip(n as int)))
        } else {
            None
        },
        None => None,
    }
}

/// Encodes a byte vector: its compact length, then its bytes.
pub open spec fn spec_bytes_encode(data: Seq<u8>) -> Seq<u8>
    recommends
        data.len() < 0x100000000,
{
    spec_compact_encode(data.len() as u32) + data
}

/// Decoding an encoded `bool`, whatever follows it, yields the value and
/// the tail.
pub proof fn lemma_bool_round_trip(v: bool, tail: Seq<u8>)
    ensures
        spec_bool_decode(spec_bool_encode(v) + tail) == Some((v, tail)),
{
    let full = spec_bool_encode(v) + tail;
    assert(full.skip(1) =~= tail);
}

/// Decoding an encoded compact integer, whatever follows it, yields the
/// value and the tail.
pub proof fn lemma_compact_round_trip(v: u32, tail: Seq<u8>)
    ensures
        spec_compact_decode(spec_compact_encode(v) + tail) == Some((v, tail)),
{
    let n = v as int;
    let enc = spec_compact_encode(v);
    let full = enc + tail;
    if n < 64 {
        assert(full[0] == (n * 4) as u8);
        assert((n * 4) % 4 == 0 && (n * 4) / 4 == n) by (nonlinear_arith)
            requires 0 <= n < 64;
        assert(full.skip(1) =~= tail);
    } else if n < 16384 {
        let b0 = (n % 64) * 4 + 1;
        assert(0 <= n % 64 < 64);
        assert(b0 % 4 == 1 && b0 / 4 == n % 64) by (nonlinear_arith)
            requires 0 <= n % 64 < 64, b0 == (n % 64) * 4 + 1;
        assert(full[0] == b0 as u8);
        assert(full[1] == (n / 64) as u8);
        assert(0 <= n / 64 < 256);
        lemma_fundamental_div_mod(n, 64);
        assert(full.skip(2) =~= tail);
    } else if n < 0x40000000 {
        let b0 = (n % 64) * 4 + 2;
        assert(0 <= n % 64 < 64);
        assert(b0 % 4 == 2 && b0 / 4 == n % 64) by (nonlinear_arith)
            requires 0 <= n % 64 < 64, b0 == (n % 64) * 4 + 2;
        assert(full[0] == b0 as u8);
        assert(full[1] == ((n / 64) % 256) as u8);
        assert(full[2] == ((n / 16384) % 256) as u8);
        assert(full[3] == (n / 4194304) as u8);
        assert(0 <= n / 4194304 < 256);
        lemma_fundamental_div_mod(n, 64);
        lemma_fundamental_div_mod(n / 64, 256);
        lemma_div_denominator(n, 64, 256);
        lemma_fundamental_div_mod(n / 16384, 256);
        lemma_div_denominator(n, 16384, 256);
        assert(n / 64 / 256 == n / 16384);
        assert(n / 16384 / 256 == n / 4194304);
        assert(n % 64 + ((n / 64) % 256) * 64 + ((n / 16384) % 256) * 16384 + (n / 4194304)
            * 4194304 == n);
        assert(full.skip(4) =~= tail);
    } else {
        assert(full[0] == 3u8);
        assert(full[1] == (n % 256) as u8);
        assert(full[2] == ((n / 256) % 256) as u8);
        assert(full[3] == ((n / 65536) % 256) as u8);
        assert(full[4] == (n / 16777216) as u8);
        assert(0 <= n / 16777216 < 256);
        lemma_fundamental_div_mod(n, 256);
        lemma_fundamental_div_mod(n / 256, 256);
        lemma_div_denominator(n, 256, 256);
        lemma_fundamental_div_mod(n / 65536, 256);
        lemma_div_denominator(n, 65536, 256);
        assert(n / 256 / 256 == n / 65536);
        assert(n / 65536 / 256 == n / 16777216);
        assert(n % 256 + ((n / 256) % 256) * 256 + ((n / 65536) % 256) * 65536 + (n / 16777216)
            * 16777216 == n);
        assert(full.skip(5) =~= tail);
    }
}

/// Decoding an encoded byte vector, whatever follows it, yields the bytes
/// and the tail.
pub proof fn lemma_bytes_round_trip(data: Seq<u8>, tail: Seq<u8>)
    requires
        data.len() < 0x100000000,
    ensures
        spec_bytes_decode(spec_bytes_encode(data) + tail) == Some((data, tail)),
{
    let n = data.len() as u32;
    let enc = spec_compact_encode(n);
    assert(spec_bytes_encode(data) + tail =~= enc + (data + tail));
    lemma_compact_round_trip(n, data + tail);
    assert((data + tail).take(n as int) =~= data);
    assert((data + tail).skip(n as int) =~= tail);
}

/// Reads a `bool` at `pos`; on success the returned position starts the
/// remainder.
pub fn decode_bool(b: &Vec<u8>, pos: usize) -> (r: Option<(bool, usize)>)
    requires
        pos <= b@.len(),
    ensures
        match spec_bool_decode(b@.skip(pos as int)) {
            Some(p) => r matches Some(q) && q.0 == p.0 && pos <= q.1 <= b@.len() && b@.skip(
                q.1 as int,
            ) == p.1,
            None => r is None,
        },
{
    let ghost t = b@.skip(pos as int);
    if pos >= b.len() {
        return None;
    }
    proof {
        assert(t[0] == b@[pos as int]);
        assert(t.skip(1) =~= b@.skip(pos as int + 1));
    }
    let byte = b[pos];
    if byte == 0 {
        Some((false, pos + 1))
    } else if byte == 1 {
        Some((true, pos + 1))
    } else {
        None
    }
}

/// Reads a compact unsigned integer at `pos`; on success the returned
/// position starts the remainder.
pub fn decode_compact(b: &Vec<u8>, pos: usize) -> (r: Option<(u32, usize)>)
    requires
        pos <= b@.len(),
    ensures
        match spec_compact_decode(b@.skip(pos as int)) {
            Some(p) => r matches Some(q) && q.0 == p.0 && pos <= q.1 <= b@.len() && b@.skip(
                q.1 as int,
            ) == p.1,
            None => r is None,
        },
{
    let ghost t = b@.skip(pos as int);
    if pos >= b.len() {
        return None;
    }
    proof {
        assert(t.len() == b@.len() - pos);
        assert forall|k: int| 0 <= k < t.len() implies #[trigger] t[k] == b@[pos + k] by {}
    }
    let b0 = b[pos];
    let mode = b0 % 4;
    if mode == 0 {
        proof {
            assert(t.skip(1) =~= b@.skip(pos as int + 1));
        }
        Some(((b0 / 4) as u32, pos + 1))
    } else if mode == 1 {
        if b.len() - pos < 2 {
            return None;
        }
        let v: u32 = (b0 / 4) as u32 + (b[pos + 1] as u32) * 64;
        if v >= 64 {
            proof {
                assert(t.skip(2) =~= b@.skip(pos as int + 2));
            }
            Some((v, pos + 2))
        } else {
            None
        }
    } else if mode == 2 {
        if b.len() - pos < 4 {
            return None;
        }
        let v: u32 = (b0 / 4) as u32 + (b[pos + 1] as u32) * 64 + (b[pos + 2] as u32) * 16384 + (b[
            pos + 3] as u32) * 4194304;
        if v >= 16384 {
            proof {
                assert(t.skip(4) =~= b@.skip(pos as int + 4));
            }
            Some((v, pos + 4))
        } else {
            None
        }
    } else {
        if b0 / 4 != 0 {
            return None;
        }
        if b.len() - pos < 5 {
            return None;
        }
        let v: u64 = (b[pos + 1] as u64) + (b[pos + 2] as u64) * 256 + (b[pos + 3] as u64) * 65536
            + (b[pos + 4] as u64) * 16777216;
        if v >= 0x40000000 {
            proof {
                assert(t.skip(5) =~= b@.skip(pos as int + 5));
            }
            Some((v as u32, pos + 5))
        } else {
            None
        }
    }
}

/// The bytes of `v` from `from` (inclusive) to `to` (exclusive), copied.
pub fn copy_range(v: &Vec<u8>, from: usize, to: usize) -> (r: Vec<u8>)
    requires
        from <= to <= v@.len(),
    ensures
        r@ == v@.subrange(from as int, to as int),
{
    let mut out: Vec<u8> = Vec::new();
    let mut i: usize = from;
    while i < to
        invariant
            from <= i <= to <= v@.len(),
            out@ =~= v@.subrange(from as int, i as int),
        decreases to - i,
    {
        out.push(v[i]);
        proof {
            assert(out@ =~= v@.subrange(from as int, i as int + 1));
        }
        i = i + 1;
    }
    proof {
        assert(out@ =~= v@.subrange(from as int, to as int));
    }
    out
}

/// Reads a byte vector (compact length, then bytes) at `pos`; on success
/// the returned position starts the remainder.
pub fn decode_byte_vec(b: &Vec<u8>, pos: usize) -> (r: Option<(Vec<u8>, usize)>)
    requires
        pos <= b@.len(),
    ensures
        match spec_bytes_decode(b@.skip(pos as int)) {
            Some(p) => r matches Some(q) && q.0@ == p.0 && pos <= q.1 <= b@.len() && b@.skip(
                q.1 as int,
            ) == p.1,
            None => r is None,
        },
{
    let ghost t = b@.skip(pos as int);
    let (n, after_len) = match decode_compact(b, pos) {
        Some(p) => p,
        None => {
            return None;
        },
    };
    let remaining = b.len() - after_len;
    if (n as u64) > (remaining as u64) {
        return None;
    }
    let n_usize = n as usize;
    let data = copy_range(b, after_len, after_len + n_usize);
    proof {
        let rest = b@.skip(after_len as int);
        assert(rest.take(n as int) =~= b@.subrange(after_len as int, after_len + n_usize));
        assert(rest.skip(n as int) =~= b@.skip(after_len + n_usize));
    }
    Some((data, after_len + n_usize))
}

/// Writes a compact unsigned integer.
pub fn encode_compact(v: u32) -> (r: Vec<u8>)
    ensures
        r@ == spec_compact_encode(v),
{
    let mut out: Vec<u8> = Vec::new();
    if v < 64 {
        out.push((v * 4) as u8);
    } else if v < 16384 {
        out.push(((v % 64) * 4 + 1) as u8);
        out.push((v / 64) as u8);
    } else if v < 0x40000000 {
        out.push(((v % 64) * 4 + 2) as u8);
        out.push(((v / 64) % 256) as u8);
        out.push(((v / 16384) % 256) as u8);
        out.push((v / 4194304) as u8);
    } else {
        out.push(3u8);
        out.push((v % 256) as u8);
        out.push(((v / 256) % 256) as u8);
        out.push(((v / 65536) % 256) as u8);
        out.push((v / 16777216) as u8);
    }
    proof {
        assert(out@ =~= spec_compact_encode(v));
    }
    out
}

/// Writes a `bool`.
pub fn encode_bool(v: bool) -> (r: Vec<u8>)
    ensures
        r@ == spec_bool_encode(v),
{
    let mut out: Vec<u8> = Vec::new();
    if v {
        out.push(1u8);
    } else {
        out.push(0u8);
    }
    proof {
        assert(out@ =~= spec_bool_encode(v));
    }
    out
}

/// Writes a byte vector: its compact length, then its bytes.
pub fn encode_byte_vec(data: &Vec<u8>) -> (r: Vec<u8>)
    requires
        data@.len() < 0x100000000,
    ensures
        r@ == spec_bytes_encode(data@),
{
    let mut out = encode_compact(data.len() as u32);
    let mut i: usize = 0;
    while i < data.len()
        invariant
            i <= data@.len(),
            out@ =~= spec_compact_encode(data@.len() as u32) + data@.take(i as int),
        decreases data@.len() - i,
    {
        out.push(data[i]);
        proof {
            assert(out@ =~= spec_compact_encode(data@.len() as u32) + data@.take(i as int + 1));
        }
        i = i + 1;
    }
    proof {
        assert(data@.take(data@.len() as int) =~= data@);
    }
    out
}

} // verus!
