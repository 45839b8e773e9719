//! Verified framing check for OpenPGP binary packet streams.
//!
//! The packet parser of the pgp crate aborts the process on one class of
//! input: a stream ending in an indeterminate-length packet whose body is
//! empty makes it consume zero bytes and fail an internal assertion. This
//! module checks, before any bytes reach that parser, that a stream is a
//! sequence of packets with explicit lengths that tile it exactly — the
//! only framing the pgp serializer itself ever emits. Indeterminate and
//! partial (streamed) lengths are rejected outright, and the packet count
//! is capped, which also bounds the recursion depth of everything later
//! built from the packets.

use vstd::prelude::*;

verus! {

/// The most packets accepted in one signature artifact: a signed message is
/// a handful of packets (one-pass marker, literal data, signatures).
pub const MESSAGE_PACKET_LIMIT: u64 = 16;

/// The most packets accepted in one public-key blob: a key carries user ids,
/// subkeys and certification signatures, so the cap is generous.
pub const KEY_PACKET_LIMIT: u64 = 4096;

/// A big-endian four-byte integer at offset `i`.
pub open spec fn be_quad(bytes: Seq<u8>, i: int) -> int {
    bytes[i] as int * 0x1000000 + bytes[i + 1] as int * 0x10000 + bytes[i + 2] as int * 256
        + bytes[i + 3] as int
}

/// The header of the first packet of `bytes`: `Some((header_len, body_len))`
/// when it is well formed and carries an explicit body length. `None` for
/// truncated headers, for old-format indeterminate lengths and for
/// new-format partial lengths.
pub open spec fn packet_header(bytes: Seq<u8>) -> Option<(int, int)> {
    if bytes.len() == 0 {
        None
    } else {
        let b0 = bytes[0] as int;
        if b0 < 128 {
            None
        } else if b0 < 192 {
            let t = b0 % 4;
            if t == 0 {
                if bytes.len() >= 2 {
                    Some((2, bytes[1] as int))
                } else {
                    None
                }
            } else if t == 1 {
                if bytes.len() >= 3 {
                    Some((3, bytes[1] as int * 256 + bytes[2] as int))
                } else {
                    None
                }
            } else if t == 2 {
                if bytes.len() >= 5 {
                    Some((5, be_quad(bytes, 1)))
                } else {
                    None
                }
            } else {
                None
            }
        } else {
            if bytes.len() < 2 {
                None
            } else {
                let b1 = bytes[1] as int;
                if b1 < 192 {
                    Some((2, b1))
                } else if b1 < 224 {
                    if bytes.len() >= 3 {
                        Some((3, (b1 - 192) * 256 + 192 + bytes[2] as int))
                    } else {
                        None
                    }
                } else if b1 == 255 {
                    if bytes.len() >= 6 {
                        Some((6, be_quad(bytes, 2)))
                    } else {
                        None
                    }
                } else {
                    None
                }
            }
        }
    }
}

/// Whether `bytes` is a sequence of at most `limit` packets, each with an
/// explicit length, whose declared lengths tile `bytes` exactly.
pub open spec fn framed_packets(bytes: Seq<u8>, limit: nat) -> bool
    decreases limit,
{
    if bytes.len() == 0 {
        true
    } else if limit == 0 {
        false
    } else {
        match packet_header(bytes) {
            None => false,
            Some((h, l)) => h + l <= bytes.len() && framed_packets(
                bytes.skip(h + l),
                (limit - 1) as nat,
            ),
        }
    }
}

/// Reads the packet header at offset `pos`, mirroring `packet_header` on
/// the remaining bytes.
fn read_packet_header(bytes: &Vec<u8>, pos: usize) -> (r: Option<(usize, u64)>)
    requires
        pos < bytes@.len(),
    ensures
        (match packet_header(bytes@.skip(pos as int)) {
            Some((h, l)) => r matches Some(p) && p.0 as int == h && p.1 as int == l,
            None => r is None,
        }),
{
    let ghost tail = bytes@.skip(pos as int);
    let n: usize = bytes.len();
    proof {
        assert(tail.len() == n - pos);
        assert forall|k: int| 0 <= k < tail.len() implies tail[k] == bytes@[pos + k] by {}
    }
    let b0 = bytes[pos];
    if b0 < 128 {
        return None;
    }
    if b0 < 192 {
        let t = b0 % 4;
        if t == 0 {
            if n - pos >= 2 {
                Some((2, bytes[pos + 1] as u64))
            } else {
                None
            }
        } else if t == 1 {
            if n - pos >= 3 {
                Some((3, bytes[pos + 1] as u64 * 256 + bytes[pos + 2] as u64))
            } else {
                None
            }
        } else if t == 2 {
            if n - pos >= 5 {
                Some((5, read_be_quad(bytes, pos + 1)))
            } else {
                None
            }
        } else {
            None
        }
    } else {
        if n - pos < 2 {
            return None;
        }
        let b1 = bytes[pos + 1];
        if b1 < 192 {
            Some((2, b1 as u64))
        } else if b1 < 224 {
            if n - pos >= 3 {
                Some((3, (b1 as u64 - 192) * 256 + 192 + bytes[pos + 2] as u64))
            } else {
                None
            }
        } else if b1 == 255 {
            if n - pos >= 6 {
                Some((6, read_be_quad(bytes, pos + 2)))
            } else {
                None
            }
        } else {
            None
        }
    }
}

fn read_be_quad(bytes: &Vec<u8>, i: usize) -> (r: u64)
    requires
        i + 4 <= bytes@.len(),
    ensures
        r as int == be_quad(bytes@, i as int),
{
    let n: usize = bytes.len();
    assert(i + 4 <= n);
    bytes[i] as u64 * 0x1000000 + bytes[i + 1] as u64 * 0x10000 + bytes[i + 2] as u64 * 256 + bytes[
        i + 3
    ] as u64
}

/// Checks that `bytes` is tiled exactly by at most `limit` explicitly
/// framed packets.
pub fn check_packet_framing(bytes: &Vec<u8>, limit: u64) -> (r: bool)
    ensures
        r == framed_packets(bytes@, limit as nat),
{
    let n: usize = bytes.len();
    let mut pos: usize = 0;
    let mut remaining: u64 = limit;
    proof {
        assert(bytes@.skip(0) =~= bytes@);
    }
    while pos < n
        invariant
            0 <= pos <= n,
            n == bytes@.len(),
            remaining <= limit,
            framed_packets(bytes@, limit as nat) == framed_packets(
                bytes@.skip(pos as int),
                remaining as nat,
            ),
        decreases n - pos,
    {
        let ghost tail = bytes@.skip(pos as int);
        if remaining == 0 {
            return false;
        }
        let (h, l) = match read_packet_header(bytes, pos) {
            Some(p) => p,
            None => {
                return false;
            },
        };
        proof {
            assert(tail.len() == n - pos);
        }
        if l > (n - pos - h) as u64 {
            return false;
        }
        let body: usize = l as usize;
        proof {
            assert(tail.skip(h + body) =~= bytes@.skip(pos + h + body));
        }
        pos = pos + h + body;
        remaining = remaining - 1;
    }
    proof {
        assert(bytes@.skip(n as int) =~= Seq::<u8>::empty());
    }
    true
}

} // verus!
