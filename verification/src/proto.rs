//! The protobuf wire encoding of the storage structure that holds an identity
//! key pair: `bytes public_key = 1; bytes private_key = 2;`.
//!
//! Decoding follows the protobuf rules for a proto3 message: fields may come in
//! any order, a later occurrence of a field replaces an earlier one, and fields
//! with other numbers are skipped (groups included, nested at most
//! `RECURSION_LIMIT` deep).

use vstd::prelude::*;

verus! {

/// How deeply nested groups may be skipped before decoding gives up.
pub const RECURSION_LIMIT: u32 = 100;

/// Wire type of a varint field.
pub const WIRE_VARINT: u64 = 0;
/// Wire type of a fixed 64-bit field.
pub const WIRE_SIXTY_FOUR_BIT: u64 = 1;
/// Wire type of a length-delimited field.
pub const WIRE_LENGTH_DELIMITED: u64 = 2;
/// Wire type that starts a group.
pub const WIRE_START_GROUP: u64 = 3;
/// Wire type that ends a group.
pub const WIRE_END_GROUP: u64 = 4;
/// Wire type of a fixed 32-bit field.
pub const WIRE_THIRTY_TWO_BIT: u64 = 5;

/// Field number of the public key in the identity key pair structure.
pub const PUBLIC_KEY_FIELD: u64 = 1;
/// Field number of the private key in the identity key pair structure.
pub const PRIVATE_KEY_FIELD: u64 = 2;

/// LEB128 encoding of `n`: seven bits per byte, least significant first, with
/// the high bit set on every byte but the last.
pub open spec fn spec_varint(n: nat) -> Seq<u8>
    decreases n,
{
    if n < 128 {
        seq![n as u8]
    } else {
        seq![(n % 128 + 128) as u8] + spec_varint(n / 128)
    }
}

/// Decoding of a varint that starts at `i`, as the `depth`-th byte of the
/// varint: its value and the position after it. A varint has at most ten
/// bytes, and its tenth byte may only be 0 or 1, so that the value fits in 64 bits.
pub open spec fn spec_decode_varint_at(s: Seq<u8>, i: int, depth: nat) -> Option<(nat, int)>
    decreases 10 - depth,
{
    if depth >= 10 || i < 0 || i >= s.len() {
        None
    } else if s[i] < 128 {
        if depth == 9 && s[i] >= 2 {
            None
        } else {
            Some((s[i] as nat, i + 1))
        }
    } else {
        match spec_decode_varint_at(s, i + 1, depth + 1) {
            Some((v, j)) => Some((((s[i] - 128) + 128 * v) as nat, j)),
            None => None,
        }
    }
}

/// Decoding of a field key at `i`: field number, wire type, and the position after it.
pub open spec fn spec_decode_key_at(s: Seq<u8>, i: int) -> Option<(nat, nat, int)> {
    match spec_decode_varint_at(s, i, 0) {
        Some((v, j)) => if v > u32::MAX || v % 8 > 5 || v / 8 < 1 {
            None
        } else {
            Some((v / 8, v % 8, j))
        },
        None => None,
    }
}

/// Where skipping a field of wire type `wt` whose key ended at `i` stops, with
/// `count` further levels of nesting allowed.
pub open spec fn spec_skip_field(s: Seq<u8>, i: int, wt: nat, tag: nat, count: nat) -> Option<int>
    decreases s.len() - i, 1nat,
{
    if count == 0 || i < 0 || i > s.len() {
        None
    } else if wt == WIRE_VARINT {
        match spec_decode_varint_at(s, i, 0) {
            Some((_, j)) => Some(j),
            None => None,
        }
    } else if wt == WIRE_SIXTY_FOUR_BIT {
        if 8 <= s.len() - i {
            Some(i + 8)
        } else {
            None
        }
    } else if wt == WIRE_LENGTH_DELIMITED {
        match spec_decode_varint_at(s, i, 0) {
            Some((len, j)) => if len <= s.len() - j {
                Some(j + len)
            } else {
                None
            },
            None => None,
        }
    } else if wt == WIRE_START_GROUP {
        spec_skip_group(s, i, tag, count)
    } else if wt == WIRE_THIRTY_TWO_BIT {
        if 4 <= s.len() - i {
            Some(i + 4)
        } else {
            None
        }
    } else {
        None
    }
}

/// Where skipping the rest of a group with field number `tag`, from `i` on, stops.
pub open spec fn spec_skip_group(s: Seq<u8>, i: int, tag: nat, count: nat) -> Option<int>
    decreases s.len() - i, 0nat,
{
    if i < 0 || i > s.len() {
        None
    } else {
        match spec_decode_key_at(s, i) {
            None => None,
            Some((t, w, j)) => if j <= i || j > s.len() {
                None
            } else if w == WIRE_END_GROUP {
                if t == tag {
                    Some(j)
                } else {
                    None
                }
            } else {
                match spec_skip_field(s, j, w, t, (count - 1) as nat) {
                    None => None,
                    Some(k) => if k < j || k > s.len() {
                        None
                    } else {
                        spec_skip_group(s, k, tag, count)
                    },
                }
            },
        }
    }
}

/// Decoding of the fields from `i` on, starting from the values `pk` and `sk`
/// of the two known fields.
pub open spec fn spec_decode_fields(s: Seq<u8>, i: int, pk: Seq<u8>, sk: Seq<u8>) -> Option<
    (Seq<u8>, Seq<u8>),
>
    decreases s.len() - i,
{
    if i < 0 || i > s.len() {
        None
    } else if i == s.len() {
        Some((pk, sk))
    } else {
        match spec_decode_key_at(s, i) {
            None => None,
            Some((t, w, j)) => if j <= i || j > s.len() {
                None
            } else if t == PUBLIC_KEY_FIELD || t == PRIVATE_KEY_FIELD {
                if w != WIRE_LENGTH_DELIMITED {
                    None
                } else {
                    match spec_decode_varint_at(s, j, 0) {
                        None => None,
                        Some((len, k)) => if len > s.len() - k || k <= i {
                            None
                        } else {
                            let v = s.subrange(k, k + len);
                            if t == PUBLIC_KEY_FIELD {
                                spec_decode_fields(s, k + len, v, sk)
                            } else {
                                spec_decode_fields(s, k + len, pk, v)
                            }
                        },
                    }
                }
            } else {
                match spec_skip_field(s, j, w, t, RECURSION_LIMIT as nat) {
                    None => None,
                    Some(k) => if k <= i || k > s.len() {
                        None
                    } else {
                        spec_decode_fields(s, k, pk, sk)
                    },
                }
            },
        }
    }
}

/// The decoded (public key, private key) fields of an encoded structure; a
/// field that does not occur is empty.
pub open spec fn spec_decode_identity_key_pair(s: Seq<u8>) -> Option<(Seq<u8>, Seq<u8>)> {
    spec_decode_fields(s, 0, Seq::empty(), Seq::empty())
}

/// A length-delimited field: its key, the length, and the bytes.
pub open spec fn spec_bytes_field(tag: nat, value: Seq<u8>) -> Seq<u8> {
    spec_varint((tag * 8 + WIRE_LENGTH_DELIMITED) as nat) + spec_varint(value.len()) + value
}

/// The proto3 encoding of the structure: each field that is not empty, in field order.
pub open spec fn spec_encode_identity_key_pair(pk: Seq<u8>, sk: Seq<u8>) -> Seq<u8> {
    (if pk.len() > 0 {
        spec_bytes_field(PUBLIC_KEY_FIELD as nat, pk)
    } else {
        Seq::empty()
    }) + (if sk.len() > 0 {
        spec_bytes_field(PRIVATE_KEY_FIELD as nat, sk)
    } else {
        Seq::empty()
    })
}

/// Append the LEB128 encoding of `value` to `out`.
pub fn encode_varint(value: u64, out: &mut Vec<u8>)
    ensures
        final(out)@ == old(out)@ + spec_varint(value as nat),
{
    let mut v = value;
    while v >= 128
        invariant
            old(out)@ + spec_varint(value as nat) == out@ + spec_varint(v as nat),
        decreases v,
    {
        let byte = (v % 128 + 128) as u8;
        proof {
            assert(spec_varint(v as nat) == seq![byte] + spec_varint((v / 128) as nat));
        }
        out.push(byte);
        v = v / 128;
        proof {
            assert(out@ + spec_varint(v as nat) =~= old(out)@ + spec_varint(value as nat));
        }
    }
    out.push(v as u8);
    assert(out@ =~= old(out)@ + spec_varint(value as nat));
}

/// The largest value a varint may hold when it starts at its `depth`-th byte.
pub open spec fn spec_varint_limit(depth: nat) -> nat
    decreases 9 - depth,
{
    if depth >= 9 {
        2
    } else {
        128 * spec_varint_limit(depth + 1)
    }
}

/// A decoded varint is below the limit of its depth.
proof fn lemma_decode_varint_bound(s: Seq<u8>, i: int, depth: nat)
    requires
        spec_decode_varint_at(s, i, depth) is Some,
    ensures
        spec_decode_varint_at(s, i, depth).unwrap().0 < spec_varint_limit(depth),
        spec_decode_varint_at(s, i, depth).unwrap().1 > i,
        spec_decode_varint_at(s, i, depth).unwrap().1 <= s.len(),
    decreases 10 - depth,
{
    if s[i] >= 128 {
        lemma_decode_varint_bound(s, i + 1, depth + 1);
    } else if depth < 9 {
        lemma_varint_limit_big(depth);
    }
}

/// Below depth nine the limit is at least 128.
proof fn lemma_varint_limit_big(depth: nat)
    requires
        depth < 9,
    ensures
        spec_varint_limit(depth) >= 128,
    decreases 9 - depth,
{
    reveal_with_fuel(spec_varint_limit, 2);
    if depth < 8 {
        lemma_varint_limit_big(depth + 1);
    }
}

/// The limit at the first byte is 2^64.
pub proof fn lemma_varint_limit_zero()
    ensures
        spec_varint_limit(0) == 0x1_0000_0000_0000_0000,
{
    reveal_with_fuel(spec_varint_limit, 10);
}

/// Decode the varint that starts at `i`, as its `depth`-th byte.
fn decode_varint_at(s: &[u8], i: usize, depth: u32) -> (res: Option<(u64, usize)>)
    requires
        depth <= 10,
    ensures
        match spec_decode_varint_at(s@, i as int, depth as nat) {
            Some((v, j)) => res == Some((v as u64, j as usize)) && v == res.unwrap().0 as nat
                && j == res.unwrap().1 as int,
            None => res is None,
        },
    decreases 10 - depth,
{
    if depth >= 10 || i >= s.len() {
        return None;
    }
    let b = s[i];
    if b < 128 {
        if depth == 9 && b >= 2 {
            None
        } else {
            Some((b as u64, i + 1))
        }
    } else {
        match decode_varint_at(s, i + 1, depth + 1) {
            Some((v, j)) => {
                proof {
                    lemma_decode_varint_bound(s@, i + 1, (depth + 1) as nat);
                    if depth < 9 {
                        lemma_varint_limit_le(depth as nat);
                    }
                }
                Some(((b - 128) as u64 + 128 * v, j))
            },
            None => None,
        }
    }
}

/// The limit of every depth below the tenth fits the encoding of a u64.
proof fn lemma_varint_limit_le(depth: nat)
    requires
        depth < 9,
    ensures
        128 * spec_varint_limit(depth + 1) <= 0x1_0000_0000_0000_0000,
        spec_varint_limit(depth) == 128 * spec_varint_limit(depth + 1),
    decreases depth,
{
    if depth == 0 {
        lemma_varint_limit_zero();
    } else {
        lemma_varint_limit_le((depth - 1) as nat);
    }
}

/// Decode the field key at `i`: field number, wire type, position after it.
fn decode_key_at(s: &[u8], i: usize) -> (res: Option<(u64, u64, usize)>)
    ensures
        match spec_decode_key_at(s@, i as int) {
            Some((t, w, j)) => res matches Some((rt, rw, rj)) && rt == t && rw == w && rj == j,
            None => res is None,
        },
{
    match decode_varint_at(s, i, 0) {
        None => None,
        Some((v, j)) => {
            if v > 0xFFFF_FFFF || v % 8 > 5 || v / 8 < 1 {
                None
            } else {
                Some((v / 8, v % 8, j))
            }
        },
    }
}

/// Skip a field of wire type `wt` whose key ended at `i`.
fn skip_field(s: &[u8], i: usize, wt: u64, tag: u64, count: u32) -> (res: Option<usize>)
    ensures
        match spec_skip_field(s@, i as int, wt as nat, tag as nat, count as nat) {
            Some(k) => res == Some(k as usize) && k == res.unwrap() as int,
            None => res is None,
        },
    decreases s@.len() - i, 1nat,
{
    if count == 0 || i > s.len() {
        None
    } else if wt == WIRE_VARINT {
        match decode_varint_at(s, i, 0) {
            Some((_, j)) => Some(j),
            None => None,
        }
    } else if wt == WIRE_SIXTY_FOUR_BIT {
        if 8 <= s.len() - i {
            Some(i + 8)
        } else {
            None
        }
    } else if wt == WIRE_LENGTH_DELIMITED {
        match decode_varint_at(s, i, 0) {
            Some((len, j)) => {
                proof {
                    lemma_decode_varint_bound(s@, i as int, 0);
                }
                if len <= (s.len() - j) as u64 {
                    Some(j + len as usize)
                } else {
                    None
                }
            },
            None => None,
        }
    } else if wt == WIRE_START_GROUP {
        skip_group(s, i, tag, count)
    } else if wt == WIRE_THIRTY_TWO_BIT {
        if 4 <= s.len() - i {
            Some(i + 4)
        } else {
            None
        }
    } else {
        None
    }
}

/// Skip the rest of a group with field number `tag`, from `i` on.
fn skip_group(s: &[u8], i: usize, tag: u64, count: u32) -> (res: Option<usize>)
    requires
        count > 0,
    ensures
        match spec_skip_group(s@, i as int, tag as nat, count as nat) {
            Some(k) => res == Some(k as usize) && k == res.unwrap() as int,
            None => res is None,
        },
    decreases s@.len() - i, 0nat,
{
    if i > s.len() {
        return None;
    }
    match decode_key_at(s, i) {
        None => None,
        Some((t, w, j)) => {
            if j <= i || j > s.len() {
                None
            } else if w == WIRE_END_GROUP {
                if t == tag {
                    Some(j)
                } else {
                    None
                }
            } else {
                match skip_field(s, j, w, t, count - 1) {
                    None => None,
                    Some(k) => {
                        if k < j || k > s.len() {
                            None
                        } else {
                            skip_group(s, k, tag, count)
                        }
                    },
                }
            }
        },
    }
}

/// Decode the (public key, private key) fields of an encoded identity key pair
/// structure; a field that does not occur is empty.
pub fn decode_identity_key_pair(s: &[u8]) -> (res: Option<(Vec<u8>, Vec<u8>)>)
    ensures
        match spec_decode_identity_key_pair(s@) {
            Some((pk, sk)) => res matches Some((rpk, rsk)) && rpk@ == pk && rsk@ == sk,
            None => res is None,
        },
{
    let mut pk: Vec<u8> = Vec::new();
    let mut sk: Vec<u8> = Vec::new();
    let mut i: usize = 0;
    while i < s.len()
        invariant
            i <= s@.len(),
            spec_decode_identity_key_pair(s@) == spec_decode_fields(s@, i as int, pk@, sk@),
        decreases s@.len() - i,
    {
        match decode_key_at(s, i) {
            None => {
                return None;
            },
            Some((t, w, j)) => {
                if j <= i || j > s.len() {
                    return None;
                }
                if t == PUBLIC_KEY_FIELD || t == PRIVATE_KEY_FIELD {
                    if w != WIRE_LENGTH_DELIMITED {
                        return None;
                    }
                    match decode_varint_at(s, j, 0) {
                        None => {
                            return None;
                        },
                        Some((len, k)) => {
                            proof {
                                lemma_decode_varint_bound(s@, j as int, 0);
                            }
                            if len > (s.len() - k) as u64 || k <= i {
                                return None;
                            }
                            let end = k + len as usize;
                            let mut v: Vec<u8> = Vec::new();
                            v.extend_from_slice(&s[k..end]);
                            assert(v@ =~= s@.subrange(k as int, end as int));
                            if t == PUBLIC_KEY_FIELD {
                                pk = v;
                            } else {
                                sk = v;
                            }
                            i = end;
                        },
                    }
                } else {
                    match skip_field(s, j, w, t, RECURSION_LIMIT) {
                        None => {
                            return None;
                        },
                        Some(k) => {
                            if k <= i || k > s.len() {
                                return None;
                            }
                            i = k;
                        },
                    }
                }
            },
        }
    }
    Some((pk, sk))
}

/// Append a length-delimited field to `out`.
fn encode_bytes_field(tag: u64, value: &[u8], out: &mut Vec<u8>)
    requires
        tag * 8 + WIRE_LENGTH_DELIMITED <= u64::MAX,
    ensures
        final(out)@ == old(out)@ + spec_bytes_field(tag as nat, value@),
{
    encode_varint(tag * 8 + WIRE_LENGTH_DELIMITED, out);
    encode_varint(value.len() as u64, out);
    out.extend_from_slice(value);
    assert(out@ =~= old(out)@ + spec_bytes_field(tag as nat, value@));
}

/// Encode the identity key pair structure.
pub fn encode_identity_key_pair(pk: &[u8], sk: &[u8]) -> (out: Vec<u8>)
    ensures
        out@ == spec_encode_identity_key_pair(pk@, sk@),
{
    let mut out: Vec<u8> = Vec::new();
    if pk.len() > 0 {
        encode_bytes_field(PUBLIC_KEY_FIELD, pk, &mut out);
    }
    if sk.len() > 0 {
        encode_bytes_field(PRIVATE_KEY_FIELD, sk, &mut out);
    }
    assert(out@ =~= spec_encode_identity_key_pair(pk@, sk@));
    out
}

/// A varint of `n` placed at `i` decodes back to `n`, ending right after it.
pub proof fn lemma_varint_round_trip(s: Seq<u8>, i: int, n: nat, depth: nat)
    requires
        depth <= 9,
        n < spec_varint_limit(depth),
        0 <= i,
        i + spec_varint(n).len() <= s.len(),
        s.subrange(i, i + spec_varint(n).len()) == spec_varint(n),
    ensures
        spec_decode_varint_at(s, i, depth) == Some((n, i + spec_varint(n).len())),
    decreases n,
{
    let enc = spec_varint(n);
    assert(s[i] == s.subrange(i, i + enc.len())[0]);
    if n < 128 {
        assert(enc =~= seq![n as u8]);
        if depth == 9 {
            reveal_with_fuel(spec_varint_limit, 1);
        }
    } else {
        let rest = spec_varint(n / 128);
        assert(enc == seq![(n % 128 + 128) as u8] + rest);
        if depth == 9 {
            reveal_with_fuel(spec_varint_limit, 1);
            assert(false);
        }
        lemma_varint_limit_le(depth);
        assert(s.subrange(i + 1, i + 1 + rest.len()) =~= rest) by {
            assert forall|k: int| 0 <= k < rest.len() implies s.subrange(i + 1, i + 1
                + rest.len())[k] == rest[k] by {
                assert(s.subrange(i, i + enc.len())[k + 1] == enc[k + 1]);
            }
        }
        lemma_varint_round_trip(s, i + 1, n / 128, depth + 1);
    }
}

/// A length-delimited field with a known field number, placed at `i`, is read
/// back: its key, then its value, ending right after it.
proof fn lemma_bytes_field_at(s: Seq<u8>, i: int, tag: nat, value: Seq<u8>)
    requires
        1 <= tag <= 15,
        value.len() < 0x1_0000_0000,
        0 <= i,
        i + spec_bytes_field(tag, value).len() <= s.len(),
        s.subrange(i, i + spec_bytes_field(tag, value).len()) == spec_bytes_field(tag, value),
    ensures
        ({
            let key = spec_varint((tag * 8 + WIRE_LENGTH_DELIMITED) as nat);
            let len = spec_varint(value.len());
            &&& key.len() == 1
            &&& spec_decode_key_at(s, i) == Some((tag, WIRE_LENGTH_DELIMITED as nat, i + 1))
            &&& spec_decode_varint_at(s, i + 1, 0) == Some((value.len(), i + 1 + len.len()))
            &&& s.subrange(i + 1 + len.len(), i + 1 + len.len() + value.len()) == value
            &&& spec_bytes_field(tag, value).len() == 1 + len.len() + value.len()
        }),
{
    let f = spec_bytes_field(tag, value);
    let k = (tag * 8 + WIRE_LENGTH_DELIMITED) as nat;
    let key = spec_varint(k);
    let len = spec_varint(value.len());
    assert(key =~= seq![k as u8]);
    assert(f =~= key + len + value);
    lemma_varint_limit_zero();
    assert(s.subrange(i, i + 1) =~= key) by {
        assert(s.subrange(i, i + f.len())[0] == f[0]);
    }
    lemma_varint_round_trip(s, i, k, 0);
    assert(s.subrange(i + 1, i + 1 + len.len()) =~= len) by {
        assert forall|j: int| 0 <= j < len.len() implies s.subrange(i + 1, i + 1 + len.len())[j]
            == len[j] by {
            assert(s.subrange(i, i + f.len())[1 + j] == f[1 + j]);
        }
    }
    lemma_varint_round_trip(s, i + 1, value.len(), 0);
    assert(s.subrange(i + 1 + len.len(), i + 1 + len.len() + value.len()) =~= value) by {
        assert forall|j: int| 0 <= j < value.len() implies s.subrange(
            i + 1 + len.len(),
            i + 1 + len.len() + value.len(),
        )[j] == value[j] by {
            assert(s.subrange(i, i + f.len())[1 + len.len() + j] == f[1 + len.len() + j]);
        }
    }
}

/// Decoding an encoded structure gives back both fields, when neither is empty.
pub proof fn lemma_identity_key_pair_round_trip(pk: Seq<u8>, sk: Seq<u8>)
    requires
        0 < pk.len() < 0x1_0000_0000,
        0 < sk.len() < 0x1_0000_0000,
    ensures
        spec_decode_identity_key_pair(spec_encode_identity_key_pair(pk, sk)) == Some((pk, sk)),
{
    let f1 = spec_bytes_field(PUBLIC_KEY_FIELD as nat, pk);
    let f2 = spec_bytes_field(PRIVATE_KEY_FIELD as nat, sk);
    let s = spec_encode_identity_key_pair(pk, sk);
    assert(s =~= f1 + f2);
    assert(s.subrange(0, f1.len() as int) =~= f1);
    assert(s.subrange(f1.len() as int, (f1.len() + f2.len()) as int) =~= f2);
    lemma_bytes_field_at(s, 0, PUBLIC_KEY_FIELD as nat, pk);
    lemma_bytes_field_at(s, f1.len() as int, PRIVATE_KEY_FIELD as nat, sk);
    let e = Seq::<u8>::empty();
    assert(spec_decode_fields(s, (f1.len() + f2.len()) as int, pk, sk) == Some((pk, sk)));
    assert(spec_decode_fields(s, f1.len() as int, pk, e) == Some((pk, sk)));
    assert(spec_decode_fields(s, 0, e, e) == Some((pk, sk)));
}

} // verus!
