use vstd::prelude::*;
use vstd::string::*;

verus! {

/// Version prefix of an encoded term.
pub const VERSION_TAG: u8 = 131;

/// Tuple of at most 255 elements.
pub const SMALL_TUPLE_TAG: u8 = 104;

/// Byte string with a 32-bit length.
pub const BINARY_TAG: u8 = 109;

/// Unsigned integer of one byte.
pub const SMALL_INTEGER_TAG: u8 = 97;

/// Signed 32-bit integer, big-endian.
pub const INTEGER_TAG: u8 = 98;

/// Integer of up to 255 little-endian bytes with a sign byte.
pub const SMALL_BIG_TAG: u8 = 110;

/// Largest value of a signed 32-bit integer.
pub const I32_MAX: u128 = 2147483647;

/// The four big-endian bytes of `v`, which is below 2^32.
pub open spec fn be32(v: nat) -> Seq<u8> {
    seq![
        ((v / 16777216) % 256) as u8,
        ((v / 65536) % 256) as u8,
        ((v / 256) % 256) as u8,
        (v % 256) as u8,
    ]
}

/// The shortest little-endian bytes of `v` (one zero byte for zero).
pub open spec fn le_bytes(v: nat) -> Seq<u8>
    decreases v,
{
    if v < 256 {
        seq![v as u8]
    } else {
        seq![(v % 256) as u8] + le_bytes(v / 256)
    }
}

/// An integer in the narrowest of the three integer forms.
pub open spec fn etf_integer(v: nat) -> Seq<u8> {
    if v <= 255 {
        seq![SMALL_INTEGER_TAG, v as u8]
    } else if v <= I32_MAX {
        seq![INTEGER_TAG] + be32(v)
    } else {
        seq![SMALL_BIG_TAG, le_bytes(v).len() as u8, 0u8] + le_bytes(v)
    }
}

/// A byte string as a binary term.
pub open spec fn etf_binary(b: Seq<u8>) -> Seq<u8> {
    seq![BINARY_TAG] + be32(b.len()) + b
}

/// The token term `{data, signed_at_ms, max_age}`, version prefix first.
pub open spec fn etf_token_term(data: Seq<u8>, signed_at_ms: nat, max_age: nat) -> Seq<u8> {
    seq![VERSION_TAG, SMALL_TUPLE_TAG, 3u8] + etf_binary(data) + etf_integer(signed_at_ms)
        + etf_integer(max_age)
}

/// `256^k`.
pub open spec fn pow256(k: nat) -> nat
    decreases k,
{
    if k == 0 {
        1
    } else {
        256 * pow256((k - 1) as nat)
    }
}

proof fn lemma_le_bytes_len(v: nat, k: nat)
    requires
        1 <= k,
        v < pow256(k),
    ensures
        1 <= le_bytes(v).len() <= k,
    decreases v,
{
    if v >= 256 {
        assert(k >= 2) by {
            if k == 1 {
                reveal_with_fuel(pow256, 2);
            }
        }
        assert(v / 256 < pow256((k - 1) as nat));
        lemma_le_bytes_len(v / 256, (k - 1) as nat);
    }
}

proof fn lemma_u128_le_bytes_len(v: u128)
    ensures
        1 <= le_bytes(v as nat).len() <= 16,
{
    reveal_with_fuel(pow256, 17);
    assert(pow256(16) == 0x1_0000_0000_0000_0000_0000_0000_0000_0000);
    lemma_le_bytes_len(v as nat, 16);
}

/// The number that little-endian bytes write.
pub open spec fn le_value(b: Seq<u8>) -> nat
    decreases b.len(),
{
    if b.len() == 0 {
        0
    } else {
        b[0] as nat + 256 * le_value(b.subrange(1, b.len() as int))
    }
}

/// The bytes of the large-integer form are the little-endian digits of `v` in
/// the fewest bytes: they write `v`, `v < 256^n` for their count `n`, no fewer
/// would do, and for a positive `v` the last byte is not zero.
pub proof fn lemma_le_bytes_exact(v: nat)
    ensures
        le_value(le_bytes(v)) == v,
        v < pow256(le_bytes(v).len()),
        le_bytes(v).len() == 1 || pow256((le_bytes(v).len() - 1) as nat) <= v,
        v > 0 ==> le_bytes(v)[le_bytes(v).len() - 1] != 0,
    decreases v,
{
    reveal_with_fuel(pow256, 2);
    let b = le_bytes(v);
    if v < 256 {
        assert(b.subrange(1, 1) =~= Seq::<u8>::empty());
        assert(le_value(b.subrange(1, 1)) == 0);
        assert(le_value(b) == b[0] as nat + 256 * le_value(b.subrange(1, 1)));
    } else {
        let q = v / 256;
        let t = le_bytes(q);
        lemma_le_bytes_exact(q);
        lemma_le_bytes_len(q, t.len() + 1);
        assert(b.subrange(1, b.len() as int) =~= t);
        assert(b[0] as nat == v % 256);
        assert(le_value(b) == b[0] as nat + 256 * le_value(t));
        assert(b[b.len() - 1] == t[t.len() - 1]);
        let n = t.len();
        assert(pow256(n + 1) == 256 * pow256(n));
        assert(v == 256 * q + v % 256);
        assert(q < pow256(n));
        assert(v < pow256(n + 1)) by (nonlinear_arith)
            requires
                v == 256 * q + v % 256,
                v % 256 < 256,
                q + 1 <= pow256(n),
                pow256(n + 1) == 256 * pow256(n),
        ;
        if n > 1 {
            assert(pow256(n) == 256 * pow256((n - 1) as nat));
            assert(pow256(n) <= v) by (nonlinear_arith)
                requires
                    pow256((n - 1) as nat) <= q,
                    pow256(n) == 256 * pow256((n - 1) as nat),
                    v == 256 * q + v % 256,
                    v % 256 >= 0,
            ;
        }
    }
}

fn push_be32(buf: &mut Vec<u8>, v: u32)
    ensures
        final(buf)@ == old(buf)@ + be32(v as nat),
{
    buf.push((v / 16777216) as u8);
    buf.push(((v / 65536) % 256) as u8);
    buf.push(((v / 256) % 256) as u8);
    buf.push((v % 256) as u8);
    proof {
        assert(v / 16777216 < 256);
        assert(final(buf)@ =~= old(buf)@ + be32(v as nat));
    }
}

/// Appends `value` as an integer term in its narrowest form.
pub fn encode_integer(buf: &mut Vec<u8>, value: u128)
    ensures
        final(buf)@ == old(buf)@ + etf_integer(value as nat),
{
    if value <= 255 {
        buf.push(SMALL_INTEGER_TAG);
        buf.push(value as u8);
        assert(final(buf)@ =~= old(buf)@ + etf_integer(value as nat));
    } else if value <= I32_MAX {
        buf.push(INTEGER_TAG);
        push_be32(buf, value as u32);
        assert(final(buf)@ =~= old(buf)@ + etf_integer(value as nat));
    } else {
        let mut digits: Vec<u8> = Vec::new();
        let mut rest: u128 = value;
        proof {
            lemma_u128_le_bytes_len(value);
        }
        while rest >= 256
            invariant
                digits@ + le_bytes(rest as nat) == le_bytes(value as nat),
                digits@.len() + le_bytes(rest as nat).len() <= 16,
            decreases rest,
        {
            proof {
                lemma_u128_le_bytes_len(rest);
            }
            let ghost before = digits@;
            digits.push((rest % 256) as u8);
            assert(le_bytes(rest as nat) == seq![(rest % 256) as u8] + le_bytes((rest / 256) as nat));
            assert(digits@ + le_bytes((rest / 256) as nat) =~= before + le_bytes(rest as nat));
            rest = rest / 256;
        }
        digits.push(rest as u8);
        proof {
            lemma_u128_le_bytes_len(value);
            assert(digits@ =~= le_bytes(value as nat));
        }
        buf.push(SMALL_BIG_TAG);
        buf.push(digits.len() as u8);
        buf.push(0);
        let mut i: usize = 0;
        let ghost start = buf@;
        while i < digits.len()
            invariant
                i <= digits@.len(),
                buf@ == start + digits@.subrange(0, i as int),
            decreases digits@.len() - i,
        {
            buf.push(digits[i]);
            assert(buf@ =~= start + digits@.subrange(0, i + 1));
            i += 1;
        }
        assert(digits@.subrange(0, i as int) =~= digits@);
        assert(final(buf)@ =~= old(buf)@ + etf_integer(value as nat));
    }
}

/// Encodes `{identifier, signed_at_ms, max_age}` as a versioned term, the
/// identifier as a binary.
pub fn encode_token_term(identifier: &str, signed_at_ms: u128, max_age: u128) -> (r: Vec<u8>)
    requires
        identifier.spec_bytes().len() <= u32::MAX,
    ensures
        r@ == etf_token_term(identifier.spec_bytes(), signed_at_ms as nat, max_age as nat),
{
    let mut buf: Vec<u8> = Vec::new();
    buf.push(VERSION_TAG);
    buf.push(SMALL_TUPLE_TAG);
    buf.push(3);
    let id_bytes = identifier.as_bytes();
    buf.push(BINARY_TAG);
    push_be32(&mut buf, id_bytes.len() as u32);
    let ghost start = buf@;
    let mut i: usize = 0;
    while i < id_bytes.len()
        invariant
            i <= id_bytes@.len(),
            buf@ == start + id_bytes@.subrange(0, i as int),
        decreases id_bytes@.len() - i,
    {
        buf.push(id_bytes[i]);
        assert(buf@ =~= start + id_bytes@.subrange(0, i + 1));
        i += 1;
    }
    assert(id_bytes@.subrange(0, i as int) =~= id_bytes@);
    encode_integer(&mut buf, signed_at_ms);
    encode_integer(&mut buf, max_age);
    assert(buf@ =~= etf_token_term(identifier.spec_bytes(), signed_at_ms as nat, max_age as nat));
    buf
}

} // verus!
