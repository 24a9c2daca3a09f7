//! Big-endian integers and length-prefixed UTF-8 strings on the wire.
use vstd::prelude::*;
use vstd::utf8::*;

verus! {

/// The `width` low-order base-256 digits of `v`, most significant first.
pub open spec fn be_bytes(v: nat, width: nat) -> Seq<u8>
    decreases width,
{
    if width == 0 {
        Seq::empty()
    } else {
        be_bytes(v / 256, (width - 1) as nat).push((v % 256) as u8)
    }
}

/// The number that `b` spells in base 256, most significant byte first.
pub open spec fn be_value(b: Seq<u8>) -> nat
    decreases b.len(),
{
    if b.len() == 0 {
        0
    } else {
        be_value(b.drop_last()) * 256 + b.last() as nat
    }
}

pub proof fn lemma_be_bytes_len(v: nat, width: nat)
    ensures
        be_bytes(v, width).len() == width,
    decreases width,
{
    if width > 0 {
        lemma_be_bytes_len(v / 256, (width - 1) as nat);
    }
}

/// Writing `v` in `width` bytes and reading them back gives `v` when it fits.
pub proof fn lemma_be_value_of_bytes(v: nat, width: nat)
    requires
        v < pow256(width),
    ensures
        be_value(be_bytes(v, width)) == v,
    decreases width,
{
    if width > 0 {
        let b = be_bytes(v, width);
        lemma_be_bytes_len(v / 256, (width - 1) as nat);
        assert(b.drop_last() =~= be_bytes(v / 256, (width - 1) as nat));
        assert(v / 256 < pow256((width - 1) as nat)) by {
            assert(pow256(width) == 256 * pow256((width - 1) as nat));
        }
        lemma_be_value_of_bytes(v / 256, (width - 1) as nat);
    }
}

/// `256` to the power `n`.
pub open spec fn pow256(n: nat) -> nat
    decreases n,
{
    if n == 0 {
        1
    } else {
        256 * pow256((n - 1) as nat)
    }
}

/// Appends `v` to `out` as four big-endian bytes.
pub fn push_u32_be(out: &mut Vec<u8>, v: u32)
    ensures
        final(out)@ == old(out)@ + be_bytes(v as nat, 4),
{
    proof {
        reveal_with_fuel(be_bytes, 5);
    }
    out.push((v / 16777216) as u8);
    out.push(((v / 65536) % 256) as u8);
    out.push(((v / 256) % 256) as u8);
    out.push((v % 256) as u8);
    assert(out@ =~= old(out)@ + be_bytes(v as nat, 4));
}

/// Appends `v` to `out` as eight big-endian bytes.
pub fn push_u64_be(out: &mut Vec<u8>, v: u64)
    ensures
        final(out)@ == old(out)@ + be_bytes(v as nat, 8),
{
    proof {
        reveal_with_fuel(be_bytes, 9);
    }
    out.push((v / 256 / 256 / 256 / 256 / 256 / 256 / 256) as u8);
    out.push(((v / 256 / 256 / 256 / 256 / 256 / 256) % 256) as u8);
    out.push(((v / 256 / 256 / 256 / 256 / 256) % 256) as u8);
    out.push(((v / 256 / 256 / 256 / 256) % 256) as u8);
    out.push(((v / 256 / 256 / 256) % 256) as u8);
    out.push(((v / 256 / 256) % 256) as u8);
    out.push(((v / 256) % 256) as u8);
    out.push((v % 256) as u8);
    assert(out@ =~= old(out)@ + be_bytes(v as nat, 8));
}

/// Reads four big-endian bytes of `b` from `pos`.
pub fn read_u32_be(b: &[u8], pos: usize) -> (r: u32)
    requires
        pos + 4 <= b@.len(),
    ensures
        r as nat == be_value(b@.subrange(pos as int, pos + 4)),
{
    proof {
        reveal_with_fuel(be_value, 5);
        let s = b@.subrange(pos as int, pos + 4);
        assert(s.drop_last().drop_last().drop_last().drop_last() =~= Seq::<u8>::empty());
    }
    let r: u32 = ((b[pos] as u32 * 256 + b[pos + 1] as u32) * 256 + b[pos + 2] as u32) * 256
        + b[pos + 3] as u32;
    r
}

/// Reads eight big-endian bytes of `b` from `pos`.
pub fn read_u64_be(b: &[u8], pos: usize) -> (r: u64)
    requires
        pos + 8 <= b@.len(),
    ensures
        r as nat == be_value(b@.subrange(pos as int, pos + 8)),
{
    let ghost s = b@.subrange(pos as int, pos + 8);
    let len = b.len();
    let mut r: u64 = 0;
    let mut i: usize = 0;
    while i < 8
        invariant
            i <= 8,
            len == b@.len(),
            pos + 8 <= b@.len(),
            s == b@.subrange(pos as int, pos + 8),
            r as nat == be_value(s.subrange(0, i as int)),
            (r as nat) < pow256(i as nat),
        decreases 8 - i,
    {
        proof {
            let t = s.subrange(0, i + 1);
            assert(t.drop_last() =~= s.subrange(0, i as int));
            assert(pow256((i + 1) as nat) == 256 * pow256(i as nat));
            assert(pow256(8) == 18446744073709551616) by {
                reveal_with_fuel(pow256, 9);
            }
            lemma_pow256_mono((i + 1) as nat, 8);
        }
        r = r * 256 + b[pos + i] as u64;
        i = i + 1;
    }
    assert(s.subrange(0, 8) =~= s);
    r
}

pub proof fn lemma_pow256_mono(a: nat, b: nat)
    requires
        a <= b,
    ensures
        pow256(a) <= pow256(b),
    decreases b,
{
    if a < b {
        lemma_pow256_mono(a, (b - 1) as nat);
    }
}


/// Appends the UTF-8 bytes of `s` to `out`, preceded by their count as eight
/// big-endian bytes.
pub fn push_string(out: &mut Vec<u8>, s: &String)
    ensures
        final(out)@ == old(out)@ + string_wire(s@),
{
    let bytes: &[u8] = s.as_str().as_bytes();
    let n = bytes.len();
    push_u64_be(out, n as u64);
    let ghost start = out@;
    let mut i: usize = 0;
    while i < n
        invariant
            n == bytes@.len(),
            bytes@ == encode_utf8(s@),
            i <= n,
            out@ == start + bytes@.subrange(0, i as int),
        decreases n - i,
    {
        out.push(bytes[i]);
        i = i + 1;
        assert(out@ =~= start + bytes@.subrange(0, i as int));
    }
    assert(bytes@.subrange(0, n as int) =~= bytes@);
    assert(out@ =~= old(out)@ + string_wire(s@));
}

/// A string on the wire: its UTF-8 byte count as eight big-endian bytes, then
/// the bytes.
pub open spec fn string_wire(s: Seq<char>) -> Seq<u8> {
    be_bytes(encode_utf8(s).len(), 8) + encode_utf8(s)
}

/// The string that starts at `pos` of `b`, with the position just past it.
pub open spec fn string_at(b: Seq<u8>, pos: int) -> Option<(Seq<char>, int)> {
    if 0 <= pos && pos + 8 <= b.len() {
        let end = pos + 8 + be_value(b.subrange(pos, pos + 8));
        if end <= b.len() && valid_utf8(b.subrange(pos + 8, end)) {
            Some((decode_utf8(b.subrange(pos + 8, end)), end))
        } else {
            None
        }
    } else {
        None
    }
}

/// The four-byte big-endian number at `pos` of `b`, if `b` is long enough.
pub open spec fn u32_at(b: Seq<u8>, pos: int) -> Option<nat> {
    if 0 <= pos && pos + 4 <= b.len() {
        Some(be_value(b.subrange(pos, pos + 4)))
    } else {
        None
    }
}

/// Relies on `String::from_utf8`: it succeeds exactly on well-formed UTF-8,
/// and the string it returns is made of the given bytes.
#[verifier::external_body]
fn string_from_utf8(bytes: Vec<u8>) -> (r: Option<String>)
    ensures
        r is Some <==> valid_utf8(bytes@),
        r matches Some(s) ==> encode_utf8(s@) == bytes@,
{
    String::from_utf8(bytes).ok()
}

/// Reads the string that starts at `pos` of `b`.
pub fn read_string(b: &[u8], pos: usize) -> (r: Option<(String, usize)>)
    ensures
        match string_at(b@, pos as int) {
            Some((s, end)) => r matches Some((t, e)) && t@ == s && e == end,
            None => r is None,
        },
{
    let len = b.len();
    if pos > len || len - pos < 8 {
        return None;
    }
    let n = read_u64_be(b, pos);
    if n > (len - pos - 8) as u64 {
        return None;
    }
    let start = pos + 8;
    let end = start + n as usize;
    let mut bytes: Vec<u8> = Vec::new();
    let mut i: usize = start;
    while i < end
        invariant
            len == b@.len(),
            start <= i <= end <= len,
            bytes@ == b@.subrange(start as int, i as int),
        decreases end - i,
    {
        bytes.push(b[i]);
        i = i + 1;
        assert(bytes@ =~= b@.subrange(start as int, i as int));
    }
    match string_from_utf8(bytes) {
        Some(s) => {
            proof {
                encode_utf8_decode_utf8(s@);
            }
            Some((s, end))
        },
        None => None,
    }
}

} // verus!
