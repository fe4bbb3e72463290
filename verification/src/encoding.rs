//! Encodings that the Windows registry API expects: NUL-terminated UTF-16
//! strings and little-endian value data.
use vstd::prelude::*;
use crate::text::chars_of;

verus! {

/// The UTF-16 code units of one character.
pub open spec fn utf16_of_char(c: char) -> Seq<u16> {
    let v = c as int;
    if v < 0x10000 {
        seq![v as u16]
    } else {
        let w = v - 0x10000;
        seq![(0xD800 + w / 0x400) as u16, (0xDC00 + w % 0x400) as u16]
    }
}

/// The UTF-16 encoding of a character sequence.
pub open spec fn utf16_encode(s: Seq<char>) -> Seq<u16>
    decreases s.len(),
{
    if s.len() == 0 {
        Seq::empty()
    } else {
        utf16_encode(s.drop_last()) + utf16_of_char(s.last())
    }
}

/// The two bytes of a 16-bit unit, least significant first.
pub open spec fn u16_le(u: u16) -> Seq<u8> {
    seq![(u % 256) as u8, (u / 256) as u8]
}

/// The bytes of a sequence of 16-bit units, each least significant byte first.
pub open spec fn u16s_le(s: Seq<u16>) -> Seq<u8>
    decreases s.len(),
{
    if s.len() == 0 {
        Seq::empty()
    } else {
        u16s_le(s.drop_last()) + u16_le(s.last())
    }
}

/// The four bytes of a 32-bit value, least significant first.
pub open spec fn u32_le(v: u32) -> Seq<u8> {
    seq![
        (v % 0x100) as u8,
        ((v / 0x100) % 0x100) as u8,
        ((v / 0x10000) % 0x100) as u8,
        (v / 0x1000000) as u8,
    ]
}

/// The value that four little-endian bytes denote.
pub open spec fn le_value(b: Seq<u8>) -> int {
    b[0] + 0x100 * b[1] + 0x10000 * b[2] + 0x1000000 * b[3]
}

/// Appends the UTF-16 code units of `c` to `out`.
fn push_utf16(out: &mut Vec<u16>, c: char)
    ensures
        final(out)@ == old(out)@ + utf16_of_char(c),
{
    let v = c as u32;
    if v < 0x10000 {
        out.push(v as u16);
    } else {
        let w = v - 0x10000;
        out.push((0xD800 + w / 0x400) as u16);
        out.push((0xDC00 + w % 0x400) as u16);
    }
    assert(out@ =~= old(out)@ + utf16_of_char(c));
}

/// The NUL-terminated UTF-16 form of `s`, as the wide-character Win32 calls take it.
pub fn wide(s: &str) -> (res: Vec<u16>)
    ensures
        res@ == utf16_encode(s@).push(0u16),
{
    let cs = chars_of(s);
    let mut res: Vec<u16> = Vec::new();
    let mut i: usize = 0;
    while i < cs.len()
        invariant
            cs@ == s@,
            i <= cs.len(),
            res@ == utf16_encode(cs@.take(i as int)),
        decreases cs.len() - i,
    {
        proof {
            assert(cs@.take(i + 1).drop_last() =~= cs@.take(i as int));
        }
        push_utf16(&mut res, cs[i]);
        i = i + 1;
    }
    assert(cs@.take(cs.len() as int) =~= cs@);
    res.push(0u16);
    res
}

/// The bytes of `units`, each unit least significant byte first.
pub fn units_le_bytes(units: &Vec<u16>) -> (res: Vec<u8>)
    ensures
        res@ == u16s_le(units@),
        res@.len() == 2 * units@.len(),
{
    let mut res: Vec<u8> = Vec::new();
    let mut i: usize = 0;
    while i < units.len()
        invariant
            i <= units.len(),
            res@ == u16s_le(units@.take(i as int)),
            res@.len() == 2 * i,
        decreases units.len() - i,
    {
        proof {
            assert(units@.take(i + 1).drop_last() =~= units@.take(i as int));
        }
        let u = units[i];
        res.push((u % 256) as u8);
        res.push((u / 256) as u8);
        i = i + 1;
        assert(res@ =~= u16s_le(units@.take(i as int)));
    }
    assert(units@.take(units.len() as int) =~= units@);
    res
}

/// The four bytes of `v`, least significant first (the layout of a registry DWORD).
pub fn dword_bytes(v: u32) -> (res: Vec<u8>)
    ensures
        res@ == u32_le(v),
{
    let mut res: Vec<u8> = Vec::new();
    res.push((v % 0x100) as u8);
    res.push(((v / 0x100) % 0x100) as u8);
    res.push(((v / 0x10000) % 0x100) as u8);
    res.push((v / 0x1000000) as u8);
    assert(res@ =~= u32_le(v));
    res
}

/// Reading back the little-endian bytes of a 32-bit value gives the value.
pub proof fn lemma_u32_le_round_trip(v: u32)
    ensures
        u32_le(v).len() == 4,
        le_value(u32_le(v)) == v,
{
    let b = u32_le(v);
    assert(b[0] == v % 0x100);
    assert(b[1] == (v / 0x100) % 0x100);
    assert(b[2] == (v / 0x10000) % 0x100);
    assert(b[3] == v / 0x1000000);
    assert(le_value(b) == v) by (nonlinear_arith)
        requires
            b[0] == v % 0x100,
            b[1] == (v / 0x100) % 0x100,
            b[2] == (v / 0x10000) % 0x100,
            b[3] == v / 0x1000000,
            v < 0x100000000,
            le_value(b) == b[0] + 0x100 * b[1] + 0x10000 * b[2] + 0x1000000 * b[3],
    ;
}

/// A text whose characters all lie below U+10000 encodes to one unit per
/// character, each unit being the character's code.
pub proof fn lemma_utf16_basic_plane(s: Seq<char>)
    requires
        forall|i: int| 0 <= i < s.len() ==> (#[trigger] s[i] as int) < 0x10000,
    ensures
        utf16_encode(s).len() == s.len(),
        forall|i: int| 0 <= i < s.len() ==> #[trigger] utf16_encode(s)[i] == s[i] as u16,
    decreases s.len(),
{
    if s.len() > 0 {
        let p = s.drop_last();
        assert forall|i: int| 0 <= i < p.len() implies (#[trigger] p[i] as int) < 0x10000 by {
            assert(p[i] == s[i]);
        }
        lemma_utf16_basic_plane(p);
        assert((s[s.len() - 1] as int) < 0x10000);
        assert forall|i: int| 0 <= i < s.len() implies #[trigger] utf16_encode(s)[i] == s[i] as u16 by {
            if i < s.len() - 1 {
                assert(utf16_encode(s)[i] == utf16_encode(p)[i]);
                assert(p[i] == s[i]);
            }
        }
    }
}

/// A unit that starts a surrogate pair.
pub open spec fn is_high_surrogate(u: u16) -> bool {
    0xD800 <= u && u <= 0xDBFF
}

/// A unit that ends a surrogate pair.
pub open spec fn is_low_surrogate(u: u16) -> bool {
    0xDC00 <= u && u <= 0xDFFF
}

/// The characters that UTF-16 units denote, or `None` when a surrogate is unpaired.
pub open spec fn utf16_decode(u: Seq<u16>) -> Option<Seq<char>>
    decreases u.len(),
{
    if u.len() == 0 {
        Some(Seq::empty())
    } else if is_high_surrogate(u[0]) {
        if u.len() >= 2 && is_low_surrogate(u[1]) {
            let c = (0x10000 + (u[0] - 0xD800) * 0x400 + (u[1] - 0xDC00)) as char;
            match utf16_decode(u.subrange(2, u.len() as int)) {
                Some(r) => Some(seq![c] + r),
                None => None,
            }
        } else {
            None
        }
    } else if is_low_surrogate(u[0]) {
        None
    } else {
        match utf16_decode(u.subrange(1, u.len() as int)) {
            Some(r) => Some(seq![u[0] as char] + r),
            None => None,
        }
    }
}

/// Encoding a character in front of a text puts its units in front.
proof fn lemma_utf16_encode_front(c: char, s: Seq<char>)
    ensures
        utf16_encode(seq![c] + s) == utf16_of_char(c) + utf16_encode(s),
    decreases s.len(),
{
    if s.len() == 0 {
        let t = seq![c] + s;
        assert(t.drop_last() =~= Seq::<char>::empty());
        assert(t.last() == c);
        assert(utf16_encode(t.drop_last()) == Seq::<u16>::empty());
        assert(utf16_encode(s) == Seq::<u16>::empty());
        assert(utf16_encode(t) == utf16_encode(t.drop_last()) + utf16_of_char(t.last()));
        assert(utf16_encode(t) =~= utf16_of_char(c) + utf16_encode(s));
    } else {
        lemma_utf16_encode_front(c, s.drop_last());
        assert((seq![c] + s).drop_last() =~= seq![c] + s.drop_last());
        assert((seq![c] + s).last() == s.last());
        let t = seq![c] + s;
        assert(utf16_encode(t) == utf16_encode(t.drop_last()) + utf16_of_char(t.last()));
        assert(utf16_encode(s) == utf16_encode(s.drop_last()) + utf16_of_char(s.last()));
        assert(utf16_encode(t) =~= utf16_of_char(c) + utf16_encode(s));
    }
}

/// Decoding the units of one character followed by more units gives that
/// character followed by what the rest decodes to.
proof fn lemma_utf16_decode_char(c: char, rest: Seq<u16>)
    ensures
        utf16_decode(utf16_of_char(c) + rest) == match utf16_decode(rest) {
            Some(r) => Some(seq![c] + r),
            None => None::<Seq<char>>,
        },
{
    let v = c as int;
    let u = utf16_of_char(c) + rest;
    if v < 0x10000 {
        assert(!(0xD800 <= v && v <= 0xDFFF));
        assert(u[0] == v as u16);
        assert(u.subrange(1, u.len() as int) =~= rest);
        assert((u[0] as char) == c);
    } else {
        let w = v - 0x10000;
        assert(0 <= w < 0x100000);
        let hi = 0xD800 + w / 0x400;
        let lo = 0xDC00 + w % 0x400;
        assert(w == (w / 0x400) * 0x400 + w % 0x400) by (nonlinear_arith)
            requires
                0 <= w,
        ;
        assert(0 <= w / 0x400 < 0x400) by (nonlinear_arith)
            requires
                0 <= w < 0x100000,
        ;
        assert(0 <= w % 0x400 < 0x400) by (nonlinear_arith)
            requires
                0 <= w,
        ;
        assert(u[0] == hi as u16);
        assert(u[1] == lo as u16);
        assert(u.subrange(2, u.len() as int) =~= rest);
        assert(0x10000 + (u[0] - 0xD800) * 0x400 + (u[1] - 0xDC00) == v);
        assert(((0x10000 + (u[0] - 0xD800) * 0x400 + (u[1] - 0xDC00)) as char) == c);
    }
}

/// Decoding the UTF-16 encoding of a text gives the text back; in particular
/// the units of `wide(s)` before its terminator decode to `s`.
pub proof fn lemma_utf16_round_trip(s: Seq<char>)
    ensures
        utf16_decode(utf16_encode(s)) == Some(s),
    decreases s.len(),
{
    if s.len() > 0 {
        let rest = s.drop_first();
        assert(s =~= seq![s[0]] + rest);
        lemma_utf16_encode_front(s[0], rest);
        lemma_utf16_round_trip(rest);
        lemma_utf16_decode_char(s[0], utf16_encode(rest));
        assert(seq![s[0]] + rest =~= s);
    }
}

} // verus!
