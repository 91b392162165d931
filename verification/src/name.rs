//! Segment names.
//!
//! A segment is identified by a process-visible name used to rendezvous
//! between independent processes. A name is valid when it is non-empty and
//! free of embedded null bytes, since every native API receives it as a
//! null-terminated string.

use vstd::prelude::*;

verus! {

use vstd::string::StringSliceAdditionalSpecFns;
use vstd::string::StrSliceExecFns;

/// A name is valid when its byte encoding is non-empty and contains no
/// null byte.
pub open spec fn valid_name_bytes(bytes: Seq<u8>) -> bool {
    &&& bytes.len() > 0
    &&& forall|i: int| 0 <= i < bytes.len() ==> bytes[i] != 0u8
}

/// A string names a segment when its UTF-8 encoding is a valid name.
pub open spec fn valid_name(id: &str) -> bool {
    valid_name_bytes(id.spec_bytes())
}

/// Decides whether `id` is a valid segment name: non-empty and free of
/// embedded null bytes.
pub fn check_name(id: &str) -> (r: bool)
    ensures
        r == valid_name(id),
{
    let bytes: &[u8] = id.as_bytes();
    if bytes.len() == 0 {
        return false;
    }
    let mut i: usize = 0;
    while i < bytes.len()
        invariant
            0 <= i <= bytes@.len(),
            bytes@ == id.spec_bytes(),
            forall|j: int| 0 <= j < i ==> bytes@[j] != 0u8,
        decreases bytes@.len() - i,
    {
        if bytes[i] == 0 {
            return false;
        }
        i += 1;
    }
    true
}

/// The byte form in which a POSIX call receives a valid name: its UTF-8
/// bytes followed by a single terminating null byte.
pub fn c_name_bytes(id: &str) -> (r: Vec<u8>)
    requires
        valid_name(id),
    ensures
        r@ == id.spec_bytes().push(0u8),
        r@.len() == id.spec_bytes().len() + 1,
        forall|i: int| 0 <= i < r@.len() - 1 ==> r@[i] != 0u8,
        r@[r@.len() - 1] == 0u8,
{
    let bytes: &[u8] = id.as_bytes();
    let mut out: Vec<u8> = Vec::new();
    let mut i: usize = 0;
    while i < bytes.len()
        invariant
            0 <= i <= bytes@.len(),
            bytes@ == id.spec_bytes(),
            out@ == id.spec_bytes().subrange(0, i as int),
        decreases bytes@.len() - i,
    {
        out.push(bytes[i]);
        i += 1;
    }
    assert(out@ =~= id.spec_bytes());
    out.push(0);
    assert(out@ =~= id.spec_bytes().push(0u8));
    out
}

/// The UTF-16 code units that encode one scalar value: one unit below
/// the supplementary planes, a surrogate pair above them.
pub open spec fn utf16_units(v: u32) -> Seq<u16> {
    if v < 0x10000 {
        seq![v as u16]
    } else {
        seq![
            (0xD800 + (v - 0x10000) / 0x400) as u16,
            (0xDC00 + (v - 0x10000) % 0x400) as u16,
        ]
    }
}

/// The UTF-16 encoding of a character sequence.
pub open spec fn encode_utf16(s: Seq<char>) -> Seq<u16>
    decreases s.len(),
{
    if s.len() == 0 {
        Seq::empty()
    } else {
        utf16_units(s[0] as u32) + encode_utf16(s.drop_first())
    }
}

/// Encoding grows one character at a time from the back.
pub proof fn lemma_encode_utf16_push(s: Seq<char>, c: char)
    ensures
        encode_utf16(s.push(c)) == encode_utf16(s) + utf16_units(c as u32),
    decreases s.len(),
{
    let t = s.push(c);
    assert(t.len() == s.len() + 1);
    assert(t[0] == if s.len() == 0 { c } else { s[0] });
    assert(encode_utf16(t) == utf16_units(t[0] as u32) + encode_utf16(t.drop_first()));
    if s.len() == 0 {
        assert(t.drop_first() =~= Seq::<char>::empty());
        assert(encode_utf16(t.drop_first()) == Seq::<u16>::empty());
        assert(encode_utf16(s) == Seq::<u16>::empty());
        assert(utf16_units(c as u32) + Seq::<u16>::empty() =~= utf16_units(c as u32));
        assert(Seq::<u16>::empty() + utf16_units(c as u32) =~= utf16_units(c as u32));
    } else {
        assert(t.drop_first() =~= s.drop_first().push(c));
        lemma_encode_utf16_push(s.drop_first(), c);
        assert(encode_utf16(t) == utf16_units(s[0] as u32) + (encode_utf16(s.drop_first())
            + utf16_units(c as u32)));
        assert(encode_utf16(s) == utf16_units(s[0] as u32) + encode_utf16(s.drop_first()));
        assert(utf16_units(s[0] as u32) + (encode_utf16(s.drop_first()) + utf16_units(c as u32))
            =~= (utf16_units(s[0] as u32) + encode_utf16(s.drop_first())) + utf16_units(
            c as u32,
        ));
    }
}

/// The form in which a Windows call receives a name: its UTF-16 code
/// units followed by a single terminating zero unit.
pub fn to_utf16(s: &str) -> (r: Vec<u16>)
    ensures
        r@ == encode_utf16(s@).push(0u16),
{
    let n = s.unicode_len();
    let mut out: Vec<u16> = Vec::new();
    let mut i: usize = 0;
    while i < n
        invariant
            0 <= i <= n,
            n as nat == s@.len(),
            out@ == encode_utf16(s@.subrange(0, i as int)),
        decreases n - i,
    {
        let c = s.get_char(i);
        let v: u32 = c as u32;
        proof {
            assert(s@.subrange(0, (i + 1) as int) =~= s@.subrange(0, i as int).push(
                s@[i as int],
            ));
            lemma_encode_utf16_push(s@.subrange(0, i as int), s@[i as int]);
        }
        if v < 0x10000 {
            out.push(v as u16);
        } else {
            let w: u32 = v - 0x10000;
            out.push((0xD800 + w / 0x400) as u16);
            out.push((0xDC00 + w % 0x400) as u16);
        }
        proof {
            assert(out@ =~= encode_utf16(s@.subrange(0, (i + 1) as int)));
        }
        i += 1;
    }
    proof {
        assert(s@.subrange(0, s@.len() as int) =~= s@);
    }
    out.push(0);
    out
}

} // verus!
