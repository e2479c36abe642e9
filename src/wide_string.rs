//! NUL-terminated UTF-16 text, as the platform's wide-character calls take it.

use vstd::prelude::*;

use crate::text::chars_of;

verus! {

/// UTF-16 code units, ending with a NUL.
pub struct WideString(pub Vec<u16>);

/// The UTF-16 code units of one character.
pub open spec fn units_of(c: char) -> Seq<u16> {
    let u = c as u32;
    if u < 0x10000 {
        seq![u as u16]
    } else {
        seq![
            (0xD800 + (u - 0x10000) / 0x400) as u16,
            (0xDC00 + (u - 0x10000) % 0x400) as u16,
        ]
    }
}

/// The UTF-16 encoding of `s`, as `str::encode_utf16` yields it.
pub open spec fn utf16_of(s: Seq<char>) -> Seq<u16>
    decreases s.len(),
{
    if s.len() == 0 {
        Seq::empty()
    } else {
        utf16_of(s.drop_last()) + units_of(s.last())
    }
}

/// The bytes of `units`, each unit low byte first.
pub open spec fn bytes_of(units: Seq<u16>) -> Seq<u8>
    decreases units.len(),
{
    if units.len() == 0 {
        Seq::empty()
    } else {
        bytes_of(units.drop_last()) + seq![
            (units.last() % 256) as u8,
            (units.last() / 256) as u8,
        ]
    }
}

/// The NUL-terminated UTF-16 form of `s`.
fn wide_of(s: &str) -> (r: Vec<u16>)
    ensures
        r@ == utf16_of(s@).push(0),
{
    let chars = chars_of(s);
    let mut r: Vec<u16> = Vec::new();
    let mut i: usize = 0;
    while i < chars.len()
        invariant
            chars@ == s@,
            i <= chars@.len(),
            r@ == utf16_of(s@.subrange(0, i as int)),
        decreases chars@.len() - i,
    {
        assert(s@.subrange(0, i + 1).drop_last() =~= s@.subrange(0, i as int));
        let c = chars[i];
        proof {
            vstd::utf8::char_is_scalar(c);
        }
        let u = c as u32;
        if u < 0x10000 {
            r.push(u as u16);
        } else {
            assert(u <= 0x10FFFF);
            r.push((0xD800 + (u - 0x10000) / 0x400) as u16);
            r.push((0xDC00 + (u - 0x10000) % 0x400) as u16);
        }
        i = i + 1;
        assert(r@ =~= utf16_of(s@.subrange(0, i as int)));
    }
    assert(s@.subrange(0, chars@.len() as int) =~= s@);
    r.push(0);
    r
}

/// The bytes of the NUL-terminated UTF-16 form of `s`, low byte first.
fn wide_bytes_of(s: &str) -> (r: Vec<u8>)
    ensures
        r@ == bytes_of(utf16_of(s@).push(0)),
{
    let wide = wide_of(s);
    let mut r: Vec<u8> = Vec::new();
    let mut i: usize = 0;
    while i < wide.len()
        invariant
            i <= wide@.len(),
            r@ == bytes_of(wide@.subrange(0, i as int)),
        decreases wide@.len() - i,
    {
        assert(wide@.subrange(0, i + 1).drop_last() =~= wide@.subrange(0, i as int));
        let w = wide[i];
        r.push((w % 256) as u8);
        r.push((w / 256) as u8);
        i = i + 1;
        assert(r@ =~= bytes_of(wide@.subrange(0, i as int)));
    }
    assert(wide@.subrange(0, wide@.len() as int) =~= wide@);
    r
}

/// Text that converts to the platform's wide form.
pub trait ToWide {
    spec fn text(&self) -> Seq<char>;

    /// The NUL-terminated UTF-16 form.
    fn to_wide(&self) -> (r: WideString)
        ensures
            r.0@ == utf16_of(self.text()).push(0),
    ;

    /// The bytes of the NUL-terminated UTF-16 form, low byte first.
    fn to_wide_u8_vec(&self) -> (r: Vec<u8>)
        ensures
            r@ == bytes_of(utf16_of(self.text()).push(0)),
    ;
}

impl ToWide for &str {
    open spec fn text(&self) -> Seq<char> {
        (*self)@
    }

    fn to_wide(&self) -> (r: WideString) {
        WideString(wide_of(*self))
    }

    fn to_wide_u8_vec(&self) -> (r: Vec<u8>) {
        wide_bytes_of(*self)
    }
}

impl ToWide for String {
    open spec fn text(&self) -> Seq<char> {
        self@
    }

    fn to_wide(&self) -> (r: WideString) {
        WideString(wide_of(self.as_str()))
    }

    fn to_wide_u8_vec(&self) -> (r: Vec<u8>) {
        wide_bytes_of(self.as_str())
    }
}

} // verus!
