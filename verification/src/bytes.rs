use std::sync::Arc;
use vstd::prelude::*;

verus! {

/// Ownership abstraction over font-file bytes: either a borrowed slice that
/// lives for the caller's lifetime, or a reference-counted owned buffer.
/// Fonts and collections hold a clone of this, so the shared variant is never
/// copied when a font is selected or a glyph is cloned.
#[derive(Clone, Debug)]
pub enum SharedBytes<'a> {
    ByRef(&'a [u8]),
    ByArc(Arc<Vec<u8>>),
}

impl<'a> View for SharedBytes<'a> {
    type V = Seq<u8>;

    closed spec fn view(&self) -> Seq<u8> {
        match self {
            SharedBytes::ByRef(b) => b@,
            SharedBytes::ByArc(b) => b@,
        }
    }
}

impl<'a> SharedBytes<'a> {
    /// Some reference-counted buffer holding exactly these bytes.
    pub closed spec fn from_vec_spec(bytes: Seq<u8>) -> SharedBytes<'static> {
        choose|r: SharedBytes<'static>| r@ == bytes
    }

    /// Wraps an owned byte vector in a reference-counted buffer.
    pub fn from_vec(bytes: Vec<u8>) -> (r: SharedBytes<'static>)
        ensures
            r@ == bytes@,
    {
        SharedBytes::ByArc(Arc::new(bytes))
    }

    /// The contained bytes.
    pub fn as_slice(&self) -> (r: &[u8])
        ensures
            r@ == self@,
    {
        match self {
            SharedBytes::ByRef(b) => b,
            SharedBytes::ByArc(b) => b.as_slice(),
        }
    }

    /// The number of contained bytes.
    pub fn len(&self) -> (r: usize)
        ensures
            r == self@.len(),
    {
        self.as_slice().len()
    }
}

impl<'a> From<&'a [u8]> for SharedBytes<'a> {
    /// Wraps a borrowed slice without copying.
    fn from(bytes: &'a [u8]) -> (r: SharedBytes<'a>)
        ensures
            r@ == bytes@,
    {
        SharedBytes::ByRef(bytes)
    }
}

impl<'a> vstd::std_specs::convert::FromSpecImpl<&'a [u8]> for SharedBytes<'a> {
    open spec fn obeys_from_spec() -> bool {
        true
    }

    open spec fn from_spec(bytes: &'a [u8]) -> SharedBytes<'a> {
        SharedBytes::ByRef(bytes)
    }
}

impl From<Vec<u8>> for SharedBytes<'static> {
    /// Takes ownership of a byte vector behind a reference count.
    fn from(bytes: Vec<u8>) -> (r: SharedBytes<'static>)
        ensures
            r@ == bytes@,
    {
        SharedBytes::ByArc(Arc::new(bytes))
    }
}

impl vstd::std_specs::convert::FromSpecImpl<Vec<u8>> for SharedBytes<'static> {
    open spec fn obeys_from_spec() -> bool {
        false
    }

    open spec fn from_spec(bytes: Vec<u8>) -> SharedBytes<'static> {
        SharedBytes::from_vec_spec(bytes@)
    }
}

impl From<Box<[u8]>> for SharedBytes<'static> {
    /// Takes ownership of a boxed slice behind a reference count.
    fn from(bytes: Box<[u8]>) -> (r: SharedBytes<'static>)
        ensures
            r@ == bytes@,
    {
        SharedBytes::ByArc(Arc::new(bytes.into_vec()))
    }
}

impl vstd::std_specs::convert::FromSpecImpl<Box<[u8]>> for SharedBytes<'static> {
    open spec fn obeys_from_spec() -> bool {
        false
    }

    open spec fn from_spec(bytes: Box<[u8]>) -> SharedBytes<'static> {
        SharedBytes::from_vec_spec(bytes@)
    }
}

/// The big-endian 16-bit value stored at offset `i`.
pub open spec fn be_u16(s: Seq<u8>, i: int) -> int
    recommends
        0 <= i,
        i + 2 <= s.len(),
{
    s[i] * 256 + s[i + 1]
}

/// The big-endian 32-bit value stored at offset `i`.
pub open spec fn be_u32(s: Seq<u8>, i: int) -> int
    recommends
        0 <= i,
        i + 4 <= s.len(),
{
    be_u16(s, i) * 65536 + be_u16(s, i + 2)
}

/// The big-endian 16-bit value at offset `i`, read as a two's-complement
/// signed quantity.
pub open spec fn be_i16(s: Seq<u8>, i: int) -> int
    recommends
        0 <= i,
        i + 2 <= s.len(),
{
    if be_u16(s, i) >= 32768 {
        be_u16(s, i) - 65536
    } else {
        be_u16(s, i)
    }
}

/// Reads the big-endian 16-bit value at offset `i`.
pub fn read_u16_be(s: &[u8], i: usize) -> (r: u16)
    requires
        i + 2 <= s@.len(),
    ensures
        r as int == be_u16(s@, i as int),
{
    (s[i] as u16) * 256 + (s[i + 1] as u16)
}

/// Reads the big-endian 32-bit value at offset `i`.
pub fn read_u32_be(s: &[u8], i: usize) -> (r: u32)
    requires
        i + 4 <= s@.len(),
    ensures
        r as int == be_u32(s@, i as int),
{
    let n = s.len();
    let hi = read_u16_be(s, i);
    let lo = read_u16_be(s, i + 2);
    (hi as u32) * 65536 + (lo as u32)
}

/// Reads the big-endian 16-bit value at offset `i` as a signed quantity.
pub fn read_i16_be(s: &[u8], i: usize) -> (r: i16)
    requires
        i + 2 <= s@.len(),
    ensures
        r as int == be_i16(s@, i as int),
{
    let u = read_u16_be(s, i);
    if u >= 32768 {
        ((u as i32) - 65536) as i16
    } else {
        u as i16
    }
}

} // verus!
