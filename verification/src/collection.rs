//! A byte buffer recognized as font data: a single font or a TrueType
//! collection, from which fonts are selected.

use crate::bytes::{read_u32_be, SharedBytes};
use crate::error::Error;
use crate::font::Font;
use crate::ttf::{font_info_new, font_offset_for_index};
use crate::validate::{
    be_i32, font_valid, is_font, is_font_sig, is_ttc, is_ttc_sig, offset_for_index_spec,
    validate_font,
};
use vstd::prelude::*;
use vstd::slice::slice_to_vec;

verus! {

/// The collection header of a `ttcf` buffer is present and its offset table
/// covers the declared font count.
pub open spec fn ttc_header_ok(d: Seq<u8>) -> bool {
    &&& d.len() >= 12
    &&& 12 + 4 * (if be_i32(d, 8) >= 0 {
        be_i32(d, 8)
    } else {
        0int
    }) <= d.len()
}

/// The number of font indices a buffer can be asked for: one for a single
/// font, the declared count for a readable collection header.
pub open spec fn collection_extent(d: Seq<u8>) -> int {
    if is_font_sig(d) {
        1
    } else if is_ttc_sig(d) && ttc_header_ok(d) && be_i32(d, 8) >= 0 {
        be_i32(d, 8)
    } else {
        0
    }
}

/// The offset `into_font` selects, or the error it reports: offset 0 for a
/// single font; for a collection, the first font's offset if there is
/// exactly one, `CollectionContainsMultipleFonts` if a second font exists,
/// `IllFormed` if the header or the first entry is unreadable.
pub open spec fn single_font_offset(d: Seq<u8>) -> Result<int, Error> {
    if is_font_sig(d) {
        Result::Ok(0int)
    } else if !ttc_header_ok(d) {
        Result::Err(Error::IllFormed)
    } else if offset_for_index_spec(d, 1) is Some {
        Result::Err(Error::CollectionContainsMultipleFonts)
    } else {
        match offset_for_index_spec(d, 0) {
            Some(o) => Result::Ok(o),
            None => Result::Err(Error::IllFormed),
        }
    }
}

/// What `into_font` returns, as the selected offset: the offset chosen by
/// `single_font_offset`, provided the font there passes validation.
pub open spec fn into_font_spec(d: Seq<u8>) -> Result<int, Error> {
    match single_font_offset(d) {
        Ok(o) => if font_valid(d, o) {
            Result::Ok(o)
        } else {
            Result::Err(Error::IllFormed)
        },
        Err(e) => Result::Err(e),
    }
}

/// What `font_at` returns for index `i`, as the selected offset.
pub open spec fn font_at_spec(d: Seq<u8>, i: int) -> Result<int, Error> {
    if i > 0x7FFF_FFFF {
        Result::Err(Error::CollectionIndexOutOfBounds)
    } else if !is_font_sig(d) && !ttc_header_ok(d) {
        Result::Err(Error::IllFormed)
    } else {
        match offset_for_index_spec(d, i) {
            None => Result::Err(Error::CollectionIndexOutOfBounds),
            Some(o) => if font_valid(d, o) {
                Result::Ok(o)
            } else {
                Result::Err(Error::IllFormed)
            },
        }
    }
}

/// The offsets of the valid fonts among indices `0..n`, in index order.
pub open spec fn fonts_upto(d: Seq<u8>, n: int) -> Seq<int>
    decreases n,
{
    if n <= 0 {
        Seq::empty()
    } else {
        match font_at_spec(d, n - 1) {
            Ok(o) => fonts_upto(d, n - 1).push(o),
            Err(_) => fonts_upto(d, n - 1),
        }
    }
}

/// A byte buffer whose first bytes carry a recognized font or collection
/// signature.  Nothing beyond the signature is checked at construction.
#[derive(Clone, Debug)]
pub struct FontCollection<'a>(pub(crate) SharedBytes<'a>);

impl<'a> FontCollection<'a> {
    /// The wrapped bytes.
    pub closed spec fn bytes(&self) -> Seq<u8> {
        self.0@
    }

    /// The buffer was recognized at construction.
    pub open spec fn wf(&self) -> bool {
        is_font_sig(self.bytes()) || is_ttc_sig(self.bytes())
    }

    /// Wraps a buffer after checking that it starts with a single-font
    /// signature or the collection tag; `UnrecognizedFormat` when it starts
    /// with neither.  Nothing else is parsed here.
    pub fn new(bytes: SharedBytes<'a>) -> (r: Result<FontCollection<'a>, Error>)
        ensures
            match r {
                Ok(c) => c.bytes() == bytes@ && (is_font_sig(bytes@) || is_ttc_sig(bytes@)),
                Err(e) => {
                    &&& e == Error::UnrecognizedFormat
                    &&& !is_font_sig(bytes@)
                    &&& !is_ttc_sig(bytes@)
                },
            },
    {
        let ok = {
            let b = bytes.as_slice();
            is_font(b) || is_ttc(b)
        };
        if !ok {
            return Err(Error::UnrecognizedFormat);
        }
        Ok(FontCollection(bytes))
    }

    /// Checks that a collection's header and offset table are readable;
    /// vacuously true for a single font.
    fn header_ok(&self) -> (r: bool)
        requires
            self.wf(),
        ensures
            r == (is_font_sig(self.bytes()) || ttc_header_ok(self.bytes())),
    {
        let b = self.0.as_slice();
        if is_font(b) {
            return true;
        }
        if b.len() < 12 {
            return false;
        }
        let raw = read_u32_be(b, 8) as u64;
        if raw >= 0x8000_0000 {
            // A negative declared count: no entries are ever read.
            return true;
        }
        12 + 4 * raw <= b.len() as u64
    }

    /// If this collection holds a single font (a plain font buffer, or a
    /// collection of exactly one font), returns it, consuming the
    /// collection.  A collection with a second font reports
    /// `CollectionContainsMultipleFonts`; an unreadable header, entry or
    /// font reports `IllFormed`.
    pub fn into_font(self) -> (r: Result<Font, Error>)
        requires
            self.wf(),
        ensures
            match r {
                Ok(f) => {
                    &&& into_font_spec(self.bytes()) == Result::<int, Error>::Ok(f.offset())
                    &&& f.data() == self.bytes()
                    &&& f.wf()
                },
                Err(e) => into_font_spec(self.bytes()) == Result::<int, Error>::Err(e),
            },
    {
        let offset: u32;
        let single = {
            let b = self.0.as_slice();
            is_font(b)
        };
        if single {
            offset = 0;
        } else {
            if !self.header_ok() {
                return Err(Error::IllFormed);
            }
            let b = self.0.as_slice();
            match font_offset_for_index(b, 1) {
                Some(_) => {
                    return Err(Error::CollectionContainsMultipleFonts);
                },
                None => {},
            }
            match font_offset_for_index(b, 0) {
                None => {
                    return Err(Error::IllFormed);
                },
                Some(o) => {
                    offset = o;
                },
            }
        }
        let b = self.0.as_slice();
        if !validate_font(b, offset as usize) {
            return Err(Error::IllFormed);
        }
        let owned = slice_to_vec(b);
        match font_info_new(owned, offset) {
            Some(info) => Ok(Font::from_info(info)),
            None => Err(Error::IllFormed),
        }
    }

    /// The font at index `i`, without consuming the collection: the produced
    /// font holds a clone of the buffer.  An index beyond the collection
    /// reports `CollectionIndexOutOfBounds`; an unreadable header or font
    /// reports `IllFormed`.
    pub fn font_at(&self, i: usize) -> (r: Result<Font, Error>)
        requires
            self.wf(),
        ensures
            match r {
                Ok(f) => {
                    &&& font_at_spec(self.bytes(), i as int) == Result::<int, Error>::Ok(f.offset())
                    &&& f.data() == self.bytes()
                    &&& f.wf()
                },
                Err(e) => font_at_spec(self.bytes(), i as int) == Result::<int, Error>::Err(e),
            },
    {
        if i > 0x7FFF_FFFF {
            return Err(Error::CollectionIndexOutOfBounds);
        }
        let single = {
            let b = self.0.as_slice();
            is_font(b)
        };
        if !single && !self.header_ok() {
            return Err(Error::IllFormed);
        }
        let b = self.0.as_slice();
        let offset = match font_offset_for_index(b, i as u32) {
            None => {
                return Err(Error::CollectionIndexOutOfBounds);
            },
            Some(o) => o,
        };
        if !validate_font(b, offset as usize) {
            return Err(Error::IllFormed);
        }
        let owned = slice_to_vec(b);
        match font_info_new(owned, offset) {
            Some(info) => Ok(Font::from_info(info)),
            None => Err(Error::IllFormed),
        }
    }

    /// All valid fonts of the collection, in index order, consuming the
    /// collection.  Indices whose font is unreadable are skipped; iteration
    /// stops at the collection's extent.
    #[verifier::loop_isolation(false)]
    pub fn into_fonts(self) -> (r: Vec<Font>)
        requires
            self.wf(),
        ensures
            r@.len() == fonts_upto(self.bytes(), collection_extent(self.bytes())).len(),
            forall|k: int|
                0 <= k < r@.len() ==> {
                    &&& (#[trigger] r@[k]).wf()
                    &&& r@[k].data() == self.bytes()
                    &&& r@[k].offset() == fonts_upto(
                        self.bytes(),
                        collection_extent(self.bytes()),
                    )[k]
                },
    {
        let mut fonts: Vec<Font> = Vec::new();
        let single = {
            let b = self.0.as_slice();
            is_font(b)
        };
        if single {
            assert(collection_extent(self.bytes()) == 1);
            match self.font_at(0) {
                Ok(f) => {
                    fonts.push(f);
                },
                Err(_) => {},
            }
            proof {
                assert(fonts_upto(self.bytes(), 1) == (match font_at_spec(self.bytes(), 0) {
                    Ok(o) => fonts_upto(self.bytes(), 0).push(o),
                    Err(_) => fonts_upto(self.bytes(), 0),
                }));
            }
            return fonts;
        }
        if !self.header_ok() {
            assert(collection_extent(self.bytes()) == 0);
            return fonts;
        }
        let n: u32 = {
            let b = self.0.as_slice();
            if b.len() < 12 {
                0
            } else {
                let raw = read_u32_be(b, 8);
                if raw >= 0x8000_0000 {
                    0
                } else {
                    raw
                }
            }
        };
        assert(n as int == collection_extent(self.bytes()));
        let mut i: u32 = 0;
        while i < n
            invariant
                0 <= i <= n,
                fonts@.len() == fonts_upto(self.bytes(), i as int).len(),
                forall|k: int|
                    0 <= k < fonts@.len() ==> {
                        &&& (#[trigger] fonts@[k]).wf()
                        &&& fonts@[k].data() == self.bytes()
                        &&& fonts@[k].offset() == fonts_upto(self.bytes(), i as int)[k]
                    },
            decreases n - i,
        {
            let ghost prev = fonts_upto(self.bytes(), i as int);
            let ghost prev_fonts = fonts@;
            match self.font_at(i as usize) {
                Ok(f) => {
                    fonts.push(f);
                },
                Err(_) => {},
            }
            i = i + 1;
            proof {
                assert(fonts_upto(self.bytes(), i as int) == (match font_at_spec(
                    self.bytes(),
                    i as int - 1,
                ) {
                    Ok(o) => prev.push(o),
                    Err(_) => prev,
                }));
                assert forall|k: int| 0 <= k < fonts@.len() implies {
                    &&& (#[trigger] fonts@[k]).wf()
                    &&& fonts@[k].data() == self.bytes()
                    &&& fonts@[k].offset() == fonts_upto(self.bytes(), i as int)[k]
                } by {
                    if k < prev.len() {
                        assert(fonts@[k] == prev_fonts[k]);
                    }
                }
            }
        }
        fonts
    }
}

} // verus!
