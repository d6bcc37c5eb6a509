//! A single validated font bound to one table-directory offset.

use crate::collection::{into_font_spec, FontCollection};
use crate::error::Error;
use crate::fixed::{compute_scale_factor, scale_factor, Vec2, SCALE_MAX};
use crate::ttf::{
    fi_clone, fi_find_glyph_index, fi_font_name_strings, fi_glyph_shape, fi_h_metrics,
    fi_kern_advance, fi_num_glyphs, fi_units_per_em, fi_v_metrics, glyph_index_of,
    h_metrics_spec, info_data, info_offset, kern_of, name_strings_spec, shape_of,
    units_per_em_spec, v_metrics_spec, OutlineVertex,
};
use crate::bytes::SharedBytes;
use std::sync::Arc;
use crate::validate::{font_valid, is_font_sig, is_ttc_sig, num_glyphs_spec};
use vstd::prelude::*;

verus! {

/// A font addressed inside a validated byte buffer.  All queries go through
/// the table accessor the font was constructed with; `wf` says the buffer
/// passed `font_valid` at this offset, which constructors establish and every
/// method preserves.
pub struct Font {
    pub(crate) info: Arc<stb_truetype::FontInfo<Vec<u8>>>,
}

impl Font {
    /// The font-file bytes this font reads.
    pub closed spec fn data(&self) -> Seq<u8> {
        info_data(self.info)
    }

    /// The table-directory offset this font is bound to.
    pub closed spec fn offset(&self) -> int {
        info_offset(self.info)
    }

    /// The font's bytes passed validation at its offset.
    pub open spec fn wf(&self) -> bool {
        font_valid(self.data(), self.offset())
    }

    /// The font height in design units: ascent minus descent.  Positive for
    /// every validated font.
    pub open spec fn font_height(&self) -> int {
        v_metrics_spec(self.data(), self.offset()).0 - v_metrics_spec(self.data(), self.offset()).1
    }

    /// Binds a font to a freshly built shared table accessor.
    pub(crate) fn from_info(info: Arc<stb_truetype::FontInfo<Vec<u8>>>) -> (f: Font)
        ensures
            f.data() == info_data(info),
            f.offset() == info_offset(info),
    {
        Font { info }
    }

    /// Constructs a font from a byte buffer holding a single font, or a
    /// collection containing exactly one font.  A shortcut for
    /// `FontCollection::new` followed by `into_font`.
    pub fn new(bytes: SharedBytes<'_>) -> (r: Result<Font, Error>)
        ensures
            match r {
                Ok(f) => {
                    &&& is_font_sig(bytes@) || is_ttc_sig(bytes@)
                    &&& into_font_spec(bytes@) == Result::<int, Error>::Ok(f.offset())
                    &&& f.data() == bytes@
                    &&& f.wf()
                },
                Err(e) => {
                    if is_font_sig(bytes@) || is_ttc_sig(bytes@) {
                        into_font_spec(bytes@) == Result::<int, Error>::Err(e)
                    } else {
                        e == Error::UnrecognizedFormat
                    }
                },
            },
    {
        match FontCollection::new(bytes) {
            Ok(c) => c.into_font(),
            Err(e) => Err(e),
        }
    }

    /// The units per em square of this font.
    pub fn units_per_em(&self) -> (r: u16)
        requires
            self.wf(),
        ensures
            r as int == units_per_em_spec(self.data(), self.offset()),
    {
        fi_units_per_em(&self.info)
    }

    /// The number of glyphs in this font.  Glyph identifiers for this font
    /// always lie in `0..glyph_count()`.
    pub fn glyph_count(&self) -> (r: usize)
        requires
            self.wf(),
        ensures
            r == num_glyphs_spec(self.data(), self.offset()),
            1 <= r <= 0xffff,
    {
        fi_num_glyphs(&self.info) as usize
    }

    /// The ascent of the font scaled to pixels, in fixed point: the vertical
    /// baseline offset applied when drawing at a given scale.
    pub(crate) fn scaled_ascent(&self, sy: i64) -> (r: i64)
        requires
            self.wf(),
            0 <= sy <= crate::fixed::FACTOR_MAX,
        ensures
            r == v_metrics_spec(self.data(), self.offset()).0 * sy,
            -0x2000_0000_0000_0000 <= r <= 0x2000_0000_0000_0000,
    {
        let vm = fi_v_metrics(&self.info);
        proof {
            assert(-32768 <= v_metrics_spec(self.data(), self.offset()).0 <= 32767);
            crate::fixed::lemma_scaled_bound(vm.0 as int, sy as int);
        }
        (vm.0 as i64) * sy
    }

    /// The name strings of this font, in name-table record order, as raw
    /// bytes in each record's own encoding, each paired with its name
    /// identifier; empty when the font carries no name table.
    pub fn font_name_strings(&self) -> (r: Vec<(Vec<u8>, u16)>)
        requires
            self.wf(),
        ensures
            r@.map_values(|p: (Vec<u8>, u16)| (p.0@, p.1 as int)) == name_strings_spec(
                self.data(),
                self.offset(),
            ),
    {
        fi_font_name_strings(&self.info)
    }

    /// The glyph identifier the character map assigns to a character.
    pub(crate) fn lookup_glyph_index(&self, cp: char) -> (r: u32)
        requires
            self.wf(),
        ensures
            r as int == glyph_index_of(self.data(), self.offset(), cp as int),
            r <= 0xffff,
    {
        fi_find_glyph_index(&self.info, cp)
    }

    /// The raw horizontal metrics of a glyph, in design units.
    pub(crate) fn h_metrics(&self, gid: u32) -> (r: (i32, i32))
        requires
            self.wf(),
            (gid as int) < num_glyphs_spec(self.data(), self.offset()),
        ensures
            (r.0 as int, r.1 as int) == h_metrics_spec(self.data(), self.offset(), gid as int),
    {
        fi_h_metrics(&self.info, gid)
    }

    /// The raw kerning advance of a glyph pair, in design units.
    pub(crate) fn kern_advance(&self, g1: u32, g2: u32) -> (r: i32)
        requires
            self.wf(),
        ensures
            r as int == kern_of(self.data(), self.offset(), g1 as int, g2 as int),
            -32768 <= r <= 32767,
    {
        fi_kern_advance(&self.info, g1, g2)
    }

    /// The decoded outline of a glyph, `None` when it has no outline data.
    pub(crate) fn glyph_shape(&self, gid: u32) -> (r: Option<Vec<OutlineVertex>>)
        requires
            self.wf(),
            (gid as int) < num_glyphs_spec(self.data(), self.offset()),
        ensures
            match r {
                None => shape_of(self.data(), self.offset(), gid as int) is None,
                Some(vs) => shape_of(self.data(), self.offset(), gid as int) matches Some(s)
                    && vs@.map_values(|v: OutlineVertex| v.tup()) == s,
            },
    {
        fi_glyph_shape(&self.info, gid)
    }

    /// The per-axis scale factors for a requested pixel scale: each axis is
    /// the requested pixel size divided by the font height, so horizontal
    /// scaling stays aspect-consistent when the two sizes differ.
    pub fn scale_factors(&self, scale: Vec2) -> (r: (i64, i64))
        requires
            self.wf(),
            0 <= scale.0.0 <= SCALE_MAX,
            0 <= scale.1.0 <= SCALE_MAX,
        ensures
            r.0 == scale_factor(scale.0.bits(), self.font_height()),
            r.1 == scale_factor(scale.1.bits(), self.font_height()),
            0 <= r.0 <= crate::fixed::FACTOR_MAX,
            0 <= r.1 <= crate::fixed::FACTOR_MAX,
    {
        let vm = fi_v_metrics(&self.info);
        let fh: i32 = vm.0 - vm.1;
        let sx = compute_scale_factor(scale.0.0, fh);
        let sy = compute_scale_factor(scale.1.0, fh);
        (sx, sy)
    }
}

impl Clone for Font {
    /// A clone reads the same bytes at the same offset.
    fn clone(&self) -> (r: Self)
        ensures
            r.data() == self.data(),
            r.offset() == self.offset(),
    {
        Font { info: fi_clone(&self.info) }
    }
}

} // verus!
