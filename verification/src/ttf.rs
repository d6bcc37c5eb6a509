//! The trusted boundary to the `stb_truetype` table accessor.
//!
//! Everything the collaborator computes is reached through the wrappers
//! below.  Their contracts state, over the raw bytes, what the collaborator's
//! source shows it reads and returns; results that would take pages to state
//! (character-map lookups, kerning pairs, decoded outlines) are given names
//! instead, as functions of the font bytes and offset alone.  Every wrapper
//! that reads table contents requires `font_valid`, which keeps the reads it
//! triggers inside the buffer.

use crate::bytes::{be_i16, be_u16};
use std::sync::Arc;
use crate::validate::{
    font_valid, num_glyphs_spec, offset_for_index_spec, offset_lookup_safe, table_of,
};
use vstd::prelude::*;

verus! {

#[verifier::external_type_specification]
#[verifier::external_body]
#[verifier::reject_recursive_types(Data)]
pub struct ExFontInfo<Data: core::ops::Deref<Target = [u8]>>(stb_truetype::FontInfo<Data>);

/// The font-file bytes a shared table accessor was built over.
pub uninterp spec fn info_data(fi: Arc<stb_truetype::FontInfo<Vec<u8>>>) -> Seq<u8>;

/// The table-directory offset a shared table accessor was built at.
pub uninterp spec fn info_offset(fi: Arc<stb_truetype::FontInfo<Vec<u8>>>) -> int;

/// The glyph identifier the collaborator's character map assigns to a code
/// point (0 for a code point the font does not cover).
pub uninterp spec fn glyph_index_of(d: Seq<u8>, off: int, cp: int) -> int;

/// The raw kerning advance the collaborator's pair table assigns to two
/// glyph identifiers (0 when the pair is absent), in font design units.
pub uninterp spec fn kern_of(d: Seq<u8>, off: int, g1: int, g2: int) -> int;

/// The decoded outline of a glyph: a vertex list as tuples of
/// (tag, x, y, cx, cy) with tag 1 move, 2 line, 3 curve; `None` for a glyph
/// with no outline data.
pub uninterp spec fn shape_of(d: Seq<u8>, off: int, gid: int) -> Option<
    Seq<(int, int, int, int, int)>,
>;

/// Ascent, descent and line gap in design units, as stored in the `hhea`
/// table.
pub open spec fn v_metrics_spec(d: Seq<u8>, off: int) -> (int, int, int) {
    let hhea = table_of(d, off, 0x68, 0x68, 0x65, 0x61);
    (be_i16(d, hhea + 4), be_i16(d, hhea + 6), be_i16(d, hhea + 8))
}

/// Units per em square, as stored in the `head` table.
pub open spec fn units_per_em_spec(d: Seq<u8>, off: int) -> int {
    be_u16(d, table_of(d, off, 0x68, 0x65, 0x61, 0x64) + 18)
}

/// Advance width and left side bearing of a glyph in design units, as stored
/// in the `hmtx` table: a glyph past the long-metric array shares the last
/// long entry's advance.
pub open spec fn h_metrics_spec(d: Seq<u8>, off: int, gid: int) -> (int, int) {
    let hhea = table_of(d, off, 0x68, 0x68, 0x65, 0x61);
    let hmtx = table_of(d, off, 0x68, 0x6d, 0x74, 0x78);
    let nl = be_u16(d, hhea + 34);
    if gid < nl {
        (be_i16(d, hmtx + 4 * gid), be_i16(d, hmtx + 4 * gid + 2))
    } else {
        (be_i16(d, hmtx + 4 * (nl - 1)), be_i16(d, hmtx + 4 * nl + 2 * (gid - nl)))
    }
}

/// The bytes of name-table string `i` of the font at `off`, paired with the
/// record's name identifier.
pub open spec fn name_string_at(d: Seq<u8>, nm: int, i: int) -> (Seq<u8>, int) {
    let so = nm + be_u16(d, nm + 4);
    let rec = nm + 6 + 12 * i;
    (
        d.subrange(so + be_u16(d, rec + 10), so + be_u16(d, rec + 10) + be_u16(d, rec + 8)),
        be_u16(d, rec + 6),
    )
}

/// The name-table strings of the font at `off` with their name identifiers,
/// in record order; empty when the font has no name table.
pub open spec fn name_strings_spec(d: Seq<u8>, off: int) -> Seq<(Seq<u8>, int)> {
    let nm = table_of(d, off, 0x6e, 0x61, 0x6d, 0x65);
    if nm == 0 {
        Seq::empty()
    } else {
        Seq::new(be_u16(d, nm + 2) as nat, |i: int| name_string_at(d, nm, i))
    }
}

/// A vertex tag of a decoded glyph outline.
#[derive(Clone, Copy, Debug, PartialEq, Eq, Structural)]
pub enum VertexKind {
    MoveTo,
    LineTo,
    CurveTo,
}

/// One decoded outline vertex, in font design units.
#[derive(Clone, Copy, Debug, PartialEq, Eq, Structural)]
pub struct OutlineVertex {
    pub kind: VertexKind,
    pub x: i16,
    pub y: i16,
    pub cx: i16,
    pub cy: i16,
}

impl OutlineVertex {
    /// This vertex as a (tag, x, y, cx, cy) tuple.
    pub open spec fn tup(self) -> (int, int, int, int, int) {
        (
            match self.kind {
                VertexKind::MoveTo => 1int,
                VertexKind::LineTo => 2int,
                VertexKind::CurveTo => 3int,
            },
            self.x as int,
            self.y as int,
            self.cx as int,
            self.cy as int,
        )
    }
}

/// Relies on `get_font_offset_for_index`: offset 0 for a single font at
/// index 0, the offset table entry of a collection for an in-range index,
/// `None` otherwise.
#[verifier::external_body]
pub(crate) fn font_offset_for_index(data: &[u8], index: u32) -> (r: Option<u32>)
    requires
        offset_lookup_safe(data@, index as int),
        index <= 0x7FFF_FFFF,
    ensures
        match r {
            Some(o) => offset_for_index_spec(data@, index as int) == Some(o as int),
            None => offset_for_index_spec(data@, index as int) is None,
        },
{
    stb_truetype::get_font_offset_for_index(data, index as i32)
}

/// Relies on `FontInfo::new`: under `font_valid` every required table and a
/// usable character map are present, so construction succeeds and binds the
/// accessor to exactly these bytes and this offset, behind a reference
/// count.
#[verifier::external_body]
pub(crate) fn font_info_new(data: Vec<u8>, offset: u32) -> (r: Option<
    Arc<stb_truetype::FontInfo<Vec<u8>>>,
>)
    requires
        font_valid(data@, offset as int),
    ensures
        r is Some,
        r matches Some(fi) ==> info_data(fi) == data@ && info_offset(fi) == offset as int,
{
    stb_truetype::FontInfo::new(data, offset as usize).map(Arc::new)
}

/// Relies on `Arc::clone`: the same table accessor behind a new reference
/// count, with no copy of the font bytes.
#[verifier::external_body]
pub(crate) fn fi_clone(fi: &Arc<stb_truetype::FontInfo<Vec<u8>>>) -> (r: Arc<
    stb_truetype::FontInfo<Vec<u8>>,
>)
    ensures
        info_data(r) == info_data(*fi),
        info_offset(r) == info_offset(*fi),
{
    fi.clone()
}

/// Relies on `get_num_glyphs`: the glyph count cached at construction, read
/// from `maxp` (0xffff when that table is absent).
#[verifier::external_body]
pub(crate) fn fi_num_glyphs(fi: &Arc<stb_truetype::FontInfo<Vec<u8>>>) -> (r: u32)
    ensures
        r as int == num_glyphs_spec(info_data(*fi), info_offset(*fi)),
        r <= 0xffff,
{
    fi.get_num_glyphs()
}

/// Relies on `units_per_em`: the 16-bit field at offset 18 of `head`.
#[verifier::external_body]
pub(crate) fn fi_units_per_em(fi: &Arc<stb_truetype::FontInfo<Vec<u8>>>) -> (r: u16)
    requires
        font_valid(info_data(*fi), info_offset(*fi)),
    ensures
        r as int == units_per_em_spec(info_data(*fi), info_offset(*fi)),
{
    fi.units_per_em()
}

/// Relies on `get_v_metrics`: the three signed 16-bit fields at offset 4 of
/// `hhea`.
#[verifier::external_body]
pub(crate) fn fi_v_metrics(fi: &Arc<stb_truetype::FontInfo<Vec<u8>>>) -> (r: (i32, i32, i32))
    requires
        font_valid(info_data(*fi), info_offset(*fi)),
    ensures
        (r.0 as int, r.1 as int, r.2 as int) == v_metrics_spec(info_data(*fi), info_offset(*fi)),
{
    let vm = fi.get_v_metrics();
    (vm.ascent, vm.descent, vm.line_gap)
}

/// Relies on `get_glyph_h_metrics`: the long metric of the glyph, or the
/// last advance paired with the short-array bearing for glyphs past the
/// long-metric array.
#[verifier::external_body]
pub(crate) fn fi_h_metrics(fi: &Arc<stb_truetype::FontInfo<Vec<u8>>>, gid: u32) -> (r: (i32, i32))
    requires
        font_valid(info_data(*fi), info_offset(*fi)),
        gid < num_glyphs_spec(info_data(*fi), info_offset(*fi)),
    ensures
        (r.0 as int, r.1 as int) == h_metrics_spec(info_data(*fi), info_offset(*fi), gid as int),
{
    let hm = fi.get_glyph_h_metrics(gid);
    (hm.advance_width, hm.left_side_bearing)
}

/// Relies on `find_glyph_index`: the character-map lookup of a code point in
/// the subtable chosen at construction.  Under `font_valid` that subtable
/// uses format 0, 4, 6, 12 or 13; the first three answer with bytes or
/// 16-bit values, and the group formats are admitted only when every
/// group's glyph identifiers fit 16 bits.
#[verifier::external_body]
pub(crate) fn fi_find_glyph_index(fi: &Arc<stb_truetype::FontInfo<Vec<u8>>>, cp: char) -> (r: u32)
    requires
        font_valid(info_data(*fi), info_offset(*fi)),
    ensures
        r as int == glyph_index_of(info_data(*fi), info_offset(*fi), cp as int),
        r <= 0xffff,
{
    fi.find_glyph_index(cp as u32)
}

/// Relies on `get_glyph_kern_advance`: the signed 16-bit advance of the pair
/// in the first horizontal format-0 kerning table, 0 when absent.
#[verifier::external_body]
pub(crate) fn fi_kern_advance(fi: &Arc<stb_truetype::FontInfo<Vec<u8>>>, g1: u32, g2: u32) -> (r: i32)
    requires
        font_valid(info_data(*fi), info_offset(*fi)),
    ensures
        r as int == kern_of(info_data(*fi), info_offset(*fi), g1 as int, g2 as int),
        -32768 <= r <= 32767,
{
    fi.get_glyph_kern_advance(g1, g2)
}

/// Relies on `get_font_name_strings`: the name-table strings, one per
/// record, in record order, each carried out as its plain bytes with the
/// record's name identifier.
#[verifier::external_body]
pub(crate) fn fi_font_name_strings(fi: &Arc<stb_truetype::FontInfo<Vec<u8>>>) -> (r: Vec<
    (Vec<u8>, u16),
>)
    requires
        font_valid(info_data(*fi), info_offset(*fi)),
    ensures
        r@.map_values(|p: (Vec<u8>, u16)| (p.0@, p.1 as int)) == name_strings_spec(
            info_data(*fi),
            info_offset(*fi),
        ),
{
    fi.get_font_name_strings().map(|(s, _, id)| (s.to_vec(), id)).collect()
}

/// Relies on `get_glyph_shape` and `Vertex::vertex_type`: the decoded
/// outline of a glyph, each vertex mapped tag-for-tag and field-for-field;
/// `None` for a glyph without outline data.  `font_valid` admits simple
/// outlines and one-level compound outlines whose worst-case reads are in
/// bounds and whose decoded coordinates stay within [-16384, 16383], so
/// every 16-bit sum or midpoint the decoder forms is in range.
#[verifier::external_body]
pub(crate) fn fi_glyph_shape(fi: &Arc<stb_truetype::FontInfo<Vec<u8>>>, gid: u32) -> (r: Option<
    Vec<OutlineVertex>,
>)
    requires
        font_valid(info_data(*fi), info_offset(*fi)),
        gid < num_glyphs_spec(info_data(*fi), info_offset(*fi)),
    ensures
        match r {
            None => shape_of(info_data(*fi), info_offset(*fi), gid as int) is None,
            Some(vs) => shape_of(info_data(*fi), info_offset(*fi), gid as int) matches Some(s)
                && vs@.map_values(|v: OutlineVertex| v.tup()) == s,
        },
{
    fi.get_glyph_shape(gid).map(|vs| vs.iter().map(|v| OutlineVertex {
        kind: match v.vertex_type() {
            stb_truetype::VertexType::MoveTo => VertexKind::MoveTo,
            stb_truetype::VertexType::LineTo => VertexKind::LineTo,
            stb_truetype::VertexType::CurveTo => VertexKind::CurveTo,
        },
        x: v.x,
        y: v.y,
        cx: v.cx,
        cy: v.cy,
    }).collect())
}

} // verus!
