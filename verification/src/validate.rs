//! Byte-level validity of a TrueType font at a given offset.
//!
//! `font_valid` states, directly over the bytes, that every table read the
//! table-accessor collaborator performs for the queries this crate makes
//! stays inside the buffer, and that every decoded outline coordinate stays
//! in the range where the decoder's 16-bit arithmetic cannot overflow.
//! `validate_font` checks it at run time, so fonts are only handed to the
//! collaborator after the reads and sums they trigger are known to be safe.

use crate::bytes::{be_i16, be_u16, be_u32, read_i16_be, read_u16_be, read_u32_be};
use vstd::prelude::*;

verus! {

/// The buffer starts with one of the four signatures of a single TrueType
/// font: `1\0\0\0`, `typ1`, `OTTO` or `\0\1\0\0`.
pub open spec fn is_font_sig(d: Seq<u8>) -> bool {
    d.len() >= 4 && ((d[0] == 0x31 && d[1] == 0 && d[2] == 0 && d[3] == 0) || (d[0] == 0x74
        && d[1] == 0x79
        && d[2] == 0x70
        && d[3] == 0x31) || (d[0] == 0x4f && d[1] == 0x54 && d[2] == 0x54 && d[3] == 0x4f) || (d[0]
        == 0 && d[1] == 1 && d[2] == 0 && d[3] == 0))
}

/// The buffer starts with the TrueType-collection tag `ttcf`.
pub open spec fn is_ttc_sig(d: Seq<u8>) -> bool {
    d.len() >= 4 && d[0] == 0x74 && d[1] == 0x74 && d[2] == 0x63 && d[3] == 0x66
}

/// True if `data` starts with a recognized single-font signature.
pub fn is_font(data: &[u8]) -> (r: bool)
    ensures
        r == is_font_sig(data@),
{
    if data.len() < 4 {
        return false;
    }
    (data[0] == 0x31 && data[1] == 0 && data[2] == 0 && data[3] == 0) || (data[0] == 0x74
        && data[1] == 0x79 && data[2] == 0x70 && data[3] == 0x31) || (data[0] == 0x4f && data[1]
        == 0x54 && data[2] == 0x54 && data[3] == 0x4f) || (data[0] == 0 && data[1] == 1 && data[2]
        == 0 && data[3] == 0)
}

/// True if `data` starts with the collection tag.
pub fn is_ttc(data: &[u8]) -> (r: bool)
    ensures
        r == is_ttc_sig(data@),
{
    data.len() >= 4 && data[0] == 0x74 && data[1] == 0x74 && data[2] == 0x63 && data[3] == 0x66
}

/// The big-endian 32-bit value at offset `i`, read as two's-complement.
pub open spec fn be_i32(d: Seq<u8>, i: int) -> int {
    if be_u32(d, i) >= 0x8000_0000 {
        be_u32(d, i) - 0x1_0000_0000
    } else {
        be_u32(d, i)
    }
}

/// What the collaborator's font-offset lookup returns: offset 0 for a plain
/// font at index 0, the table-directory offset read from a collection header
/// for an in-range index, `None` otherwise.
pub open spec fn offset_for_index_spec(d: Seq<u8>, i: int) -> Option<int> {
    if is_font_sig(d) {
        if i == 0 {
            Some(0int)
        } else {
            None
        }
    } else if is_ttc_sig(d) && (be_u32(d, 4) == 0x0001_0000 || be_u32(d, 4) == 0x0002_0000) {
        if i >= be_i32(d, 8) {
            None
        } else {
            Some(be_u32(d, 12 + 4 * i))
        }
    } else {
        None
    }
}

/// The reads of the offset lookup stay in bounds: nothing past the signature
/// is read unless the buffer is a collection, and then the header and the
/// offset table up to the declared font count must be present.
pub open spec fn offset_lookup_safe(d: Seq<u8>, i: int) -> bool {
    &&& 0 <= i
    &&& (!is_font_sig(d) && is_ttc_sig(d)) ==> {
        &&& d.len() >= 12
        &&& 12 + 4 * be_i32(d, 8) <= d.len()
    }
}

/// First matching entry of the table directory at `off`, scanning entries
/// `i..nt`; 0 when the tag is absent.
pub open spec fn find_table_rec(
    d: Seq<u8>,
    off: int,
    t0: u8,
    t1: u8,
    t2: u8,
    t3: u8,
    i: int,
    nt: int,
) -> int
    decreases nt - i,
{
    if i >= nt {
        0
    } else {
        let loc = off + 12 + 16 * i;
        if d[loc] == t0 && d[loc + 1] == t1 && d[loc + 2] == t2 && d[loc + 3] == t3 {
            be_u32(d, loc + 8)
        } else {
            find_table_rec(d, off, t0, t1, t2, t3, i + 1, nt)
        }
    }
}

/// Offset of the table tagged `t0 t1 t2 t3` in the directory at `off`;
/// 0 when absent.
pub open spec fn table_of(d: Seq<u8>, off: int, t0: u8, t1: u8, t2: u8, t3: u8) -> int {
    find_table_rec(d, off, t0, t1, t2, t3, 0, be_u16(d, off + 4))
}

/// The table directory at `off` lies inside the buffer, and the buffer is
/// small enough that no offset arithmetic on it can wrap a 32-bit quantity.
pub open spec fn dir_ok(d: Seq<u8>, off: int) -> bool {
    &&& d.len() <= 0x7FFF_FFFF
    &&& 0 <= off
    &&& off + 12 <= d.len()
    &&& off + 12 + 16 * be_u16(d, off + 4) <= d.len()
}

/// The character-map subtable chosen by the collaborator: the last encoding
/// record for the Unicode platform or a Unicode Microsoft encoding, scanning
/// records `i..n` with `cur` chosen so far.
pub open spec fn cmap_chosen_rec(d: Seq<u8>, cmap: int, i: int, n: int, cur: int) -> int
    decreases n - i,
{
    if i >= n {
        cur
    } else {
        let rec = cmap + 4 + 8 * i;
        let cur2 = if be_u16(d, rec) == 0 || (be_u16(d, rec) == 3 && (be_u16(d, rec + 2) == 1
            || be_u16(d, rec + 2) == 10)) {
            cmap + be_u32(d, rec + 4)
        } else {
            cur
        };
        cmap_chosen_rec(d, cmap, i + 1, n, cur2)
    }
}

/// The chosen character-map subtable for the font at `off`; 0 when none.
pub open spec fn cmap_chosen(d: Seq<u8>, off: int) -> int {
    let cmap = table_of(d, off, 0x63, 0x6d, 0x61, 0x70);
    cmap_chosen_rec(d, cmap, 0, be_u16(d, cmap + 2), 0)
}

/// The number of glyphs the font declares: read from `maxp` when present,
/// 0xffff otherwise.
pub open spec fn num_glyphs_spec(d: Seq<u8>, off: int) -> int {
    let maxp = table_of(d, off, 0x6d, 0x61, 0x78, 0x70);
    if maxp != 0 {
        be_u16(d, maxp + 4)
    } else {
        0xffff
    }
}

/// Encoding record `i` keeps the chosen-subtable offset inside the buffer
/// whenever the record is one the collaborator picks.
pub open spec fn cmap_rec_ok(d: Seq<u8>, cmap: int, i: int) -> bool {
    let rec = cmap + 4 + 8 * i;
    (be_u16(d, rec) == 0 || (be_u16(d, rec) == 3 && (be_u16(d, rec + 2) == 1 || be_u16(
        d,
        rec + 2,
    ) == 10))) ==> cmap + be_u32(d, rec + 4) <= d.len()
}

/// Segment `i` of a format-4 subtable is ordered and keeps its glyph-array
/// reads inside the buffer: its end code does not exceed the next segment's,
/// and when the segment routes through a range offset, the read for the
/// largest code point of the segment is still in bounds.
pub open spec fn cmap4_seg_ok(d: Seq<u8>, im: int, sc: int, i: int) -> bool {
    let end = be_u16(d, im + 14 + 2 * i);
    let start = be_u16(d, im + 14 + 2 * sc + 2 + 2 * i);
    let roff_pos = im + 14 + 6 * sc + 2 + 2 * i;
    let roff = be_u16(d, roff_pos);
    &&& i < sc - 1 ==> end <= be_u16(d, im + 14 + 2 * i + 2)
    &&& (roff != 0 && start <= end) ==> roff_pos + roff + 2 * (end - start) + 2 <= d.len()
}

/// A format-4 subtable whose binary search cannot read out of bounds or land
/// on a segment that does not cover the code point: the search fields are
/// consistent with the segment count, the segment end values are sorted and
/// finish with the sentinel 0xffff, and every range-offset read is bounded.
pub open spec fn cmap_format4_ok(d: Seq<u8>, im: int) -> bool {
    let sc = be_u16(d, im + 6) / 2;
    let sr = be_u16(d, im + 8) / 2;
    let es = be_u16(d, im + 10);
    let rs = be_u16(d, im + 12) / 2;
    &&& im + 16 <= d.len()
    &&& sc >= 1
    &&& es <= 15
    &&& sr == (1u64 << (es as u64)) as int
    &&& sr <= sc < 2 * sr
    &&& rs == sc - sr
    &&& im + 16 + 8 * sc <= d.len()
    &&& be_u16(d, im + 14 + 2 * (sc - 1)) == 0xffff
    &&& forall|i: int| 0 <= i < sc ==> cmap4_seg_ok(d, im, sc, i)
}

/// Group `i` of a format-12 or format-13 subtable keeps the decoder's
/// glyph-identifier arithmetic within 32 bits and its result within 16:
/// whenever the group's character range is non-empty, its last glyph
/// identifier is at most 0xffff.
pub open spec fn cmap12_group_ok(d: Seq<u8>, im: int, i: int) -> bool {
    let g = im + 16 + 12 * i;
    be_u32(d, g) <= be_u32(d, g + 4) ==> be_u32(d, g + 8) + (be_u32(d, g + 4) - be_u32(d, g))
        <= 0xffff
}

/// A format-12 or format-13 subtable whose group array lies inside the
/// buffer and whose groups keep glyph identifiers 16-bit.
pub open spec fn cmap_format12_ok(d: Seq<u8>, im: int) -> bool {
    &&& im + 16 <= d.len()
    &&& im + 16 + 12 * be_u32(d, im + 12) <= d.len()
    &&& forall|i: int| 0 <= i < be_u32(d, im + 12) ==> cmap12_group_ok(d, im, i)
}

/// The chosen subtable uses byte format 0, segment format 4, range format 6
/// or group format 12/13, with every read of a lookup inside the buffer.
pub open spec fn index_map_ok(d: Seq<u8>, im: int) -> bool {
    &&& im + 4 <= d.len()
    &&& {
        let fmt = be_u16(d, im);
        ||| (fmt == 0 && be_u16(d, im + 2) >= 6 && im + be_u16(d, im + 2) <= d.len())
        ||| (fmt == 4 && cmap_format4_ok(d, im))
        ||| (fmt == 6 && im + 10 <= d.len() && im + 10 + 2 * be_u16(d, im + 8) <= d.len())
        ||| ((fmt == 12 || fmt == 13) && cmap_format12_ok(d, im))
    }
}

/// Location of glyph `i`'s data relative to the `glyf` table, as the `loca`
/// table stores it in either of its two formats.
pub open spec fn loca_entry(d: Seq<u8>, loca: int, ilf: int, i: int) -> int {
    if ilf == 0 {
        2 * be_u16(d, loca + 2 * i)
    } else {
        be_u32(d, loca + 4 * i)
    }
}

/// The decoded flag bytes of points `i..n` of a simple glyph, reading the
/// run-length encoded flag array at `pos` with `rep` repeats of `cur` still
/// owed, together with the position after the array.
pub open spec fn glyph_flags_rec(
    d: Seq<u8>,
    i: int,
    n: int,
    pos: int,
    rep: int,
    cur: u8,
    acc: Seq<u8>,
) -> (Seq<u8>, int)
    decreases n - i,
{
    if i >= n {
        (acc, pos)
    } else if rep > 0 {
        glyph_flags_rec(d, i + 1, n, pos, rep - 1, cur, acc.push(cur))
    } else {
        let f = d[pos];
        if f & 8 != 0 {
            glyph_flags_rec(d, i + 1, n, pos + 2, d[pos + 1] as int, f, acc.push(f))
        } else {
            glyph_flags_rec(d, i + 1, n, pos + 1, 0, f, acc.push(f))
        }
    }
}

/// One delta-decoded coordinate pass over the points of a simple glyph, for
/// the axis whose short-vector flag bit is `sb` and whose sign-or-same bit
/// is `pb`: true when every accumulated coordinate stays within
/// [-16384, 16383], so that every 16-bit sum or midpoint the outline decoder
/// forms from two coordinates fits a signed 16-bit word.  Also yields the
/// position after the pass.
pub open spec fn coord_pass_rec(
    d: Seq<u8>,
    flags: Seq<u8>,
    i: int,
    pos: int,
    acc: int,
    sb: u8,
    pb: u8,
) -> (bool, int)
    decreases flags.len() - i,
{
    if i >= flags.len() {
        (true, pos)
    } else {
        let f = flags[i];
        let dx = if f & sb != 0 {
            if f & pb != 0 {
                d[pos] as int
            } else {
                -(d[pos] as int)
            }
        } else if f & pb == 0 {
            be_i16(d, pos)
        } else {
            0
        };
        let pos2 = if f & sb != 0 {
            pos + 1
        } else if f & pb == 0 {
            pos + 2
        } else {
            pos
        };
        let acc2 = acc + dx;
        if -16384 <= acc2 <= 16383 {
            coord_pass_rec(d, flags, i + 1, pos2, acc2, sb, pb)
        } else {
            (false, pos2)
        }
    }
}

/// Every decoded coordinate of the simple glyph with `k` contours at `g`
/// stays within [-16384, 16383] on both axes.
pub open spec fn glyph_coords_ok(d: Seq<u8>, g: int, k: int) -> bool {
    let n = 1 + be_u16(d, g + 10 + 2 * k - 2);
    let ins = be_u16(d, g + 10 + 2 * k);
    let p0 = g + 10 + 2 * k + 2 + ins;
    let fr = glyph_flags_rec(d, 0, n, p0, 0, 0, Seq::empty());
    let xr = coord_pass_rec(d, fr.0, 0, fr.1, 0, 2, 16);
    let yr = coord_pass_rec(d, fr.0, 0, xr.1, 0, 4, 32);
    xr.0 && yr.0
}

/// The outline data at `g` (a nonempty `loca` range) is a readable simple
/// glyph: a non-negative contour count whose header, instruction block and
/// worst-case flag and coordinate runs lie inside the buffer, and whose
/// decoded coordinates are bounded.
pub open spec fn simple_glyph_ok(d: Seq<u8>, g: int) -> bool {
    &&& g + 2 <= d.len()
    &&& {
        let k = be_i16(d, g);
        k == 0 || (k >= 1 && g + 10 + 2 * k + 2 <= d.len() && g + 10 + 2 * k + 2 + be_u16(
            d,
            g + 10 + 2 * k,
        ) + 6 * (1 + be_u16(d, g + 10 + 2 * k - 2)) + 2 <= d.len() && glyph_coords_ok(d, g, k))
    }
}

/// A component of a compound glyph may reference any glyph identifier; the
/// reference is harmless when it is out of range (the decoder yields an
/// empty outline) and otherwise must name a glyph that is absent or simple,
/// so the decoder's recursion stops after one level.
pub open spec fn component_target_ok(
    d: Seq<u8>,
    glyf: int,
    loca: int,
    ilf: int,
    ng: int,
    gidx: int,
) -> bool {
    gidx >= ng || {
        let e1 = loca_entry(d, loca, ilf, gidx);
        let e2 = loca_entry(d, loca, ilf, gidx + 1);
        e1 == e2 || (glyf + e1 + 2 <= d.len() && be_i16(d, glyf + e1) >= 0 && simple_glyph_ok(
            d,
            glyf + e1,
        ))
    }
}

/// The component list of a compound glyph starting at `pos`: every
/// component carries explicit offsets (the decoder rejects matching
/// points), its argument and transform fields lie inside the buffer, and
/// its target is an absent or simple glyph.  `fuel` bounds the walk; each
/// component occupies at least six bytes, so `d.len()` steps always
/// suffice.
pub open spec fn compound_rec(
    d: Seq<u8>,
    pos: int,
    fuel: int,
    glyf: int,
    loca: int,
    ilf: int,
    ng: int,
) -> bool
    decreases fuel,
{
    if fuel <= 0 {
        false
    } else {
        &&& pos + 4 <= d.len()
        &&& {
            let f = be_u16(d, pos) as u16;
            let gidx = be_u16(d, pos + 2);
            let p1 = pos + 4;
            let p2 = if f & 1 != 0 {
                p1 + 4
            } else {
                p1 + 2
            };
            let p3 = if f & 8 != 0 {
                p2 + 2
            } else if f & 64 != 0 {
                p2 + 4
            } else if f & 128 != 0 {
                p2 + 8
            } else {
                p2
            };
            &&& f & 2 != 0
            &&& p3 <= d.len()
            &&& component_target_ok(d, glyf, loca, ilf, ng, gidx)
            &&& (f & 32 == 0 || compound_rec(d, p3, fuel - 1, glyf, loca, ilf, ng))
        }
    }
}

/// The outline data of glyph `i` is absent, a bounded simple glyph, or a
/// compound glyph whose component walk is bounded and whose components are
/// absent or bounded simple glyphs.
pub open spec fn glyph_ok(d: Seq<u8>, glyf: int, loca: int, ilf: int, ng: int, i: int) -> bool {
    let e1 = loca_entry(d, loca, ilf, i);
    let e2 = loca_entry(d, loca, ilf, i + 1);
    e1 == e2 || {
        let g = glyf + e1;
        &&& g + 2 <= d.len()
        &&& {
            let k = be_i16(d, g);
            if k >= 0 {
                simple_glyph_ok(d, g)
            } else if k == -1 {
                g + 14 <= d.len() && compound_rec(d, g + 10, d.len() as int, glyf, loca, ilf, ng)
            } else {
                false
            }
        }
    }
}

/// Record `i` of the name table keeps its string inside the buffer.
pub open spec fn name_rec_ok(d: Seq<u8>, nm: int, i: int) -> bool {
    let rec = nm + 6 + 12 * i;
    nm + be_u16(d, nm + 4) + be_u16(d, rec + 10) + be_u16(d, rec + 8) <= d.len()
}

/// The name table, when present, lies inside the buffer with every record
/// and every record's string in bounds.
pub open spec fn name_ok(d: Seq<u8>, off: int) -> bool {
    let nm = table_of(d, off, 0x6e, 0x61, 0x6d, 0x65);
    nm != 0 ==> {
        &&& nm + 6 <= d.len()
        &&& nm + 6 + 12 * be_u16(d, nm + 2) <= d.len()
        &&& forall|i: int| 0 <= i < be_u16(d, nm + 2) ==> name_rec_ok(d, nm, i)
    }
}

/// Every read the table accessor performs for this crate's queries on the
/// font at `off` stays inside the buffer: the table directory, the required
/// tables' fixed fields, the chosen character map, the metric arrays, the
/// kerning pair table and each glyph's outline data.
pub open spec fn font_valid(d: Seq<u8>, off: int) -> bool {
    let cmap = table_of(d, off, 0x63, 0x6d, 0x61, 0x70);
    let loca = table_of(d, off, 0x6c, 0x6f, 0x63, 0x61);
    let head = table_of(d, off, 0x68, 0x65, 0x61, 0x64);
    let glyf = table_of(d, off, 0x67, 0x6c, 0x79, 0x66);
    let hhea = table_of(d, off, 0x68, 0x68, 0x65, 0x61);
    let hmtx = table_of(d, off, 0x68, 0x6d, 0x74, 0x78);
    let kern = table_of(d, off, 0x6b, 0x65, 0x72, 0x6e);
    let maxp = table_of(d, off, 0x6d, 0x61, 0x78, 0x70);
    let ng = num_glyphs_spec(d, off);
    let nl = be_u16(d, hhea + 34);
    let ilf = be_u16(d, head + 50);
    &&& dir_ok(d, off)
    &&& cmap != 0 && loca != 0 && head != 0 && glyf != 0 && hhea != 0 && hmtx != 0
    &&& head + 54 <= d.len()
    &&& hhea + 36 <= d.len()
    &&& cmap + 4 <= d.len()
    &&& cmap + 4 + 8 * be_u16(d, cmap + 2) <= d.len()
    &&& forall|i: int| 0 <= i < be_u16(d, cmap + 2) ==> cmap_rec_ok(d, cmap, i)
    &&& cmap_chosen(d, off) != 0
    &&& index_map_ok(d, cmap_chosen(d, off))
    &&& maxp != 0 ==> maxp + 6 <= d.len()
    &&& ng >= 1
    &&& be_i16(d, hhea + 4) - be_i16(d, hhea + 6) >= 1
    &&& nl >= 1
    &&& hmtx + 4 * nl <= d.len()
    &&& ng > nl ==> hmtx + 4 * nl + 2 * (ng - nl) <= d.len()
    &&& name_ok(d, off)
    &&& kern != 0 ==> {
        &&& kern + 10 <= d.len()
        &&& (be_u16(d, kern + 2) >= 1 && be_u16(d, kern + 8) == 1) ==> (kern + 12 <= d.len()
            && kern + 18 + 6 * be_u16(d, kern + 10) <= d.len())
    }
    &&& ilf <= 1 ==> {
        &&& (if ilf == 0 {
            loca + 2 * ng + 4 <= d.len()
        } else {
            loca + 4 * ng + 8 <= d.len()
        })
        &&& forall|g: int| 0 <= g < ng ==> glyph_ok(d, glyf, loca, ilf, ng, g)
    }
}

/// Looks up the table tagged `t0 t1 t2 t3` in the directory at `off`.
fn find_table(data: &[u8], off: usize, t0: u8, t1: u8, t2: u8, t3: u8) -> (r: u32)
    requires
        dir_ok(data@, off as int),
    ensures
        r as int == table_of(data@, off as int, t0, t1, t2, t3),
{
    let nt = read_u16_be(data, off + 4) as usize;
    let mut i: usize = 0;
    while i < nt
        invariant
            dir_ok(data@, off as int),
            nt == be_u16(data@, off as int + 4),
            0 <= i <= nt,
            find_table_rec(data@, off as int, t0, t1, t2, t3, 0, nt as int) == find_table_rec(
                data@,
                off as int,
                t0,
                t1,
                t2,
                t3,
                i as int,
                nt as int,
            ),
        decreases nt - i,
    {
        let loc = off + 12 + 16 * i;
        if data[loc] == t0 && data[loc + 1] == t1 && data[loc + 2] == t2 && data[loc + 3] == t3 {
            return read_u32_be(data, loc + 8);
        }
        i = i + 1;
    }
    0
}

/// Checks `cmap_format4_ok` for the subtable at `im`.
#[verifier::loop_isolation(false)]
fn check_cmap_format4(data: &[u8], im: u64) -> (b: bool)
    requires
        data@.len() <= 0x7FFF_FFFF,
        im <= data@.len(),
    ensures
        b == cmap_format4_ok(data@, im as int),
{
    let len: u64 = data.len() as u64;
    if im + 16 > len {
        return false;
    }
    let sc = (read_u16_be(data, im as usize + 6) / 2) as u64;
    let sr = (read_u16_be(data, im as usize + 8) / 2) as u64;
    let es = read_u16_be(data, im as usize + 10);
    let rs = (read_u16_be(data, im as usize + 12) / 2) as u64;
    if sc < 1 || es > 15 {
        return false;
    }
    let p: u64 = 1u64 << (es as u64);
    if sr != p {
        return false;
    }
    if !(sr <= sc && sc < 2 * sr) {
        return false;
    }
    if rs != sc - sr {
        return false;
    }
    if im + 16 + 8 * sc > len {
        return false;
    }
    if read_u16_be(data, (im + 14 + 2 * (sc - 1)) as usize) != 0xffff {
        return false;
    }
    let mut i: u64 = 0;
    while i < sc
        invariant
            0 <= i <= sc,
            forall|t: int| 0 <= t < i ==> cmap4_seg_ok(data@, im as int, sc as int, t),
        decreases sc - i,
    {
        let end = read_u16_be(data, (im + 14 + 2 * i) as usize) as u64;
        if i + 1 < sc {
            let next_end = read_u16_be(data, (im + 14 + 2 * i + 2) as usize) as u64;
            if end > next_end {
                assert(!cmap4_seg_ok(data@, im as int, sc as int, i as int));
                return false;
            }
        }
        let start = read_u16_be(data, (im + 14 + 2 * sc + 2 + 2 * i) as usize) as u64;
        let roff_pos = im + 14 + 6 * sc + 2 + 2 * i;
        let roff = read_u16_be(data, roff_pos as usize) as u64;
        if roff != 0 && start <= end {
            if roff_pos + roff + 2 * (end - start) + 2 > len {
                assert(!cmap4_seg_ok(data@, im as int, sc as int, i as int));
                return false;
            }
        }
        i = i + 1;
    }
    true
}

/// Runs one delta-decoded coordinate pass, checking `coord_pass_rec`.
#[verifier::loop_isolation(false)]
fn coord_pass(data: &[u8], flags: &Vec<u8>, start: u64, sb: u8, pb: u8) -> (r: (bool, u64))
    requires
        data@.len() <= 0x7FFF_FFFF,
        start + 2 * flags@.len() + 2 <= data@.len(),
    ensures
        ({
            let s = coord_pass_rec(data@, flags@, 0, start as int, 0, sb, pb);
            r.0 == s.0 && r.1 as int == s.1
        }),
        r.1 <= start + 2 * flags@.len(),
{
    let n = flags.len();
    let mut i: usize = 0;
    let mut pos: u64 = start;
    let mut acc: i32 = 0;
    while i < n
        invariant
            0 <= i <= n,
            pos <= start + 2 * i,
            -16384 <= acc <= 16383,
            coord_pass_rec(data@, flags@, 0, start as int, 0, sb, pb) == coord_pass_rec(
                data@,
                flags@,
                i as int,
                pos as int,
                acc as int,
                sb,
                pb,
            ),
        decreases n - i,
    {
        let f = flags[i];
        let dx: i32;
        let pos2: u64;
        if f & sb != 0 {
            let v = data[pos as usize] as i32;
            dx = if f & pb != 0 {
                v
            } else {
                -v
            };
            pos2 = pos + 1;
        } else if f & pb == 0 {
            dx = read_i16_be(data, pos as usize) as i32;
            pos2 = pos + 2;
        } else {
            dx = 0;
            pos2 = pos;
        }
        let acc2 = acc + dx;
        if !(-16384 <= acc2 && acc2 <= 16383) {
            return (false, pos2);
        }
        i = i + 1;
        pos = pos2;
        acc = acc2;
    }
    (true, pos)
}

/// Checks `glyph_coords_ok` for the simple glyph with `k` contours at `g`.
#[verifier::loop_isolation(false)]
fn check_glyph_coords(data: &[u8], g: u64, k: u64) -> (b: bool)
    requires
        data@.len() <= 0x7FFF_FFFF,
        1 <= k <= 32767,
        g + 10 + 2 * k + 2 <= data@.len(),
        g + 10 + 2 * k + 2 + be_u16(data@, g as int + 10 + 2 * k + 2 - 2) + 6 * (1 + be_u16(
            data@,
            g as int + 10 + 2 * k - 2,
        )) + 2 <= data@.len(),
    ensures
        b == glyph_coords_ok(data@, g as int, k as int),
{
    let n: u64 = 1 + read_u16_be(data, (g + 10 + 2 * k - 2) as usize) as u64;
    let ins: u64 = read_u16_be(data, (g + 10 + 2 * k) as usize) as u64;
    let p0: u64 = g + 10 + 2 * k + 2 + ins;
    let mut flags: Vec<u8> = Vec::new();
    let mut i: u64 = 0;
    let mut pos: u64 = p0;
    let mut rep: u64 = 0;
    let mut cur: u8 = 0;
    while i < n
        invariant
            0 <= i <= n,
            flags@.len() == i,
            pos <= p0 + 2 * i,
            glyph_flags_rec(data@, 0, n as int, p0 as int, 0, 0, Seq::empty())
                == glyph_flags_rec(
                data@,
                i as int,
                n as int,
                pos as int,
                rep as int,
                cur,
                flags@,
            ),
        decreases n - i,
    {
        if rep > 0 {
            rep = rep - 1;
            flags.push(cur);
        } else {
            let f = data[pos as usize];
            if f & 8 != 0 {
                rep = data[(pos + 1) as usize] as u64;
                pos = pos + 2;
            } else {
                pos = pos + 1;
            }
            cur = f;
            flags.push(f);
        }
        i = i + 1;
    }
    let xr = coord_pass(data, &flags, pos, 2, 16);
    if !xr.0 {
        return false;
    }
    let yr = coord_pass(data, &flags, xr.1, 4, 32);
    yr.0
}

/// Checks `simple_glyph_ok` for the outline data at `g`.
fn check_simple_glyph(data: &[u8], g: u64) -> (b: bool)
    requires
        data@.len() <= 0x7FFF_FFFF,
        g <= data@.len(),
    ensures
        b == simple_glyph_ok(data@, g as int),
{
    let len: u64 = data.len() as u64;
    if g + 2 > len {
        return false;
    }
    let k = read_i16_be(data, g as usize);
    if k < 0 {
        return false;
    }
    if k == 0 {
        return true;
    }
    let ku = k as u64;
    if g + 10 + 2 * ku + 2 > len {
        return false;
    }
    let ins = read_u16_be(data, (g + 10 + 2 * ku) as usize) as u64;
    let n = 1 + read_u16_be(data, (g + 10 + 2 * ku - 2) as usize) as u64;
    if g + 10 + 2 * ku + 2 + ins + 6 * n + 2 > len {
        return false;
    }
    check_glyph_coords(data, g, ku)
}

/// Checks `component_target_ok` for a component referencing `gidx`.
fn check_component_target(
    data: &[u8],
    glyf: u64,
    loca: u64,
    ilf: u64,
    ng: u64,
    gidx: u16,
) -> (b: bool)
    requires
        data@.len() <= 0x7FFF_FFFF,
        glyf <= 0xFFFF_FFFF,
        ilf <= 1,
        ng >= 1,
        ilf == 0 ==> loca + 2 * ng + 4 <= data@.len(),
        ilf == 1 ==> loca + 4 * ng + 8 <= data@.len(),
    ensures
        b == component_target_ok(data@, glyf as int, loca as int, ilf as int, ng as int,
            gidx as int),
{
    let len: u64 = data.len() as u64;
    if gidx as u64 >= ng {
        return true;
    }
    let e1 = read_loca(data, loca, ilf, gidx as u64);
    let e2 = read_loca(data, loca, ilf, gidx as u64 + 1);
    if e1 == e2 {
        return true;
    }
    if glyf + e1 + 2 > len {
        return false;
    }
    if read_i16_be(data, (glyf + e1) as usize) < 0 {
        return false;
    }
    check_simple_glyph(data, glyf + e1)
}

/// Checks `compound_rec` for the component list at `pos0`.
#[verifier::loop_isolation(false)]
fn check_compound(data: &[u8], pos0: u64, glyf: u64, loca: u64, ilf: u64, ng: u64) -> (b: bool)
    requires
        data@.len() <= 0x7FFF_FFFF,
        pos0 <= data@.len(),
        glyf <= 0xFFFF_FFFF,
        ilf <= 1,
        ng >= 1,
        ilf == 0 ==> loca + 2 * ng + 4 <= data@.len(),
        ilf == 1 ==> loca + 4 * ng + 8 <= data@.len(),
    ensures
        b == compound_rec(
            data@,
            pos0 as int,
            data@.len() as int,
            glyf as int,
            loca as int,
            ilf as int,
            ng as int,
        ),
{
    let len: u64 = data.len() as u64;
    let mut pos: u64 = pos0;
    let mut fuel: u64 = len;
    loop
        invariant
            compound_rec(
                data@,
                pos0 as int,
                data@.len() as int,
                glyf as int,
                loca as int,
                ilf as int,
                ng as int,
            ) == compound_rec(
                data@,
                pos as int,
                fuel as int,
                glyf as int,
                loca as int,
                ilf as int,
                ng as int,
            ),
            pos <= len,
        decreases fuel,
    {
        if fuel == 0 {
            return false;
        }
        if pos + 4 > len {
            return false;
        }
        let f = read_u16_be(data, pos as usize);
        let gidx = read_u16_be(data, pos as usize + 2);
        let p1 = pos + 4;
        let p2 = if f & 1 != 0 {
            p1 + 4
        } else {
            p1 + 2
        };
        let p3 = if f & 8 != 0 {
            p2 + 2
        } else if f & 64 != 0 {
            p2 + 4
        } else if f & 128 != 0 {
            p2 + 8
        } else {
            p2
        };
        if f & 2 == 0 {
            return false;
        }
        if p3 > len {
            return false;
        }
        if !check_component_target(data, glyf, loca, ilf, ng, gidx) {
            return false;
        }
        if f & 32 == 0 {
            return true;
        }
        pos = p3;
        fuel = fuel - 1;
    }
}

/// Checks `cmap_format12_ok` for the subtable at `im`.
#[verifier::loop_isolation(false)]
fn check_cmap_format12(data: &[u8], im: u64) -> (b: bool)
    requires
        data@.len() <= 0x7FFF_FFFF,
        im <= data@.len(),
    ensures
        b == cmap_format12_ok(data@, im as int),
{
    let len: u64 = data.len() as u64;
    if im + 16 > len {
        return false;
    }
    let ngroups = read_u32_be(data, im as usize + 12) as u64;
    if im + 16 + 12 * ngroups > len {
        return false;
    }
    let mut i: u64 = 0;
    while i < ngroups
        invariant
            0 <= i <= ngroups,
            forall|t: int| 0 <= t < i ==> cmap12_group_ok(data@, im as int, t),
        decreases ngroups - i,
    {
        let g = im + 16 + 12 * i;
        let start = read_u32_be(data, g as usize) as u64;
        let end = read_u32_be(data, g as usize + 4) as u64;
        let sg = read_u32_be(data, g as usize + 8) as u64;
        if start <= end && sg + (end - start) > 0xffff {
            assert(!cmap12_group_ok(data@, im as int, i as int));
            return false;
        }
        i = i + 1;
    }
    true
}

/// Checks `font_valid` for the font at `off`.
#[verifier::loop_isolation(false)]
#[verifier::rlimit(100)]
pub fn validate_font(data: &[u8], off: usize) -> (b: bool)
    ensures
        b == font_valid(data@, off as int),
{
    let len: u64 = data.len() as u64;
    if len > 0x7FFF_FFFF {
        return false;
    }
    let offw = off as u64;
    if offw > len || offw + 12 > len {
        return false;
    }
    let nt = read_u16_be(data, off + 4) as u64;
    if offw + 12 + 16 * nt > len {
        return false;
    }
    let cmap = find_table(data, off, 0x63, 0x6d, 0x61, 0x70) as u64;
    let loca = find_table(data, off, 0x6c, 0x6f, 0x63, 0x61) as u64;
    let head = find_table(data, off, 0x68, 0x65, 0x61, 0x64) as u64;
    let glyf = find_table(data, off, 0x67, 0x6c, 0x79, 0x66) as u64;
    let hhea = find_table(data, off, 0x68, 0x68, 0x65, 0x61) as u64;
    let hmtx = find_table(data, off, 0x68, 0x6d, 0x74, 0x78) as u64;
    let kern = find_table(data, off, 0x6b, 0x65, 0x72, 0x6e) as u64;
    let maxp = find_table(data, off, 0x6d, 0x61, 0x78, 0x70) as u64;
    if cmap == 0 || loca == 0 || head == 0 || glyf == 0 || hhea == 0 || hmtx == 0 {
        return false;
    }
    if head + 54 > len || hhea + 36 > len || cmap + 4 > len {
        return false;
    }
    let ncm = read_u16_be(data, cmap as usize + 2) as u64;
    if cmap + 4 + 8 * ncm > len {
        return false;
    }
    // Scan the encoding records: bound every record the collaborator picks,
    // and mirror its choice of subtable.
    let mut i: u64 = 0;
    let mut chosen: u64 = 0;
    while i < ncm
        invariant
            0 <= i <= ncm,
            chosen <= len,
            forall|j: int| 0 <= j < i ==> cmap_rec_ok(data@, cmap as int, j),
            cmap_chosen_rec(data@, cmap as int, 0, ncm as int, 0) == cmap_chosen_rec(
                data@,
                cmap as int,
                i as int,
                ncm as int,
                chosen as int,
            ),
        decreases ncm - i,
    {
        let rec = (cmap + 4 + 8 * i) as usize;
        let plat = read_u16_be(data, rec);
        let eid = read_u16_be(data, rec + 2);
        if plat == 0 || (plat == 3 && (eid == 1 || eid == 10)) {
            let sub = read_u32_be(data, rec + 4) as u64;
            if cmap + sub > len {
                assert(!cmap_rec_ok(data@, cmap as int, i as int));
                return false;
            }
            chosen = cmap + sub;
        }
        i = i + 1;
    }
    if chosen == 0 {
        return false;
    }
    assert(chosen as int == cmap_chosen(data@, off as int));
    if chosen + 4 > len {
        return false;
    }
    let fmt = read_u16_be(data, chosen as usize);
    let im_ok: bool = if fmt == 0 {
        let bytes = read_u16_be(data, chosen as usize + 2) as u64;
        bytes >= 6 && chosen + bytes <= len
    } else if fmt == 4 {
        check_cmap_format4(data, chosen)
    } else if fmt == 12 || fmt == 13 {
        check_cmap_format12(data, chosen)
    } else if fmt == 6 {
        if chosen + 10 > len {
            false
        } else {
            let cnt = read_u16_be(data, chosen as usize + 8) as u64;
            chosen + 10 + 2 * cnt <= len
        }
    } else {
        false
    };
    if !im_ok {
        return false;
    }
    if maxp != 0 && maxp + 6 > len {
        return false;
    }
    let ng: u64 = if maxp != 0 {
        read_u16_be(data, maxp as usize + 4) as u64
    } else {
        0xffff
    };
    if ng < 1 {
        return false;
    }
    let asc = read_i16_be(data, hhea as usize + 4);
    let desc = read_i16_be(data, hhea as usize + 6);
    if (asc as i64) - (desc as i64) < 1 {
        return false;
    }
    let nl = read_u16_be(data, hhea as usize + 34) as u64;
    if nl < 1 {
        return false;
    }
    if hmtx + 4 * nl > len {
        return false;
    }
    if ng > nl && hmtx + 4 * nl + 2 * (ng - nl) > len {
        return false;
    }
    let name = find_table(data, off, 0x6e, 0x61, 0x6d, 0x65) as u64;
    if name != 0 {
        if name + 6 > len {
            return false;
        }
        let ncount = read_u16_be(data, name as usize + 2) as u64;
        if name + 6 + 12 * ncount > len {
            return false;
        }
        let so = read_u16_be(data, name as usize + 4) as u64;
        let mut j: u64 = 0;
        while j < ncount
            invariant
                0 <= j <= ncount,
                forall|t: int| 0 <= t < j ==> name_rec_ok(data@, name as int, t),
            decreases ncount - j,
        {
            let rec = (name + 6 + 12 * j) as usize;
            let slen = read_u16_be(data, rec + 8) as u64;
            let soff = read_u16_be(data, rec + 10) as u64;
            if name + so + soff + slen > len {
                assert(!name_rec_ok(data@, name as int, j as int));
                return false;
            }
            j = j + 1;
        }
    }
    if kern != 0 {
        if kern + 10 > len {
            return false;
        }
        if read_u16_be(data, kern as usize + 2) >= 1 && read_u16_be(data, kern as usize + 8) == 1 {
            if kern + 12 > len {
                return false;
            }
            let npairs = read_u16_be(data, kern as usize + 10) as u64;
            if kern + 18 + 6 * npairs > len {
                return false;
            }
        }
    }
    let ilf = read_u16_be(data, head as usize + 50) as u64;
    if ilf <= 1 {
        if ilf == 0 {
            if loca + 2 * ng + 4 > len {
                return false;
            }
        } else {
            if loca + 4 * ng + 8 > len {
                return false;
            }
        }
        let mut g: u64 = 0;
        while g < ng
            invariant
                len == data@.len() <= 0x7FFF_FFFF,
                0 <= g <= ng,
                forall|j: int|
                    0 <= j < g ==> glyph_ok(
                        data@,
                        glyf as int,
                        loca as int,
                        ilf as int,
                        ng as int,
                        j,
                    ),
            decreases ng - g,
        {
            let e1 = read_loca(data, loca, ilf, g);
            let e2 = read_loca(data, loca, ilf, g + 1);
            if e1 != e2 {
                if glyf + e1 + 2 > len {
                    assert(!glyph_ok(
                        data@,
                        glyf as int,
                        loca as int,
                        ilf as int,
                        ng as int,
                        g as int,
                    ));
                    return false;
                }
                let k = read_i16_be(data, (glyf + e1) as usize);
                let entry_ok: bool = if k >= 0 {
                    check_simple_glyph(data, glyf + e1)
                } else if k == -1 {
                    glyf + e1 + 14 <= len && check_compound(
                        data,
                        glyf + e1 + 10,
                        glyf,
                        loca,
                        ilf,
                        ng,
                    )
                } else {
                    false
                };
                if !entry_ok {
                    assert(!glyph_ok(
                        data@,
                        glyf as int,
                        loca as int,
                        ilf as int,
                        ng as int,
                        g as int,
                    ));
                    return false;
                }
            }
            g = g + 1;
        }
    }
    true
}

/// Reads `loca` entry `i` in format `ilf`.
fn read_loca(data: &[u8], loca: u64, ilf: u64, i: u64) -> (r: u64)
    requires
        ilf <= 1,
        ilf == 0 ==> loca + 2 * i + 2 <= data@.len(),
        ilf == 1 ==> loca + 4 * i + 4 <= data@.len(),
        data@.len() <= 0x7FFF_FFFF,
    ensures
        r as int == loca_entry(data@, loca as int, ilf as int, i as int),
        r <= 0xFFFF_FFFF,
{
    if ilf == 0 {
        2 * (read_u16_be(data, (loca + 2 * i) as usize) as u64)
    } else {
        read_u32_be(data, (loca + 4 * i) as usize) as u64
    }
}

} // verus!
