//! Horizontal layout: a lazy, forward-only iterator over the glyphs of a
//! normalized string, with advances honoring per-glyph widths and pairwise
//! kerning.

use crate::fixed::{scale_factor, Fixed, Vec2, FACTOR_MAX, SCALE_MAX};
use crate::font::Font;
use crate::glyph::Glyph;
use crate::norm::{nfc_chars, nfc_of};
use crate::ttf::{glyph_index_of, h_metrics_spec, kern_of};
use crate::validate::{font_valid, num_glyphs_spec};
use vstd::prelude::*;

verus! {

/// The glyph identifier a character resolves to: the character map's answer
/// when it is a valid identifier for this font, else glyph 0, the missing
/// character glyph.
pub open spec fn gid_at(d: Seq<u8>, off: int, c: char) -> int {
    let g = glyph_index_of(d, off, c as int);
    if 0 <= g < num_glyphs_spec(d, off) {
        g
    } else {
        0
    }
}

/// The advance yielded for position `i` of a character sequence at
/// horizontal factor `sx`: the glyph's advance width scaled, plus — for
/// every position after the first — the scaled kerning between the previous
/// glyph and this one.
pub open spec fn advance_spec(d: Seq<u8>, off: int, cs: Seq<char>, i: int, sx: int) -> int {
    h_metrics_spec(d, off, gid_at(d, off, cs[i])).0 * sx + if i > 0 {
        kern_of(d, off, gid_at(d, off, cs[i - 1]), gid_at(d, off, cs[i])) * sx
    } else {
        0
    }
}

/// An iterator over the glyphs of a normalized string: positioned at a
/// cursor, remembering the previously yielded glyph for kerning.  It is
/// forward-only and not restartable; lay out again with a fresh call to
/// `Font::glyphs`.
pub struct GlyphIterator {
    font: Font,
    chars: Vec<char>,
    cursor: usize,
    sx: i64,
    sy: i64,
    last: Option<Glyph>,
}

impl GlyphIterator {
    /// The bytes of the font being laid out.
    pub closed spec fn font_data(&self) -> Seq<u8> {
        self.font.data()
    }

    /// The table offset of the font being laid out.
    pub closed spec fn font_offset(&self) -> int {
        self.font.offset()
    }

    /// The normalized character sequence.
    pub closed spec fn chars_spec(&self) -> Seq<char> {
        self.chars@
    }

    /// The cursor: how many pairs have been yielded.
    pub closed spec fn cursor_spec(&self) -> int {
        self.cursor as int
    }

    /// The two scale factors, as fixed-point bit counts.
    pub closed spec fn scale_spec(&self) -> (int, int) {
        (self.sx as int, self.sy as int)
    }

    /// The iterator's invariant: a validated font, bounded scale factors, an
    /// in-range cursor, and — after the first step — a remembered previous
    /// glyph that is exactly the glyph of the character before the cursor.
    pub open spec fn wf(&self) -> bool {
        &&& font_valid(self.font_data(), self.font_offset())
        &&& 0 <= self.scale_spec().0 <= FACTOR_MAX
        &&& 0 <= self.scale_spec().1 <= FACTOR_MAX
        &&& 0 <= self.cursor_spec() <= self.chars_spec().len()
        &&& self.cursor_spec() == 0 ==> self.last_spec() is None
        &&& self.cursor_spec() > 0 ==> match self.last_spec() {
            Some(g) => {
                &&& g.wf()
                &&& g.font_data() == self.font_data()
                &&& g.font_offset() == self.font_offset()
                &&& g.id_spec() == gid_at(
                    self.font_data(),
                    self.font_offset(),
                    self.chars_spec()[self.cursor_spec() - 1],
                )
                &&& g.scale() == self.scale_spec()
            },
            None => false,
        }
    }

    /// The remembered previous glyph.
    pub closed spec fn last_spec(&self) -> Option<Glyph> {
        self.last
    }

    /// Yields the next (glyph, advance) pair, or `None` once every
    /// normalized character has been yielded.  The glyph is the cursor
    /// character's; its advance is the scaled advance width, plus the scaled
    /// kerning against the previous glyph for every position after the
    /// first, so callers accumulate pen position by summing advances.
    pub fn next(&mut self) -> (r: Option<(Glyph, Fixed)>)
        requires
            old(self).wf(),
        ensures
            final(self).wf(),
            final(self).font_data() == old(self).font_data(),
            final(self).font_offset() == old(self).font_offset(),
            final(self).chars_spec() == old(self).chars_spec(),
            final(self).scale_spec() == old(self).scale_spec(),
            old(self).cursor_spec() >= old(self).chars_spec().len() ==> r is None
                && final(self).cursor_spec() == old(self).cursor_spec(),
            old(self).cursor_spec() < old(self).chars_spec().len() ==> {
                &&& final(self).cursor_spec() == old(self).cursor_spec() + 1
                &&& match r {
                    Some(p) => {
                        &&& p.0.wf()
                        &&& p.0.font_data() == old(self).font_data()
                        &&& p.0.font_offset() == old(self).font_offset()
                        &&& p.0.id_spec() == gid_at(
                            old(self).font_data(),
                            old(self).font_offset(),
                            old(self).chars_spec()[old(self).cursor_spec()],
                        )
                        &&& p.0.scale() == old(self).scale_spec()
                        &&& p.1.bits() == advance_spec(
                            old(self).font_data(),
                            old(self).font_offset(),
                            old(self).chars_spec(),
                            old(self).cursor_spec(),
                            old(self).scale_spec().0,
                        )
                    },
                    None => false,
                }
            },
    {
        if self.cursor >= self.chars.len() {
            return None;
        }
        let c = self.chars[self.cursor];
        let gid_raw = self.font.lookup_glyph_index(c);
        let count = self.font.glyph_count() as u32;
        let gid = if gid_raw < count {
            gid_raw
        } else {
            0
        };
        let glyph = Glyph::from_parts(self.font.clone(), gid, self.sx, self.sy);
        let hm = self.font.h_metrics(gid);
        proof {
            assert(-32768 <= hm.0 as int <= 32767);
            crate::fixed::lemma_scaled_bound(hm.0 as int, self.sx as int);
        }
        let mut advance: i64 = (hm.0 as i64) * self.sx;
        if self.cursor != 0 {
            let prev_id: u32 = match &self.last {
                Some(g) => g.id(),
                None => {
                    proof {
                        assert(false);
                    }
                    0
                },
            };
            let k = self.font.kern_advance(prev_id, gid);
            proof {
                crate::fixed::lemma_scaled_bound(k as int, self.sx as int);
            }
            advance = advance + (k as i64) * self.sx;
        }
        self.last = Some(glyph.clone());
        self.cursor = self.cursor + 1;
        Some((glyph, Fixed(advance)))
    }
}

impl Font {
    /// Lays out a string at a pixel scale: normalizes the text by canonical
    /// composition, derives the per-axis scale factors, and returns the lazy
    /// iterator of (glyph, advance) pairs, one per normalized character, in
    /// left-to-right order.
    pub fn glyphs(&self, text: &str, scale: Vec2) -> (r: GlyphIterator)
        requires
            self.wf(),
            0 <= scale.0.0 <= SCALE_MAX,
            0 <= scale.1.0 <= SCALE_MAX,
        ensures
            r.wf(),
            r.font_data() == self.data(),
            r.font_offset() == self.offset(),
            r.chars_spec() == nfc_of(text@),
            r.cursor_spec() == 0,
            r.scale_spec() == (
                scale_factor(scale.0.bits(), self.font_height()),
                scale_factor(scale.1.bits(), self.font_height()),
            ),
    {
        let factors = self.scale_factors(scale);
        let chars = nfc_chars(text);
        GlyphIterator {
            font: self.clone(),
            chars,
            cursor: 0,
            sx: factors.0,
            sy: factors.1,
            last: None,
        }
    }

    /// The additional kerning to apply between two glyph identifiers at a
    /// pixel scale, beyond their advance widths: the raw pair advance scaled
    /// by the same horizontal factor the layout iterator uses, so kerning
    /// stays proportionate under anisotropic scales.
    pub fn pair_kerning(&self, scale: Vec2, first: u32, second: u32) -> (r: Fixed)
        requires
            self.wf(),
            0 <= scale.0.0 <= SCALE_MAX,
            0 <= scale.1.0 <= SCALE_MAX,
        ensures
            r.bits() == kern_of(self.data(), self.offset(), first as int, second as int)
                * scale_factor(scale.0.bits(), self.font_height()),
    {
        let factors = self.scale_factors(scale);
        let k = self.kern_advance(first, second);
        proof {
            crate::fixed::lemma_scaled_bound(k as int, factors.0 as int);
        }
        Fixed((k as i64) * factors.0)
    }
}

/// The pen displacement after the first `n` positions of a layout: the sum
/// of the advances yielded for positions `0..n`, accumulated left to right.
pub open spec fn total_advance(d: Seq<u8>, off: int, cs: Seq<char>, n: int, sx: int) -> int
    decreases n,
{
    if n <= 0 {
        0
    } else {
        total_advance(d, off, cs, n - 1, sx) + advance_spec(d, off, cs, n - 1, sx)
    }
}

/// Summing yielded advances gives the total pen displacement: each yielded
/// pair moves the pen by exactly that position's advance, so the
/// displacement after `n` positions is the previous displacement plus the
/// advance yielded at position `n - 1`.
pub proof fn lemma_total_advance_step(d: Seq<u8>, off: int, cs: Seq<char>, n: int, sx: int)
    requires
        0 < n <= cs.len(),
    ensures
        total_advance(d, off, cs, n, sx) == total_advance(d, off, cs, n - 1, sx) + advance_spec(
            d,
            off,
            cs,
            n - 1,
            sx,
        ),
{
}

/// The advance yielded at a position depends only on the character there
/// and the character immediately before it: changing any other character of
/// the string leaves this position's advance unchanged.
pub proof fn lemma_advance_local(
    d: Seq<u8>,
    off: int,
    cs1: Seq<char>,
    cs2: Seq<char>,
    i: int,
    sx: int,
)
    requires
        0 <= i < cs1.len(),
        0 <= i < cs2.len(),
        cs1[i] == cs2[i],
        i > 0 ==> cs1[i - 1] == cs2[i - 1],
    ensures
        advance_spec(d, off, cs1, i, sx) == advance_spec(d, off, cs2, i, sx),
{
}

/// The first position's advance carries no kerning term: it is exactly the
/// glyph's advance width scaled by the horizontal factor.
pub proof fn lemma_first_advance(d: Seq<u8>, off: int, cs: Seq<char>, sx: int)
    requires
        cs.len() > 0,
    ensures
        advance_spec(d, off, cs, 0, sx) == h_metrics_spec(d, off, gid_at(d, off, cs[0])).0 * sx,
{
}

} // verus!
