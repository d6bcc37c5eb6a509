//! Glyphs and the outline-to-path converter.

use crate::fixed::{Fixed, FACTOR_MAX, ORIGIN_MAX};
use crate::font::Font;
use crate::ttf::{h_metrics_spec, shape_of, v_metrics_spec, OutlineVertex, VertexKind};
use crate::validate::num_glyphs_spec;
use vstd::prelude::*;

verus! {

/// Bound on a transformed path coordinate fed to the converter.
pub const COORD_MAX: i64 = 0x3000_0000_0000_0000;

/// An operation that builds a path, with 16.16 fixed-point coordinates.
#[derive(Clone, Copy, Debug, PartialEq, Eq, Structural)]
pub enum PathOp {
    /// Begin a new sub-path at `x, y`.
    MoveTo(Fixed, Fixed),
    /// Straight edge to the next point `x, y`.
    LineTo(Fixed, Fixed),
    /// Quadratic curve to `x, y` with control point `cx, cy`.
    QuadTo(Fixed, Fixed, Fixed, Fixed),
    /// Close the sub-path with a line back to its start.
    LineClose,
    /// Close the sub-path with a quadratic curve of control point `cx, cy`.
    QuadClose(Fixed, Fixed),
}

/// The mathematical form of a path operation, over unbounded integers.
pub enum PathOpModel {
    MoveTo { x: int, y: int },
    LineTo { x: int, y: int },
    QuadTo { x: int, y: int, cx: int, cy: int },
    LineClose,
    QuadClose { cx: int, cy: int },
}

impl View for PathOp {
    type V = PathOpModel;

    open spec fn view(&self) -> PathOpModel {
        match *self {
            PathOp::MoveTo(x, y) => PathOpModel::MoveTo { x: x.bits(), y: y.bits() },
            PathOp::LineTo(x, y) => PathOpModel::LineTo { x: x.bits(), y: y.bits() },
            PathOp::QuadTo(x, y, cx, cy) => PathOpModel::QuadTo {
                x: x.bits(),
                y: y.bits(),
                cx: cx.bits(),
                cy: cy.bits(),
            },
            PathOp::LineClose => PathOpModel::LineClose,
            PathOp::QuadClose(cx, cy) => PathOpModel::QuadClose { cx: cx.bits(), cy: cy.bits() },
        }
    }
}

/// The path of one glyph outline: an ordered, finite sequence of path
/// operations, built once per `draw` call.
pub struct Path(pub Vec<PathOp>);

impl View for Path {
    type V = Seq<PathOpModel>;

    open spec fn view(&self) -> Seq<PathOpModel> {
        self.0@.map_values(|op: PathOp| op@)
    }
}

/// The operations emitted for vertices `i..` of an outline, with scale
/// `(sx, sy)`, translation `(px, py)` and current sub-path origin
/// `(ox, oy)`.  Endpoints map to `x = vx*sx + px`, `y = py - vy*sy` (design
/// space is y-up, path space is y-down); a line or curve whose transformed
/// endpoint equals the current origin exactly becomes a closing operation.
pub open spec fn draw_ops_rec(
    vs: Seq<(int, int, int, int, int)>,
    i: int,
    sx: int,
    sy: int,
    px: int,
    py: int,
    ox: int,
    oy: int,
) -> Seq<PathOpModel>
    decreases vs.len() - i,
{
    if i < 0 || i >= vs.len() {
        Seq::empty()
    } else {
        let v = vs[i];
        let x = v.1 * sx + px;
        let y = py - v.2 * sy;
        if v.0 == 1 {
            seq![PathOpModel::MoveTo { x, y }] + draw_ops_rec(vs, i + 1, sx, sy, px, py, x, y)
        } else if v.0 == 2 {
            (if x == ox && y == oy {
                seq![PathOpModel::LineClose]
            } else {
                seq![PathOpModel::LineTo { x, y }]
            }) + draw_ops_rec(vs, i + 1, sx, sy, px, py, ox, oy)
        } else if v.0 == 3 {
            let cx = v.3 * sx + px;
            let cy = py - v.4 * sy;
            (if x == ox && y == oy {
                seq![PathOpModel::QuadClose { cx, cy }]
            } else {
                seq![PathOpModel::QuadTo { x, y, cx, cy }]
            }) + draw_ops_rec(vs, i + 1, sx, sy, px, py, ox, oy)
        } else {
            draw_ops_rec(vs, i + 1, sx, sy, px, py, ox, oy)
        }
    }
}

/// The full path of an outline: every sub-path starts at the default origin
/// `(0, 0)` until a move establishes one.
pub open spec fn draw_ops(
    vs: Seq<(int, int, int, int, int)>,
    sx: int,
    sy: int,
    px: int,
    py: int,
) -> Seq<PathOpModel> {
    draw_ops_rec(vs, 0, sx, sy, px, py, 0, 0)
}

/// What `Glyph::draw` yields for a glyph of a font: the converted outline,
/// drawn at the origin shifted down by the scaled ascent so glyphs sharing a
/// baseline align.
pub open spec fn draw_spec(
    d: Seq<u8>,
    off: int,
    gid: int,
    sx: int,
    sy: int,
    px: int,
    py: int,
) -> Seq<PathOpModel> {
    let base_y = py + v_metrics_spec(d, off).0 * sy;
    let vs = match shape_of(d, off, gid) {
        Some(s) => s,
        None => Seq::empty(),
    };
    draw_ops(vs, sx, sy, px, base_y)
}

/// Converts a decoded outline to a path.  This is the geometry core of
/// `Glyph::draw`, usable directly on any vertex list.
#[verifier::loop_isolation(false)]
pub fn outline_to_path(verts: &Vec<OutlineVertex>, sx: i64, sy: i64, px: i64, py: i64) -> (r: Path)
    requires
        0 <= sx <= FACTOR_MAX,
        0 <= sy <= FACTOR_MAX,
        -COORD_MAX <= px <= COORD_MAX,
        -COORD_MAX <= py <= COORD_MAX,
    ensures
        r@ == draw_ops(
            verts@.map_values(|v: OutlineVertex| v.tup()),
            sx as int,
            sy as int,
            px as int,
            py as int,
        ),
{
    let ghost vs = verts@.map_values(|v: OutlineVertex| v.tup());
    let mut ops: Vec<PathOp> = Vec::new();
    let mut ox: i64 = 0;
    let mut oy: i64 = 0;
    let mut i: usize = 0;
    while i < verts.len()
        invariant
            0 <= i <= verts.len(),
            draw_ops(vs, sx as int, sy as int, px as int, py as int) == ops@.map_values(
                |op: PathOp| op@,
            ) + draw_ops_rec(vs, i as int, sx as int, sy as int, px as int, py as int, ox as int, oy as int),
        decreases verts.len() - i,
    {
        let ghost ops_pre = ops@;
        let ghost ox_pre = ox;
        let ghost oy_pre = oy;
        let v = verts[i];
        proof {
            assert(vs[i as int] == v.tup());
            crate::fixed::lemma_scaled_bound(v.x as int, sx as int);
            crate::fixed::lemma_scaled_bound(v.y as int, sy as int);
            crate::fixed::lemma_scaled_bound(v.cx as int, sx as int);
            crate::fixed::lemma_scaled_bound(v.cy as int, sy as int);
        }
        let x: i64 = (v.x as i64) * sx + px;
        let y: i64 = py - (v.y as i64) * sy;
        match v.kind {
            VertexKind::MoveTo => {
                ops.push(PathOp::MoveTo(Fixed(x), Fixed(y)));
                ox = x;
                oy = y;
            },
            VertexKind::LineTo => {
                if x == ox && y == oy {
                    ops.push(PathOp::LineClose);
                } else {
                    ops.push(PathOp::LineTo(Fixed(x), Fixed(y)));
                }
            },
            VertexKind::CurveTo => {
                let cx: i64 = (v.cx as i64) * sx + px;
                let cy: i64 = py - (v.cy as i64) * sy;
                if x == ox && y == oy {
                    ops.push(PathOp::QuadClose(Fixed(cx), Fixed(cy)));
                } else {
                    ops.push(PathOp::QuadTo(Fixed(x), Fixed(y), Fixed(cx), Fixed(cy)));
                }
            },
        }
        proof {
            let sxi = sx as int;
            let syi = sy as int;
            let pxi = px as int;
            let pyi = py as int;
            let stepped = draw_ops_rec(vs, i as int, sxi, syi, pxi, pyi, ox_pre as int, oy_pre as int);
            let rest = draw_ops_rec(vs, i as int + 1, sxi, syi, pxi, pyi, ox as int, oy as int);
            let m = ops@[ops@.len() - 1]@;
            assert(stepped =~= seq![m] + rest);
            assert(ops@.map_values(|op: PathOp| op@) =~= ops_pre.map_values(|op: PathOp| op@).push(
                m,
            ));
            assert(ops_pre.map_values(|op: PathOp| op@).push(m) + rest =~= ops_pre.map_values(
                |op: PathOp| op@,
            ) + (seq![m] + rest));
        }
        i = i + 1;
    }
    Path(ops)
}

/// A single glyph of a font: a cheaply cloned handle pairing the font, a
/// glyph identifier and the two scale factors.
pub struct Glyph {
    font: Font,
    id: u32,
    sx: i64,
    sy: i64,
}

impl Glyph {
    /// The bytes of the font this glyph belongs to.
    pub closed spec fn font_data(&self) -> Seq<u8> {
        self.font.data()
    }

    /// The table offset of the font this glyph belongs to.
    pub closed spec fn font_offset(&self) -> int {
        self.font.offset()
    }

    /// The glyph identifier.
    pub closed spec fn id_spec(&self) -> int {
        self.id as int
    }

    /// The two scale factors, as fixed-point bit counts.
    pub closed spec fn scale(&self) -> (int, int) {
        (self.sx as int, self.sy as int)
    }

    /// The glyph's font is validated, its identifier is in range and its
    /// scale factors are bounded.
    pub open spec fn wf(&self) -> bool {
        &&& crate::validate::font_valid(self.font_data(), self.font_offset())
        &&& 0 <= self.id_spec() < num_glyphs_spec(self.font_data(), self.font_offset())
        &&& 0 <= self.scale().0 <= FACTOR_MAX
        &&& 0 <= self.scale().1 <= FACTOR_MAX
    }

    /// Binds a glyph handle to a font, identifier and scale.
    pub(crate) fn from_parts(font: Font, id: u32, sx: i64, sy: i64) -> (g: Glyph)
        ensures
            g.font_data() == font.data(),
            g.font_offset() == font.offset(),
            g.id_spec() == id as int,
            g.scale() == (sx as int, sy as int),
    {
        Glyph { font, id, sx, sy }
    }

    /// The glyph identifier, valid only for the font that produced it.
    pub fn id(&self) -> (r: u32)
        ensures
            r as int == self.id_spec(),
    {
        self.id
    }

    /// The advance width of this glyph in fixed-point pixels: its design
    /// advance scaled by the horizontal factor.
    pub fn advance_width(&self) -> (r: Fixed)
        requires
            self.wf(),
        ensures
            r.bits() == h_metrics_spec(self.font_data(), self.font_offset(), self.id_spec()).0
                * self.scale().0,
    {
        let hm = self.font.h_metrics(self.id);
        proof {
            assert(-32768 <= h_metrics_spec(self.font_data(), self.font_offset(), self.id_spec()).0
                <= 32767);
            crate::fixed::lemma_scaled_bound(hm.0 as int, self.sx as int);
        }
        Fixed((hm.0 as i64) * self.sx)
    }

    /// Converts the glyph's outline to a path at origin `(point_x, point_y)`.
    /// The origin is first shifted down by the scaled ascent, so glyphs drawn
    /// with the same origin share a baseline.  A glyph without outline data
    /// (such as a space) yields an empty path.
    pub fn draw(&self, point_x: Fixed, point_y: Fixed) -> (r: Path)
        requires
            self.wf(),
            -ORIGIN_MAX <= point_x.0 <= ORIGIN_MAX,
            -ORIGIN_MAX <= point_y.0 <= ORIGIN_MAX,
        ensures
            r@ == draw_spec(
                self.font_data(),
                self.font_offset(),
                self.id_spec(),
                self.scale().0,
                self.scale().1,
                point_x.bits(),
                point_y.bits(),
            ),
    {
        let ascent_off = self.font.scaled_ascent(self.sy);
        let base_y = point_y.0 + ascent_off;
        let verts = match self.font.glyph_shape(self.id) {
            Some(vs) => vs,
            None => Vec::new(),
        };
        proof {
            assert(verts@.map_values(|v: OutlineVertex| v.tup()) == (match shape_of(
                self.font_data(),
                self.font_offset(),
                self.id_spec(),
            ) {
                Some(s) => s,
                None => Seq::<(int, int, int, int, int)>::empty(),
            }));
        }
        outline_to_path(&verts, self.sx, self.sy, point_x.0, base_y)
    }
}

impl Clone for Glyph {
    /// A clone is a handle for the same font, identifier and scale.
    fn clone(&self) -> (r: Self)
        ensures
            r.font_data() == self.font_data(),
            r.font_offset() == self.font_offset(),
            r.id_spec() == self.id_spec(),
            r.scale() == self.scale(),
    {
        Glyph { font: self.font.clone(), id: self.id, sx: self.sx, sy: self.sy }
    }
}

/// Drawing is deterministic: two glyphs that name the same font, identifier
/// and scale, drawn at the same origin, yield identical path sequences.  In
/// particular a glyph and its clone draw identically.
pub proof fn lemma_draw_deterministic(g1: Glyph, g2: Glyph, px: Fixed, py: Fixed)
    requires
        g1.font_data() == g2.font_data(),
        g1.font_offset() == g2.font_offset(),
        g1.id_spec() == g2.id_spec(),
        g1.scale() == g2.scale(),
    ensures
        draw_spec(
            g1.font_data(),
            g1.font_offset(),
            g1.id_spec(),
            g1.scale().0,
            g1.scale().1,
            px.bits(),
            py.bits(),
        ) == draw_spec(
            g2.font_data(),
            g2.font_offset(),
            g2.id_spec(),
            g2.scale().0,
            g2.scale().1,
            px.bits(),
            py.bits(),
        ),
{
}

} // verus!
