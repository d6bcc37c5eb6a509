use fonterator::{
    outline_to_path, Error, Fixed, Font, FontCollection, OutlineVertex, PathOp, SharedBytes,
    Vec2, VertexKind, FIXED_ONE,
};

fn push_u16(v: &mut Vec<u8>, x: u16) {
    v.push((x >> 8) as u8);
    v.push((x & 0xff) as u8);
}

fn push_i16(v: &mut Vec<u8>, x: i16) {
    push_u16(v, x as u16);
}

fn push_u32(v: &mut Vec<u8>, x: u32) {
    push_u16(v, (x >> 16) as u16);
    push_u16(v, (x & 0xffff) as u16);
}

/// Builds a minimal single TrueType font whose table offsets are absolute
/// within a file where the font starts at `base`.
///
/// Glyphs: 0 empty, 1 a 700x700 square outline, 2 empty, 3 empty (space).
/// Character map (format 0): 'a'->1, 'b'->2, ' '->3, 0xE9 ('e' acute)->1,
/// 'e'->2.  Units per em 1000, ascent 800, descent -200 (font height 1000).
/// Advance widths: 500, 600, 700, 250.  One kerning pair: (1, 2) -> -50.
fn format0_cmap() -> Vec<u8> {
    // 4-byte header, one encoding record, format-0 subtable.
    let mut cmap = Vec::new();
    push_u16(&mut cmap, 0); // version
    push_u16(&mut cmap, 1); // numTables
    push_u16(&mut cmap, 0); // platformID: Unicode
    push_u16(&mut cmap, 3); // encodingID
    push_u32(&mut cmap, 12); // subtable offset from cmap start
    push_u16(&mut cmap, 0); // format 0
    push_u16(&mut cmap, 262); // length
    push_u16(&mut cmap, 0); // language
    let mut mapping = [0u8; 256];
    mapping[0x61] = 1; // 'a'
    mapping[0x62] = 2; // 'b'
    mapping[0x20] = 3; // ' '
    mapping[0xe9] = 1; // precomposed e-acute
    mapping[0x65] = 2; // 'e'
    cmap.extend_from_slice(&mapping);
    cmap
}

/// A format-4 subtable: one segment mapping 'a'->1, 'b'->2 by delta, plus
/// the 0xffff sentinel segment.
fn format4_cmap() -> Vec<u8> {
    let mut cmap = Vec::new();
    push_u16(&mut cmap, 0); // version
    push_u16(&mut cmap, 1); // numTables
    push_u16(&mut cmap, 0); // platformID: Unicode
    push_u16(&mut cmap, 3); // encodingID
    push_u32(&mut cmap, 12); // subtable offset from cmap start
    push_u16(&mut cmap, 4); // format 4
    push_u16(&mut cmap, 32); // length
    push_u16(&mut cmap, 0); // language
    push_u16(&mut cmap, 4); // segCountX2
    push_u16(&mut cmap, 4); // searchRange
    push_u16(&mut cmap, 1); // entrySelector
    push_u16(&mut cmap, 0); // rangeShift
    push_u16(&mut cmap, 0x62); // endCount[0]
    push_u16(&mut cmap, 0xffff); // endCount[1]: sentinel
    push_u16(&mut cmap, 0); // reservedPad
    push_u16(&mut cmap, 0x61); // startCount[0]
    push_u16(&mut cmap, 0xffff); // startCount[1]
    push_i16(&mut cmap, 1 - 0x61); // idDelta[0]: 'a'->1, 'b'->2
    push_u16(&mut cmap, 1); // idDelta[1]: 0xffff wraps to glyph 0
    push_u16(&mut cmap, 0); // idRangeOffset[0]
    push_u16(&mut cmap, 0); // idRangeOffset[1]
    cmap
}

/// A format-12 subtable: groups for ' ', 'a'..'b' and one supplementary
/// plane character.
fn format12_cmap() -> Vec<u8> {
    let mut cmap = Vec::new();
    push_u16(&mut cmap, 0); // version
    push_u16(&mut cmap, 1); // numTables
    push_u16(&mut cmap, 0); // platformID: Unicode
    push_u16(&mut cmap, 3); // encodingID
    push_u32(&mut cmap, 12); // subtable offset from cmap start
    push_u16(&mut cmap, 12); // format 12
    push_u16(&mut cmap, 0); // reserved
    push_u32(&mut cmap, 52); // length
    push_u32(&mut cmap, 0); // language
    push_u32(&mut cmap, 3); // nGroups
    for (start, end, glyph) in [(0x20u32, 0x20u32, 3u32), (0x61, 0x62, 1), (0x1f600, 0x1f600, 2)] {
        push_u32(&mut cmap, start);
        push_u32(&mut cmap, end);
        push_u32(&mut cmap, glyph);
    }
    cmap
}

/// A simple one-contour square outline, `side` design units on edge.
fn square_glyph(side: i16) -> Vec<u8> {
    let mut g = Vec::new();
    push_i16(&mut g, 1); // one contour
    push_i16(&mut g, 0); // xMin
    push_i16(&mut g, 0); // yMin
    push_i16(&mut g, side); // xMax
    push_i16(&mut g, side); // yMax
    push_u16(&mut g, 3); // end point of contour 0
    push_u16(&mut g, 0); // instruction length
    g.extend_from_slice(&[1, 1, 1, 1]); // flags: four on-curve points
    for dx in [0i16, side, 0, -side] {
        push_i16(&mut g, dx);
    }
    for dy in [0i16, 0, side, 0] {
        push_i16(&mut g, dy);
    }
    g
}

/// glyf and loca tables: glyph 0 empty, glyph 1 the given outline, glyphs 2
/// and 3 empty.
fn simple_glyf_loca(glyph1: Vec<u8>) -> (Vec<u8>, Vec<u8>) {
    let mut glyf = glyph1;
    let half = (glyf.len() / 2) as u16;
    glyf.extend_from_slice(&[0u8; 16]); // padding for worst-case read bounds
    let mut loca = Vec::new();
    push_u16(&mut loca, 0); // glyph 0: empty
    push_u16(&mut loca, 0); // glyph 1 start
    push_u16(&mut loca, half); // glyph 2: empty
    push_u16(&mut loca, half); // glyph 3: empty
    push_u16(&mut loca, half); // end
    (glyf, loca)
}

/// glyf and loca tables where glyph 2 is a compound glyph placing glyph 1
/// shifted right by 20 design units.
fn compound_glyf_loca() -> (Vec<u8>, Vec<u8>) {
    let mut glyf = square_glyph(700);
    let g1_half = (glyf.len() / 2) as u16; // 17
    push_i16(&mut glyf, -1); // compound glyph
    push_i16(&mut glyf, 0); // xMin
    push_i16(&mut glyf, 0); // yMin
    push_i16(&mut glyf, 720); // xMax
    push_i16(&mut glyf, 700); // yMax
    push_u16(&mut glyf, 0x0003); // word args, xy offsets, no more components
    push_u16(&mut glyf, 1); // component glyph
    push_i16(&mut glyf, 20); // x offset
    push_i16(&mut glyf, 0); // y offset
    let g2_half = (glyf.len() / 2) as u16; // 26
    glyf.extend_from_slice(&[0u8; 16]);
    let mut loca = Vec::new();
    push_u16(&mut loca, 0); // glyph 0: empty
    push_u16(&mut loca, 0); // glyph 1 start
    push_u16(&mut loca, g1_half); // glyph 2 start
    push_u16(&mut loca, g2_half); // glyph 3: empty
    push_u16(&mut loca, g2_half); // end
    (glyf, loca)
}

/// Builds a minimal single TrueType font whose table offsets are absolute
/// within a file where the font starts at `base`.
///
/// Units per em 1000, ascent 800, descent -200 (font height 1000).  Advance
/// widths: 500, 600, 700, 250.  One kerning pair: (1, 2) -> -50.  One name
/// record, "Test".
fn build_font_from(base: u32, cmap: Vec<u8>, glyf: Vec<u8>, loca: Vec<u8>) -> Vec<u8> {
    let num_tables: u16 = 9;
    let dir_len: u32 = 12 + 16 * num_tables as u32;

    // head: 54 bytes; unitsPerEm at 18, indexToLocFormat at 50.
    let mut head = vec![0u8; 54];
    head[18] = (1000u16 >> 8) as u8;
    head[19] = (1000u16 & 0xff) as u8;

    // hhea: 36 bytes; ascent 800, descent -200, numOfLongHorMetrics 4.
    let mut hhea = Vec::new();
    push_u32(&mut hhea, 0x00010000);
    push_i16(&mut hhea, 800);
    push_i16(&mut hhea, -200);
    push_i16(&mut hhea, 0);
    while hhea.len() < 34 {
        hhea.push(0);
    }
    push_u16(&mut hhea, 4);

    // hmtx: four long metrics.
    let mut hmtx = Vec::new();
    for (aw, lsb) in [(500i16, 0i16), (600, 50), (700, 50), (250, 0)] {
        push_i16(&mut hmtx, aw);
        push_i16(&mut hmtx, lsb);
    }

    // kern: one horizontal format-0 table with the pair (1, 2) -> -50.
    let mut kern = Vec::new();
    push_u16(&mut kern, 0); // version
    push_u16(&mut kern, 1); // nTables
    push_u16(&mut kern, 0); // subtable version
    push_u16(&mut kern, 24); // subtable length
    push_u16(&mut kern, 1); // coverage: horizontal
    push_u16(&mut kern, 1); // nPairs
    push_u16(&mut kern, 6); // searchRange
    push_u16(&mut kern, 0); // entrySelector
    push_u16(&mut kern, 0); // rangeShift
    push_u16(&mut kern, 1); // left glyph
    push_u16(&mut kern, 2); // right glyph
    push_i16(&mut kern, -50); // value

    // name: one record, the string "Test".
    let mut name = Vec::new();
    push_u16(&mut name, 0); // version
    push_u16(&mut name, 1); // count
    push_u16(&mut name, 18); // stringOffset
    push_u16(&mut name, 0); // platformID
    push_u16(&mut name, 3); // encodingID
    push_u16(&mut name, 0); // languageID
    push_u16(&mut name, 4); // nameID: full name
    push_u16(&mut name, 4); // length
    push_u16(&mut name, 0); // offset
    name.extend_from_slice(b"Test");

    // maxp: numGlyphs at offset 4.
    let mut maxp = Vec::new();
    push_u32(&mut maxp, 0x00005000);
    push_u16(&mut maxp, 4);

    let tables: [(&[u8; 4], &Vec<u8>); 9] = [
        (b"cmap", &cmap),
        (b"glyf", &glyf),
        (b"head", &head),
        (b"hhea", &hhea),
        (b"hmtx", &hmtx),
        (b"kern", &kern),
        (b"loca", &loca),
        (b"maxp", &maxp),
        (b"name", &name),
    ];

    let mut font = Vec::new();
    push_u32(&mut font, 0x00010000); // single-font signature
    push_u16(&mut font, num_tables);
    push_u16(&mut font, 0); // searchRange
    push_u16(&mut font, 0); // entrySelector
    push_u16(&mut font, 0); // rangeShift
    let mut offset = base + dir_len;
    for (tag, data) in tables.iter() {
        font.extend_from_slice(*tag);
        push_u32(&mut font, 0); // checksum
        push_u32(&mut font, offset);
        push_u32(&mut font, data.len() as u32);
        offset += data.len() as u32;
    }
    for (_, data) in tables.iter() {
        font.extend_from_slice(data);
    }
    font
}

fn build_font_at(base: u32) -> Vec<u8> {
    let (glyf, loca) = simple_glyf_loca(square_glyph(700));
    build_font_from(base, format0_cmap(), glyf, loca)
}

fn build_font() -> Vec<u8> {
    build_font_at(0)
}

/// A collection holding the synthetic font twice.
fn build_collection() -> Vec<u8> {
    let mut v = Vec::new();
    v.extend_from_slice(b"ttcf");
    push_u32(&mut v, 0x00010000);
    push_u32(&mut v, 2); // numFonts
    let first = 20u32;
    let font1 = build_font_at(first);
    let second = first + font1.len() as u32;
    let font2 = build_font_at(second);
    push_u32(&mut v, first);
    push_u32(&mut v, second);
    v.extend_from_slice(&font1);
    v.extend_from_slice(&font2);
    v
}

fn px(v: i64) -> Fixed {
    Fixed(v * FIXED_ONE)
}

fn scale_1000() -> Vec2 {
    Vec2(px(1000), px(1000))
}

#[test]
fn single_font_construction_and_counts() {
    let data = build_font();
    let collection = FontCollection::new(SharedBytes::ByRef(&data)).unwrap();
    let font = collection.into_font().unwrap();
    assert_eq!(font.glyph_count(), 4);
    assert_eq!(font.units_per_em(), 1000);
}

#[test]
fn font_new_shortcut_matches_collection_path() {
    let data = build_font();
    let font = Font::new(SharedBytes::from_vec(data)).unwrap();
    assert_eq!(font.glyph_count(), 4);
}

#[test]
fn unrecognized_format_is_rejected() {
    let garbage = vec![0xde, 0xad, 0xbe, 0xef, 0x00, 0x00];
    match FontCollection::new(SharedBytes::ByRef(&garbage)) {
        Err(Error::UnrecognizedFormat) => {}
        _ => panic!("expected UnrecognizedFormat"),
    }
    let short = vec![0x01];
    match FontCollection::new(SharedBytes::ByRef(&short)) {
        Err(Error::UnrecognizedFormat) => {}
        _ => panic!("expected UnrecognizedFormat for short buffer"),
    }
}

#[test]
fn truncated_collection_is_ill_formed() {
    let data = b"ttcf".to_vec();
    let collection = FontCollection::new(SharedBytes::ByRef(&data)).unwrap();
    match collection.into_font() {
        Err(Error::IllFormed) => {}
        _ => panic!("expected IllFormed"),
    }
}

#[test]
fn two_font_collection_behaviour() {
    let data = build_collection();
    let collection = FontCollection::new(SharedBytes::ByRef(&data)).unwrap();
    match collection.clone().into_font() {
        Err(Error::CollectionContainsMultipleFonts) => {}
        _ => panic!("expected CollectionContainsMultipleFonts"),
    }
    assert!(collection.font_at(0).is_ok());
    assert!(collection.font_at(1).is_ok());
    match collection.font_at(2) {
        Err(Error::CollectionIndexOutOfBounds) => {}
        _ => panic!("expected CollectionIndexOutOfBounds"),
    }
    let fonts = collection.into_fonts();
    assert_eq!(fonts.len(), 2);
    assert_eq!(fonts[0].glyph_count(), 4);
    assert_eq!(fonts[1].glyph_count(), 4);
}

#[test]
fn one_character_layout_has_no_kerning_term() {
    let data = build_font();
    let font = Font::new(SharedBytes::ByRef(&data)).unwrap();
    let mut iter = font.glyphs("a", scale_1000());
    let (glyph, advance) = iter.next().unwrap();
    assert_eq!(glyph.id(), 1);
    // advance_width(glyph) * scale_x with scale factor exactly 1.0
    assert_eq!(advance, px(600));
    assert_eq!(glyph.advance_width(), px(600));
    assert!(iter.next().is_none());
    assert!(iter.next().is_none());
}

#[test]
fn n_character_layout_applies_kerning_to_second_glyph_only() {
    let data = build_font();
    let font = Font::new(SharedBytes::ByRef(&data)).unwrap();
    let mut iter = font.glyphs("ab", scale_1000());
    let (g1, a1) = iter.next().unwrap();
    let (g2, a2) = iter.next().unwrap();
    assert!(iter.next().is_none());
    assert_eq!(g1.id(), 1);
    assert_eq!(g2.id(), 2);
    assert_eq!(a1, px(600)); // first glyph: unchanged by the kerning pair
    assert_eq!(a2, px(700 - 50)); // second glyph: advance plus kerning
    // Total pen displacement is the sum of the advances.
    assert_eq!(a1.0 + a2.0, px(1250).0);
    // Without the pair before it, 'b' has its plain advance.
    let mut alone = font.glyphs("b", scale_1000());
    let (_, b_alone) = alone.next().unwrap();
    assert_eq!(b_alone, px(700));
}

#[test]
fn pair_kerning_scales_raw_value() {
    let data = build_font();
    let font = Font::new(SharedBytes::ByRef(&data)).unwrap();
    assert_eq!(font.pair_kerning(scale_1000(), 1, 2), px(-50));
    assert_eq!(font.pair_kerning(scale_1000(), 2, 1), px(0));
}

#[test]
fn draw_is_idempotent_on_clones() {
    let data = build_font();
    let font = Font::new(SharedBytes::ByRef(&data)).unwrap();
    let mut iter = font.glyphs("a", scale_1000());
    let (glyph, _) = iter.next().unwrap();
    let twin = glyph.clone();
    let p1 = glyph.draw(px(5), px(7));
    let p2 = twin.draw(px(5), px(7));
    assert_eq!(p1.0, p2.0);
    assert!(!p1.0.is_empty());
}

#[test]
fn square_glyph_draws_closed_contour() {
    let data = build_font();
    let font = Font::new(SharedBytes::ByRef(&data)).unwrap();
    let mut iter = font.glyphs("a", scale_1000());
    let (glyph, _) = iter.next().unwrap();
    let path = glyph.draw(px(0), px(0));
    // Baseline offset: ascent 800 at scale 1.0.
    let ops = path.0;
    assert_eq!(ops.len(), 5);
    assert_eq!(ops[0], PathOp::MoveTo(px(0), px(800)));
    assert_eq!(ops[1], PathOp::LineTo(px(700), px(800)));
    assert_eq!(ops[2], PathOp::LineTo(px(700), px(100)));
    assert_eq!(ops[3], PathOp::LineTo(px(0), px(100)));
    assert_eq!(ops[4], PathOp::LineClose);
}

#[test]
fn synthetic_outline_closes_exactly() {
    let verts = vec![
        OutlineVertex { kind: VertexKind::MoveTo, x: 0, y: 0, cx: 0, cy: 0 },
        OutlineVertex { kind: VertexKind::LineTo, x: 10, y: 0, cx: 0, cy: 0 },
        OutlineVertex { kind: VertexKind::LineTo, x: 10, y: 10, cx: 0, cy: 0 },
        OutlineVertex { kind: VertexKind::LineTo, x: 0, y: 0, cx: 0, cy: 0 },
    ];
    let path = outline_to_path(&verts, 65536, 65536, 0, 0);
    let ops = path.0;
    assert_eq!(ops.len(), 4);
    assert_eq!(ops[0], PathOp::MoveTo(px(0), px(0)));
    assert_eq!(ops[1], PathOp::LineTo(px(10), px(0)));
    assert_eq!(ops[2], PathOp::LineTo(px(10), px(-10)));
    // The endpoint equals the sub-path origin, so the last operation closes.
    assert_eq!(ops[3], PathOp::LineClose);
}

#[test]
fn quad_vertices_emit_curves_and_closing_curves() {
    let verts = vec![
        OutlineVertex { kind: VertexKind::MoveTo, x: 0, y: 0, cx: 0, cy: 0 },
        OutlineVertex { kind: VertexKind::CurveTo, x: 10, y: 0, cx: 5, cy: 5 },
        OutlineVertex { kind: VertexKind::CurveTo, x: 0, y: 0, cx: 2, cy: 3 },
    ];
    let path = outline_to_path(&verts, 65536, 65536, 0, 0);
    let ops = path.0;
    assert_eq!(ops.len(), 3);
    assert_eq!(ops[1], PathOp::QuadTo(px(10), px(0), px(5), px(-5)));
    assert_eq!(ops[2], PathOp::QuadClose(px(2), px(-3)));
}

#[test]
fn empty_outline_yields_empty_path() {
    let verts: Vec<OutlineVertex> = Vec::new();
    let path = outline_to_path(&verts, 65536, 65536, 0, 0);
    assert!(path.0.is_empty());
}

#[test]
fn space_has_empty_path_but_nonzero_advance() {
    let data = build_font();
    let font = Font::new(SharedBytes::ByRef(&data)).unwrap();
    let mut iter = font.glyphs(" ", scale_1000());
    let (glyph, advance) = iter.next().unwrap();
    assert_eq!(glyph.id(), 3);
    assert_eq!(advance, px(250));
    assert!(advance.0 > 0);
    let path = glyph.draw(px(0), px(0));
    assert!(path.0.is_empty());
}

#[test]
fn normalization_is_deterministic_and_composes() {
    let data = build_font();
    let font = Font::new(SharedBytes::ByRef(&data)).unwrap();
    let collect = |text: &str| {
        let mut iter = font.glyphs(text, scale_1000());
        let mut out = Vec::new();
        while let Some((g, a)) = iter.next() {
            out.push((g.id(), a.0));
        }
        out
    };
    let precomposed = "\u{e9}";
    let decomposed = "e\u{301}";
    let p1 = collect(precomposed);
    let p2 = collect(precomposed);
    let d1 = collect(decomposed);
    let d2 = collect(decomposed);
    // Each form normalizes the same way on every run.
    assert_eq!(p1, p2);
    assert_eq!(d1, d2);
    // Canonical composition maps the decomposed pair to the single glyph.
    assert_eq!(p1.len(), 1);
    assert_eq!(d1, p1);
    assert_eq!(p1[0].0, 1);
}

#[test]
fn anisotropic_scale_uses_horizontal_factor_for_advances() {
    let data = build_font();
    let font = Font::new(SharedBytes::ByRef(&data)).unwrap();
    // 500 px wide, 1000 px tall: horizontal factor 0.5.
    let mut iter = font.glyphs("a", Vec2(px(500), px(1000)));
    let (_, advance) = iter.next().unwrap();
    assert_eq!(advance, px(300));
}

#[test]
fn shared_bytes_views() {
    let data = vec![1u8, 2, 3];
    let by_ref = SharedBytes::ByRef(&data);
    assert_eq!(by_ref.len(), 3);
    assert_eq!(by_ref.as_slice(), &[1, 2, 3]);
    let owned = SharedBytes::from_vec(data.clone());
    assert_eq!(owned.as_slice(), &[1, 2, 3]);
    let cloned = owned.clone();
    assert_eq!(cloned.len(), 3);
}

#[test]
fn format4_cmap_font_lays_out_with_kerning() {
    let (glyf, loca) = simple_glyf_loca(square_glyph(700));
    let data = build_font_from(0, format4_cmap(), glyf, loca);
    let font = Font::new(SharedBytes::ByRef(&data)).unwrap();
    let mut iter = font.glyphs("ab", scale_1000());
    let (g1, a1) = iter.next().unwrap();
    let (g2, a2) = iter.next().unwrap();
    assert!(iter.next().is_none());
    assert_eq!(g1.id(), 1);
    assert_eq!(g2.id(), 2);
    assert_eq!(a1, px(600));
    assert_eq!(a2, px(650));
    // An unmapped character resolves to the missing-character glyph.
    let mut sp = font.glyphs("!", scale_1000());
    let (g, _) = sp.next().unwrap();
    assert_eq!(g.id(), 0);
}

#[test]
fn format12_cmap_font_maps_supplementary_plane() {
    let (glyf, loca) = simple_glyf_loca(square_glyph(700));
    let data = build_font_from(0, format12_cmap(), glyf, loca);
    let font = Font::new(SharedBytes::ByRef(&data)).unwrap();
    let mut iter = font.glyphs("a\u{1f600}", scale_1000());
    let (g1, a1) = iter.next().unwrap();
    let (g2, a2) = iter.next().unwrap();
    assert!(iter.next().is_none());
    assert_eq!(g1.id(), 1);
    assert_eq!(g2.id(), 2);
    assert_eq!(a1, px(600));
    assert_eq!(a2, px(650)); // the kerning pair (1, 2) applies
}

#[test]
fn compound_glyph_draws_translated_component() {
    let (glyf, loca) = compound_glyf_loca();
    let data = build_font_from(0, format4_cmap(), glyf, loca);
    let font = Font::new(SharedBytes::ByRef(&data)).unwrap();
    let mut iter = font.glyphs("b", scale_1000());
    let (glyph, _) = iter.next().unwrap();
    assert_eq!(glyph.id(), 2);
    let ops = glyph.draw(px(0), px(0)).0;
    assert_eq!(ops.len(), 5);
    assert_eq!(ops[0], PathOp::MoveTo(px(20), px(800)));
    assert_eq!(ops[1], PathOp::LineTo(px(720), px(800)));
    assert_eq!(ops[2], PathOp::LineTo(px(720), px(100)));
    assert_eq!(ops[3], PathOp::LineTo(px(20), px(100)));
    assert_eq!(ops[4], PathOp::LineClose);
}

#[test]
fn oversized_coordinates_are_rejected() {
    // A glyph whose accumulated coordinates leave the decoder's safe range
    // makes the font unreadable rather than risking a decode abort.
    let (glyf, loca) = simple_glyf_loca(square_glyph(20000));
    let data = build_font_from(0, format0_cmap(), glyf, loca);
    match Font::new(SharedBytes::ByRef(&data)) {
        Err(Error::IllFormed) => {}
        _ => panic!("expected IllFormed"),
    }
}

#[test]
fn shared_bytes_from_conversions() {
    let data = vec![9u8, 8];
    let borrowed = SharedBytes::from(&data[..]);
    assert_eq!(borrowed.as_slice(), &[9, 8]);
    let owned: SharedBytes<'static> = SharedBytes::from(data.clone());
    assert_eq!(owned.len(), 2);
}

#[test]
fn error_descriptions() {
    assert_eq!(
        Error::UnrecognizedFormat.description(),
        "Font data in unrecognized format"
    );
    assert_eq!(Error::IllFormed.description(), "Font data is ill-formed");
    assert_eq!(
        Error::CollectionIndexOutOfBounds.description(),
        "Font collection has no font at the given index"
    );
    assert_eq!(
        Error::CollectionContainsMultipleFonts.description(),
        "Attempted to convert collection into a font, but collection contais more than one font"
    );
}

#[test]
fn font_name_strings_reports_name_records() {
    let data = build_font();
    let font = Font::new(SharedBytes::ByRef(&data)).unwrap();
    let names = font.font_name_strings();
    assert_eq!(names.len(), 1);
    assert_eq!(names[0].0, b"Test");
    assert_eq!(names[0].1, 4); // the full-name record

}

#[test]
fn fixed_from_int() {
    assert_eq!(Fixed::from_int(3), Fixed(3 * FIXED_ONE));
    assert_eq!(Fixed::from_int(-2), Fixed(-2 * FIXED_ONE));
}
