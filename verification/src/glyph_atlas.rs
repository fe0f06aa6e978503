use vstd::prelude::*;

verus! {

/// Round `value` up to the next multiple of `alignment` (a zero alignment
/// leaves it unchanged).
pub fn align_up(value: u64, alignment: u64) -> (r: u64)
    requires
        alignment == 0 || value + alignment - 1 <= u64::MAX,
    ensures
        alignment == 0 ==> r == value,
        alignment != 0 ==> r == ((value + alignment - 1) / alignment as int) * alignment,
        alignment != 0 ==> r % alignment == 0 && value <= r < value + alignment,
{
    if alignment == 0 {
        return value;
    }
    let ghost v = value as int;
    let ghost a = alignment as int;
    let sum = value + (alignment - 1);
    let q = sum / alignment;
    proof {
        vstd::arithmetic::div_mod::lemma_fundamental_div_mod(v + a - 1, a);
        assert(q * a <= v + a - 1 && q * a >= v && (q * a) % a == 0) by (nonlinear_arith)
            requires
                q == (v + a - 1) / a,
                v + a - 1 == a * ((v + a - 1) / a) + (v + a - 1) % a,
                0 <= (v + a - 1) % a < a,
                a >= 1,
                v >= 0,
        {
            vstd::arithmetic::div_mod::lemma_mod_multiples_basic(q as int, a);
        }
    }
    q * alignment
}

/// The CP437 index of a character: ASCII characters are their own index;
/// others are looked up in the CP437-to-Unicode table (first match), and a
/// character not there maps to `?`.
pub open spec fn spec_cp437_index(ch: char, table: Seq<char>) -> u32 {
    if (ch as u32) < 0x80 {
        ch as u32
    } else {
        match table.index_of_first(ch) {
            Some(i) => i as u32,
            None => '?' as u32,
        }
    }
}

/// Convert a Unicode character to its CP437 index for atlas lookup;
/// `table` maps each CP437 index to its Unicode character.
pub fn cp437_index(ch: char, table: &[char]) -> (r: u32)
    requires
        table@.len() <= u32::MAX,
    ensures
        r == spec_cp437_index(ch, table@),
{
    if (ch as u32) < 0x80 {
        return ch as u32;
    }
    proof {
        table@.index_of_first_ensures(ch);
    }
    let mut i: usize = 0;
    while i < table.len()
        invariant
            0 <= i <= table@.len(),
            table@.len() <= u32::MAX,
            (ch as u32) >= 0x80,
            forall|j: int| 0 <= j < i ==> table@[j] != ch,
            match table@.index_of_first(ch) {
                Some(index) => {
                    &&& 0 <= index < table@.len()
                    &&& table@[index] == ch
                    &&& forall|j: int| 0 <= j < index < table@.len() ==> table@[j] != ch
                },
                None => !table@.contains(ch),
            },
        decreases table@.len() - i,
    {
        if table[i] == ch {
            proof {
                assert(table@[i as int] == ch);
                assert(table@.contains(ch));
                let index = table@.index_of_first(ch)->0;
                if index < i {
                    assert(table@[index] != ch);
                }
                if index > i {
                    assert(table@[i as int] != ch);
                }
            }
            return i as u32;
        }
        i = i + 1;
    }
    proof {
        if table@.contains(ch) {
            let index = table@.index_of_first(ch)->0;
            assert(table@[index] != ch);
        }
    }
    '?' as u32
}

/// A glyph bitmap: rows of pixels, `true` where the glyph is set.
pub type GlyphBitmap = Vec<Vec<bool>>;

/// The side lengths of one atlas cell: the font's size, at least one pixel.
pub open spec fn atlas_cell(font_width: i32, font_height: i32) -> (int, int) {
    (if font_width < 1 {
        1int
    } else {
        font_width as int
    }, if font_height < 1 {
        1int
    } else {
        font_height as int
    })
}

/// Whether pixel `(x, y)` of a glyph bitmap is set (pixels the bitmap does
/// not have are clear).
pub open spec fn glyph_pixel(rows: Seq<Vec<bool>>, x: int, y: int) -> bool {
    0 <= y < rows.len() && 0 <= x < rows[y]@.len() && rows[y]@[x]
}

/// Byte `c` (0 red, 1 green, 2 blue, 3 alpha) of atlas pixel `(px, py)`. The
/// atlas has 16 by 16 cells of `cw` by `ch` pixels; cell `code` sits at
/// column `code % 16`, row `code / 16`. A cell whose glyph is missing is
/// transparent black; otherwise white, opaque where the glyph is set.
pub open spec fn atlas_byte(cw: int, ch: int, glyphs: Seq<Option<GlyphBitmap>>, px: int, py: int, c: int) -> u8 {
    let code = (py / ch) * 16 + px / cw;
    let glyph = if code < glyphs.len() {
        glyphs[code]
    } else {
        None
    };
    match glyph {
        None => 0u8,
        Some(rows) => if c < 3 {
            255u8
        } else if glyph_pixel(rows@, px % cw, py % ch) {
            255u8
        } else {
            0u8
        },
    }
}

/// Byte `i` of an atlas `atlas_w` pixels wide, stored row by row, four bytes
/// per pixel.
pub open spec fn atlas_byte_at(cw: int, ch: int, glyphs: Seq<Option<GlyphBitmap>>, i: int) -> u8 {
    let p = i / 4;
    atlas_byte(cw, ch, glyphs, p % (cw * 16), p / (cw * 16), i % 4)
}

/// Build a 16x16 glyph atlas texture (256 glyphs). `glyphs[code]` is the
/// bitmap of the glyph for CP437 code `code`, if the font has one. Returns
/// (atlas width, atlas height, RGBA bytes).
pub fn build_glyph_atlas_rgba(font_width: i32, font_height: i32, glyphs: &Vec<Option<GlyphBitmap>>) -> (r: (u32, u32, Vec<u8>))
    requires
        atlas_cell(font_width, font_height).0 * 16 * atlas_cell(font_width, font_height).1 * 16 * 4 <= u32::MAX,
    ensures
        r.0 == atlas_cell(font_width, font_height).0 * 16,
        r.1 == atlas_cell(font_width, font_height).1 * 16,
        r.2@.len() == r.0 * r.1 * 4,
        forall|i: int|
            0 <= i < r.2@.len() ==> #[trigger] r.2@[i] == atlas_byte_at(
                atlas_cell(font_width, font_height).0,
                atlas_cell(font_width, font_height).1,
                glyphs@,
                i,
            ),
{
    let gw: u32 = if font_width < 1 {
        1
    } else {
        font_width as u32
    };
    let gh: u32 = if font_height < 1 {
        1
    } else {
        font_height as u32
    };
    let ghost cw = gw as int;
    let ghost chh = gh as int;
    assert(cw * 16 * chh * 16 * 4 <= u32::MAX);
    assert(cw * 16 <= u32::MAX && chh * 16 <= u32::MAX) by (nonlinear_arith)
        requires
            cw * 16 * chh * 16 * 4 <= u32::MAX,
            cw >= 1,
            chh >= 1,
    ;
    let atlas_w = gw * 16;
    let atlas_h = gh * 16;
    let ghost aw = atlas_w as int;
    let ghost ah = atlas_h as int;
    assert(aw * ah * 4 <= u32::MAX) by (nonlinear_arith)
        requires
            cw * 16 * chh * 16 * 4 <= u32::MAX,
            aw == cw * 16,
            ah == chh * 16,
    ;
    let mut rgba: Vec<u8> = Vec::new();
    let mut py: u32 = 0;
    while py < atlas_h
        invariant
            gw as int == cw,
            gh as int == chh,
            cw >= 1,
            chh >= 1,
            atlas_w as int == aw,
            atlas_h as int == ah,
            aw == cw * 16,
            ah == chh * 16,
            aw * ah * 4 <= u32::MAX,
            0 <= py <= atlas_h,
            rgba@.len() == py * aw * 4,
            forall|i: int| 0 <= i < rgba@.len() ==> #[trigger] rgba@[i] == atlas_byte_at(cw, chh, glyphs@, i),
        decreases atlas_h - py,
    {
        let mut px: u32 = 0;
        while px < atlas_w
            invariant
                gw as int == cw,
                gh as int == chh,
                cw >= 1,
                chh >= 1,
                atlas_w as int == aw,
                atlas_h as int == ah,
                aw == cw * 16,
                ah == chh * 16,
                aw * ah * 4 <= u32::MAX,
                0 <= py < atlas_h,
                0 <= px <= atlas_w,
                rgba@.len() == (py * aw + px) * 4,
                forall|i: int| 0 <= i < rgba@.len() ==> #[trigger] rgba@[i] == atlas_byte_at(cw, chh, glyphs@, i),
            decreases atlas_w - px,
        {
            let ghost p = py * aw + px;
            proof {
                vstd::arithmetic::div_mod::lemma_fundamental_div_mod_converse(p, aw, py as int, px as int);
                assert(0 <= p < aw * ah) by (nonlinear_arith)
                    requires
                        p == py * aw + px,
                        0 <= py < ah,
                        0 <= px < aw,
                ;
                assert((py / gh) < 16 && (px / gw) < 16) by (nonlinear_arith)
                    requires
                        0 <= py < chh * 16,
                        0 <= px < cw * 16,
                        gw as int == cw,
                        gh as int == chh,
                        cw >= 1,
                        chh >= 1,
                {
                    vstd::arithmetic::div_mod::lemma_div_by_multiple_is_strongly_ordered(py as int, chh * 16, 16, chh);
                    vstd::arithmetic::div_mod::lemma_div_by_multiple_is_strongly_ordered(px as int, cw * 16, 16, cw);
                }
            }
            let code = ((py / gh) * 16 + px / gw) as usize;
            let x = (px % gw) as usize;
            let y = (py % gh) as usize;
            let glyph: Option<&GlyphBitmap> = if code < glyphs.len() {
                glyphs[code].as_ref()
            } else {
                None
            };
            let (r, g, b, a): (u8, u8, u8, u8) = match glyph {
                None => (0, 0, 0, 0),
                Some(rows) => {
                    let on = y < rows.len() && x < rows[y].len() && rows[y][x];
                    (255, 255, 255, if on {
                        255
                    } else {
                        0
                    })
                },
            };
            let ghost before = rgba@;
            rgba.push(r);
            rgba.push(g);
            rgba.push(b);
            rgba.push(a);
            proof {
                assert forall|i: int| 0 <= i < rgba@.len() implies #[trigger] rgba@[i] == atlas_byte_at(
                    cw,
                    chh,
                    glyphs@,
                    i,
                ) by {
                    if i >= before.len() {
                        let c = i - p * 4;
                        assert(0 <= c < 4);
                        vstd::arithmetic::div_mod::lemma_fundamental_div_mod_converse(i, 4, p, c);
                    }
                }
                assert((py * aw + px + 1) * 4 == rgba@.len());
            }
            px = px + 1;
        }
        assert((py * aw + aw) * 4 == (py + 1) * aw * 4) by (nonlinear_arith);
        py = py + 1;
    }
    assert(ah * aw * 4 == aw * ah * 4) by (nonlinear_arith);
    (atlas_w, atlas_h, rgba)
}

/// Byte `i` of the selection mask texture: each cell becomes one opaque
/// pixel, white where selected, black elsewhere.
pub open spec fn mask_byte(selected: Seq<bool>, i: int) -> u8 {
    if i % 4 == 3 || selected[i / 4] {
        255u8
    } else {
        0u8
    }
}

/// The RGBA texture of a selection mask covering the whole document,
/// `selected` holding one flag per cell, row by row.
pub fn selection_mask_rgba(selected: &Vec<bool>) -> (r: Vec<u8>)
    requires
        selected@.len() * 4 <= u32::MAX,
    ensures
        r@.len() == selected@.len() * 4,
        forall|i: int| 0 <= i < r@.len() ==> #[trigger] r@[i] == mask_byte(selected@, i),
{
    let mut rgba: Vec<u8> = Vec::new();
    let mut k: usize = 0;
    while k < selected.len()
        invariant
            0 <= k <= selected@.len(),
            selected@.len() * 4 <= u32::MAX,
            rgba@.len() == k * 4,
            forall|i: int| 0 <= i < rgba@.len() ==> #[trigger] rgba@[i] == mask_byte(selected@, i),
        decreases selected@.len() - k,
    {
        let v: u8 = if selected[k] {
            255
        } else {
            0
        };
        let ghost before = rgba@;
        rgba.push(v);
        rgba.push(v);
        rgba.push(v);
        rgba.push(255);
        proof {
            assert forall|i: int| 0 <= i < rgba@.len() implies #[trigger] rgba@[i] == mask_byte(selected@, i) by {
                if i >= before.len() {
                    let c = i - k * 4;
                    vstd::arithmetic::div_mod::lemma_fundamental_div_mod_converse(i, 4, k as int, c);
                }
            }
        }
        k = k + 1;
    }
    rgba
}

} // verus!
