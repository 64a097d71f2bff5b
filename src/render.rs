use vstd::prelude::*;

use crate::canvas::Canvas;
use crate::font::{
    glyph_of, has_own_glyph, hollow_box, lemma_font_entries, lemma_unprintable_is_hollow_box, lookup,
};
use crate::glyph::{GLYPH_ROWS, MAX_GLYPH_COLS};
use crate::grid::PixelGrid;
use vstd::string::StringSliceAdditionalSpecFns;

verus! {

/// The width of the line that `codes` renders to: each glyph's columns, and
/// one blank column after each glyph.
pub open spec fn line_width(codes: Seq<u8>) -> nat
    decreases codes.len(),
{
    if codes.len() == 0 {
        0
    } else {
        line_width(codes.drop_last()) + glyph_of(codes.last()).cols as nat + 1
    }
}

/// The picture of the line `codes`: the glyph of `codes[i]` stands, top
/// aligned, at the column where the glyphs before it and their spacers end.
pub open spec fn rendered(codes: Seq<u8>) -> PixelGrid {
    PixelGrid {
        width: line_width(codes),
        height: if codes.len() == 0 {
            0
        } else {
            GLYPH_ROWS as nat
        },
        lit: Set::new(
            |p: (int, int)|
                exists|i: int|
                    0 <= i < codes.len() && #[trigger] glyph_of(codes[i]).on(
                        p.0 - line_width(codes.take(i)),
                        p.1,
                    ),
        ),
    }
}

/// Each glyph of the line, with its spacer, ends within the line.
proof fn lemma_glyph_within_line(codes: Seq<u8>, i: int)
    requires
        0 <= i < codes.len(),
    ensures
        line_width(codes.take(i)) + glyph_of(codes[i]).cols + 1 <= line_width(codes),
    decreases codes.len(),
{
    let prefix = codes.drop_last();
    if i == codes.len() - 1 {
        assert(codes.take(i) =~= prefix);
    } else {
        assert(codes.take(i) =~= prefix.take(i));
        lemma_glyph_within_line(prefix, i);
    }
}

/// A rendered line has no pixel on outside its bounds.
proof fn lemma_rendered_bounded(codes: Seq<u8>)
    ensures
        rendered(codes).bounded(),
{
    assert forall|p: (int, int)| #[trigger] rendered(codes).lit.contains(p) implies 0 <= p.0
        < rendered(codes).width && 0 <= p.1 < rendered(codes).height by {
        let i = choose|i: int|
            0 <= i < codes.len() && #[trigger] glyph_of(codes[i]).on(
                p.0 - line_width(codes.take(i)),
                p.1,
            );
        lemma_glyph_within_line(codes, i);
    }
}

/// Rendering one more code composites its glyph at the right edge of the
/// line and then adds one blank column.
proof fn lemma_rendered_push(codes: Seq<u8>, c: u8)
    ensures
        rendered(codes.push(c)) == rendered(codes).blit(glyph_of(c)@, line_width(codes), 0).with_width(
            (line_width(codes) + glyph_of(c).cols + 1) as nat,
        ),
{
    let line = codes.push(c);
    let w = line_width(codes);
    let g = glyph_of(c);
    assert(line.drop_last() =~= codes);
    assert(line.take(codes.len() as int) =~= codes);
    lemma_rendered_bounded(codes);
    let stepped = rendered(codes).blit(g@, w, 0).with_width((w + g.cols + 1) as nat);
    assert forall|p: (int, int)| #[trigger] rendered(line).lit.contains(p) implies stepped.lit.contains(
        p,
    ) by {
        let i = choose|i: int|
            0 <= i < line.len() && #[trigger] glyph_of(line[i]).on(
                p.0 - line_width(line.take(i)),
                p.1,
            );
        if i < codes.len() {
            assert(line.take(i) =~= codes.take(i));
            assert(rendered(codes).lit.contains(p));
        }
    }
    assert forall|p: (int, int)| #[trigger] stepped.lit.contains(p) implies rendered(
        line,
    ).lit.contains(p) by {
        if rendered(codes).lit.contains(p) {
            let i = choose|i: int|
                0 <= i < codes.len() && #[trigger] glyph_of(codes[i]).on(
                    p.0 - line_width(codes.take(i)),
                    p.1,
                );
            assert(line.take(i) =~= codes.take(i));
            assert(line[i] == codes[i]);
        } else {
            assert(g.on(p.0 - w, p.1));
            assert(line[codes.len() as int] == c);
        }
    }
    assert(rendered(line).lit =~= stepped.lit);
}

/// The line of `codes`, rendered left to right: each code's glyph (see
/// `lookup`) followed by one blank column. No codes give an empty canvas.
pub fn render(codes: &[u8]) -> (c: Canvas)
    requires
        codes@.len() * (MAX_GLYPH_COLS + 1) <= usize::MAX,
    ensures
        c@ == rendered(codes@),
        codes@.len() == 0 ==> c@ == PixelGrid::blank(0, 0),
{
    let mut canvas = Canvas::new(0, 0);
    let mut i: usize = 0;
    proof {
        assert(codes@.take(0) =~= Seq::<u8>::empty());
        assert(rendered(codes@.take(0)).lit =~= Set::empty());
    }
    while i < codes.len()
        invariant
            i <= codes@.len(),
            codes@.len() * (MAX_GLYPH_COLS + 1) <= usize::MAX,
            canvas@ == rendered(codes@.take(i as int)),
            line_width(codes@.take(i as int)) <= i * (MAX_GLYPH_COLS + 1),
        decreases codes@.len() - i,
    {
        let code = codes[i];
        let glyph = lookup(code);
        let rows = glyph.rows();
        let glyph_canvas = Canvas::from_slice(rows.as_slice());
        let ghost done = codes@.take(i as int);
        proof {
            assert(line_width(done) + MAX_GLYPH_COLS + 1 <= usize::MAX) by (nonlinear_arith)
                requires
                    line_width(done) <= i * (MAX_GLYPH_COLS + 1),
                    i < codes@.len(),
                    codes@.len() * (MAX_GLYPH_COLS + 1) <= usize::MAX,
            ;
        }
        let width = canvas.width();
        canvas.blit(&glyph_canvas, (width, 0));
        // One blank column between this glyph and the next.
        let width = canvas.width();
        canvas.set_width(width + 1);
        proof {
            lemma_rendered_push(done, code);
            assert(codes@.take(i + 1) =~= done.push(code));
            assert(done.push(code).drop_last() =~= done);
            assert(line_width(codes@.take(i + 1)) == line_width(done) + glyph.cols + 1);
            assert((i + 1) * (MAX_GLYPH_COLS + 1) == i * (MAX_GLYPH_COLS + 1) + MAX_GLYPH_COLS + 1)
                by (nonlinear_arith);
        }
        i += 1;
    }
    proof {
        assert(codes@.take(codes@.len() as int) =~= codes@);
        assert(rendered(Seq::<u8>::empty()).lit =~= Set::empty());
    }
    canvas
}

/// The line of text `text`, rendered byte by byte as `render` does.
pub fn render_text(text: &str) -> (c: Canvas)
    requires
        text.spec_bytes().len() * (MAX_GLYPH_COLS + 1) <= usize::MAX,
    ensures
        c@ == rendered(text.spec_bytes()),
{
    render(text.as_bytes())
}

/// Appending a code to a line widens it by that code's glyph and one spacer
/// column: by at least two columns.
pub proof fn lemma_append_widens(codes: Seq<u8>, c: u8)
    ensures
        rendered(codes.push(c)).width == rendered(codes).width + glyph_of(c)@.width + 1,
        rendered(codes.push(c)).width >= rendered(codes).width + 2,
{
    lemma_font_entries();
    assert(codes.push(c).drop_last() =~= codes);
}

/// A line of one code is that code's glyph followed by one blank column.
pub proof fn lemma_single_code_line(c: u8)
    ensures
        rendered(seq![c]) == (PixelGrid {
            width: glyph_of(c)@.width + 1,
            height: GLYPH_ROWS as nat,
            lit: glyph_of(c)@.lit,
        }),
{
    let line = seq![c];
    assert(line.drop_last() =~= Seq::<u8>::empty());
    assert(line.take(0) =~= Seq::<u8>::empty());
    assert forall|p: (int, int)| #[trigger] rendered(line).lit.contains(p) == glyph_of(c)@.lit.contains(
        p,
    ) by {
        if glyph_of(c)@.lit.contains(p) {
            assert(glyph_of(line[0]).on(p.0 - line_width(line.take(0)), p.1));
        }
    }
    assert(rendered(line).lit =~= glyph_of(c)@.lit);
}

/// Every code without a glyph of its own (a control code, DEL, or a code past
/// the table) renders alike: as the hollow box and one blank column.
pub proof fn lemma_unprintable_codes_render_alike(a: u8, b: u8)
    requires
        !has_own_glyph(a),
        !has_own_glyph(b),
    ensures
        rendered(seq![a]) == rendered(seq![b]),
        rendered(seq![a]) == (PixelGrid { width: 5, height: GLYPH_ROWS as nat, lit: hollow_box().lit }),
{
    lemma_font_entries();
    lemma_unprintable_is_hollow_box();
    lemma_single_code_line(a);
    lemma_single_code_line(b);
}

} // verus!
