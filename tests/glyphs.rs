use piso_font::{arrow, lookup, square, Glyph, GLYPH_ROWS, MAX_GLYPH_COLS, UNPRINTABLE};

fn picture(g: &Glyph) -> Vec<Vec<bool>> {
    g.rows()
}

fn from_bits(rows: &[&[u8]]) -> Vec<Vec<bool>> {
    rows.iter().map(|r| r.iter().map(|&b| b == 1).collect()).collect()
}

fn hollow_box_rows() -> Vec<Vec<bool>> {
    let mut rows = vec![vec![true; 4]];
    for _ in 0..7 {
        rows.push(vec![true, false, false, true]);
    }
    rows.push(vec![true; 4]);
    rows
}

#[test]
fn printable_glyphs_have_nine_rows_and_some_columns() {
    for c in 32u8..=126 {
        let g = lookup(c);
        assert!(g.cols >= 1 && g.cols <= MAX_GLYPH_COLS, "code {}", c);
        let rows = picture(&g);
        assert_eq!(rows.len(), GLYPH_ROWS as usize, "code {}", c);
        assert!(rows.iter().all(|r| r.len() == g.cols as usize), "code {}", c);
    }
}

#[test]
fn printable_glyphs_other_than_space_have_a_pixel_on() {
    for c in 33u8..=126 {
        let rows = picture(&lookup(c));
        assert!(rows.iter().any(|r| r.iter().any(|&b| b)), "code {}", c);
    }
}

#[test]
fn control_del_and_high_codes_give_the_hollow_box() {
    let codes = (0u8..=31).chain(std::iter::once(127)).chain(128u8..=255);
    for c in codes {
        let g = lookup(c);
        assert_eq!(g, Glyph { cols: UNPRINTABLE.0, bits: UNPRINTABLE.1 }, "code {}", c);
        assert_eq!(g.cols, 4);
        assert_eq!(picture(&g), hollow_box_rows(), "code {}", c);
    }
}

#[test]
fn code_just_past_the_table_gives_the_hollow_box() {
    assert_eq!(picture(&lookup(128)), hollow_box_rows());
}

#[test]
fn space_is_blank_and_two_wide() {
    let g = lookup(b' ');
    assert_eq!(g.cols, 2);
    assert_eq!(picture(&g), vec![vec![false; 2]; 9]);
}

#[test]
fn lookup_gives_the_same_glyph_every_time() {
    for c in 0u8..=255 {
        assert_eq!(lookup(c), lookup(c), "code {}", c);
        assert_eq!(picture(&lookup(c)), picture(&lookup(c)), "code {}", c);
    }
}

#[test]
fn letter_a_picture() {
    let expected = from_bits(&[
        &[0, 0, 0, 0, 0],
        &[0, 0, 1, 0, 0],
        &[0, 1, 0, 1, 0],
        &[1, 0, 0, 0, 1],
        &[1, 1, 1, 1, 1],
        &[1, 0, 0, 0, 1],
        &[1, 0, 0, 0, 1],
        &[0, 0, 0, 0, 0],
        &[0, 0, 0, 0, 0],
    ]);
    assert_eq!(picture(&lookup(b'A')), expected);
}

#[test]
fn exclamation_mark_picture() {
    let expected = from_bits(&[&[0], &[1], &[1], &[1], &[1], &[0], &[1], &[0], &[0]]);
    assert_eq!(picture(&lookup(b'!')), expected);
}

#[test]
fn lowercase_y_descends_to_the_last_row() {
    let expected = from_bits(&[
        &[0, 0, 0, 0],
        &[0, 0, 0, 0],
        &[0, 0, 0, 0],
        &[1, 0, 0, 1],
        &[1, 0, 0, 1],
        &[1, 0, 0, 1],
        &[0, 1, 1, 1],
        &[1, 0, 0, 1],
        &[0, 1, 1, 0],
    ]);
    assert_eq!(picture(&lookup(b'y')), expected);
}

#[test]
fn arrow_and_square_pictures() {
    let a = arrow();
    assert_eq!(a.cols, 6);
    assert_eq!(
        picture(&a),
        from_bits(&[
            &[0, 0, 0, 0, 0, 0],
            &[0, 0, 0, 0, 0, 0],
            &[0, 0, 1, 0, 0, 0],
            &[0, 0, 0, 1, 0, 0],
            &[1, 1, 1, 1, 1, 0],
            &[0, 0, 0, 1, 0, 0],
            &[0, 0, 1, 0, 0, 0],
            &[0, 0, 0, 0, 0, 0],
            &[0, 0, 0, 0, 0, 0],
        ])
    );
    let s = square();
    assert_eq!(s.cols, 5);
    assert_eq!(
        picture(&s),
        from_bits(&[
            &[0, 0, 0, 0, 0],
            &[0, 0, 0, 0, 0],
            &[0, 1, 1, 1, 0],
            &[0, 1, 1, 1, 0],
            &[0, 1, 1, 1, 0],
            &[0, 1, 1, 1, 0],
            &[0, 0, 0, 0, 0],
            &[0, 0, 0, 0, 0],
            &[0, 0, 0, 0, 0],
        ])
    );
}
