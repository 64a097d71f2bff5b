use piso_font::Canvas;

fn grid(rows: &[&[u8]]) -> Vec<Vec<bool>> {
    rows.iter().map(|r| r.iter().map(|&b| b == 1).collect()).collect()
}

fn pixels(c: &Canvas) -> Vec<Vec<bool>> {
    (0..c.height()).map(|y| (0..c.width()).map(|x| c.get(x, y)).collect()).collect()
}

#[test]
fn new_canvas_is_blank() {
    let c = Canvas::new(3, 2);
    assert_eq!(c.width(), 3);
    assert_eq!(c.height(), 2);
    assert_eq!(pixels(&c), vec![vec![false; 3]; 2]);
}

#[test]
fn empty_canvas_has_no_size() {
    let c = Canvas::new(0, 0);
    assert_eq!((c.width(), c.height()), (0, 0));
}

#[test]
fn get_outside_the_canvas_is_off() {
    let c = Canvas::from_slice(&grid(&[&[1, 1], &[1, 1]]));
    assert!(c.get(1, 1));
    assert!(!c.get(2, 0));
    assert!(!c.get(0, 2));
}

#[test]
fn from_slice_keeps_the_grid() {
    let g = grid(&[&[1, 0, 1], &[0, 1, 0]]);
    let c = Canvas::from_slice(&g);
    assert_eq!((c.width(), c.height()), (3, 2));
    assert_eq!(pixels(&c), g);
}

#[test]
fn set_width_grows_with_off_columns() {
    let mut c = Canvas::from_slice(&grid(&[&[1, 1], &[0, 1]]));
    c.set_width(4);
    assert_eq!(pixels(&c), grid(&[&[1, 1, 0, 0], &[0, 1, 0, 0]]));
}

#[test]
fn set_width_shrinks_and_drops_columns() {
    let mut c = Canvas::from_slice(&grid(&[&[1, 0, 1], &[1, 1, 1]]));
    c.set_width(1);
    assert_eq!(pixels(&c), grid(&[&[1], &[1]]));
    c.set_width(3);
    assert_eq!(pixels(&c), grid(&[&[1, 0, 0], &[1, 0, 0]]));
}

#[test]
fn blit_grows_the_canvas_to_fit() {
    let mut c = Canvas::new(0, 0);
    let src = Canvas::from_slice(&grid(&[&[1, 0], &[0, 1]]));
    c.blit(&src, (3, 1));
    assert_eq!((c.width(), c.height()), (5, 3));
    assert_eq!(
        pixels(&c),
        grid(&[&[0, 0, 0, 0, 0], &[0, 0, 0, 1, 0], &[0, 0, 0, 0, 1]])
    );
}

#[test]
fn blit_off_pixels_do_not_clear() {
    let mut c = Canvas::from_slice(&grid(&[&[1, 1, 1], &[1, 1, 1]]));
    let src = Canvas::from_slice(&grid(&[&[0, 0], &[0, 1]]));
    c.blit(&src, (1, 0));
    assert_eq!(pixels(&c), grid(&[&[1, 1, 1], &[1, 1, 1]]));
    let mut d = Canvas::from_slice(&grid(&[&[1, 0, 0], &[0, 0, 0]]));
    d.blit(&src, (1, 0));
    assert_eq!(pixels(&d), grid(&[&[1, 0, 0], &[0, 0, 1]]));
}

#[test]
fn blit_inside_keeps_the_size() {
    let mut c = Canvas::new(4, 4);
    let src = Canvas::from_slice(&grid(&[&[1]]));
    c.blit(&src, (2, 2));
    assert_eq!((c.width(), c.height()), (4, 4));
    assert!(c.get(2, 2));
    assert!(!c.get(3, 3));
}
