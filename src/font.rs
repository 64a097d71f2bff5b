use vstd::prelude::*;

use crate::glyph::{Glyph, GLYPH_ROWS};
use crate::grid::PixelGrid;

verus! {

/// The glyph of every code the font has no picture for: a hollow box.
pub const UNPRINTABLE: (u8, u64) = (4, 0b1111_1001_1001_1001_1001_1001_1001_1001_1111);

/// A right-pointing arrow, for marking the selected line of a menu.
pub const ARROW: (u8, u64) = (6, 0b000000_000000_001000_000100_111110_000100_001000_000000_000000);

/// A filled square.
pub const SQUARE: (u8, u64) = (5, 0b00000_00000_01110_01110_01110_01110_00000_00000_00000);

/// The font: for each code below 128, its width in columns and its pixels
/// (see `Glyph`). Control codes and DEL show as `UNPRINTABLE`.
pub const FONT: [(u8, u64); 128] = [
    UNPRINTABLE, // NUL
    UNPRINTABLE, // SOH
    UNPRINTABLE, // STX
    UNPRINTABLE, // ETX
    UNPRINTABLE, // EOT
    UNPRINTABLE, // ENQ
    UNPRINTABLE, // ACK
    UNPRINTABLE, // BEL
    UNPRINTABLE, // BS
    UNPRINTABLE, // HT
    UNPRINTABLE, // LF
    UNPRINTABLE, // VT
    UNPRINTABLE, // FF
    UNPRINTABLE, // CR
    UNPRINTABLE, // SO
    UNPRINTABLE, // SI
    UNPRINTABLE, // DLE
    UNPRINTABLE, // DC1
    UNPRINTABLE, // DC2
    UNPRINTABLE, // DC3
    UNPRINTABLE, // DC4
    UNPRINTABLE, // NAK
    UNPRINTABLE, // SYN
    UNPRINTABLE, // ETB
    UNPRINTABLE, // CAN
    UNPRINTABLE, // EM
    UNPRINTABLE, // SUB
    UNPRINTABLE, // ESC
    UNPRINTABLE, // FS
    UNPRINTABLE, // GS
    UNPRINTABLE, // RS
    UNPRINTABLE, // US
    (2, 0b00_00_00_00_00_00_00_00_00), // ' '
    (1, 0b0_1_1_1_1_0_1_0_0), // '!'
    (3, 0b000_101_101_000_000_000_000_000_000), // '"'
    (5, 0b01010_01010_11111_01010_11111_01010_01010_00000_00000), // '#'
    (5, 0b00100_01110_10101_10100_01110_00101_10101_01110_00100), // '$'
    (6, 0b010000_101010_010010_000100_001000_010010_010101_000010_000000), // '%'
    (5, 0b01100_10010_10010_01100_10011_10010_01101_00000_00000), // '&'
    (1, 0b0_1_1_0_0_0_0_0_0), // "'"
    (2, 0b01_10_10_10_10_10_10_01_00), // '('
    (2, 0b10_01_01_01_01_01_01_10_00), // ')'
    (3, 0b000_101_010_101_000_000_000_000_000), // '*'
    (3, 0b000_000_000_010_111_010_000_000_000), // '+'
    (2, 0b00_00_00_00_00_11_01_01_10), // ','
    (3, 0b000_000_000_000_111_000_000_000_000), // '-'
    (2, 0b00_00_00_00_00_11_11_00_00), // '.'
    (4, 0b0000_0001_0001_0010_0100_1000_1000_0000_0000), // '/'
    (4, 0b0000_0110_1001_1001_1001_1001_0110_0000_0000), // '0'
    (3, 0b000_010_110_010_010_010_111_000_000), // '1'
    (4, 0b0000_0110_1001_0001_0010_0100_1111_0000_0000), // '2'
    (3, 0b000_111_001_011_001_001_110_000_000), // '3'
    (5, 0b00000_00010_00110_01010_10010_11111_00010_00000_00000), // '4'
    (4, 0b0000_1111_1000_1110_0001_0001_1110_0000_0000), // '5'
    (4, 0b0000_0110_1000_1110_1001_1001_0110_0000_0000), // '6'
    (4, 0b0000_1111_0001_0001_0010_0100_0100_0000_0000), // '7'
    (4, 0b0000_0110_1001_0110_1001_1001_0110_0000_0000), // '8'
    (4, 0b0000_0110_1001_1001_0111_0001_0110_0000_0000), // '9'
    (4, 0b0000_0000_0110_0110_0000_0110_0110_0000_0000), // ':'
    (4, 0b0000_0000_0110_0110_0000_0110_0010_0010_0000), // ';'
    (5, 0b00000_00000_00011_01100_10000_01100_00011_00000_00000), // '<'
    (4, 0b0000_0000_0000_1111_0000_1111_0000_0000_0000), // '='
    (5, 0b00000_00000_11000_00110_00001_00110_11000_00000_00000), // '>'
    (4, 0b0110_1001_0001_0110_0100_0000_0100_0000_0000), // '?'
    (5, 0b00000_01110_10010_10101_10110_10000_01110_00000_00000), // '@'
    (5, 0b00000_00100_01010_10001_11111_10001_10001_00000_00000), // 'A'
    (5, 0b00000_11110_10001_11110_10001_10001_11110_00000_00000), // 'B'
    (4, 0b0000_0110_1001_1000_1000_1001_0110_0000_0000), // 'C'
    (4, 0b0000_1110_1001_1001_1001_1001_1110_0000_0000), // 'D'
    (4, 0b0000_1111_1000_1110_1000_1000_1111_0000_0000), // 'E'
    (4, 0b0000_1111_1000_1110_1000_1000_1000_0000_0000), // 'F'
    (4, 0b0000_0110_1001_1000_1011_1001_0110_0000_0000), // 'G'
    (4, 0b0000_1001_1001_1111_1001_1001_1001_0000_0000), // 'H'
    (3, 0b000_111_010_010_010_010_111_000_000), // 'I'
    (5, 0b00000_00111_00010_00010_00010_10010_01100_00000_00000), // 'J'
    (4, 0b0000_1001_1010_1100_1010_1001_1001_0000_0000), // 'K'
    (4, 0b0000_1000_1000_1000_1000_1000_1111_0000_0000), // 'L'
    (5, 0b00000_10001_11011_10101_10101_10001_10001_00000_00000), // 'M'
    (4, 0b0000_1001_1101_1011_1001_1001_1001_0000_0000), // 'N'
    (5, 0b00000_01110_10001_10001_10001_10001_01110_00000_00000), // 'O'
    (4, 0b0000_1110_1001_1001_1110_1000_1000_0000_0000), // 'P'
    (4, 0b0000_0110_1001_1001_1101_1011_0110_0001_0000), // 'Q'
    (4, 0b0000_1110_1001_1001_1110_1001_1001_0000_0000), // 'R'
    (4, 0b0000_0110_1001_0100_0010_1001_0110_0000_0000), // 'S'
    (5, 0b00000_11111_00100_00100_00100_00100_00100_00000_00000), // 'T'
    (4, 0b0000_1001_1001_1001_1001_1001_0110_0000_0000), // 'U'
    (4, 0b0000_1001_1001_1001_1001_0110_0110_0000_0000), // 'V'
    (5, 0b00000_10001_10001_10101_10101_11011_10001_00000_00000), // 'W'
    (5, 0b00000_10001_01010_00100_00100_01010_10001_00000_00000), // 'X'
    (5, 0b00000_10001_10001_01010_00100_00100_00100_00000_00000), // 'Y'
    (4, 0b0000_1111_0001_0010_0100_1000_1111_0000_0000), // 'Z'
    (3, 0b000_111_100_100_100_100_111_000_000), // '['
    (4, 0b0000_1000_1000_0100_0010_0001_0001_0000_0000), // '\\'
    (3, 0b000_111_001_001_001_001_111_000_000), // ']'
    (5, 0b00000_00100_01010_10001_00000_00000_00000_00000_00000), // '^'
    (4, 0b0000_0000_0000_0000_0000_0000_0000_0000_1111), // '_'
    (2, 0b00_10_01_00_00_00_00_00_00), // '`'
    (4, 0b0000_0000_0000_0111_1001_1001_0111_0000_0000), // 'a'
    (4, 0b0000_1000_1000_1110_1001_1001_1110_0000_0000), // 'b'
    (4, 0b0000_0000_0000_0111_1000_1000_0111_0000_0000), // 'c'
    (4, 0b0000_0001_0001_0111_1001_1001_0111_0000_0000), // 'd'
    (4, 0b0000_0000_0000_0110_1011_1100_0111_0000_0000), // 'e'
    (4, 0b0000_0010_0101_0100_1110_0100_0100_0000_0000), // 'f'
    (4, 0b0000_0000_0000_0110_1001_1001_0111_0001_0110), // 'g'
    (4, 0b0000_1000_1000_1110_1001_1001_1001_0000_0000), // 'h'
    (3, 0b000_010_000_110_010_010_111_000_000), // 'i'
    (3, 0b000_001_000_011_001_001_001_101_010), // 'j'
    (4, 0b0000_1000_1000_1010_1100_1010_1001_0000_0000), // 'k'
    (3, 0b000_110_010_010_010_010_111_000_000), // 'l'
    (5, 0b00000_00000_00000_11010_10101_10101_10001_00000_00000), // 'm'
    (4, 0b0000_0000_0000_1110_1001_1001_1001_0000_0000), // 'n'
    (4, 0b0000_0000_0000_0110_1001_1001_0110_0000_0000), // 'o'
    (4, 0b0000_0000_0000_1110_1001_1001_1110_1000_1000), // 'p'
    (4, 0b0000_0000_0000_0110_1001_1001_0111_0001_0001), // 'q'
    (4, 0b0000_0000_0000_1010_1101_1000_1000_0000_0000), // 'r'
    (4, 0b0000_0000_0000_0111_1100_0011_1110_0000_0000), // 's'
    (4, 0b0000_0100_0100_1110_0100_0101_0010_0000_0000), // 't'
    (4, 0b0000_0000_0000_1001_1001_1001_0111_0000_0000), // 'u'
    (4, 0b0000_0000_0000_1001_1001_0110_0110_0000_0000), // 'v'
    (5, 0b00000_00000_00000_10001_10101_10101_01010_00000_00000), // 'w'
    (4, 0b0000_0000_0000_1001_0110_0110_1001_0000_0000), // 'x'
    (4, 0b0000_0000_0000_1001_1001_1001_0111_1001_0110), // 'y'
    (4, 0b0000_0000_0000_1111_0010_0100_1111_0000_0000), // 'z'
    (3, 0b001_010_010_100_010_010_001_000_000), // '{'
    (1, 0b0_1_1_1_1_1_1_1_0), // '|'
    (3, 0b100_010_010_001_010_010_100_000_000), // '}'
    (4, 0b0000_0000_0101_1010_0000_0000_0000_0000_0000), // '~'
    UNPRINTABLE, // DEL
];

/// The glyph that `lookup` gives for `code`.
pub open spec fn glyph_of(code: u8) -> Glyph {
    if code < FONT.len() {
        Glyph::from_entry(FONT[code as int])
    } else {
        Glyph::from_entry(UNPRINTABLE)
    }
}

/// Whether the font holds a picture of its own for `code`: the printable
/// ASCII characters, from the space to the tilde.
pub open spec fn has_own_glyph(code: u8) -> bool {
    32 <= code < 127
}

/// The picture of `UNPRINTABLE`: a four-column box whose border is on and
/// whose inside is off.
pub open spec fn hollow_box() -> PixelGrid {
    PixelGrid {
        width: 4,
        height: GLYPH_ROWS as nat,
        lit: Set::new(
            |p: (int, int)|
                0 <= p.0 < 4 && 0 <= p.1 < GLYPH_ROWS && (p.0 == 0 || p.0 == 3 || p.1 == 0 || p.1
                    == GLYPH_ROWS - 1),
        ),
    }
}

/// Every glyph of the table has between one and `MAX_GLYPH_COLS` columns, and
/// the codes without a picture of their own hold `UNPRINTABLE`.
pub proof fn lemma_font_entries()
    ensures
        forall|i: int| 0 <= i < 128 ==> #[trigger] Glyph::from_entry(FONT[i]).wf(),
        forall|c: u8| c < 128 && !has_own_glyph(c) ==> #[trigger] FONT[c as int] == UNPRINTABLE,
{
}

/// `UNPRINTABLE` shows as the hollow box.
pub proof fn lemma_unprintable_is_hollow_box()
    ensures
        Glyph::from_entry(UNPRINTABLE)@ == hollow_box(),
{
    let g = Glyph::from_entry(UNPRINTABLE);
    assert forall|x: int, y: int| #[trigger] g.on(x, y) == hollow_box().lit.contains((x, y)) by {
        if 0 <= x < 4 && 0 <= y < 9 {
            let bx = x as u64;
            let by = y as u64;
            let s = g.bit_index(x, y) as u64;
            assert(s == ((8 - by) * 4 + (3 - bx)) as u64);
            assert(((0b1111_1001_1001_1001_1001_1001_1001_1001_1111u64 >> s) & 1 == 1) == (bx == 0
                || bx == 3 || by == 0 || by == 8)) by (bit_vector)
                requires
                    bx < 4,
                    by < 9,
                    s == ((8 - by) * 4 + (3 - bx)) as u64,
            ;
        }
    }
    assert(g@.lit =~= hollow_box().lit);
}

/// The glyph of `code`. Codes at or past the end of the table, control codes
/// and DEL give the hollow box; the space is blank.
pub fn lookup(code: u8) -> (g: Glyph)
    ensures
        g == glyph_of(code),
        g.wf(),
        g@.height == GLYPH_ROWS,
        !has_own_glyph(code) ==> g == Glyph::from_entry(UNPRINTABLE),
        !has_own_glyph(code) ==> g@ == hollow_box(),
        code == 32 ==> g@ == PixelGrid::blank(2, GLYPH_ROWS as nat),
{
    proof {
        lemma_font_entries();
        lemma_unprintable_is_hollow_box();
        if code == 32 {
            let g = glyph_of(code);
            assert forall|x: int, y: int| !#[trigger] g.on(x, y) by {
                let s = g.bit_index(x, y) as u64;
                assert((0u64 >> s) & 1 == 0) by (bit_vector);
            }
            assert(g@.lit =~= Set::empty());
        }
    }
    let entry = if (code as usize) < FONT.len() {
        FONT[code as usize]
    } else {
        UNPRINTABLE
    };
    Glyph { cols: entry.0, bits: entry.1 }
}

/// The arrow glyph.
pub fn arrow() -> (g: Glyph)
    ensures
        g == Glyph::from_entry(ARROW),
        g.wf(),
{
    Glyph { cols: ARROW.0, bits: ARROW.1 }
}

/// The square glyph.
pub fn square() -> (g: Glyph)
    ensures
        g == Glyph::from_entry(SQUARE),
        g.wf(),
{
    Glyph { cols: SQUARE.0, bits: SQUARE.1 }
}

} // verus!
