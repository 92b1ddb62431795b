use zemon::clock::{classify_char, compose_clock_face, render_line, time_characters, Cell,
    Character, Segment};
use zemon::color::{ClockColorSelection, PaletteColor};

fn filled(width: u8) -> Cell {
    Cell { filled: true, width }
}

fn blank(width: u8) -> Cell {
    Cell { filled: false, width }
}

#[test]
fn digit_zero_glyph_rows() {
    let c = Character::Num(0);
    let rows: Vec<Segment> = (0..5).map(|r| c.segment(r)).collect();
    assert_eq!(
        rows,
        vec![Segment::Full, Segment::Sides, Segment::Sides, Segment::Sides, Segment::Full]
    );
}

#[test]
fn digit_one_glyph_rows() {
    let c = Character::Num(1);
    for row in 0..5 {
        assert_eq!(c.segment(row), Segment::Right);
    }
}

#[test]
fn colon_glyph_rows() {
    let c = Character::Colon;
    assert_eq!(c.segment(1), Segment::Center);
    assert_eq!(c.segment(3), Segment::Center);
    assert_eq!(c.segment(0), Segment::Empty);
    assert_eq!(c.segment(2), Segment::Empty);
    assert_eq!(c.segment(4), Segment::Empty);
}

#[test]
fn colon_cells_center_block_on_rows_one_and_three() {
    let c = Character::Colon;
    assert_eq!(c.cells(1), vec![blank(2), filled(2), blank(2)]);
    assert_eq!(c.cells(3), vec![blank(2), filled(2), blank(2)]);
    assert_eq!(c.cells(0), vec![blank(6)]);
    assert_eq!(c.cells(2), vec![blank(6)]);
    assert_eq!(c.cells(4), vec![blank(6)]);
}

#[test]
fn digit_cell_patterns_per_segment_shape() {
    let zero = Character::Num(0);
    assert_eq!(zero.cells(0), vec![filled(6), blank(1)]);
    assert_eq!(zero.cells(1), vec![filled(2), blank(2), filled(2), blank(1)]);
    let one = Character::Num(1);
    assert_eq!(one.cells(2), vec![blank(4), filled(2), blank(1)]);
    let two = Character::Num(2);
    assert_eq!(two.cells(3), vec![filled(2), blank(5)]);
    let unknown = Character::Empty;
    assert_eq!(unknown.cells(0), vec![blank(6)]);
}

#[test]
fn all_digit_glyphs_match_the_table() {
    let table: [[Segment; 5]; 10] = [
        [Segment::Full, Segment::Sides, Segment::Sides, Segment::Sides, Segment::Full],
        [Segment::Right, Segment::Right, Segment::Right, Segment::Right, Segment::Right],
        [Segment::Full, Segment::Right, Segment::Full, Segment::Left, Segment::Full],
        [Segment::Full, Segment::Right, Segment::Full, Segment::Right, Segment::Full],
        [Segment::Sides, Segment::Sides, Segment::Full, Segment::Right, Segment::Right],
        [Segment::Full, Segment::Left, Segment::Full, Segment::Right, Segment::Full],
        [Segment::Full, Segment::Left, Segment::Full, Segment::Sides, Segment::Full],
        [Segment::Full, Segment::Right, Segment::Right, Segment::Right, Segment::Right],
        [Segment::Full, Segment::Sides, Segment::Full, Segment::Sides, Segment::Full],
        [Segment::Full, Segment::Sides, Segment::Full, Segment::Right, Segment::Full],
    ];
    for d in 0..10u32 {
        let c = Character::Num(d);
        for row in 0..5usize {
            assert_eq!(c.segment(row), table[d as usize][row], "digit {d} row {row}");
        }
    }
}

#[test]
fn classify_splits_time_string_characters() {
    assert_eq!(classify_char(':'), Character::Colon);
    assert_eq!(classify_char('0'), Character::Num(0));
    assert_eq!(classify_char('7'), Character::Num(7));
    assert_eq!(classify_char('9'), Character::Num(9));
    assert_eq!(classify_char('x'), Character::Empty);
    assert_eq!(classify_char(' '), Character::Empty);
}

#[test]
fn time_characters_spell_the_face() {
    let cs = time_characters(12, 34, 56);
    assert_eq!(
        cs,
        vec![
            Character::Num(1),
            Character::Num(2),
            Character::Colon,
            Character::Num(3),
            Character::Num(4),
            Character::Colon,
            Character::Num(5),
            Character::Num(6),
        ]
    );
}

#[test]
fn render_line_concatenates_character_cells() {
    let cs = vec![Character::Num(1), Character::Colon];
    let line = render_line(&cs, 1);
    let mut expected = Character::Num(1).cells(1);
    expected.extend(Character::Colon.cells(1));
    assert_eq!(line, expected);
}

#[test]
fn clock_face_has_five_rows_and_formatted_date() {
    let face = compose_clock_face(23, 59, 1, 2024, 1, 15);
    assert_eq!(face.rows.len(), 5);
    let cs = time_characters(23, 59, 1);
    for (r, row) in face.rows.iter().enumerate() {
        assert_eq!(row, &render_line(&cs, r));
    }
    assert_eq!(face.date_line, "Monday, January 15, 2024");
}

#[test]
fn date_line_depends_on_the_date() {
    let a = compose_clock_face(0, 0, 0, 2024, 1, 15).date_line;
    let b = compose_clock_face(0, 0, 0, 2024, 7, 4).date_line;
    assert_eq!(b, "Thursday, July 04, 2024");
    assert_ne!(a, b);
}

#[test]
fn color_next_wraps_at_the_top() {
    let mut c = ClockColorSelection::new();
    assert_eq!(c.index(), 0);
    for _ in 0..15 {
        c.next();
    }
    assert_eq!(c.index(), 15);
    assert_eq!(c.color(), PaletteColor::White);
    c.next();
    assert_eq!(c.index(), 0);
    assert_eq!(c.color(), PaletteColor::Black);
}

#[test]
fn color_prev_clamps_at_zero() {
    let mut c = ClockColorSelection::new();
    c.prev();
    assert_eq!(c.index(), 0);
    c.next();
    c.next();
    c.prev();
    assert_eq!(c.index(), 1);
    assert_eq!(c.color(), PaletteColor::Red);
}
