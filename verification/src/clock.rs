//! Seven-segment-style glyph rendering for the large clock view: a pure
//! lookup from a character (digit, colon, or unknown) and a row to a fixed
//! pattern of filled and blank cells, plus composition of the full 5-row
//! clock face for an "HH:MM:SS" time.

use vstd::prelude::*;

verus! {

/// One of the six atomic shapes a glyph row is drawn with.
#[derive(Clone, Copy, Debug, PartialEq, Eq, Structural)]
pub enum Segment {
    Full,
    Left,
    Center,
    Right,
    Sides,
    Empty,
}

/// A clock-face character: a decimal digit, the colon separator, or anything
/// unknown (drawn blank).
#[derive(Clone, Copy, Debug, PartialEq, Eq, Structural)]
pub enum Character {
    Num(u32),
    Colon,
    Empty,
}

/// One run of equal cells in a glyph row: either a filled block of the given
/// width, drawn in the clock color, or blank padding of the given width.
#[derive(Clone, Copy, Debug, PartialEq, Eq, Structural)]
pub struct Cell {
    pub filled: bool,
    pub width: u8,
}

/// A filled block of the given width.
pub open spec fn filled(width: u8) -> Cell {
    Cell { filled: true, width }
}

/// Blank padding of the given width.
pub open spec fn blank(width: u8) -> Cell {
    Cell { filled: false, width }
}

/// The digit glyph table: the segment shape of `row` (0 through 4) of digit
/// `n` (0 through 9). Rows of other inputs are empty.
pub open spec fn digit_row_spec(n: u32, row: u32) -> Segment {
    if n == 0 {
        if row == 0 || row == 4 {
            Segment::Full
        } else {
            Segment::Sides
        }
    } else if n == 1 {
        Segment::Right
    } else if n == 2 {
        if row == 0 || row == 2 || row == 4 {
            Segment::Full
        } else if row == 1 {
            Segment::Right
        } else {
            Segment::Left
        }
    } else if n == 3 {
        if row == 0 || row == 2 || row == 4 {
            Segment::Full
        } else {
            Segment::Right
        }
    } else if n == 4 {
        if row == 0 || row == 1 {
            Segment::Sides
        } else if row == 2 {
            Segment::Full
        } else {
            Segment::Right
        }
    } else if n == 5 {
        if row == 0 || row == 2 || row == 4 {
            Segment::Full
        } else if row == 1 {
            Segment::Left
        } else {
            Segment::Right
        }
    } else if n == 6 {
        if row == 0 || row == 2 || row == 4 {
            Segment::Full
        } else if row == 1 {
            Segment::Left
        } else {
            Segment::Sides
        }
    } else if n == 7 {
        if row == 0 {
            Segment::Full
        } else {
            Segment::Right
        }
    } else if n == 8 {
        if row == 0 || row == 2 || row == 4 {
            Segment::Full
        } else {
            Segment::Sides
        }
    } else if n == 9 {
        if row == 0 || row == 2 || row == 4 {
            Segment::Full
        } else if row == 1 {
            Segment::Sides
        } else {
            Segment::Right
        }
    } else {
        Segment::Empty
    }
}

/// The colon glyph: a center block on rows 1 and 3, blank elsewhere.
pub open spec fn colon_row_spec(row: u32) -> Segment {
    if row == 1 || row == 3 {
        Segment::Center
    } else {
        Segment::Empty
    }
}

/// The segment shape of one row of a character's glyph.
pub open spec fn char_row_spec(c: Character, row: u32) -> Segment {
    match c {
        Character::Num(n) => digit_row_spec(n, row),
        Character::Colon => colon_row_spec(row),
        Character::Empty => Segment::Empty,
    }
}

impl Character {
    /// A digit character carries a value 0 through 9.
    pub open spec fn wf(&self) -> bool {
        match *self {
            Character::Num(n) => n < 10,
            _ => true,
        }
    }

    /// Looks up the segment shape of one row of this character's glyph.
    pub fn segment(&self, row: usize) -> (s: Segment)
        requires
            self.wf(),
            row < 5,
        ensures
            s == char_row_spec(*self, row as u32),
    {
        match *self {
            Character::Num(n) => {
                if n == 0 {
                    if row == 0 || row == 4 {
                        Segment::Full
                    } else {
                        Segment::Sides
                    }
                } else if n == 1 {
                    Segment::Right
                } else if n == 2 {
                    if row == 0 || row == 2 || row == 4 {
                        Segment::Full
                    } else if row == 1 {
                        Segment::Right
                    } else {
                        Segment::Left
                    }
                } else if n == 3 {
                    if row == 0 || row == 2 || row == 4 {
                        Segment::Full
                    } else {
                        Segment::Right
                    }
                } else if n == 4 {
                    if row == 0 || row == 1 {
                        Segment::Sides
                    } else if row == 2 {
                        Segment::Full
                    } else {
                        Segment::Right
                    }
                } else if n == 5 {
                    if row == 0 || row == 2 || row == 4 {
                        Segment::Full
                    } else if row == 1 {
                        Segment::Left
                    } else {
                        Segment::Right
                    }
                } else if n == 6 {
                    if row == 0 || row == 2 || row == 4 {
                        Segment::Full
                    } else if row == 1 {
                        Segment::Left
                    } else {
                        Segment::Sides
                    }
                } else if n == 7 {
                    if row == 0 {
                        Segment::Full
                    } else {
                        Segment::Right
                    }
                } else if n == 8 {
                    if row == 0 || row == 2 || row == 4 {
                        Segment::Full
                    } else {
                        Segment::Sides
                    }
                } else {
                    if row == 0 || row == 2 || row == 4 {
                        Segment::Full
                    } else if row == 1 {
                        Segment::Sides
                    } else {
                        Segment::Right
                    }
                }
            },
            Character::Colon => {
                if row == 1 || row == 3 {
                    Segment::Center
                } else {
                    Segment::Empty
                }
            },
            Character::Empty => Segment::Empty,
        }
    }
}

/// The cell pattern a digit row draws for each segment shape: the filled
/// blocks with their surrounding padding, left to right.
pub open spec fn digit_cells_spec(s: Segment) -> Seq<Cell> {
    match s {
        Segment::Full => seq![filled(6), blank(1)],
        Segment::Left => seq![filled(2), blank(5)],
        Segment::Center => seq![blank(1), filled(2), blank(2)],
        Segment::Right => seq![blank(4), filled(2), blank(1)],
        Segment::Sides => seq![filled(2), blank(2), filled(2), blank(1)],
        Segment::Empty => seq![blank(6)],
    }
}

/// The cell pattern one row of a character's glyph draws. The colon centers
/// its block with padding of its own; unknown characters are all blank.
pub open spec fn char_cells_spec(c: Character, row: u32) -> Seq<Cell> {
    match c {
        Character::Num(n) => digit_cells_spec(digit_row_spec(n, row)),
        Character::Colon => if row == 1 || row == 3 {
            seq![blank(2), filled(2), blank(2)]
        } else {
            seq![blank(6)]
        },
        Character::Empty => seq![blank(6)],
    }
}

impl Character {
    /// Renders one row of this character's glyph as its run of filled and
    /// blank cells.
    pub fn cells(&self, row: usize) -> (r: Vec<Cell>)
        requires
            self.wf(),
            row < 5,
        ensures
            r@ =~= char_cells_spec(*self, row as u32),
    {
        match *self {
            Character::Num(_) => {
                let s = self.segment(row);
                match s {
                    Segment::Full => vec![
                        Cell { filled: true, width: 6 },
                        Cell { filled: false, width: 1 },
                    ],
                    Segment::Left => vec![
                        Cell { filled: true, width: 2 },
                        Cell { filled: false, width: 5 },
                    ],
                    Segment::Center => vec![
                        Cell { filled: false, width: 1 },
                        Cell { filled: true, width: 2 },
                        Cell { filled: false, width: 2 },
                    ],
                    Segment::Right => vec![
                        Cell { filled: false, width: 4 },
                        Cell { filled: true, width: 2 },
                        Cell { filled: false, width: 1 },
                    ],
                    Segment::Sides => vec![
                        Cell { filled: true, width: 2 },
                        Cell { filled: false, width: 2 },
                        Cell { filled: true, width: 2 },
                        Cell { filled: false, width: 1 },
                    ],
                    Segment::Empty => vec![Cell { filled: false, width: 6 }],
                }
            },
            Character::Colon => {
                if row == 1 || row == 3 {
                    vec![
                        Cell { filled: false, width: 2 },
                        Cell { filled: true, width: 2 },
                        Cell { filled: false, width: 2 },
                    ]
                } else {
                    vec![Cell { filled: false, width: 6 }]
                }
            },
            Character::Empty => vec![Cell { filled: false, width: 6 }],
        }
    }
}

/// How a character of the formatted time string is classified: a colon, an
/// ASCII digit with its value, or an unknown character drawn blank.
pub open spec fn classify_spec(ch: char) -> Character {
    if ch == ':' {
        Character::Colon
    } else if '0' <= ch && ch <= '9' {
        Character::Num((ch as u32 - 48) as u32)
    } else {
        Character::Empty
    }
}

/// Classifies one character of a time string for glyph rendering.
pub fn classify_char(ch: char) -> (c: Character)
    ensures
        c == classify_spec(ch),
        c.wf(),
{
    if ch == ':' {
        Character::Colon
    } else {
        let code = ch as u32;
        if 48 <= code && code <= 57 {
            Character::Num(code - 48)
        } else {
            Character::Empty
        }
    }
}

/// The eight characters of an "HH:MM:SS" clock face, two digits per field.
pub open spec fn time_characters_spec(hour: u8, minute: u8, second: u8) -> Seq<Character> {
    seq![
        Character::Num((hour / 10) as u32),
        Character::Num((hour % 10) as u32),
        Character::Colon,
        Character::Num((minute / 10) as u32),
        Character::Num((minute % 10) as u32),
        Character::Colon,
        Character::Num((second / 10) as u32),
        Character::Num((second % 10) as u32),
    ]
}

/// Splits a wall-clock time into the characters of its "HH:MM:SS" face.
pub fn time_characters(hour: u8, minute: u8, second: u8) -> (cs: Vec<Character>)
    requires
        hour < 24,
        minute < 60,
        second < 60,
    ensures
        cs@ =~= time_characters_spec(hour, minute, second),
        forall|i: int| 0 <= i < cs@.len() ==> cs@[i].wf(),
{
    vec![
        Character::Num((hour / 10) as u32),
        Character::Num((hour % 10) as u32),
        Character::Colon,
        Character::Num((minute / 10) as u32),
        Character::Num((minute % 10) as u32),
        Character::Colon,
        Character::Num((second / 10) as u32),
        Character::Num((second % 10) as u32),
    ]
}

/// One full row of the clock face: the cell patterns of each character's
/// glyph row, concatenated left to right.
pub open spec fn line_cells_spec(cs: Seq<Character>, row: u32) -> Seq<Cell>
    decreases cs.len(),
{
    if cs.len() == 0 {
        Seq::empty()
    } else {
        line_cells_spec(cs.drop_last(), row) + char_cells_spec(cs.last(), row)
    }
}

/// Renders one row of the clock face for a sequence of characters.
pub fn render_line(cs: &Vec<Character>, row: usize) -> (r: Vec<Cell>)
    requires
        row < 5,
        forall|i: int| 0 <= i < cs@.len() ==> cs@[i].wf(),
    ensures
        r@ =~= line_cells_spec(cs@, row as u32),
{
    let mut out: Vec<Cell> = Vec::new();
    let mut i: usize = 0;
    while i < cs.len()
        invariant
            i <= cs.len(),
            row < 5,
            forall|j: int| 0 <= j < cs@.len() ==> cs@[j].wf(),
            out@ =~= line_cells_spec(cs@.take(i as int), row as u32),
        decreases cs.len() - i,
    {
        let c = cs[i];
        let mut cells = c.cells(row);
        proof {
            assert(cs@.take(i + 1 as int).drop_last() =~= cs@.take(i as int));
            assert(cs@.take(i + 1 as int).last() == cs@[i as int]);
        }
        out.append(&mut cells);
        i = i + 1;
    }
    proof {
        assert(cs@.take(cs@.len() as int) =~= cs@);
    }
    out
}

/// All five rows of the clock face for a sequence of characters.
pub fn render_rows(cs: &Vec<Character>) -> (rows: Vec<Vec<Cell>>)
    requires
        forall|i: int| 0 <= i < cs@.len() ==> cs@[i].wf(),
    ensures
        rows@.len() == 5,
        forall|r: int| 0 <= r < 5 ==> rows@[r]@ =~= line_cells_spec(cs@, r as u32),
{
    let mut rows: Vec<Vec<Cell>> = Vec::new();
    let mut row: usize = 0;
    while row < 5
        invariant
            row <= 5,
            rows@.len() == row,
            forall|i: int| 0 <= i < cs@.len() ==> cs@[i].wf(),
            forall|r: int| 0 <= r < row ==> rows@[r]@ =~= line_cells_spec(cs@, r as u32),
        decreases 5 - row,
    {
        let line = render_line(cs, row);
        rows.push(line);
        row = row + 1;
    }
    rows
}

/// What the calendar-date formatter returns for a given day: the full
/// "weekday, month day, year" text. A function of year, month and day alone.
pub uninterp spec fn date_text(year: i32, month: u32, day: u32) -> Seq<char>;

/// Relies on chrono::NaiveDate::from_ymd_opt and NaiveDate::format with the
/// fixed pattern "%A, %B %d, %Y": the text depends on year, month and day
/// alone (chrono's default names are fixed English strings); an invalid
/// calendar date formats as the empty string.
#[verifier::external_body]
fn format_date_line(year: i32, month: u32, day: u32) -> (r: String)
    ensures
        r@ == date_text(year, month, day),
{
    match chrono::NaiveDate::from_ymd_opt(year, month, day) {
        Some(d) => d.format("%A, %B %d, %Y").to_string(),
        None => String::new(),
    }
}

/// The fully composed clock view: five rows of glyph cells for "HH:MM:SS",
/// and the date line drawn beneath them.
pub struct ClockFace {
    pub rows: Vec<Vec<Cell>>,
    pub date_line: String,
}

/// Composes the full clock view for a wall-clock time and calendar date: the
/// five glyph rows of the "HH:MM:SS" face, and the formatted date line.
pub fn compose_clock_face(
    hour: u8,
    minute: u8,
    second: u8,
    year: i32,
    month: u32,
    day: u32,
) -> (face: ClockFace)
    requires
        hour < 24,
        minute < 60,
        second < 60,
    ensures
        face.rows@.len() == 5,
        forall|r: int|
            0 <= r < 5 ==> face.rows@[r]@ =~= line_cells_spec(
                time_characters_spec(hour, minute, second),
                r as u32,
            ),
        face.date_line@ == date_text(year, month, day),
{
    let cs = time_characters(hour, minute, second);
    let rows = render_rows(&cs);
    let date_line = format_date_line(year, month, day);
    ClockFace { rows, date_line }
}

} // verus!
