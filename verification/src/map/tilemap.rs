use vstd::prelude::*;
use vstd::string::StrSliceExecFns;

use crate::map::tile::Tile;

verus! {

/// One column of the map, bottom tile first.
pub type Column = Vec<Tile>;

/// Why a block of map text is rejected.
#[derive(Debug, Clone, Copy, PartialEq, Eq, Structural)]
pub enum MapError {
    /// A character that names no tile: the first such character, reading the
    /// stored rows bottom row first, left to right.
    UnknownCharacter(char),
    /// Not a single row with a character on it.
    Empty,
    /// Two rows with different lengths.
    Ragged,
}

/// The pieces of `s` between newline characters, in order. Every text has at
/// least one piece; only the last is not terminated by a newline.
pub open spec fn split_newlines(s: Seq<char>) -> Seq<Seq<char>>
    decreases s.len(),
{
    if s.len() == 0 {
        seq![Seq::<char>::empty()]
    } else if s[0] == '\n' {
        seq![Seq::<char>::empty()] + split_newlines(s.drop_first())
    } else {
        let rest = split_newlines(s.drop_first());
        seq![seq![s[0]] + rest[0]] + rest.drop_first()
    }
}

/// A carriage return at the end of a newline-terminated piece belongs to the
/// line ending, not to the line.
pub open spec fn strip_cr(line: Seq<char>) -> Seq<char> {
    if line.len() > 0 && line.last() == '\r' {
        line.drop_last()
    } else {
        line
    }
}

/// The lines of the map text, top line first: split at each newline, with a
/// carriage return before a newline stripped, and nothing after a trailing
/// newline.
pub open spec fn lines_spec(s: Seq<char>) -> Seq<Seq<char>> {
    let pieces = split_newlines(s);
    let terminated = pieces.drop_last().map(|i: int, line: Seq<char>| strip_cr(line));
    if pieces.last().len() == 0 {
        terminated
    } else {
        terminated + seq![pieces.last()]
    }
}

/// The nonempty sequences among `lines`, in order.
pub open spec fn keep_nonempty(lines: Seq<Seq<char>>) -> Seq<Seq<char>>
    decreases lines.len(),
{
    if lines.len() == 0 {
        Seq::empty()
    } else if lines[0].len() > 0 {
        seq![lines[0]] + keep_nonempty(lines.drop_first())
    } else {
        keep_nonempty(lines.drop_first())
    }
}

/// The rows the grid stores: the nonempty lines of the text, bottom line
/// first, so that growing `y` moves up the map.
pub open spec fn rows_spec(s: Seq<char>) -> Seq<Seq<char>> {
    keep_nonempty(lines_spec(s).reverse())
}

/// The first character of the row that names no tile, if any.
pub open spec fn row_bad_char(row: Seq<char>) -> Option<char>
    decreases row.len(),
{
    if row.len() == 0 {
        None
    } else if Tile::from_char_spec(row[0]) is None {
        Some(row[0])
    } else {
        row_bad_char(row.drop_first())
    }
}

/// The first character among the rows that names no tile, if any, reading
/// the rows in storage order.
pub open spec fn first_bad_char(rows: Seq<Seq<char>>) -> Option<char>
    decreases rows.len(),
{
    if rows.len() == 0 {
        None
    } else if row_bad_char(rows[0]) is Some {
        row_bad_char(rows[0])
    } else {
        first_bad_char(rows.drop_first())
    }
}

/// Whether every row is as long as the first.
pub open spec fn rectangular(rows: Seq<Seq<char>>) -> bool {
    forall|i: int| 0 <= i < rows.len() ==> #[trigger] rows[i].len() == rows[0].len()
}

/// The grid a block of rows loads to: column `x` holds, bottom up, the tiles
/// of character `x` of each row.
pub open spec fn loads_to(rows: Seq<Seq<char>>, grid: Seq<Seq<Tile>>) -> bool {
    &&& grid.len() == rows[0].len()
    &&& forall|x: int| 0 <= x < grid.len() ==> #[trigger] grid[x].len() == rows.len()
    &&& forall|x: int, y: int|
        0 <= x < grid.len() && 0 <= y < rows.len() ==> Some(#[trigger] grid[x][y])
            == Tile::from_char_spec(rows[y][x])
}

/// Splitting leaves at least the unterminated final piece.
proof fn lemma_split_newlines_len(s: Seq<char>)
    ensures
        split_newlines(s).len() >= 1,
    decreases s.len(),
{
    if s.len() == 0 {
    } else {
        lemma_split_newlines_len(s.drop_first());
    }
}

/// Text without a newline is a single piece.
proof fn lemma_split_no_newline(s: Seq<char>)
    requires
        forall|k: int| 0 <= k < s.len() ==> s[k] != '\n',
    ensures
        split_newlines(s) == seq![s],
    decreases s.len(),
{
    if s.len() == 0 {
        assert(split_newlines(s) =~~= seq![s]);
    } else {
        lemma_split_no_newline(s.drop_first());
        assert(seq![s[0]] + s.drop_first() =~= s);
        assert(split_newlines(s) =~~= seq![s]);
    }
}

/// Splitting at the first newline peels off one piece.
proof fn lemma_split_first_newline(s: Seq<char>, j: int)
    requires
        0 <= j < s.len(),
        s[j] == '\n',
        forall|k: int| 0 <= k < j ==> s[k] != '\n',
    ensures
        split_newlines(s) == seq![s.take(j)] + split_newlines(s.subrange(j + 1, s.len() as int)),
    decreases j,
{
    if j == 0 {
        assert(s.take(0) =~= Seq::<char>::empty());
        assert(s.drop_first() =~= s.subrange(1, s.len() as int));
    } else {
        let d = s.drop_first();
        assert(d[j - 1] == s[j]);
        assert(forall|k: int| 0 <= k < j - 1 ==> d[k] == s[k + 1] && d[k] != '\n');
        lemma_split_first_newline(d, j - 1);
        lemma_split_newlines_len(d.subrange(j, d.len() as int));
        assert(seq![s[0]] + d.take(j - 1) =~= s.take(j));
        assert(d.subrange(j, d.len() as int) =~= s.subrange(j + 1, s.len() as int));
        assert((seq![d.take(j - 1)] + split_newlines(d.subrange(j, d.len() as int)))[0] == d.take(
            j - 1,
        ));
        assert((seq![d.take(j - 1)] + split_newlines(d.subrange(j, d.len() as int))).drop_first()
            =~= split_newlines(d.subrange(j, d.len() as int)));
        assert(split_newlines(s) =~= seq![s.take(j)] + split_newlines(
            s.subrange(j + 1, s.len() as int),
        ));
    }
}

/// Collect the characters of the text.
fn chars_of(text: &str) -> (chars: Vec<char>)
    ensures
        chars@ == text@,
{
    let n = text.unicode_len();
    let mut chars: Vec<char> = Vec::new();
    let mut i: usize = 0;
    while i < n
        invariant
            i <= n,
            n == text@.len(),
            chars@ == text@.take(i as int),
        decreases n - i,
    {
        let c = text.get_char(i);
        chars.push(c);
        proof {
            assert(text@.take(i + 1 as int) =~= text@.take(i as int).push(text@[i as int]));
        }
        i = i + 1;
    }
    proof {
        assert(text@.take(n as int) =~= text@);
    }
    chars
}

/// Split the characters of the text into lines.
fn split_lines(chars: &Vec<char>) -> (lines: Vec<Vec<char>>)
    ensures
        lines@.map_values(|line: Vec<char>| line@) == lines_spec(chars@),
{
    let n = chars.len();
    let mut lines: Vec<Vec<char>> = Vec::new();
    let mut current: Vec<char> = Vec::new();
    let ghost mut raw: Seq<Seq<char>> = Seq::empty();
    let ghost mut line_start: int = 0;
    let mut i: usize = 0;
    proof {
        assert(chars@.subrange(0, n as int) =~= chars@);
        assert(raw + split_newlines(chars@) =~= split_newlines(chars@));
    }
    while i < n
        invariant
            i <= n,
            n == chars@.len(),
            0 <= line_start <= i,
            current@ == chars@.subrange(line_start, i as int),
            forall|k: int| 0 <= k < current@.len() ==> current@[k] != '\n',
            split_newlines(chars@) == raw + split_newlines(chars@.subrange(line_start, n as int)),
            lines@.len() == raw.len(),
            forall|k: int| 0 <= k < raw.len() ==> (#[trigger] lines@[k])@ == strip_cr(raw[k]),
        decreases n - i,
    {
        let c = chars[i];
        if c == '\n' {
            proof {
                let rem = chars@.subrange(line_start, n as int);
                assert(rem[i - line_start] == '\n');
                assert(forall|k: int| 0 <= k < i - line_start ==> rem[k] == current@[k]);
                lemma_split_first_newline(rem, i - line_start);
                assert(rem.take(i - line_start) =~= current@);
                assert(rem.subrange(i - line_start + 1, rem.len() as int) =~= chars@.subrange(
                    i + 1,
                    n as int,
                ));
                assert(raw + split_newlines(rem) =~= raw.push(current@) + split_newlines(
                    chars@.subrange(i + 1, n as int),
                ));
            }
            let mut finished = current;
            current = Vec::new();
            let ghost finished_raw = finished@;
            if finished.len() > 0 && finished[finished.len() - 1] == '\r' {
                finished.pop();
            }
            proof {
                assert(finished@ =~= strip_cr(finished_raw));
            }
            lines.push(finished);
            proof {
                raw = raw.push(finished_raw);
                line_start = i + 1;
                assert(current@ =~= chars@.subrange(line_start, i + 1));
            }
        } else {
            current.push(c);
            proof {
                assert(current@ =~= chars@.subrange(line_start, i + 1));
            }
        }
        i = i + 1;
    }
    proof {
        let rem = chars@.subrange(line_start, n as int);
        assert(rem =~= current@);
        lemma_split_no_newline(rem);
        assert(split_newlines(chars@) =~= raw.push(current@));
        assert(split_newlines(chars@).drop_last() =~= raw);
        assert(split_newlines(chars@).last() == current@);
    }
    if current.len() > 0 {
        lines.push(current);
    }
    proof {
        assert(lines@.map_values(|line: Vec<char>| line@) =~= lines_spec(chars@));
    }
    lines
}

/// Filtering the empty lines out distributes over appending one line.
proof fn lemma_keep_nonempty_push(lines: Seq<Seq<char>>, line: Seq<char>)
    ensures
        keep_nonempty(lines.push(line)) == if line.len() > 0 {
            keep_nonempty(lines) + seq![line]
        } else {
            keep_nonempty(lines)
        },
    decreases lines.len(),
{
    if lines.len() == 0 {
        reveal_with_fuel(keep_nonempty, 2);
        assert(lines.push(line)[0] == line);
        assert(lines.push(line).drop_first() =~= lines);
        if line.len() > 0 {
            assert(keep_nonempty(lines.push(line)) =~= keep_nonempty(lines) + seq![line]);
        }
    } else {
        assert(lines.push(line)[0] == lines[0]);
        assert(lines.push(line).drop_first() =~= lines.drop_first().push(line));
        lemma_keep_nonempty_push(lines.drop_first(), line);
        if line.len() > 0 {
            assert(keep_nonempty(lines.push(line)) =~= keep_nonempty(lines) + seq![line]);
        }
    }
}

/// The nonempty lines in reverse order: the grid's rows, bottom row first.
fn reverse_nonempty(lines: Vec<Vec<char>>) -> (rows: Vec<Vec<char>>)
    ensures
        rows@.map_values(|row: Vec<char>| row@) == keep_nonempty(
            lines@.map_values(|line: Vec<char>| line@).reverse(),
        ),
{
    let ghost all = lines@.map_values(|line: Vec<char>| line@);
    let n = lines.len();
    let mut lines = lines;
    let mut rows: Vec<Vec<char>> = Vec::new();
    proof {
        assert(all.reverse().take(0) =~= Seq::<Seq<char>>::empty());
        assert(rows@.map_values(|row: Vec<char>| row@) =~= keep_nonempty(all.reverse().take(0)));
    }
    while lines.len() > 0
        invariant
            n == all.len(),
            lines@.len() <= n,
            forall|k: int| 0 <= k < lines@.len() ==> (#[trigger] lines@[k])@ == all[k],
            rows@.map_values(|row: Vec<char>| row@) == keep_nonempty(
                all.reverse().take(n - lines@.len()),
            ),
        decreases lines@.len(),
    {
        let ghost k = n - lines@.len();
        let line = lines.pop().unwrap();
        proof {
            assert(line@ == all[all.len() - 1 - k]);
            assert(all.reverse()[k] == all[all.len() - 1 - k]);
            assert(all.reverse().take(k + 1) =~= all.reverse().take(k).push(all.reverse()[k]));
            lemma_keep_nonempty_push(all.reverse().take(k), line@);
        }
        if line.len() > 0 {
            let ghost before = rows@;
            rows.push(line);
            proof {
                assert(rows@.map_values(|row: Vec<char>| row@) =~= before.map_values(
                    |row: Vec<char>| row@,
                ) + seq![all.reverse()[k]]);
            }
        }
    }
    proof {
        assert(all.reverse().take(n as int) =~= all.reverse());
    }
    rows
}

/// Every row that the filter keeps has at least one character.
proof fn lemma_keep_nonempty_all(lines: Seq<Seq<char>>, k: int)
    requires
        0 <= k < keep_nonempty(lines).len(),
    ensures
        keep_nonempty(lines)[k].len() > 0,
    decreases lines.len(),
{
    if lines.len() == 0 {
    } else if lines[0].len() > 0 {
        if k > 0 {
            lemma_keep_nonempty_all(lines.drop_first(), k - 1);
        }
    } else {
        lemma_keep_nonempty_all(lines.drop_first(), k);
    }
}

/// When no row holds a bad character, neither does any single row.
proof fn lemma_rows_clean(rows: Seq<Seq<char>>, j: int)
    requires
        first_bad_char(rows) is None,
        0 <= j < rows.len(),
    ensures
        row_bad_char(rows[j]) is None,
    decreases j,
{
    if j > 0 {
        assert(rows.drop_first()[j - 1] == rows[j]);
        lemma_rows_clean(rows.drop_first(), j - 1);
    }
}

/// A row without a bad character has a tile for every character.
proof fn lemma_row_clean(row: Seq<char>, k: int)
    requires
        row_bad_char(row) is None,
        0 <= k < row.len(),
    ensures
        Tile::from_char_spec(row[k]) is Some,
    decreases k,
{
    if k > 0 {
        assert(row.drop_first()[k - 1] == row[k]);
        lemma_row_clean(row.drop_first(), k - 1);
    }
}

/// A map representing all tiles present on the map, stored column by column:
/// the view `self@[x][y]` is the tile `x` cells from the left and `y` cells
/// up from the bottom.
#[derive(Debug, Clone, PartialEq, Eq)]
pub struct TileMap {
    tiles: Vec<Column>,
}

impl View for TileMap {
    type V = Seq<Seq<Tile>>;

    closed spec fn view(&self) -> Seq<Seq<Tile>> {
        self.tiles@.map_values(|column: Vec<Tile>| column@)
    }
}

impl TileMap {
    /// A loaded map is a nonempty rectangle: at least one column, every
    /// column of the same height, and at least one row.
    pub open spec fn wf(&self) -> bool {
        &&& self@.len() > 0
        &&& self@[0].len() > 0
        &&& forall|x: int| 0 <= x < self@.len() ==> #[trigger] self@[x].len() == self@[0].len()
    }

    /// The number of columns.
    pub open spec fn spec_width(&self) -> int {
        self@.len() as int
    }

    /// The height of the first column; under `wf`, of every column.
    pub open spec fn spec_height(&self) -> int {
        if self@.len() == 0 {
            0
        } else {
            self@[0].len() as int
        }
    }

    /// The tile at `(x, y)`, or nothing when the coordinates leave the grid.
    pub open spec fn at_spec(&self, x: int, y: int) -> Option<Tile> {
        if 0 <= x < self@.len() && 0 <= y < self@[x].len() {
            Some(self@[x][y])
        } else {
            None
        }
    }

    /// Get the tile at the specified position. If there is no tile or the
    /// indices are negative, this function returns None.
    pub fn at(&self, x: i32, y: i32) -> (tile: Option<Tile>)
        ensures
            tile == self.at_spec(x as int, y as int),
    {
        if x < 0 || y < 0 {
            return None;
        }
        let xu = x as usize;
        let yu = y as usize;
        if xu < self.tiles.len() {
            let column = &self.tiles[xu];
            if yu < column.len() {
                Some(column[yu])
            } else {
                None
            }
        } else {
            None
        }
    }

    /// Load a map from a block of text: one line per row, one character per
    /// column, the top row first. Rows are stored bottom row first, so that
    /// growing `y` moves up; lines without any character are skipped. The
    /// text is rejected for the first character that names no tile, then
    /// when not a single row remains, then when the rows disagree in length.
    pub fn from_string(data: &str) -> (map: Result<TileMap, MapError>)
        ensures
            ({
                let rows = rows_spec(data@);
                match first_bad_char(rows) {
                    Some(c) => map == Err::<TileMap, MapError>(MapError::UnknownCharacter(c)),
                    None => {
                        if rows.len() == 0 {
                            map == Err::<TileMap, MapError>(MapError::Empty)
                        } else if !rectangular(rows) {
                            map == Err::<TileMap, MapError>(MapError::Ragged)
                        } else {
                            &&& map is Ok
                            &&& map->Ok_0.wf()
                            &&& loads_to(rows, map->Ok_0@)
                        }
                    },
                }
            }),
    {
        let chars = chars_of(data);
        let lines = split_lines(&chars);
        let rows = reverse_nonempty(lines);
        let ghost rowsv = rows@.map_values(|row: Vec<char>| row@);
        proof {
            assert(rowsv == rows_spec(data@));
            assert(rowsv.subrange(0, rowsv.len() as int) =~= rowsv);
        }
        // Reject the first character that names no tile, reading the rows as
        // they are stored.
        let mut j: usize = 0;
        while j < rows.len()
            invariant
                j <= rows@.len(),
                rowsv == rows@.map_values(|row: Vec<char>| row@),
                rowsv == rows_spec(data@),
                first_bad_char(rowsv) == first_bad_char(
                    rowsv.subrange(j as int, rowsv.len() as int),
                ),
            decreases rows@.len() - j,
        {
            let row = &rows[j];
            proof {
                assert(row@.subrange(0, row@.len() as int) =~= row@);
            }
            let mut x: usize = 0;
            while x < row.len()
                invariant
                    x <= row@.len(),
                    j < rows@.len(),
                    rowsv == rows@.map_values(|row_: Vec<char>| row_@),
                    rowsv == rows_spec(data@),
                    row@ == rowsv[j as int],
                    first_bad_char(rowsv) == first_bad_char(
                        rowsv.subrange(j as int, rowsv.len() as int),
                    ),
                    row_bad_char(row@) == row_bad_char(
                        row@.subrange(x as int, row@.len() as int),
                    ),
                decreases row@.len() - x,
            {
                let c = row[x];
                let ghost sub = row@.subrange(x as int, row@.len() as int);
                proof {
                    assert(sub[0] == c);
                }
                if Tile::from_char(c).is_none() {
                    proof {
                        assert(row_bad_char(row@) == Some(c));
                        let subj = rowsv.subrange(j as int, rowsv.len() as int);
                        assert(subj[0] == rowsv[j as int]);
                        assert(first_bad_char(rowsv) == Some(c));
                    }
                    return Err(MapError::UnknownCharacter(c));
                }
                proof {
                    assert(sub.drop_first() =~= row@.subrange(x + 1, row@.len() as int));
                }
                x = x + 1;
            }
            proof {
                assert(row@.subrange(row@.len() as int, row@.len() as int) =~= Seq::<
                    char,
                >::empty());
                assert(row_bad_char(row@) is None);
                let subj = rowsv.subrange(j as int, rowsv.len() as int);
                assert(subj[0] == rowsv[j as int]);
                assert(subj.drop_first() =~= rowsv.subrange(j + 1, rowsv.len() as int));
            }
            j = j + 1;
        }
        proof {
            assert(rowsv.subrange(rowsv.len() as int, rowsv.len() as int) =~= Seq::<Seq<
                char,
            >>::empty());
            assert(first_bad_char(rowsv) is None);
        }
        // Expect the map to have at least one row with a character on it.
        if rows.len() == 0 {
            return Err(MapError::Empty);
        }
        // Expect all rows to have the same length.
        let width = rows[0].len();
        let mut j: usize = 0;
        while j < rows.len()
            invariant
                j <= rows@.len(),
                rows@.len() > 0,
                rowsv == rows@.map_values(|row: Vec<char>| row@),
                rowsv == rows_spec(data@),
                first_bad_char(rowsv) is None,
                width == rowsv[0].len(),
                forall|k: int| 0 <= k < j ==> (#[trigger] rowsv[k]).len() == width,
            decreases rows@.len() - j,
        {
            if rows[j].len() != width {
                proof {
                    assert(rowsv[j as int].len() != rowsv[0].len());
                    assert(!rectangular(rowsv));
                }
                return Err(MapError::Ragged);
            }
            j = j + 1;
        }
        proof {
            lemma_keep_nonempty_all(lines_spec(data@).reverse(), 0);
            assert(width > 0);
        }
        // Fill the columns, bottom tile first.
        let height = rows.len();
        let mut tiles: Vec<Column> = Vec::new();
        let mut x: usize = 0;
        while x < width
            invariant
                x <= width,
                height == rowsv.len(),
                height > 0,
                rowsv == rows@.map_values(|row: Vec<char>| row@),
                rowsv == rows_spec(data@),
                first_bad_char(rowsv) is None,
                width == rowsv[0].len(),
                width > 0,
                forall|k: int| 0 <= k < rowsv.len() ==> (#[trigger] rowsv[k]).len() == width,
                tiles@.len() == x,
                forall|xx: int| 0 <= xx < x ==> (#[trigger] tiles@[xx])@.len() == height,
                forall|xx: int, yy: int|
                    0 <= xx < x && 0 <= yy < height ==> Some(#[trigger] tiles@[xx]@[yy])
                        == Tile::from_char_spec(rowsv[yy][xx]),
            decreases width - x,
        {
            let mut column: Vec<Tile> = Vec::new();
            let mut y: usize = 0;
            while y < height
                invariant
                    y <= height,
                    x < width,
                    height == rowsv.len(),
                    rowsv == rows@.map_values(|row: Vec<char>| row@),
                    first_bad_char(rowsv) is None,
                    width == rowsv[0].len(),
                    forall|k: int| 0 <= k < rowsv.len() ==> (#[trigger] rowsv[k]).len() == width,
                    column@.len() == y,
                    forall|yy: int|
                        0 <= yy < y ==> Some(#[trigger] column@[yy]) == Tile::from_char_spec(
                            rowsv[yy][x as int],
                        ),
                decreases height - y,
            {
                proof {
                    assert(rows@[y as int]@ == rowsv[y as int]);
                }
                let c = rows[y][x];
                proof {
                    lemma_rows_clean(rowsv, y as int);
                    lemma_row_clean(rowsv[y as int], x as int);
                }
                let tile = Tile::from_char(c).unwrap();
                column.push(tile);
                y = y + 1;
            }
            tiles.push(column);
            x = x + 1;
        }
        let map = TileMap { tiles };
        proof {
            assert(map.wf());
            assert(loads_to(rowsv, map@));
        }
        Ok(map)
    }

    /// The columns of the map, left to right, each bottom tile first.
    pub fn columns(&self) -> (columns: &Vec<Column>)
        ensures
            columns@.map_values(|column: Vec<Tile>| column@) == self@,
    {
        &self.tiles
    }
}

/// Lookup misses exactly outside the rectangle: for negative coordinates,
/// and at or beyond the width or height, it finds no cell.
pub proof fn lemma_at_outside_none(map: TileMap, x: int, y: int)
    requires
        map.wf(),
        x < 0 || y < 0 || x >= map.spec_width() || y >= map.spec_height(),
    ensures
        map.at_spec(x, y) is None,
{
}

} // verus!
