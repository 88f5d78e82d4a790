//! A level read from text: one character per cell, one line per row.
//!
//! Digits `1` to `9` are wall variants and `#` is wall 1. Every other
//! character is open floor, and some of them mark where something starts:
//! the player, enemies, pickups, decorations, chests. Blank lines do not
//! count, and short lines are filled up with wall 1 on the right.

use vstd::prelude::*;
use vstd::std_specs::iter::IteratorSpec;
use crate::grid::{Grid, MAX_DIM};

verus! {

/// Where things start in a level, each place the centre of a cell.
pub struct Level {
    pub grid: Grid,
    /// The first `P`
    pub player_spawn: Option<(i32, i32)>,
    /// Every `E`
    pub enemy_spawns: Vec<(i32, i32)>,
    /// No character marks these
    pub health_small_spawns: Vec<(i32, i32)>,
    /// Every `H`
    pub health_big_spawns: Vec<(i32, i32)>,
    /// No character marks these
    pub shield_small_spawns: Vec<(i32, i32)>,
    /// Every `S`
    pub shield_big_spawns: Vec<(i32, i32)>,
    /// Every `B`
    pub deco_block_spawns: Vec<(i32, i32)>,
    /// Every `b`
    pub deco_ghost_spawns: Vec<(i32, i32)>,
    /// Every `C`
    pub chest_spawns: Vec<(i32, i32)>,
    /// Every `t`, `y`, `u`, `g` and `r`
    pub ammo_light_spawns: Vec<(i32, i32)>,
    pub ammo_medium_spawns: Vec<(i32, i32)>,
    pub ammo_heavy_spawns: Vec<(i32, i32)>,
    pub ammo_shell_spawns: Vec<(i32, i32)>,
    pub ammo_rocket_spawns: Vec<(i32, i32)>,
    /// Every `A`, `M`, `R`, `O` and `K`
    pub weapon_pistol_spawns: Vec<(i32, i32)>,
    pub weapon_smg_spawns: Vec<(i32, i32)>,
    pub weapon_rifle_spawns: Vec<(i32, i32)>,
    pub weapon_shotgun_spawns: Vec<(i32, i32)>,
    pub weapon_rocket_spawns: Vec<(i32, i32)>,
    /// Every `h`: health may appear here
    pub heal_random_spawns: Vec<(i32, i32)>,
    /// Every `s`: a shield may appear here
    pub shield_random_spawns: Vec<(i32, i32)>,
    /// Every `w`: a weapon may appear here
    pub weapon_random_spawns: Vec<(i32, i32)>,
    /// Every `m`: ammunition may appear here
    pub ammo_random_spawns: Vec<(i32, i32)>,
}

/// Whether a character is white space.
pub open spec fn is_space(c: char) -> bool {
    let n = c as u32;
    ||| 0x9 <= n <= 0xd
    ||| n == 0x20
    ||| n == 0x85
    ||| n == 0xa0
    ||| n == 0x1680
    ||| 0x2000 <= n <= 0x200a
    ||| n == 0x2028
    ||| n == 0x2029
    ||| n == 0x202f
    ||| n == 0x205f
    ||| n == 0x3000
}

/// Whether a line holds nothing but white space.
pub open spec fn is_blank(line: Seq<char>) -> bool {
    forall|i: int| 0 <= i < line.len() ==> is_space(#[trigger] line[i])
}

/// Index of the first line feed at or after `from`, or the text's length.
pub open spec fn line_end(text: Seq<char>, from: int) -> int
    decreases text.len() - from,
{
    if from >= text.len() {
        text.len() as int
    } else if text[from] == '\n' {
        from
    } else {
        line_end(text, from + 1)
    }
}

/// The line that starts at `start`: up to the line feed that ends it,
/// without a carriage return just before that line feed.
pub open spec fn line_at(text: Seq<char>, start: int) -> Seq<char> {
    let end = line_end(text, start);
    if end < text.len() && start < end && text[end - 1] == '\r' {
        text.subrange(start, end - 1)
    } else {
        text.subrange(start, end)
    }
}

/// The lines from `start` on that are not blank.
pub open spec fn rows_from(text: Seq<char>, start: int) -> Seq<Seq<char>>
    decreases text.len() - start,
{
    if start < 0 || start > text.len() {
        Seq::empty()
    } else {
        let end = line_end(text, start);
        let rest = if start <= end < text.len() {
            rows_from(text, end + 1)
        } else {
            Seq::empty()
        };
        if is_blank(line_at(text, start)) {
            rest
        } else {
            seq![line_at(text, start)] + rest
        }
    }
}

/// The rows of a level's text.
pub open spec fn rows_of(text: Seq<char>) -> Seq<Seq<char>> {
    rows_from(text, 0)
}

/// Length of the longest of the first `n` rows.
pub open spec fn widest(rows: Seq<Seq<char>>, n: nat) -> nat
    decreases n,
{
    if n == 0 {
        0
    } else {
        let before = widest(rows, (n - 1) as nat);
        if rows[n - 1].len() > before {
            rows[n - 1].len()
        } else {
            before
        }
    }
}

/// The character of a row at column `x`; a row that ends before `x` is
/// filled up with `1`.
pub open spec fn char_at(row: Seq<char>, x: int) -> char {
    if 0 <= x < row.len() {
        row[x]
    } else {
        '1'
    }
}

/// The wall id that a character stands for: the digit for `1` to `9`,
/// 1 for `#`, and 0, open floor, for everything else.
pub open spec fn cell_id(c: char) -> u8 {
    if '1' <= c <= '9' {
        (c as u32 - 48) as u8
    } else if c == '#' {
        1
    } else {
        0
    }
}

/// The centre of the cell at column `x`, row `y`.
pub open spec fn cell_centre(x: int, y: int) -> (i32, i32) {
    ((x * 65536 + 32768) as i32, (y * 65536 + 32768) as i32)
}

/// The ids of the first `n` cells of a row that is `w` cells wide.
pub open spec fn row_cells(row: Seq<char>, n: nat) -> Seq<u8> {
    Seq::new(n, |x: int| cell_id(char_at(row, x)))
}

/// The ids of the cells of the first `m` rows, row after row.
pub open spec fn cells_upto(rows: Seq<Seq<char>>, w: nat, m: nat) -> Seq<u8>
    decreases m,
{
    if m == 0 {
        Seq::empty()
    } else {
        cells_upto(rows, w, (m - 1) as nat) + row_cells(rows[m - 1], w)
    }
}

/// The centres of those of the first `n` cells of row `y` that hold `c`.
pub open spec fn row_marks(row: Seq<char>, y: int, c: char, n: nat) -> Seq<(i32, i32)>
    decreases n,
{
    if n == 0 {
        Seq::empty()
    } else {
        let before = row_marks(row, y, c, (n - 1) as nat);
        if char_at(row, n - 1) == c {
            before.push(cell_centre(n - 1, y))
        } else {
            before
        }
    }
}

/// The centres of the cells that hold `c` in the first `m` rows, row
/// after row and from left to right.
pub open spec fn marks_upto(rows: Seq<Seq<char>>, w: nat, c: char, m: nat) -> Seq<(i32, i32)>
    decreases m,
{
    if m == 0 {
        Seq::empty()
    } else {
        marks_upto(rows, w, c, (m - 1) as nat) + row_marks(rows[m - 1], m - 1, c, w)
    }
}

/// The centres of all cells of a level that hold `c`.
pub open spec fn marks_of(text: Seq<char>, c: char) -> Seq<(i32, i32)> {
    let rows = rows_of(text);
    marks_upto(rows, widest(rows, rows.len()), c, rows.len())
}

/// The rows of a vector of lines.
pub open spec fn views(rows: Seq<Vec<char>>) -> Seq<Seq<char>> {
    Seq::new(rows.len(), |i: int| rows[i]@)
}

/// The cells of the first `m` rows number `m` times the width.
pub proof fn lemma_cells_len(rows: Seq<Seq<char>>, w: nat, m: nat)
    ensures
        cells_upto(rows, w, m).len() == m * w,
    decreases m,
{
    if m > 0 {
        lemma_cells_len(rows, w, (m - 1) as nat);
        assert((m - 1) * w + w == m * w) by (nonlinear_arith);
        assert(row_cells(rows[m - 1], w).len() == w);
    } else {
        assert(0 * w == 0) by (nonlinear_arith);
    }
}

/// The cell at column `x` of row `y` holds the id of that row's character.
pub proof fn lemma_cells_index(rows: Seq<Seq<char>>, w: nat, m: nat, x: int, y: int)
    requires
        0 <= x < w,
        0 <= y < m,
    ensures
        0 <= y * w + x < cells_upto(rows, w, m).len(),
        cells_upto(rows, w, m)[y * w + x] == cell_id(char_at(rows[y], x)),
    decreases m,
{
    lemma_cells_len(rows, w, m);
    lemma_cells_len(rows, w, (m - 1) as nat);
    assert(y * w + x < m * w && y * w >= 0) by (nonlinear_arith)
        requires
            0 <= x < w,
            0 <= y < m,
    ;
    if y < m - 1 {
        lemma_cells_index(rows, w, (m - 1) as nat, x, y);
    } else {
        assert(y * w + x - (m - 1) * w == x) by (nonlinear_arith)
            requires
                y == m - 1,
        ;
    }
}

fn is_whitespace(c: char) -> (b: bool)
    ensures
        b == is_space(c),
{
    let n: u32 = c as u32;
    (0x9 <= n && n <= 0xd) || n == 0x20 || n == 0x85 || n == 0xa0 || n == 0x1680 || (0x2000 <= n
        && n <= 0x200a) || n == 0x2028 || n == 0x2029 || n == 0x202f || n == 0x205f || n == 0x3000
}

fn line_is_blank(line: &Vec<char>) -> (b: bool)
    ensures
        b == is_blank(line@),
{
    let mut i: usize = 0;
    while i < line.len()
        invariant
            i <= line@.len(),
            forall|k: int| 0 <= k < i ==> is_space(#[trigger] line@[k]),
        decreases line@.len() - i,
    {
        if !is_whitespace(line[i]) {
            return false;
        }
        i = i + 1;
    }
    true
}

fn collect_chars(text: &str) -> (v: Vec<char>)
    ensures
        v@ == text@,
{
    broadcast use vstd::string::group_string_axioms;

    let mut v: Vec<char> = Vec::new();
    let mut it = text.chars();
    loop
        invariant
            v@ + it.remaining() == text@,
            it.obeys_prophetic_iter_laws(),
            it.decrease() is Some,
        ensures
            v@ == text@,
        decreases it.decrease()->0,
    {
        match it.next() {
            Some(c) => {
                v.push(c);
                assert(v@ + it.remaining() =~= text@);
            },
            None => {
                assert(v@ + it.remaining() =~= v@);
                break ;
            },
        }
    }
    v
}

fn split_rows(text: &Vec<char>) -> (rows: Vec<Vec<char>>)
    ensures
        views(rows@) == rows_of(text@),
{
    let n: usize = text.len();
    let mut rows: Vec<Vec<char>> = Vec::new();
    let mut start: usize = 0;
    let mut done: bool = false;
    while !done
        invariant
            n == text@.len(),
            start <= n,
            !done ==> views(rows@) + rows_from(text@, start as int) == rows_of(text@),
            done ==> views(rows@) == rows_of(text@),
        decreases n - start + if done { 0int } else { 1int },
    {
        let mut end: usize = start;
        while end < n && text[end] != '\n'
            invariant
                start <= end <= n,
                n == text@.len(),
                line_end(text@, start as int) == line_end(text@, end as int),
            decreases n - end,
        {
            end = end + 1;
        }
        let stop: usize = if end < n && start < end && text[end - 1] == '\r' {
            end - 1
        } else {
            end
        };
        let mut line: Vec<char> = Vec::new();
        let mut i: usize = start;
        while i < stop
            invariant
                start <= i <= stop <= n,
                n == text@.len(),
                line@ == text@.subrange(start as int, i as int),
            decreases stop - i,
        {
            line.push(text[i]);
            assert(text@.subrange(start as int, i + 1) =~= text@.subrange(
                start as int,
                i as int,
            ).push(text@[i as int]));
            i = i + 1;
        }
        assert(line@ == line_at(text@, start as int));
        let ghost before = views(rows@);
        let ghost rest = if end < n {
            rows_from(text@, end + 1)
        } else {
            Seq::empty()
        };
        if !line_is_blank(&line) {
            rows.push(line);
            assert(views(rows@) =~= before + seq![line_at(text@, start as int)]);
            assert(views(rows@) + rest =~= before + (seq![line_at(text@, start as int)] + rest));
        }
        if end < n {
            start = end + 1;
        } else {
            done = true;
            assert(views(rows@) + rest =~= views(rows@));
        }
    }
    rows
}

fn widest_row(rows: &Vec<Vec<char>>) -> (w: usize)
    ensures
        w == widest(views(rows@), rows@.len()),
{
    let mut w: usize = 0;
    let mut i: usize = 0;
    while i < rows.len()
        invariant
            i <= rows@.len(),
            w == widest(views(rows@), i as nat),
        decreases rows@.len() - i,
    {
        if rows[i].len() > w {
            w = rows[i].len();
        }
        i = i + 1;
    }
    w
}

fn char_of(row: &Vec<char>, x: usize) -> (c: char)
    ensures
        c == char_at(row@, x as int),
{
    if x < row.len() {
        row[x]
    } else {
        '1'
    }
}

fn id_of(c: char) -> (id: u8)
    ensures
        id == cell_id(c),
{
    let n: u32 = c as u32;
    if 49 <= n && n <= 57 {
        (n - 48) as u8
    } else if n == 35 {
        1
    } else {
        0
    }
}

fn collect_cells(rows: &Vec<Vec<char>>, w: usize) -> (data: Vec<u8>)
    requires
        w <= MAX_DIM,
        rows@.len() <= MAX_DIM,
    ensures
        data@ == cells_upto(views(rows@), w as nat, rows@.len()),
{
    let mut data: Vec<u8> = Vec::new();
    let mut y: usize = 0;
    while y < rows.len()
        invariant
            y <= rows@.len(),
            data@ == cells_upto(views(rows@), w as nat, y as nat),
        decreases rows@.len() - y,
    {
        let ghost before = data@;
        let mut x: usize = 0;
        while x < w
            invariant
                x <= w,
                y < rows@.len(),
                data@ == before + row_cells(views(rows@)[y as int], x as nat),
            decreases w - x,
        {
            let id: u8 = id_of(char_of(&rows[y], x));
            data.push(id);
            assert(data@ =~= before + row_cells(views(rows@)[y as int], (x + 1) as nat));
            x = x + 1;
        }
        y = y + 1;
    }
    data
}

fn collect_marks(rows: &Vec<Vec<char>>, w: usize, c: char) -> (marks: Vec<(i32, i32)>)
    requires
        w <= MAX_DIM,
        rows@.len() <= MAX_DIM,
    ensures
        marks@ == marks_upto(views(rows@), w as nat, c, rows@.len()),
{
    let mut marks: Vec<(i32, i32)> = Vec::new();
    let mut y: usize = 0;
    while y < rows.len()
        invariant
            y <= rows@.len(),
            rows@.len() <= MAX_DIM,
            w <= MAX_DIM,
            marks@ == marks_upto(views(rows@), w as nat, c, y as nat),
        decreases rows@.len() - y,
    {
        let ghost before = marks@;
        let mut x: usize = 0;
        while x < w
            invariant
                x <= w,
                w <= MAX_DIM,
                y < rows@.len(),
                rows@.len() <= MAX_DIM,
                marks@ == before + row_marks(views(rows@)[y as int], y as int, c, x as nat),
            decreases w - x,
        {
            let ghost so_far = row_marks(views(rows@)[y as int], y as int, c, x as nat);
            if char_of(&rows[y], x) == c {
                let cx: i32 = (x * 65536 + 32768) as i32;
                let cy: i32 = (y * 65536 + 32768) as i32;
                marks.push((cx, cy));
                assert(marks@ =~= before + so_far.push(cell_centre(x as int, y as int)));
            }
            x = x + 1;
        }
        y = y + 1;
    }
    marks
}

/// Why a text is no level: it has no row, or a side longer than `MAX_DIM`.
pub open spec fn level_fault(text: Seq<char>) -> Option<Seq<char>> {
    let rows = rows_of(text);
    if rows.len() == 0 {
        Some("El archivo de mapa está vacío"@)
    } else if rows.len() > MAX_DIM || widest(rows, rows.len()) > MAX_DIM {
        Some("El mapa es demasiado grande"@)
    } else {
        None
    }
}

impl Level {
    /// Reads a level from its text. The rows are the lines that are not
    /// blank; the width is the length of the longest row. Fails on a text
    /// without rows, and on one with more than `MAX_DIM` rows or columns.
    pub fn from_txt(text: &str) -> (r: Result<Level, String>)
        ensures
            match r {
                Ok(level) => {
                    let rows = rows_of(text@);
                    let w = widest(rows, rows.len());
                    &&& level_fault(text@) is None
                    &&& level.grid.wf()
                    &&& level.grid.spec_w() == w
                    &&& level.grid.spec_h() == rows.len()
                    &&& level.grid.cells() == cells_upto(rows, w, rows.len())
                    &&& forall|x: int, y: int|
                        0 <= x < w && 0 <= y < rows.len() ==> #[trigger] level.grid.occupancy(x, y)
                            == cell_id(char_at(rows[y], x))
                    &&& level.player_spawn == (if marks_of(text@, 'P').len() > 0 {
                        Some(marks_of(text@, 'P')[0])
                    } else {
                        None
                    })
                    &&& level.enemy_spawns@ == marks_of(text@, 'E')
                    &&& level.health_small_spawns@.len() == 0
                    &&& level.health_big_spawns@ == marks_of(text@, 'H')
                    &&& level.shield_small_spawns@.len() == 0
                    &&& level.shield_big_spawns@ == marks_of(text@, 'S')
                    &&& level.deco_block_spawns@ == marks_of(text@, 'B')
                    &&& level.deco_ghost_spawns@ == marks_of(text@, 'b')
                    &&& level.chest_spawns@ == marks_of(text@, 'C')
                    &&& level.ammo_light_spawns@ == marks_of(text@, 't')
                    &&& level.ammo_medium_spawns@ == marks_of(text@, 'y')
                    &&& level.ammo_heavy_spawns@ == marks_of(text@, 'u')
                    &&& level.ammo_shell_spawns@ == marks_of(text@, 'g')
                    &&& level.ammo_rocket_spawns@ == marks_of(text@, 'r')
                    &&& level.weapon_pistol_spawns@ == marks_of(text@, 'A')
                    &&& level.weapon_smg_spawns@ == marks_of(text@, 'M')
                    &&& level.weapon_rifle_spawns@ == marks_of(text@, 'R')
                    &&& level.weapon_shotgun_spawns@ == marks_of(text@, 'O')
                    &&& level.weapon_rocket_spawns@ == marks_of(text@, 'K')
                    &&& level.heal_random_spawns@ == marks_of(text@, 'h')
                    &&& level.shield_random_spawns@ == marks_of(text@, 's')
                    &&& level.weapon_random_spawns@ == marks_of(text@, 'w')
                    &&& level.ammo_random_spawns@ == marks_of(text@, 'm')
                },
                Err(msg) => level_fault(text@) == Some(msg@),
            },
    {
        let chars: Vec<char> = collect_chars(text);
        let rows: Vec<Vec<char>> = split_rows(&chars);
        if rows.len() == 0 {
            return Err("El archivo de mapa está vacío".to_owned());
        }
        let w: usize = widest_row(&rows);
        let h: usize = rows.len();
        if h > MAX_DIM || w > MAX_DIM {
            return Err("El mapa es demasiado grande".to_owned());
        }
        let data: Vec<u8> = collect_cells(&rows, w);
        proof {
            lemma_cells_len(views(rows@), w as nat, h as nat);
        }
        let grid: Grid = match Grid::new(w, h, data) {
            Some(g) => g,
            None => {
                return Err("El mapa es demasiado grande".to_owned());
            },
        };
        proof {
            let rs = rows_of(text@);
            assert forall|x: int, y: int| 0 <= x < w && 0 <= y < rs.len() implies #[trigger] grid.occupancy(
                x,
                y,
            ) == cell_id(char_at(rs[y], x)) by {
                lemma_cells_index(rs, w as nat, h as nat, x, y);
                assert(y * w + x == y * grid.spec_w() + x);
            }
        }
        let players: Vec<(i32, i32)> = collect_marks(&rows, w, 'P');
        let player_spawn: Option<(i32, i32)> = if players.len() > 0 {
            Some(players[0])
        } else {
            None
        };
        Ok(
            Level {
                grid,
                player_spawn,
                enemy_spawns: collect_marks(&rows, w, 'E'),
                health_small_spawns: Vec::new(),
                health_big_spawns: collect_marks(&rows, w, 'H'),
                shield_small_spawns: Vec::new(),
                shield_big_spawns: collect_marks(&rows, w, 'S'),
                deco_block_spawns: collect_marks(&rows, w, 'B'),
                deco_ghost_spawns: collect_marks(&rows, w, 'b'),
                chest_spawns: collect_marks(&rows, w, 'C'),
                ammo_light_spawns: collect_marks(&rows, w, 't'),
                ammo_medium_spawns: collect_marks(&rows, w, 'y'),
                ammo_heavy_spawns: collect_marks(&rows, w, 'u'),
                ammo_shell_spawns: collect_marks(&rows, w, 'g'),
                ammo_rocket_spawns: collect_marks(&rows, w, 'r'),
                weapon_pistol_spawns: collect_marks(&rows, w, 'A'),
                weapon_smg_spawns: collect_marks(&rows, w, 'M'),
                weapon_rifle_spawns: collect_marks(&rows, w, 'R'),
                weapon_shotgun_spawns: collect_marks(&rows, w, 'O'),
                weapon_rocket_spawns: collect_marks(&rows, w, 'K'),
                heal_random_spawns: collect_marks(&rows, w, 'h'),
                shield_random_spawns: collect_marks(&rows, w, 's'),
                weapon_random_spawns: collect_marks(&rows, w, 'w'),
                ammo_random_spawns: collect_marks(&rows, w, 'm'),
            },
        )
    }
}

} // verus!
