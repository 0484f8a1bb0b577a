//! Plain-text tables: cells cut to a maximum width, columns padded to the
//! widest cell, trailing blanks trimmed.

use vstd::prelude::*;
use vstd::string::*;
use vstd::utf8::*;
use crate::text::{is_ws, char_is_whitespace, owned, push_char, push_str};

verus! {

/// Cells are cut to this many characters unless configured otherwise.
pub const DEFAULT_MAX_WIDTH: usize = 48;

/// Table rendering configuration for human output.
#[derive(Debug, Clone, Copy)]
pub struct TableConfig {
    pub max_width: Option<usize>,
    pub truncate: bool,
}

/// A cell cut to `max` characters, the cut marked with `...`.
pub open spec fn truncated(text: Seq<char>, max: nat) -> Seq<char> {
    if text.len() <= max {
        text
    } else if max <= 3 {
        "..."@
    } else {
        text.take(max - 3) + "..."@
    }
}

/// Cells that fit are kept whole; a cut cell fits in `max` characters
/// (when `max` leaves room for the `...`) and begins like the uncut text.
pub proof fn lemma_truncated_fits(text: Seq<char>, max: nat)
    ensures
        text.len() <= max ==> truncated(text, max) == text,
        max >= 3 ==> truncated(text, max).len() <= max,
        text.len() > max && max > 3 ==> truncated(text, max).take(max - 3) == text.take(max - 3),
{
    reveal_strlit("...");
    if text.len() > max && max > 3 {
        assert(truncated(text, max).take(max - 3) =~= text.take(max - 3));
    }
}

/// A cell cut to `max` characters, the cut marked with `...`.
pub fn truncate_cell(text: &str, max: usize) -> (r: String)
    ensures
        r@ == truncated(text@, max as nat),
{
    let n = text.unicode_len();
    if n <= max {
        return owned(text);
    }
    if max <= 3 {
        return owned("...");
    }
    let mut r = owned(text.substring_char(0, max - 3));
    push_str(&mut r, "...");
    r
}

/// `n` spaces.
pub open spec fn spaces(n: nat) -> Seq<char> {
    Seq::new(n, |i: int| ' ')
}

/// A cell left-aligned in a field of `w` characters.
pub open spec fn padded(cell: Seq<char>, w: nat) -> Seq<char> {
    if cell.len() < w {
        cell + spaces((w - cell.len()) as nat)
    } else {
        cell
    }
}

/// The byte length of a string as `str::len` reports it.
pub open spec fn byte_len(s: Seq<char>) -> usize {
    encode_utf8(s).len() as usize
}

/// The width of column `c`: the most bytes any cell of it takes.
pub open spec fn col_width(rows: Seq<Seq<Seq<char>>>, c: int) -> nat
    decreases rows.len(),
{
    if rows.len() == 0 {
        0
    } else {
        let w = col_width(rows.drop_last(), c);
        let here: nat = if 0 <= c < rows.last().len() {
            byte_len(rows.last()[c]) as nat
        } else {
            0
        };
        if w >= here {
            w
        } else {
            here
        }
    }
}

/// A row's cells padded to the column widths and joined with two spaces.
pub open spec fn row_text(row: Seq<Seq<char>>, rows: Seq<Seq<Seq<char>>>) -> Seq<char>
    decreases row.len(),
{
    if row.len() == 0 {
        Seq::empty()
    } else {
        let head = row_text(row.drop_last(), rows);
        let cell = padded(row.last(), col_width(rows, row.len() - 1));
        if row.len() == 1 {
            cell
        } else {
            head + "  "@ + cell
        }
    }
}

/// `s` without trailing whitespace.
pub open spec fn trim_end(s: Seq<char>) -> Seq<char>
    decreases s.len(),
{
    if s.len() > 0 && is_ws(s.last()) {
        trim_end(s.drop_last())
    } else {
        s
    }
}

/// The cell as shown: cut to the maximum width when cutting is on.
pub open spec fn shown_cell(cell: Seq<char>, cfg: TableConfig) -> Seq<char> {
    if cfg.truncate {
        truncated(
            cell,
            match cfg.max_width {
                Some(w) => w as nat,
                None => DEFAULT_MAX_WIDTH as nat,
            },
        )
    } else {
        cell
    }
}

/// The rows with every cell as shown.
pub open spec fn shown_rows(rows: Seq<Seq<Seq<char>>>, cfg: TableConfig) -> Seq<Seq<Seq<char>>> {
    rows.map_values(|r: Seq<Seq<char>>| r.map_values(|c: Seq<char>| shown_cell(c, cfg)))
}

/// The printed lines of a table.
pub open spec fn table_lines(rows: Seq<Seq<Seq<char>>>, cfg: TableConfig) -> Seq<Seq<char>> {
    let shown = shown_rows(rows, cfg);
    shown.map_values(|r: Seq<Seq<char>>| trim_end(row_text(r, shown)))
}

/// The text of each cell of each row.
pub open spec fn rows_view(rows: Seq<Vec<String>>) -> Seq<Seq<Seq<char>>> {
    rows.map_values(|r: Vec<String>| r@.map_values(|c: String| c@))
}

/// The text of each line.
pub open spec fn lines_view(lines: Seq<String>) -> Seq<Seq<char>> {
    lines.map_values(|l: String| l@)
}

/// `s` without trailing whitespace.
pub fn trim_end_string(s: &String) -> (r: String)
    ensures
        r@ == trim_end(s@),
{
    let n = s.as_str().unicode_len();
    let mut k: usize = n;
    assert(s@.take(n as int) =~= s@);
    while k > 0 && char_is_whitespace(s.as_str().get_char(k - 1))
        invariant
            k <= s@.len(),
            n == s@.len(),
            trim_end(s@) == trim_end(s@.take(k as int)),
        decreases k,
    {
        assert(s@.take(k as int).drop_last() =~= s@.take(k - 1));
        k = k - 1;
    }
    proof {
        if k > 0 {
            assert(s@.take(k as int).last() == s@[k - 1]);
        }
    }
    owned(s.as_str().substring_char(0, k))
}

/// Appends `cell` left-aligned in a field of `w` characters.
pub fn pad_cell_pub(line: &mut String, cell: &String, w: usize)
    ensures
        final(line)@ == old(line)@ + padded(cell@, w as nat),
{
    pad_cell(line, cell, w)
}

fn pad_cell(line: &mut String, cell: &String, w: usize)
    ensures
        final(line)@ == old(line)@ + padded(cell@, w as nat),
{
    push_str(line, cell.as_str());
    let n = cell.as_str().unicode_len();
    if n < w {
        let mut k: usize = n;
        let ghost base = old(line)@ + cell@;
        while k < w
            invariant
                n <= k <= w,
                n == cell@.len(),
                line@ == base + spaces((k - n) as nat),
            decreases w - k,
        {
            push_char(line, ' ');
            k = k + 1;
            assert(line@ =~= base + spaces((k - n) as nat));
        }
        assert(line@ =~= old(line)@ + padded(cell@, w as nat));
    } else {
        assert(line@ =~= old(line)@ + padded(cell@, w as nat));
    }
}

/// The cells of a row as shown.
fn shown_row(row: &Vec<String>, cfg: TableConfig) -> (r: Vec<String>)
    ensures
        r@.map_values(|c: String| c@) == row@.map_values(|c: String| c@).map_values(
            |c: Seq<char>| shown_cell(c, cfg),
        ),
{
    let max_width = match cfg.max_width {
        Some(w) => w,
        None => DEFAULT_MAX_WIDTH,
    };
    let mut r: Vec<String> = Vec::new();
    let mut j: usize = 0;
    while j < row.len()
        invariant
            j <= row@.len(),
            max_width as nat == match cfg.max_width {
                Some(w) => w as nat,
                None => DEFAULT_MAX_WIDTH as nat,
            },
            r@.map_values(|c: String| c@) == row@.map_values(|c: String| c@).map_values(
                |c: Seq<char>| shown_cell(c, cfg),
            ).take(j as int),
        decreases row.len() - j,
    {
        let cell = if cfg.truncate {
            truncate_cell(row[j].as_str(), max_width)
        } else {
            owned(row[j].as_str())
        };
        let ghost before = r@;
        let ghost target = row@.map_values(|c: String| c@).map_values(
            |c: Seq<char>| shown_cell(c, cfg),
        );
        assert(cell@ == shown_cell(row@[j as int]@, cfg));
        assert(target[j as int] == shown_cell(row@[j as int]@, cfg));
        r.push(cell);
        assert(r@ == before.push(cell));
        assert(r@.map_values(|c: String| c@) =~= before.map_values(|c: String| c@).push(cell@));
        assert(target.take(j + 1) =~= target.take(j as int).push(target[j as int]));
        j = j + 1;
    }
    assert(row@.map_values(|c: String| c@).map_values(|c: Seq<char>| shown_cell(c, cfg)).take(
        row@.len() as int,
    ) =~= row@.map_values(|c: String| c@).map_values(|c: Seq<char>| shown_cell(c, cfg)));
    r
}

/// Every row with its cells as shown.
fn shown_table(rows: &Vec<Vec<String>>, cfg: TableConfig) -> (r: Vec<Vec<String>>)
    ensures
        rows_view(r@) == shown_rows(rows_view(rows@), cfg),
{
    let mut r: Vec<Vec<String>> = Vec::new();
    let mut i: usize = 0;
    while i < rows.len()
        invariant
            i <= rows@.len(),
            rows_view(r@) == shown_rows(rows_view(rows@), cfg).take(i as int),
        decreases rows.len() - i,
    {
        let row = shown_row(&rows[i], cfg);
        let ghost before = r@;
        let ghost target = shown_rows(rows_view(rows@), cfg);
        assert(rows_view(rows@)[i as int] == rows@[i as int]@.map_values(|c: String| c@));
        assert(target[i as int] == rows_view(rows@)[i as int].map_values(|c: Seq<char>| shown_cell(c, cfg)));
        r.push(row);
        assert(r@ == before.push(row));
        assert(rows_view(r@) =~= rows_view(before).push(row@.map_values(|c: String| c@)));
        assert(target.take(i + 1) =~= target.take(i as int).push(target[i as int]));
        i = i + 1;
    }
    assert(shown_rows(rows_view(rows@), cfg).take(rows@.len() as int) =~= shown_rows(
        rows_view(rows@),
        cfg,
    ));
    r
}

/// The widths of the first `cols` columns.
fn column_widths(rows: &Vec<Vec<String>>, cols: usize) -> (w: Vec<usize>)
    requires
        forall|i: int| 0 <= i < rows@.len() ==> rows@[i]@.len() <= cols,
    ensures
        w@.len() == cols,
        forall|c: int| 0 <= c < cols ==> w@[c] as nat == col_width(rows_view(rows@), c),
{
    let mut w: Vec<usize> = Vec::new();
    let mut c: usize = 0;
    while c < cols
        invariant
            c <= cols,
            w@.len() == c,
            forall|k: int| 0 <= k < c ==> w@[k] == 0,
        decreases cols - c,
    {
        w.push(0);
        c = c + 1;
    }
    let mut i: usize = 0;
    while i < rows.len()
        invariant
            i <= rows@.len(),
            w@.len() == cols,
            forall|r: int| 0 <= r < rows@.len() ==> rows@[r]@.len() <= cols,
            forall|k: int| 0 <= k < cols ==> w@[k] as nat == col_width(rows_view(rows@).take(i as int), k),
        decreases rows.len() - i,
    {
        let ghost prev = rows_view(rows@).take(i as int);
        let ghost next = rows_view(rows@).take(i + 1);
        assert(next.drop_last() =~= prev);
        assert(next.len() == i + 1);
        let row = &rows[i];
        assert(next.last() == row@.map_values(|c: String| c@));
        let mut j: usize = 0;
        while j < row.len()
            invariant
                j <= row@.len(),
                row@.len() <= cols,
                w@.len() == cols,
                *row == rows@[i as int],
                next.drop_last() == prev,
                next.len() > 0,
                next.last() == row@.map_values(|c: String| c@),
                forall|k: int| 0 <= k < j ==> w@[k] as nat == col_width(next, k),
                forall|k: int| j <= k < cols ==> w@[k] as nat == col_width(prev, k),
            decreases row.len() - j,
        {
            let b = row[j].as_str().len();
            assert(b == byte_len(row@[j as int]@));
            assert(next.last()[j as int] == row@[j as int]@);
            assert(next.len() > 0);
            assert(col_width(next, j as int) == (if col_width(prev, j as int) >= b as nat {
                col_width(prev, j as int)
            } else {
                b as nat
            }));
            if b > w[j] {
                w.set(j, b);
            }
            j = j + 1;
        }
        proof {
            assert forall|k: int| 0 <= k < cols implies w@[k] as nat == col_width(next, k) by {
                if k >= row@.len() {
                    assert(col_width(next, k) == col_width(prev, k));
                }
            }
        }
        i = i + 1;
    }
    assert(rows_view(rows@).take(rows@.len() as int) =~= rows_view(rows@));
    w
}

/// The printed lines of a table.
pub fn render_table(rows: &Vec<Vec<String>>, cfg: TableConfig) -> (lines: Vec<String>)
    ensures
        lines_view(lines@) == table_lines(rows_view(rows@), cfg),
{
    let shown = shown_table(rows, cfg);
    let ghost sv = rows_view(shown@);
    let mut cols: usize = 0;
    let mut i: usize = 0;
    while i < shown.len()
        invariant
            i <= shown@.len(),
            forall|r: int| 0 <= r < i ==> shown@[r]@.len() <= cols,
        decreases shown.len() - i,
    {
        if shown[i].len() > cols {
            cols = shown[i].len();
        }
        i = i + 1;
    }
    let widths = column_widths(&shown, cols);
    let mut lines: Vec<String> = Vec::new();
    let mut i: usize = 0;
    while i < shown.len()
        invariant
            i <= shown@.len(),
            sv == rows_view(shown@),
            sv == shown_rows(rows_view(rows@), cfg),
            widths@.len() == cols,
            forall|r: int| 0 <= r < shown@.len() ==> shown@[r]@.len() <= cols,
            forall|c: int| 0 <= c < cols ==> widths@[c] as nat == col_width(sv, c),
            lines_view(lines@) == sv.map_values(|r: Seq<Seq<char>>| trim_end(row_text(r, sv))).take(
                i as int,
            ),
        decreases shown.len() - i,
    {
        let row = &shown[i];
        let ghost rv = row@.map_values(|c: String| c@);
        assert(sv[i as int] == rv);
        let mut line = String::new();
        let mut j: usize = 0;
        assert(rv.take(0) =~= Seq::<Seq<char>>::empty());
        while j < row.len()
            invariant
                j <= row@.len(),
                row@.len() <= cols,
                widths@.len() == cols,
                rv == row@.map_values(|c: String| c@),
                forall|c: int| 0 <= c < cols ==> widths@[c] as nat == col_width(sv, c),
                line@ == row_text(rv.take(j as int), sv),
            decreases row.len() - j,
        {
            assert(rv.take(j + 1).drop_last() =~= rv.take(j as int));
            if j > 0 {
                push_str(&mut line, "  ");
            }
            pad_cell(&mut line, &row[j], widths[j]);
            proof {
                reveal_strlit("  ");
            }
            j = j + 1;
            assert(line@ == row_text(rv.take(j as int), sv));
        }
        assert(rv.take(row@.len() as int) =~= rv);
        let l = trim_end_string(&line);
        let ghost before = lines@;
        let ghost target = sv.map_values(|r: Seq<Seq<char>>| trim_end(row_text(r, sv)));
        assert(target[i as int] == trim_end(row_text(rv, sv)));
        lines.push(l);
        assert(lines@ == before.push(l));
        assert(lines_view(lines@) =~= lines_view(before).push(l@));
        assert(target.take(i + 1) =~= target.take(i as int).push(target[i as int]));
        assert(lines_view(lines@) =~= sv.map_values(|r: Seq<Seq<char>>| trim_end(row_text(r, sv))).take(
            i + 1,
        ));
        i = i + 1;
    }
    assert(sv.map_values(|r: Seq<Seq<char>>| trim_end(row_text(r, sv))).take(shown@.len() as int)
        =~= sv.map_values(|r: Seq<Seq<char>>| trim_end(row_text(r, sv))));
    lines
}

} // verus!
