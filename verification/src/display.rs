use vstd::prelude::*;
use vstd::utf8::encode_utf8;

verus! {

/// The length of `s` in bytes of UTF-8.
pub open spec fn byte_len(s: Seq<char>) -> int {
    encode_utf8(s).len() as int
}

/// `n` copies of `c`; none where `n` is not positive.
pub open spec fn repeat(c: char, n: int) -> Seq<char> {
    Seq::new(
        if n > 0 {
            n as nat
        } else {
            0
        },
        |i: int| c,
    )
}

/// `s` followed by as many spaces as it lacks characters to `width`.
pub open spec fn padded(s: Seq<char>, width: int) -> Seq<char> {
    s + repeat(' ', width - s.len())
}

/// The texts of a row of header labels.
pub open spec fn labels_of(headers: Seq<&str>) -> Seq<Seq<char>> {
    Seq::new(headers.len(), |i: int| headers[i]@)
}

/// The texts of a row of cells.
pub open spec fn texts_of(cells: Seq<String>) -> Seq<Seq<char>> {
    Seq::new(cells.len(), |i: int| cells[i]@)
}

/// The texts of the rows of a table.
pub open spec fn grid_of(rows: Seq<Vec<String>>) -> Seq<Seq<Seq<char>>> {
    Seq::new(rows.len(), |r: int| texts_of(rows[r]@))
}

/// The greatest byte length in `column` over the first `n` rows.
pub open spec fn widest_cell(rows: Seq<Seq<Seq<char>>>, column: int, n: int) -> int
    decreases n,
{
    if n <= 0 {
        0
    } else {
        vstd::math::max(widest_cell(rows, column, n - 1), byte_len(rows[n - 1][column]))
    }
}

/// The width of a column: the byte length of its header or of its longest
/// cell, whichever is greater.
pub open spec fn column_width(
    headers: Seq<Seq<char>>,
    rows: Seq<Seq<Seq<char>>>,
    column: int,
) -> int {
    vstd::math::max(byte_len(headers[column]), widest_cell(rows, column, rows.len() as int))
}

/// The widths of all columns.
pub open spec fn column_widths(headers: Seq<Seq<char>>, rows: Seq<Seq<Seq<char>>>) -> Seq<int> {
    Seq::new(headers.len(), |i: int| column_width(headers, rows, i))
}

/// The first `n` cells of a line, each padded to its column's width and
/// followed by one space.
pub open spec fn cells_text(cells: Seq<Seq<char>>, widths: Seq<int>, n: int) -> Seq<char>
    decreases n,
{
    if n <= 0 {
        Seq::empty()
    } else {
        cells_text(cells, widths, n - 1) + padded(cells[n - 1], widths[n - 1]) + seq![' ']
    }
}

/// One line of the table.
pub open spec fn line_text(cells: Seq<Seq<char>>, widths: Seq<int>) -> Seq<char> {
    cells_text(cells, widths, cells.len() as int) + seq!['\n']
}

/// The first `n` columns of the rule under the headers: for each a run of
/// dashes as wide as the column, of one dash at least, and one space.
pub open spec fn rule_text(widths: Seq<int>, n: int) -> Seq<char>
    decreases n,
{
    if n <= 0 {
        Seq::empty()
    } else {
        rule_text(widths, n - 1) + repeat('-', vstd::math::max(1, widths[n - 1])) + seq![' ']
    }
}

/// The lines of the first `n` rows.
pub open spec fn rows_text(rows: Seq<Seq<Seq<char>>>, widths: Seq<int>, n: int) -> Seq<char>
    decreases n,
{
    if n <= 0 {
        Seq::empty()
    } else {
        rows_text(rows, widths, n - 1) + line_text(rows[n - 1], widths)
    }
}

/// The whole table: the header line, the rule, and one line for each row.
pub open spec fn table_text(headers: Seq<Seq<char>>, rows: Seq<Seq<Seq<char>>>) -> Seq<char> {
    let widths = column_widths(headers, rows);
    line_text(headers, widths) + rule_text(widths, widths.len() as int) + seq!['\n'] + rows_text(
        rows,
        widths,
        rows.len() as int,
    )
}

/// Appends `count` copies of the one character of `fill`.
fn push_run(out: &mut String, fill: &str, c: char, count: usize)
    requires
        fill@ == seq![c],
    ensures
        final(out)@ == old(out)@ + repeat(c, count as int),
{
    let mut n: usize = 0;
    assert(out@ =~= old(out)@ + repeat(c, 0));
    while n < count
        invariant
            n <= count,
            fill@ == seq![c],
            out@ == old(out)@ + repeat(c, n as int),
        decreases count - n,
    {
        out.append(fill);
        assert(out@ =~= old(out)@ + repeat(c, n + 1));
        n += 1;
    }
}

/// Appends `text`, left-aligned in a field of `width` characters.
pub fn push_padded(out: &mut String, text: &str, width: usize)
    ensures
        final(out)@ == old(out)@ + padded(text@, width as int),
{
    out.append(text);
    let have = text.unicode_len();
    let missing = if have < width {
        width - have
    } else {
        0
    };
    proof {
        reveal_strlit(" ");
        assert(" "@ =~= seq![' ']);
    }
    push_run(out, " ", ' ', missing);
    assert(repeat(' ', missing as int) =~= repeat(' ', width as int - text@.len()));
    assert(out@ =~= old(out)@ + padded(text@, width as int));
}

/// The width of every column of the table.
fn measure(headers: &Vec<&str>, rows: &Vec<Vec<String>>) -> (widths: Vec<usize>)
    requires
        forall|r: int| 0 <= r < rows@.len() ==> (#[trigger] rows@[r])@.len() == headers@.len(),
    ensures
        widths@.len() == headers@.len(),
        forall|i: int|
            0 <= i < widths@.len() ==> (#[trigger] widths@[i]) as int == column_width(
                labels_of(headers@),
                grid_of(rows@),
                i,
            ),
{
    let ghost labels = labels_of(headers@);
    let ghost grid = grid_of(rows@);
    let mut widths: Vec<usize> = Vec::new();
    let mut i: usize = 0;
    while i < headers.len()
        invariant
            i <= headers@.len(),
            labels == labels_of(headers@),
            grid == grid_of(rows@),
            forall|r: int| 0 <= r < rows@.len() ==> (#[trigger] rows@[r])@.len() == headers@.len(),
            widths@.len() == i,
            forall|k: int|
                0 <= k < i ==> (#[trigger] widths@[k]) as int == column_width(labels, grid, k),
        decreases headers@.len() - i,
    {
        let mut widest: usize = 0;
        let mut r: usize = 0;
        while r < rows.len()
            invariant
                r <= rows@.len(),
                i < headers@.len(),
                grid == grid_of(rows@),
                forall|r: int|
                    0 <= r < rows@.len() ==> (#[trigger] rows@[r])@.len() == headers@.len(),
                widest as int == widest_cell(grid, i as int, r as int),
            decreases rows@.len() - r,
        {
            let row = &rows[r];
            assert(rows@[r as int]@.len() == headers@.len());
            let len = row[i].as_str().as_bytes().len();
            assert(len as int == byte_len(grid[r as int][i as int]));
            if len > widest {
                widest = len;
            }
            r += 1;
        }
        let own = headers[i].as_bytes().len();
        assert(own as int == byte_len(labels[i as int]));
        let width = if own > widest {
            own
        } else {
            widest
        };
        widths.push(width);
        i += 1;
    }
    widths
}

/// Appends one line of the table.
fn push_line(out: &mut String, cells: &Vec<String>, widths: &Vec<usize>)
    requires
        cells@.len() == widths@.len(),
    ensures
        final(out)@ == old(out)@ + line_text(
            texts_of(cells@),
            Seq::new(widths@.len(), |i: int| widths@[i] as int),
        ),
{
    let ghost texts = texts_of(cells@);
    let ghost w = Seq::new(widths@.len(), |i: int| widths@[i] as int);
    let mut i: usize = 0;
    assert(out@ =~= old(out)@ + cells_text(texts, w, 0));
    while i < cells.len()
        invariant
            i <= cells@.len(),
            cells@.len() == widths@.len(),
            texts == texts_of(cells@),
            w == Seq::new(widths@.len(), |i: int| widths@[i] as int),
            out@ == old(out)@ + cells_text(texts, w, i as int),
        decreases cells@.len() - i,
    {
        let ghost before = out@;
        push_padded(out, cells[i].as_str(), widths[i]);
        out.append(" ");
        proof {
            reveal_strlit(" ");
            assert(" "@ =~= seq![' ']);
            assert(out@ =~= old(out)@ + cells_text(texts, w, i + 1));
        }
        i += 1;
    }
    out.append("\n");
    proof {
        reveal_strlit("\n");
        assert("\n"@ =~= seq!['\n']);
        assert(out@ =~= old(out)@ + line_text(texts, w));
    }
}

/// Lays `rows` out under `headers` as a table of left-aligned columns.
///
/// Each column is as wide as the byte length of its longest text. A text
/// with fewer characters than that is followed by spaces; every cell is
/// followed by one space more. Under the header line stands a rule of
/// dashes.
pub fn format_table(headers: Vec<&str>, rows: Vec<Vec<String>>) -> (table: String)
    requires
        forall|r: int| 0 <= r < rows@.len() ==> (#[trigger] rows@[r])@.len() == headers@.len(),
    ensures
        table@ == table_text(labels_of(headers@), grid_of(rows@)),
{
    let ghost labels = labels_of(headers@);
    let ghost grid = grid_of(rows@);
    let ghost w = column_widths(labels, grid);
    let widths = measure(&headers, &rows);
    assert(Seq::new(widths@.len(), |i: int| widths@[i] as int) =~= w);
    let mut table = String::new();

    let mut i: usize = 0;
    assert(table@ =~= cells_text(labels, w, 0));
    while i < headers.len()
        invariant
            i <= headers@.len(),
            widths@.len() == headers@.len(),
            labels == labels_of(headers@),
            w == Seq::new(widths@.len(), |i: int| widths@[i] as int),
            table@ == cells_text(labels, w, i as int),
        decreases headers@.len() - i,
    {
        push_padded(&mut table, headers[i], widths[i]);
        table.append(" ");
        proof {
            reveal_strlit(" ");
            assert(" "@ =~= seq![' ']);
            assert(table@ =~= cells_text(labels, w, i + 1));
        }
        i += 1;
    }
    table.append("\n");
    proof {
        reveal_strlit("\n");
        reveal_strlit("-");
        reveal_strlit(" ");
        assert("\n"@ =~= seq!['\n']);
        assert("-"@ =~= seq!['-']);
        assert(" "@ =~= seq![' ']);
    }
    let ghost head = line_text(labels, w);
    assert(table@ =~= head + rule_text(w, 0));

    let mut k: usize = 0;
    while k < widths.len()
        invariant
            k <= widths@.len(),
            w == Seq::new(widths@.len(), |i: int| widths@[i] as int),
            "-"@ == seq!['-'],
            " "@ == seq![' '],
            table@ == head + rule_text(w, k as int),
        decreases widths@.len() - k,
    {
        let dashes = if widths[k] > 1 {
            widths[k]
        } else {
            1
        };
        push_run(&mut table, "-", '-', dashes);
        table.append(" ");
        assert(table@ =~= head + rule_text(w, k + 1));
        k += 1;
    }
    table.append("\n");
    let ghost top = head + rule_text(w, w.len() as int) + seq!['\n'];
    assert(table@ =~= top + rows_text(grid, w, 0));

    let mut r: usize = 0;
    while r < rows.len()
        invariant
            r <= rows@.len(),
            forall|r: int| 0 <= r < rows@.len() ==> (#[trigger] rows@[r])@.len() == headers@.len(),
            widths@.len() == headers@.len(),
            grid == grid_of(rows@),
            w == Seq::new(widths@.len(), |i: int| widths@[i] as int),
            table@ == top + rows_text(grid, w, r as int),
        decreases rows@.len() - r,
    {
        assert(rows@[r as int]@.len() == headers@.len());
        push_line(&mut table, &rows[r], &widths);
        assert(table@ =~= top + rows_text(grid, w, r + 1));
        r += 1;
    }
    table
}

} // verus!
