use crate::display::{grid_of, labels_of, table_text};
use vstd::prelude::*;

verus! {

/// The character for one decimal digit.
pub open spec fn digit(d: int) -> char {
    if d == 0 {
        '0'
    } else if d == 1 {
        '1'
    } else if d == 2 {
        '2'
    } else if d == 3 {
        '3'
    } else if d == 4 {
        '4'
    } else if d == 5 {
        '5'
    } else if d == 6 {
        '6'
    } else if d == 7 {
        '7'
    } else if d == 8 {
        '8'
    } else {
        '9'
    }
}

/// `n` in decimal, without leading zeros.
pub open spec fn decimal(n: nat) -> Seq<char>
    decreases n,
{
    if n < 10 {
        seq![digit(n as int)]
    } else {
        decimal(n / 10).push(digit((n % 10) as int))
    }
}

/// A count of hundredths as units and two decimal places.
pub open spec fn magnitude_text(size: nat) -> Seq<char> {
    decimal(size / 100) + seq!['.', digit((size % 100 / 10) as int), digit((size % 10) as int)]
}

/// An amount of hundredths as units and two decimal places, with a minus
/// sign in front where it is negative.
pub open spec fn money(amount: int) -> Seq<char> {
    if amount < 0 {
        seq!['-'] + magnitude_text((-amount) as nat)
    } else {
        magnitude_text(amount as nat)
    }
}

/// An amount of money with the currency sign in front.
pub open spec fn price_text(amount: int) -> Seq<char> {
    "$"@ + money(amount)
}

/// The fields of one item: of the first `n` headers each with its cell, on
/// a line of its own.
pub open spec fn fields_text(headers: Seq<Seq<char>>, cells: Seq<Seq<char>>, n: int) -> Seq<char>
    decreases n,
{
    if n <= 0 {
        Seq::empty()
    } else {
        fields_text(headers, cells, n - 1) + "  "@ + headers[n - 1] + ": "@ + cells[n - 1] + "\n"@
    }
}

/// One item of a list: its number, its fields as far as headers and cells
/// both reach, and an empty line.
pub open spec fn item_text(headers: Seq<Seq<char>>, cells: Seq<Seq<char>>, number: nat) -> Seq<
    char,
> {
    "Item "@ + decimal(number) + ":\n"@ + fields_text(
        headers,
        cells,
        vstd::math::min(headers.len() as int, cells.len() as int),
    ) + "\n"@
}

/// The first `n` items of a list, numbered from one.
pub open spec fn items_text(headers: Seq<Seq<char>>, rows: Seq<Seq<Seq<char>>>, n: int) -> Seq<
    char,
>
    decreases n,
{
    if n <= 0 {
        Seq::empty()
    } else {
        items_text(headers, rows, n - 1) + item_text(headers, rows[n - 1], n as nat)
    }
}

/// The text for one decimal digit.
fn digit_text(d: u128) -> (text: &'static str)
    requires
        d < 10,
    ensures
        text@ == seq![digit(d as int)],
{
    proof {
        reveal_strlit("0");
        reveal_strlit("1");
        reveal_strlit("2");
        reveal_strlit("3");
        reveal_strlit("4");
        reveal_strlit("5");
        reveal_strlit("6");
        reveal_strlit("7");
        reveal_strlit("8");
        reveal_strlit("9");
    }
    let text = if d == 0 {
        "0"
    } else if d == 1 {
        "1"
    } else if d == 2 {
        "2"
    } else if d == 3 {
        "3"
    } else if d == 4 {
        "4"
    } else if d == 5 {
        "5"
    } else if d == 6 {
        "6"
    } else if d == 7 {
        "7"
    } else if d == 8 {
        "8"
    } else {
        "9"
    };
    assert(text@ =~= seq![digit(d as int)]);
    text
}

/// Writes `n` in decimal.
pub fn decimal_string(n: u128) -> (text: String)
    ensures
        text@ == decimal(n as nat),
    decreases n,
{
    if n < 10 {
        String::from_str(digit_text(n))
    } else {
        let mut text = decimal_string(n / 10);
        text.append(digit_text(n % 10));
        assert(text@ =~= decimal(n as nat));
        text
    }
}

/// Writes a count of hundredths as units and two decimal places.
pub fn magnitude_string(size: u128) -> (text: String)
    ensures
        text@ == magnitude_text(size as nat),
{
    let mut text = decimal_string(size / 100);
    text.append(".");
    text.append(digit_text(size % 100 / 10));
    text.append(digit_text(size % 10));
    proof {
        reveal_strlit(".");
        assert(text@ =~= magnitude_text(size as nat));
    }
    text
}

/// Writes an amount of hundredths as units and two decimal places.
pub fn money_string(amount: i128) -> (text: String)
    ensures
        text@ == money(amount as int),
{
    if amount < 0 {
        proof {
            reveal_strlit("-");
        }
        let mut text = String::from_str("-");
        let size = magnitude_string(((-(amount + 1)) as u128) + 1);
        text.append(size.as_str());
        assert(text@ =~= money(amount as int));
        text
    } else {
        magnitude_string(amount as u128)
    }
}

/// Writes an amount of money with the currency sign in front.
pub fn price_string(amount: i128) -> (text: String)
    ensures
        text@ == price_text(amount as int),
{
    let mut text = String::from_str("$");
    let value = money_string(amount);
    text.append(value.as_str());
    text
}

/// Do `a` and `b` hold the same text?
pub fn same_text(a: &str, b: &str) -> (same: bool)
    ensures
        same == (a@ == b@),
{
    let left = String::from_str(a);
    let right = String::from_str(b);
    left == right
}

/// Lays `rows` out under `headers` as a table of left-aligned columns.
pub fn format_table(headers: Vec<&str>, rows: Vec<Vec<String>>) -> (table: String)
    requires
        forall|r: int| 0 <= r < rows@.len() ==> (#[trigger] rows@[r])@.len() == headers@.len(),
    ensures
        table@ == table_text(labels_of(headers@), grid_of(rows@)),
{
    crate::display::format_table(headers, rows)
}

/// Lays `rows` out as a numbered list of items, each field of a row on a
/// line of its own behind its header. A row longer than the headers, or
/// shorter, is shown as far as both reach.
pub fn format_list(headers: Vec<&str>, rows: Vec<Vec<String>>) -> (list: String)
    ensures
        list@ == items_text(labels_of(headers@), grid_of(rows@), rows@.len() as int),
{
    let ghost labels = labels_of(headers@);
    let ghost grid = grid_of(rows@);
    let mut list = String::new();
    let mut r: usize = 0;
    assert(list@ =~= items_text(labels, grid, 0));
    while r < rows.len()
        invariant
            r <= rows@.len(),
            labels == labels_of(headers@),
            grid == grid_of(rows@),
            list@ == items_text(labels, grid, r as int),
        decreases rows@.len() - r,
    {
        let ghost before = list@;
        let row = &rows[r];
        let ghost cells = grid[r as int];
        list.append("Item ");
        let number = decimal_string((r + 1) as u128);
        list.append(number.as_str());
        list.append(":\n");
        let ghost start = list@;
        let shown = if headers.len() < row.len() {
            headers.len()
        } else {
            row.len()
        };
        let mut k: usize = 0;
        assert(list@ =~= start + fields_text(labels, cells, 0));
        while k < shown
            invariant
                k <= shown,
                shown <= headers@.len(),
                shown <= row@.len(),
                labels == labels_of(headers@),
                cells == crate::display::texts_of(row@),
                list@ == start + fields_text(labels, cells, k as int),
            decreases shown - k,
        {
            list.append("  ");
            list.append(headers[k]);
            list.append(": ");
            list.append(row[k].as_str());
            list.append("\n");
            assert(list@ =~= start + fields_text(labels, cells, k + 1));
            k += 1;
        }
        list.append("\n");
        assert(list@ =~= before + item_text(labels, cells, (r + 1) as nat));
        r += 1;
    }
    list
}

} // verus!
