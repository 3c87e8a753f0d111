use crate::display::{grid_of, labels_of, texts_of};
use crate::inventory::{Inventory, ProductView};
use crate::transaction::{
    amount, lemma_total_fits, of_kind, views_of, Transaction, TransactionManager, TransactionType,
    TransactionView,
};
use crate::util::{
    decimal, decimal_string, format_list, items_text, magnitude_string, magnitude_text,
    price_string, price_text, same_text,
};
use vstd::prelude::*;

verus! {

/// The most entries a ledger may hold for its totals to be sure to fit.
pub const MAX_ENTRIES: usize = 0xFFFF_FFFF;

/// What one entry adds to a total: its unit price times its quantity.
pub open spec fn amount_of(t: TransactionView) -> int {
    t.price * t.quantity
}

/// The sum of the amounts of `entries`.
pub open spec fn sum_amounts(entries: Seq<TransactionView>) -> int
    decreases entries.len(),
{
    if entries.len() == 0 {
        0
    } else {
        sum_amounts(entries.drop_last()) + amount_of(entries.last())
    }
}

/// The total amount of the entries of one kind.
pub open spec fn total_of(ledger: Seq<TransactionView>, kind: TransactionType) -> int {
    sum_amounts(of_kind(ledger, kind))
}

/// Revenue from sales less the cost of purchases.
pub open spec fn balance_of(ledger: Seq<TransactionView>) -> int {
    total_of(ledger, TransactionType::Sale) - total_of(ledger, TransactionType::Purchase)
}

/// The absolute value of `x`.
pub open spec fn size_of(x: int) -> int {
    if x < 0 {
        -x
    } else {
        x
    }
}

/// One more entry changes the total of its own kind by its amount and no
/// other total.
pub proof fn lemma_total_push(
    ledger: Seq<TransactionView>,
    t: TransactionView,
    kind: TransactionType,
)
    ensures
        total_of(ledger.push(t), kind) == total_of(ledger, kind) + if t.transaction_type == kind {
            amount_of(t)
        } else {
            0
        },
{
    let pred = |e: TransactionView| e.transaction_type == kind;
    ledger.lemma_filter_push(t, pred);
    if t.transaction_type == kind {
        assert(ledger.filter(pred).push(t).drop_last() =~= ledger.filter(pred));
    }
}

/// The total of an empty ledger is zero.
pub proof fn lemma_total_empty(kind: TransactionType)
    ensures
        total_of(Seq::<TransactionView>::empty(), kind) == 0,
{
    reveal(Seq::filter);
}

/// The total of the sales and the total of the purchases.
fn totals(transactions: &TransactionManager) -> (sums: (i128, i128))
    requires
        transactions@.len() <= MAX_ENTRIES,
    ensures
        sums.0 == total_of(transactions@, TransactionType::Sale),
        sums.1 == total_of(transactions@, TransactionType::Purchase),
        size_of(sums.0 as int) + size_of(sums.1 as int) <= transactions@.len()
            * 39614081247908796759917199360,
{
    let ghost ledger = transactions@;
    let mut sold: i128 = 0;
    let mut bought: i128 = 0;
    let mut i: usize = 0;
    proof {
        assert(ledger.take(0) =~= Seq::<TransactionView>::empty());
        lemma_total_empty(TransactionType::Sale);
        lemma_total_empty(TransactionType::Purchase);
    }
    while i < transactions.transactions.len()
        invariant
            i <= ledger.len(),
            ledger == transactions@,
            ledger.len() == transactions.transactions@.len(),
            ledger.len() <= MAX_ENTRIES,
            sold == total_of(ledger.take(i as int), TransactionType::Sale),
            bought == total_of(ledger.take(i as int), TransactionType::Purchase),
            size_of(sold as int) + size_of(bought as int) <= i * 39614081247908796759917199360,
        decreases ledger.len() - i,
    {
        let t = &transactions.transactions[i];
        let a = amount(t.price, t.quantity);
        proof {
            lemma_total_fits(t.price, t.quantity);
            ledger.lemma_take_succ_push(i as int);
            lemma_total_push(ledger.take(i as int), ledger[i as int], TransactionType::Sale);
            lemma_total_push(ledger.take(i as int), ledger[i as int], TransactionType::Purchase);
            assert(amount_of(ledger[i as int]) == a);
            assert(size_of(a as int) <= 39614081247908796759917199360);
        }
        match t.transaction_type {
            TransactionType::Sale => {
                sold = sold + a;
            },
            TransactionType::Purchase => {
                bought = bought + a;
            },
        }
        i += 1;
    }
    assert(ledger.take(i as int) =~= ledger);
    (sold, bought)
}

/// Total sale revenue: the sum of price times quantity over the sales.
pub fn total_sales(transactions: &TransactionManager) -> (total: i128)
    requires
        transactions@.len() <= MAX_ENTRIES,
    ensures
        total == total_of(transactions@, TransactionType::Sale),
{
    totals(transactions).0
}

/// Total purchase cost: the sum of price times quantity over the
/// purchases.
pub fn total_purchases(transactions: &TransactionManager) -> (total: i128)
    requires
        transactions@.len() <= MAX_ENTRIES,
    ensures
        total == total_of(transactions@, TransactionType::Purchase),
{
    totals(transactions).1
}

/// A balance as its sign and its size.
#[derive(Debug, Clone, Copy, PartialEq, Eq, Structural)]
pub struct Balance {
    pub is_loss: bool,
    pub size: u128,
}

/// Revenue less cost, as sign and size: `is_loss` says that cost exceeds
/// revenue, `size` by how much the two differ.
pub fn profit_or_loss(transactions: &TransactionManager) -> (balance: Balance)
    requires
        transactions@.len() <= MAX_ENTRIES,
    ensures
        balance.is_loss == (balance_of(transactions@) < 0),
        balance.size == size_of(balance_of(transactions@)),
{
    let sums = totals(transactions);
    let difference = sums.0 - sums.1;
    if difference < 0 {
        Balance { is_loss: true, size: ((-(difference + 1)) as u128) + 1 }
    } else {
        Balance { is_loss: false, size: difference as u128 }
    }
}

/// The headers of the inventory report.
pub open spec fn inventory_headers() -> Seq<Seq<char>> {
    seq!["Product"@, "Description"@, "Price"@, "Quantity"@]
}

/// The cells that the inventory report shows for one product.
pub open spec fn inventory_row(p: ProductView) -> Seq<Seq<char>> {
    seq![p.name, p.description, price_text(p.price), decimal(p.quantity)]
}

/// The rows of the inventory report.
pub open spec fn inventory_rows(listing: Seq<ProductView>) -> Seq<Seq<Seq<char>>> {
    Seq::new(listing.len(), |i: int| inventory_row(listing[i]))
}

/// The inventory report: a title, and every product as an item of a list.
pub open spec fn inventory_report_text(listing: Seq<ProductView>) -> Seq<char> {
    "\n--- Inventory Report: ---\n"@ + "-----------------\n"@ + items_text(
        inventory_headers(),
        inventory_rows(listing),
        listing.len() as int,
    )
}

/// The headers of the sales report.
pub open spec fn sales_headers() -> Seq<Seq<char>> {
    seq!["Product"@, "Quantity Sold"@, "Sale Price"@, "Amount"@]
}

/// The headers of the purchase report.
pub open spec fn purchase_headers() -> Seq<Seq<char>> {
    seq!["Product"@, "Quantity Bought"@, "Purchase Price"@, "Amount"@]
}

/// The cells that a report shows for one ledger entry.
pub open spec fn ledger_row(t: TransactionView) -> Seq<Seq<char>> {
    seq![t.product_name, decimal(t.quantity), price_text(t.price), price_text(amount_of(t))]
}

/// The rows that a report shows for `entries`.
pub open spec fn ledger_rows(entries: Seq<TransactionView>) -> Seq<Seq<Seq<char>>> {
    Seq::new(entries.len(), |i: int| ledger_row(entries[i]))
}

/// The sales report: a title, every sale as an item of a list, and the
/// total revenue.
pub open spec fn sales_report_text(ledger: Seq<TransactionView>) -> Seq<char> {
    let sales = of_kind(ledger, TransactionType::Sale);
    "\n--- Sales Report: ---\n"@ + "----------------------\n"@ + items_text(
        sales_headers(),
        ledger_rows(sales),
        sales.len() as int,
    ) + "Total Sales: "@ + price_text(sum_amounts(sales)) + "\n"@
}

/// The purchase report: a title, every purchase as an item of a list, and
/// the total cost.
pub open spec fn purchase_report_text(ledger: Seq<TransactionView>) -> Seq<char> {
    let purchases = of_kind(ledger, TransactionType::Purchase);
    "\n--- Purchase Report: ---\n"@ + "--------------------------\n"@ + items_text(
        purchase_headers(),
        ledger_rows(purchases),
        purchases.len() as int,
    ) + "Total Purchases: "@ + price_text(sum_amounts(purchases)) + "\n"@
}

/// The summary of profit or loss: the size of the balance, with a minus
/// sign before the currency sign where it is a loss.
pub open spec fn profit_loss_text(ledger: Seq<TransactionView>) -> Seq<char> {
    "===============================\n"@ + "Total Profit/Loss: "@ + (if balance_of(ledger) < 0 {
        "-"@
    } else {
        ""@
    }) + "$"@ + magnitude_text(size_of(balance_of(ledger)) as nat) + "\n"@
        + "===============================\n"@
}

/// What is shown for a choice of report: for `1` the inventory report, for
/// `2` the sales report, for `3` the purchase report, for anything else all
/// three and the summary of profit or loss; each followed by a line break.
pub open spec fn reports_text(
    choice: Seq<char>,
    ledger: Seq<TransactionView>,
    listing: Seq<ProductView>,
) -> Seq<char> {
    if choice == "1"@ {
        inventory_report_text(listing) + "\n"@
    } else if choice == "2"@ {
        sales_report_text(ledger) + "\n"@
    } else if choice == "3"@ {
        purchase_report_text(ledger) + "\n"@
    } else {
        inventory_report_text(listing) + "\n"@ + sales_report_text(ledger) + "\n"@
            + purchase_report_text(ledger) + "\n"@ + profit_loss_text(ledger) + "\n"@
    }
}

/// The inventory report.
pub fn generate_inventory_report(inventory: &Inventory) -> (report: String)
    ensures
        report@ == inventory_report_text(inventory.listing()),
{
    let mut headers: Vec<&str> = Vec::new();
    headers.push("Product");
    headers.push("Description");
    headers.push("Price");
    headers.push("Quantity");
    assert(labels_of(headers@) =~= inventory_headers());
    let products = inventory.list();
    let mut rows: Vec<Vec<String>> = Vec::new();
    let mut i: usize = 0;
    while i < products.len()
        invariant
            i <= products@.len(),
            rows@.len() == i,
            forall|k: int|
                0 <= k < i ==> texts_of((#[trigger] rows@[k])@) == inventory_row(products@[k]@),
        decreases products@.len() - i,
    {
        let p = products[i];
        let mut row: Vec<String> = Vec::new();
        row.push(p.name.clone());
        row.push(p.description.clone());
        row.push(price_string(p.price as i128));
        row.push(decimal_string(p.quantity as u128));
        assert(texts_of(row@) =~= inventory_row(p@));
        rows.push(row);
        i += 1;
    }
    assert(grid_of(rows@) =~= inventory_rows(inventory.listing()));
    let mut report = String::from_str("\n--- Inventory Report: ---\n");
    report.append("-----------------\n");
    let list = format_list(headers, rows);
    report.append(list.as_str());
    report
}

/// The rows that a report shows for `entries`.
fn rows_of(entries: &Vec<&Transaction>) -> (rows: Vec<Vec<String>>)
    ensures
        rows@.len() == entries@.len(),
        grid_of(rows@) == ledger_rows(views_of(entries@)),
{
    let mut rows: Vec<Vec<String>> = Vec::new();
    let mut i: usize = 0;
    while i < entries.len()
        invariant
            i <= entries@.len(),
            rows@.len() == i,
            forall|k: int|
                0 <= k < i ==> texts_of((#[trigger] rows@[k])@) == ledger_row(entries@[k]@),
        decreases entries@.len() - i,
    {
        let t = entries[i];
        let mut row: Vec<String> = Vec::new();
        row.push(t.product_name.clone());
        row.push(decimal_string(t.quantity as u128));
        row.push(price_string(t.price as i128));
        row.push(price_string(amount(t.price, t.quantity)));
        assert(texts_of(row@) =~= ledger_row(t@));
        rows.push(row);
        i += 1;
    }
    assert(grid_of(rows@) =~= ledger_rows(views_of(entries@)));
    rows
}

/// The sales report.
pub fn generate_sales_report(transactions: &TransactionManager) -> (report: String)
    requires
        transactions@.len() <= MAX_ENTRIES,
    ensures
        report@ == sales_report_text(transactions@),
{
    let mut headers: Vec<&str> = Vec::new();
    headers.push("Product");
    headers.push("Quantity Sold");
    headers.push("Sale Price");
    headers.push("Amount");
    assert(labels_of(headers@) =~= sales_headers());
    let sales = transactions.sales();
    let rows = rows_of(&sales);
    let total = total_sales(transactions);
    let mut report = String::from_str("\n--- Sales Report: ---\n");
    report.append("----------------------\n");
    let list = format_list(headers, rows);
    report.append(list.as_str());
    report.append("Total Sales: ");
    report.append(price_string(total).as_str());
    report.append("\n");
    report
}

/// The purchase report.
pub fn generate_purchase_report(transactions: &TransactionManager) -> (report: String)
    requires
        transactions@.len() <= MAX_ENTRIES,
    ensures
        report@ == purchase_report_text(transactions@),
{
    let mut headers: Vec<&str> = Vec::new();
    headers.push("Product");
    headers.push("Quantity Bought");
    headers.push("Purchase Price");
    headers.push("Amount");
    assert(labels_of(headers@) =~= purchase_headers());
    let purchases = transactions.purchases();
    let rows = rows_of(&purchases);
    let total = total_purchases(transactions);
    let mut report = String::from_str("\n--- Purchase Report: ---\n");
    report.append("--------------------------\n");
    let list = format_list(headers, rows);
    report.append(list.as_str());
    report.append("Total Purchases: ");
    report.append(price_string(total).as_str());
    report.append("\n");
    report
}

/// The summary of profit or loss.
pub fn generate_profit_loss_summary(transactions: &TransactionManager) -> (summary: String)
    requires
        transactions@.len() <= MAX_ENTRIES,
    ensures
        summary@ == profit_loss_text(transactions@),
{
    let balance = profit_or_loss(transactions);
    let mut summary = String::from_str("===============================\n");
    summary.append("Total Profit/Loss: ");
    if balance.is_loss {
        summary.append("-");
    } else {
        summary.append("");
    }
    summary.append("$");
    summary.append(magnitude_string(balance.size).as_str());
    summary.append("\n");
    summary.append("===============================\n");
    summary
}

/// The reports for a choice, as they are shown: see [`reports_text`].
pub fn generate_reports(
    transactions: &TransactionManager,
    inventory: &Inventory,
    choice: &str,
) -> (shown: String)
    requires
        choice@ != "1"@ ==> transactions@.len() <= MAX_ENTRIES,
    ensures
        shown@ == reports_text(choice@, transactions@, inventory.listing()),
{
    if same_text(choice, "1") {
        let mut shown = generate_inventory_report(inventory);
        shown.append("\n");
        shown
    } else if same_text(choice, "2") {
        let mut shown = generate_sales_report(transactions);
        shown.append("\n");
        shown
    } else if same_text(choice, "3") {
        let mut shown = generate_purchase_report(transactions);
        shown.append("\n");
        shown
    } else {
        let mut shown = generate_inventory_report(inventory);
        shown.append("\n");
        shown.append(generate_sales_report(transactions).as_str());
        shown.append("\n");
        shown.append(generate_purchase_report(transactions).as_str());
        shown.append("\n");
        shown.append(generate_profit_loss_summary(transactions).as_str());
        shown.append("\n");
        shown
    }
}

} // verus!
