use crate::display::{
    format_table, grid_of, labels_of, padded, push_padded, table_text, texts_of,
};
use crate::inventory::{Inventory, InventoryManagement, Product, ProductView};
use crate::util::{decimal, decimal_string, money, money_string, price_string, price_text};
use vstd::prelude::*;

verus! {

/// The two kinds of ledger entry.
#[derive(Debug, Clone, Copy, PartialEq, Eq, Structural)]
pub enum TransactionType {
    Sale,
    Purchase,
}

/// One ledger entry. `price` is the unit price in hundredths of the
/// currency unit and `total` the amount for all units, both fixed when the
/// entry is recorded.
#[derive(Debug, Clone)]
pub struct Transaction {
    pub transaction_type: TransactionType,
    pub product_name: String,
    pub quantity: u32,
    pub price: i64,
    pub total: i128,
}

/// The mathematical value of a [`Transaction`].
pub struct TransactionView {
    pub transaction_type: TransactionType,
    pub product_name: Seq<char>,
    pub quantity: nat,
    pub price: int,
    pub total: int,
}

impl View for Transaction {
    type V = TransactionView;

    open spec fn view(&self) -> TransactionView {
        TransactionView {
            transaction_type: self.transaction_type,
            product_name: self.product_name@,
            quantity: self.quantity as nat,
            price: self.price as int,
            total: self.total as int,
        }
    }
}

/// The name of a kind of entry.
pub open spec fn kind_text(kind: TransactionType) -> Seq<char> {
    match kind {
        TransactionType::Sale => "Sale"@,
        TransactionType::Purchase => "Purchase"@,
    }
}

/// An entry on one line: its kind, product, quantity, unit price and
/// total, each left-aligned in a field of its own (of 20 characters for the
/// product, of 10 for the others), with one space between fields.
pub open spec fn entry_line(t: TransactionView) -> Seq<char> {
    padded(kind_text(t.transaction_type), 10) + " "@ + padded(t.product_name, 20) + " "@ + padded(
        decimal(t.quantity),
        10,
    ) + " "@ + padded(money(t.price), 10) + " "@ + padded(money(t.total), 10)
}

impl Transaction {
    /// Writes the entry on one line.
    pub fn to_text(&self) -> (text: String)
        ensures
            text@ == entry_line(self@),
    {
        let kind = match self.transaction_type {
            TransactionType::Sale => "Sale",
            TransactionType::Purchase => "Purchase",
        };
        let mut text = String::new();
        push_padded(&mut text, kind, 10);
        text.append(" ");
        push_padded(&mut text, self.product_name.as_str(), 20);
        text.append(" ");
        push_padded(&mut text, decimal_string(self.quantity as u128).as_str(), 10);
        text.append(" ");
        push_padded(&mut text, money_string(self.price as i128).as_str(), 10);
        text.append(" ");
        push_padded(&mut text, money_string(self.total).as_str(), 10);
        assert(text@ =~= entry_line(self@));
        text
    }
}

/// Why a sale was refused.
#[derive(Debug, Clone, Copy, PartialEq, Eq, Structural)]
pub enum TransactionError {
    /// No catalog entry has the given name.
    ProductNotFound,
    /// Fewer units are in stock than the sale asks for.
    InsufficientStock,
}

impl TransactionError {
    /// The text shown to a user for this error.
    pub open spec fn message_text(self) -> Seq<char> {
        match self {
            TransactionError::ProductNotFound => "Product not found."@,
            TransactionError::InsufficientStock => "Not enough stock to complete the sale."@,
        }
    }

    /// Writes the text shown to a user for this error.
    pub fn message(&self) -> (text: String)
        ensures
            text@ == self.message_text(),
    {
        match self {
            TransactionError::ProductNotFound => String::from_str("Product not found."),
            TransactionError::InsufficientStock => String::from_str(
                "Not enough stock to complete the sale.",
            ),
        }
    }
}

/// The entry that records `quantity` units of `product_name` at `price`
/// each.
pub open spec fn entry(
    transaction_type: TransactionType,
    product_name: Seq<char>,
    quantity: nat,
    price: int,
) -> TransactionView {
    TransactionView { transaction_type, product_name, quantity, price, total: price * quantity }
}

/// The entries of `ledger` of one kind, in ledger order.
pub open spec fn of_kind(
    ledger: Seq<TransactionView>,
    transaction_type: TransactionType,
) -> Seq<TransactionView> {
    ledger.filter(|t: TransactionView| t.transaction_type == transaction_type)
}

/// `p` with `units` more in stock (fewer, where `units` is negative).
pub open spec fn restocked(p: ProductView, units: int) -> ProductView {
    ProductView { quantity: (p.quantity + units) as nat, ..p }
}

/// The entry that a purchase of an unknown product creates.
pub open spec fn purchased_product(name: Seq<char>, quantity: nat, price: int) -> ProductView {
    ProductView { name, description: "Purchased Product"@, price, quantity }
}

/// The views of the entries that `refs` points to.
pub open spec fn views_of(refs: Seq<&Transaction>) -> Seq<TransactionView> {
    Seq::new(refs.len(), |i: int| refs[i]@)
}

/// The product of a unit price and a count of units fits the type of a
/// total.
pub proof fn lemma_total_fits(price: i64, quantity: u32)
    ensures
        i128::MIN < (price as int) * (quantity as int) < i128::MAX,
        -39614081247908796759917199360 <= (price as int) * (quantity as int)
            <= 39614081247908796759917199360,
{
    let p = price as int;
    let q = quantity as int;
    assert(-39614081247908796759917199360 <= p * q <= 39614081247908796759917199360)
        by (nonlinear_arith)
        requires
            -0x8000_0000_0000_0000 <= p <= 0x8000_0000_0000_0000,
            0 <= q <= 0xFFFF_FFFF,
    ;
}

/// The amount for `quantity` units at `price` each.
pub fn amount(price: i64, quantity: u32) -> (total: i128)
    ensures
        total == (price as int) * (quantity as int),
{
    proof {
        lemma_total_fits(price, quantity);
    }
    (price as i128) * (quantity as i128)
}

/// The ledger: every recorded sale and purchase, oldest first.
pub struct TransactionManager {
    pub transactions: Vec<Transaction>,
}

impl View for TransactionManager {
    type V = Seq<TransactionView>;

    open spec fn view(&self) -> Seq<TransactionView> {
        Seq::new(self.transactions@.len(), |i: int| self.transactions@[i]@)
    }
}

impl TransactionManager {
    /// An empty ledger.
    pub fn new() -> (manager: TransactionManager)
        ensures
            manager@ == Seq::<TransactionView>::empty(),
    {
        let manager = TransactionManager { transactions: Vec::new() };
        assert(manager@ =~= Seq::<TransactionView>::empty());
        manager
    }

    /// Appends one entry to the ledger.
    fn append(
        &mut self,
        transaction_type: TransactionType,
        product_name: &str,
        quantity: u32,
        price: i64,
    )
        ensures
            final(self)@ == old(self)@.push(
                entry(transaction_type, product_name@, quantity as nat, price as int),
            ),
    {
        let total = amount(price, quantity);
        self.transactions.push(
            Transaction {
                transaction_type,
                product_name: String::from_str(product_name),
                quantity,
                price,
                total,
            },
        );
        assert(self@ =~= old(self)@.push(
            entry(transaction_type, product_name@, quantity as nat, price as int),
        ));
    }

    /// Sells `quantity` units of `product_name` at `sale_price` each.
    ///
    /// Fails with `ProductNotFound` if the catalog has no such entry, and
    /// with `InsufficientStock` if it has fewer units than asked for; then
    /// neither the catalog nor the ledger changes. Otherwise the stock goes
    /// down by `quantity` and a sale is appended to the ledger.
    pub fn record_sale(
        &mut self,
        inventory: &mut Inventory,
        product_name: &str,
        quantity: u32,
        sale_price: i64,
    ) -> (r: Result<(), TransactionError>)
        requires
            old(inventory).wf(),
        ensures
            final(inventory).wf(),
            r is Err ==> *final(inventory) == *old(inventory) && *final(self) == *old(self),
            !old(inventory)@.contains_key(product_name@) <==> r == Err::<(), TransactionError>(
                TransactionError::ProductNotFound,
            ),
            (old(inventory)@.contains_key(product_name@) && old(
                inventory,
            )@[product_name@].quantity < quantity) <==> r == Err::<(), TransactionError>(
                TransactionError::InsufficientStock,
            ),
            r is Ok <==> (old(inventory)@.contains_key(product_name@) && old(
                inventory,
            )@[product_name@].quantity >= quantity),
            r is Ok ==> final(inventory)@ == old(inventory)@.insert(
                product_name@,
                restocked(old(inventory)@[product_name@], -(quantity as int)),
            ) && final(self)@ == old(self)@.push(
                entry(TransactionType::Sale, product_name@, quantity as nat, sale_price as int),
            ),
    {
        let stock = match inventory.get(product_name) {
            Some(product) => product.quantity,
            None => {
                return Err(TransactionError::ProductNotFound);
            },
        };
        if stock < quantity {
            return Err(TransactionError::InsufficientStock);
        }
        let edit = inventory.edit_product(product_name, None, None, Some(stock - quantity));
        assert(edit is Ok);
        assert(final(inventory)@ =~= old(inventory)@.insert(
            product_name@,
            restocked(old(inventory)@[product_name@], -(quantity as int)),
        ));
        self.append(TransactionType::Sale, product_name, quantity, sale_price);
        Ok(())
    }

    /// Buys `quantity` units of `product_name` at `purchase_price` each.
    ///
    /// The stock of a known product goes up by `quantity`, its other fields
    /// staying as they are; an unknown product enters the catalog with the
    /// purchase price. A purchase is appended to the ledger. The call always
    /// succeeds.
    pub fn record_purchase(
        &mut self,
        inventory: &mut Inventory,
        product_name: &str,
        quantity: u32,
        purchase_price: i64,
    ) -> (r: Result<(), TransactionError>)
        requires
            old(inventory).wf(),
            old(inventory)@.contains_key(product_name@) ==> old(
                inventory,
            )@[product_name@].quantity + quantity <= u32::MAX,
        ensures
            final(inventory).wf(),
            r is Ok,
            old(inventory)@.contains_key(product_name@) ==> final(inventory)@ == old(
                inventory,
            )@.insert(product_name@, restocked(old(inventory)@[product_name@], quantity as int)),
            !old(inventory)@.contains_key(product_name@) ==> final(inventory)@ == old(
                inventory,
            )@.insert(
                product_name@,
                purchased_product(product_name@, quantity as nat, purchase_price as int),
            ),
            final(self)@ == old(self)@.push(
                entry(
                    TransactionType::Purchase,
                    product_name@,
                    quantity as nat,
                    purchase_price as int,
                ),
            ),
    {
        let known = match inventory.get(product_name) {
            Some(product) => Some(product.quantity),
            None => None,
        };
        match known {
            Some(stock) => {
                let edit = inventory.edit_product(product_name, None, None, Some(stock + quantity));
                assert(edit is Ok);
                assert(final(inventory)@ =~= old(inventory)@.insert(
                    product_name@,
                    restocked(old(inventory)@[product_name@], quantity as int),
                ));
            },
            None => {
                inventory.insert(
                    Product {
                        name: String::from_str(product_name),
                        description: String::from_str("Purchased Product"),
                        price: purchase_price,
                        quantity,
                    },
                );
            },
        }
        self.append(TransactionType::Purchase, product_name, quantity, purchase_price);
        Ok(())
    }

    /// The whole ledger, oldest entry first.
    pub fn list_transactions(&self) -> (all: &Vec<Transaction>)
        ensures
            all == &self.transactions,
    {
        &self.transactions
    }

    /// The entries of one kind, in ledger order.
    fn select(&self, transaction_type: TransactionType) -> (chosen: Vec<&Transaction>)
        ensures
            views_of(chosen@) == of_kind(self@, transaction_type),
    {
        let mut chosen: Vec<&Transaction> = Vec::new();
        let mut i: usize = 0;
        assert(self@.take(0) =~= Seq::<TransactionView>::empty());
        assert(views_of(chosen@) =~= of_kind(self@.take(0), transaction_type)) by {
            reveal(Seq::filter);
        }
        while i < self.transactions.len()
            invariant
                i <= self.transactions@.len(),
                views_of(chosen@) == of_kind(self@.take(i as int), transaction_type),
            decreases self.transactions@.len() - i,
        {
            let ghost before = chosen@;
            proof {
                self@.lemma_take_succ_push(i as int);
                self@.take(i as int).lemma_filter_push(
                    self@[i as int],
                    |t: TransactionView| t.transaction_type == transaction_type,
                );
            }
            if self.transactions[i].transaction_type == transaction_type {
                chosen.push(&self.transactions[i]);
                assert(views_of(chosen@) =~= views_of(before).push(self@[i as int]));
            }
            i += 1;
        }
        assert(self@.take(i as int) =~= self@);
        chosen
    }

    /// Every sale, in ledger order.
    pub fn sales(&self) -> (chosen: Vec<&Transaction>)
        ensures
            views_of(chosen@) == of_kind(self@, TransactionType::Sale),
    {
        self.select(TransactionType::Sale)
    }

    /// Every purchase, in ledger order.
    pub fn purchases(&self) -> (chosen: Vec<&Transaction>)
        ensures
            views_of(chosen@) == of_kind(self@, TransactionType::Purchase),
    {
        self.select(TransactionType::Purchase)
    }
}

/// Records a sale and says how it went.
pub fn handle_sale_transaction(
    transaction_manager: &mut TransactionManager,
    inventory: &mut Inventory,
    product_name: &str,
    quantity: u32,
    price: i64,
) -> (shown: String)
    requires
        old(inventory).wf(),
    ensures
        final(inventory).wf(),
        !old(inventory)@.contains_key(product_name@) ==> shown@ == "Error recording sale: "@
            + TransactionError::ProductNotFound.message_text() && *final(inventory) == *old(
            inventory,
        ) && *final(transaction_manager) == *old(transaction_manager),
        old(inventory)@.contains_key(product_name@) && old(inventory)@[product_name@].quantity
            < quantity ==> shown@ == "Error recording sale: "@
            + TransactionError::InsufficientStock.message_text() && *final(inventory) == *old(
            inventory,
        ) && *final(transaction_manager) == *old(transaction_manager),
        old(inventory)@.contains_key(product_name@) && old(inventory)@[product_name@].quantity
            >= quantity ==> shown@ == "Sale recorded successfully."@ && final(inventory)@ == old(
            inventory,
        )@.insert(product_name@, restocked(old(inventory)@[product_name@], -(quantity as int)))
            && final(transaction_manager)@ == old(transaction_manager)@.push(
            entry(TransactionType::Sale, product_name@, quantity as nat, price as int),
        ),
{
    match transaction_manager.record_sale(inventory, product_name, quantity, price) {
        Ok(_) => String::from_str("Sale recorded successfully."),
        Err(e) => {
            let mut shown = String::from_str("Error recording sale: ");
            shown.append(e.message().as_str());
            shown
        },
    }
}

/// Records a purchase and says that it went well, as it always does.
pub fn handle_purchase_transaction(
    transaction_manager: &mut TransactionManager,
    inventory: &mut Inventory,
    product_name: &str,
    quantity: u32,
    price: i64,
) -> (shown: String)
    requires
        old(inventory).wf(),
        old(inventory)@.contains_key(product_name@) ==> old(
            inventory,
        )@[product_name@].quantity + quantity <= u32::MAX,
    ensures
        final(inventory).wf(),
        shown@ == "Purchase recorded successfully."@,
        old(inventory)@.contains_key(product_name@) ==> final(inventory)@ == old(
            inventory,
        )@.insert(product_name@, restocked(old(inventory)@[product_name@], quantity as int)),
        !old(inventory)@.contains_key(product_name@) ==> final(inventory)@ == old(
            inventory,
        )@.insert(product_name@, purchased_product(product_name@, quantity as nat, price as int)),
        final(transaction_manager)@ == old(transaction_manager)@.push(
            entry(TransactionType::Purchase, product_name@, quantity as nat, price as int),
        ),
{
    let _ = transaction_manager.record_purchase(inventory, product_name, quantity, price);
    String::from_str("Purchase recorded successfully.")
}

/// The headers of the table of transactions.
pub open spec fn transaction_headers() -> Seq<Seq<char>> {
    seq!["No"@, "Type"@, "Product"@, "Quantity"@, "Price per Unit"@, "Total Amount"@]
}

/// The cells that the table of transactions shows for the entry with the
/// given number; the amount is the unit price times the quantity.
pub open spec fn transaction_row(t: TransactionView, number: nat) -> Seq<Seq<char>> {
    seq![
        decimal(number),
        kind_text(t.transaction_type),
        t.product_name,
        decimal(t.quantity),
        price_text(t.price),
        price_text(t.price * t.quantity),
    ]
}

/// The rows of the table of transactions, numbered from one.
pub open spec fn transaction_rows(ledger: Seq<TransactionView>) -> Seq<Seq<Seq<char>>> {
    Seq::new(ledger.len(), |i: int| transaction_row(ledger[i], (i + 1) as nat))
}

/// Writes the ledger as a table, oldest entry first.
pub fn list_transactions(transaction_manager: &TransactionManager) -> (shown: String)
    ensures
        shown@ == table_text(transaction_headers(), transaction_rows(transaction_manager@)),
{
    let mut headers: Vec<&str> = Vec::new();
    headers.push("No");
    headers.push("Type");
    headers.push("Product");
    headers.push("Quantity");
    headers.push("Price per Unit");
    headers.push("Total Amount");
    assert(labels_of(headers@) =~= transaction_headers());
    let transactions = transaction_manager.list_transactions();
    let mut rows: Vec<Vec<String>> = Vec::new();
    let mut i: usize = 0;
    while i < transactions.len()
        invariant
            i <= transactions@.len(),
            transactions@ == transaction_manager.transactions@,
            rows@.len() == i,
            forall|k: int|
                0 <= k < i ==> texts_of((#[trigger] rows@[k])@) == transaction_row(
                    transactions@[k]@,
                    (k + 1) as nat,
                ),
            forall|k: int| 0 <= k < i ==> (#[trigger] rows@[k])@.len() == 6,
        decreases transactions@.len() - i,
    {
        let t = &transactions[i];
        let kind = match t.transaction_type {
            TransactionType::Sale => "Sale",
            TransactionType::Purchase => "Purchase",
        };
        let mut row: Vec<String> = Vec::new();
        row.push(decimal_string((i + 1) as u128));
        row.push(String::from_str(kind));
        row.push(t.product_name.clone());
        row.push(decimal_string(t.quantity as u128));
        row.push(price_string(t.price as i128));
        row.push(price_string(amount(t.price, t.quantity)));
        assert(texts_of(row@) =~= transaction_row(t@, (i + 1) as nat));
        rows.push(row);
        i += 1;
    }
    assert(grid_of(rows@) =~= transaction_rows(transaction_manager@));
    format_table(headers, rows)
}

} // verus!
