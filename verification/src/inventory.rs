use crate::display::{format_table, grid_of, labels_of, table_text, texts_of};
use crate::util::{decimal, decimal_string, money, money_string};
use vstd::prelude::*;

verus! {

/// One catalog entry. `price` is an amount in hundredths of the currency
/// unit; `quantity` is the number of units in stock.
#[derive(Debug, Clone)]
pub struct Product {
    pub name: String,
    pub description: String,
    pub price: i64,
    pub quantity: u32,
}

/// The mathematical value of a [`Product`].
pub struct ProductView {
    pub name: Seq<char>,
    pub description: Seq<char>,
    pub price: int,
    pub quantity: nat,
}

impl View for Product {
    type V = ProductView;

    open spec fn view(&self) -> ProductView {
        ProductView {
            name: self.name@,
            description: self.description@,
            price: self.price as int,
            quantity: self.quantity as nat,
        }
    }
}

/// Why a catalog operation was refused.
#[derive(Debug, Clone, PartialEq, Eq)]
pub enum InventoryError {
    /// A supplied price is negative.
    InvalidPrice,
    /// No entry has the given name.
    ProductNotFound(String),
    /// An edit supplied none of its optional fields.
    NoFieldsProvided,
}

impl InventoryError {
    /// The error is `ProductNotFound` and carries `name`.
    pub open spec fn is_not_found(self, name: Seq<char>) -> bool {
        self matches InventoryError::ProductNotFound(n) && n@ == name
    }

    /// The text shown to a user for this error.
    pub open spec fn message_text(self) -> Seq<char> {
        match self {
            InventoryError::InvalidPrice => "Price cannot be negative!"@,
            InventoryError::ProductNotFound(n) => "Product '"@ + n@ + "' not found."@,
            InventoryError::NoFieldsProvided => "At least one field must be provided for update."@,
        }
    }

    /// Writes the text shown to a user for this error.
    pub fn message(&self) -> (text: String)
        ensures
            text@ == self.message_text(),
    {
        match self {
            InventoryError::InvalidPrice => String::from_str("Price cannot be negative!"),
            InventoryError::ProductNotFound(n) => {
                let mut text = String::from_str("Product '");
                text.append(n.as_str());
                text.append("' not found.");
                text
            },
            InventoryError::NoFieldsProvided => String::from_str(
                "At least one field must be provided for update.",
            ),
        }
    }
}

/// No two entries of `s` share a name.
pub open spec fn distinct_names(s: Seq<ProductView>) -> bool {
    forall|i: int, j: int| 0 <= i < j < s.len() ==> s[i].name != s[j].name
}

/// Entry `i` of `s` exists and is called `name`.
pub open spec fn named_at(s: Seq<ProductView>, i: int, name: Seq<char>) -> bool {
    0 <= i < s.len() && s[i].name == name
}

/// The mapping from name to entry that a sequence of entries stands for.
pub open spec fn catalog_of(s: Seq<ProductView>) -> Map<Seq<char>, ProductView> {
    Map::new(
        |name: Seq<char>| exists|i: int| named_at(s, i, name),
        |name: Seq<char>| s[choose|i: int| named_at(s, i, name)],
    )
}

/// `p` with every supplied field replaced.
pub open spec fn edited(
    p: ProductView,
    description: Option<Seq<char>>,
    price: Option<int>,
    quantity: Option<nat>,
) -> ProductView {
    ProductView {
        name: p.name,
        description: match description {
            Some(d) => d,
            None => p.description,
        },
        price: match price {
            Some(v) => v,
            None => p.price,
        },
        quantity: match quantity {
            Some(q) => q,
            None => p.quantity,
        },
    }
}

/// The view of an optional text.
pub open spec fn text_of(t: Option<String>) -> Option<Seq<char>> {
    match t {
        Some(s) => Some(s@),
        None => None,
    }
}

/// The view of an optional price.
pub open spec fn price_of(p: Option<i64>) -> Option<int> {
    match p {
        Some(v) => Some(v as int),
        None => None,
    }
}

/// The view of an optional stock count.
pub open spec fn stock_of(q: Option<u32>) -> Option<nat> {
    match q {
        Some(v) => Some(v as nat),
        None => None,
    }
}

/// In a sequence without repeated names, the catalog holds each entry
/// under its own name.
pub proof fn lemma_catalog_at(s: Seq<ProductView>, i: int)
    requires
        distinct_names(s),
        0 <= i < s.len(),
    ensures
        catalog_of(s).contains_key(s[i].name),
        catalog_of(s)[s[i].name] == s[i],
{
    assert(named_at(s, i, s[i].name));
    let k = choose|k: int| named_at(s, k, s[i].name);
    assert(k == i);
}

/// Replacing an entry by one of the same name replaces it in the catalog.
pub proof fn lemma_catalog_update(s: Seq<ProductView>, i: int, p: ProductView)
    requires
        distinct_names(s),
        0 <= i < s.len(),
        p.name == s[i].name,
    ensures
        distinct_names(s.update(i, p)),
        catalog_of(s.update(i, p)) =~= catalog_of(s).insert(p.name, p),
{
    let t = s.update(i, p);
    assert(distinct_names(t)) by {
        assert forall|a: int, b: int| 0 <= a < b < t.len() implies t[a].name != t[b].name by {
            assert(t[a].name == s[a].name);
            assert(t[b].name == s[b].name);
        }
    }
    assert forall|name: Seq<char>| #[trigger]
        catalog_of(t).contains_key(name) == catalog_of(s).insert(p.name, p).contains_key(
            name,
        ) by {
        if catalog_of(t).contains_key(name) {
            let k = choose|k: int| named_at(t, k, name);
            assert(named_at(s, k, name));
        }
        if catalog_of(s).contains_key(name) {
            let k = choose|k: int| named_at(s, k, name);
            assert(named_at(t, k, name));
        }
        if name == p.name {
            assert(named_at(t, i, name));
        }
    }
    assert forall|name: Seq<char>| catalog_of(t).contains_key(name) implies #[trigger] catalog_of(
        t,
    )[name] == catalog_of(s).insert(p.name, p)[name] by {
        let k = choose|k: int| named_at(t, k, name);
        lemma_catalog_at(t, k);
        if name != p.name {
            assert(k != i);
            lemma_catalog_at(s, k);
        } else {
            assert(named_at(t, i, name));
            assert(k == i);
        }
    }
}

/// Appending an entry with a new name adds it to the catalog.
pub proof fn lemma_catalog_push(s: Seq<ProductView>, p: ProductView)
    requires
        distinct_names(s),
        !catalog_of(s).contains_key(p.name),
    ensures
        distinct_names(s.push(p)),
        catalog_of(s.push(p)) =~= catalog_of(s).insert(p.name, p),
{
    let t = s.push(p);
    assert(distinct_names(t)) by {
        assert forall|a: int, b: int| 0 <= a < b < t.len() implies t[a].name != t[b].name by {
            if b == s.len() {
                assert(t[a] == s[a]);
                if s[a].name == p.name {
                    assert(named_at(s, a, p.name));
                }
            } else {
                assert(t[a] == s[a]);
                assert(t[b] == s[b]);
            }
        }
    }
    assert forall|name: Seq<char>| #[trigger]
        catalog_of(t).contains_key(name) == catalog_of(s).insert(p.name, p).contains_key(
            name,
        ) by {
        if catalog_of(t).contains_key(name) {
            let k = choose|k: int| named_at(t, k, name);
            if k < s.len() {
                assert(named_at(s, k, name));
            }
        }
        if catalog_of(s).contains_key(name) {
            let k = choose|k: int| named_at(s, k, name);
            assert(named_at(t, k, name));
        }
        if name == p.name {
            assert(named_at(t, s.len() as int, name));
        }
    }
    assert forall|name: Seq<char>| catalog_of(t).contains_key(name) implies #[trigger] catalog_of(
        t,
    )[name] == catalog_of(s).insert(p.name, p)[name] by {
        let k = choose|k: int| named_at(t, k, name);
        lemma_catalog_at(t, k);
        if k < s.len() {
            assert(named_at(s, k, name));
            lemma_catalog_at(s, k);
        }
    }
}

/// Taking an entry out of the sequence takes its name out of the catalog.
pub proof fn lemma_catalog_remove(s: Seq<ProductView>, i: int)
    requires
        distinct_names(s),
        0 <= i < s.len(),
    ensures
        distinct_names(s.remove(i)),
        catalog_of(s.remove(i)) =~= catalog_of(s).remove(s[i].name),
{
    let t = s.remove(i);
    let gone = s[i].name;
    assert forall|a: int| 0 <= a < t.len() implies #[trigger] t[a] == s[if a < i {
        a
    } else {
        a + 1
    }] by {}
    assert(distinct_names(t)) by {
        assert forall|a: int, b: int| 0 <= a < b < t.len() implies t[a].name != t[b].name by {
            assert(t[a] == s[if a < i { a } else { a + 1 }]);
            assert(t[b] == s[if b < i { b } else { b + 1 }]);
        }
    }
    assert forall|name: Seq<char>| #[trigger]
        catalog_of(t).contains_key(name) == catalog_of(s).remove(gone).contains_key(name) by {
        if catalog_of(t).contains_key(name) {
            let k = choose|k: int| named_at(t, k, name);
            let k2 = if k < i { k } else { k + 1 };
            assert(t[k] == s[k2]);
            assert(named_at(s, k2, name));
            assert(k2 != i);
            assert(name != gone);
        }
        if catalog_of(s).contains_key(name) && name != gone {
            let k = choose|k: int| named_at(s, k, name);
            assert(k != i);
            let k2 = if k < i { k } else { k - 1 };
            assert(t[k2] == s[k]);
            assert(named_at(t, k2, name));
        }
    }
    assert forall|name: Seq<char>| catalog_of(t).contains_key(name) implies #[trigger] catalog_of(
        t,
    )[name] == catalog_of(s).remove(gone)[name] by {
        let k = choose|k: int| named_at(t, k, name);
        lemma_catalog_at(t, k);
        let k2 = if k < i { k } else { k + 1 };
        assert(t[k] == s[k2]);
        lemma_catalog_at(s, k2);
    }
}

/// The product catalog: at most one entry per name.
pub struct Inventory {
    products: Vec<Product>,
}

impl View for Inventory {
    type V = Map<Seq<char>, ProductView>;

    /// The catalog as a mapping from name to entry.
    closed spec fn view(&self) -> Map<Seq<char>, ProductView> {
        catalog_of(self.listing())
    }
}

impl Inventory {
    /// The entries in the order in which `list` hands them out.
    pub closed spec fn listing(&self) -> Seq<ProductView> {
        Seq::new(self.products@.len(), |i: int| self.products@[i]@)
    }

    /// No name occurs twice.
    pub closed spec fn wf(&self) -> bool {
        distinct_names(self.listing())
    }

    /// The catalog is the mapping that the listing stands for, and the
    /// listing holds each entry of the catalog once.
    pub proof fn lemma_view_is_catalog_of_listing(&self)
        requires
            self.wf(),
        ensures
            self@ == catalog_of(self.listing()),
            distinct_names(self.listing()),
            forall|i: int|
                0 <= i < self.listing().len() ==> self@.contains_key(
                    #[trigger] self.listing()[i].name,
                ) && self@[self.listing()[i].name] == self.listing()[i],
            forall|name: Seq<char>| #[trigger]
                self@.contains_key(name) ==> self@[name].name == name && exists|i: int|
                    named_at(self.listing(), i, name),
    {
        let s = self.listing();
        assert forall|i: int| 0 <= i < s.len() implies self@.contains_key(#[trigger] s[i].name)
            && self@[s[i].name] == s[i] by {
            lemma_catalog_at(s, i);
        }
        assert forall|name: Seq<char>| #[trigger] self@.contains_key(name) implies self@[name].name
            == name && exists|i: int| named_at(s, i, name) by {
            let k = choose|k: int| named_at(s, k, name);
            assert(named_at(s, k, name));
        }
    }

    /// An empty catalog.
    pub fn new() -> (inventory: Inventory)
        ensures
            inventory.wf(),
            inventory@ == Map::<Seq<char>, ProductView>::empty(),
            inventory.listing() == Seq::<ProductView>::empty(),
    {
        let inventory = Inventory { products: Vec::new() };
        proof {
            assert(inventory.listing() =~= Seq::<ProductView>::empty());
            assert(inventory@ =~= Map::<Seq<char>, ProductView>::empty());
        }
        inventory
    }

    /// The position of the entry called `name`, if there is one.
    fn find(&self, name: &str) -> (at: Option<usize>)
        ensures
            match at {
                Some(i) => named_at(self.listing(), i as int, name@),
                None => forall|i: int| !named_at(self.listing(), i, name@),
            },
    {
        let key = String::from_str(name);
        let mut i: usize = 0;
        while i < self.products.len()
            invariant
                i <= self.products@.len(),
                key@ == name@,
                forall|k: int| 0 <= k < i ==> !named_at(self.listing(), k, name@),
            decreases self.products@.len() - i,
        {
            if self.products[i].name == key {
                return Some(i);
            }
            i += 1;
        }
        None
    }

    /// Is there an entry called `name`?
    pub fn contains(&self, name: &str) -> (found: bool)
        ensures
            found == self@.contains_key(name@),
    {
        let at = self.find(name);
        at.is_some()
    }

    /// The entry called `name`, if there is one.
    pub fn get(&self, name: &str) -> (found: Option<&Product>)
        requires
            self.wf(),
        ensures
            match found {
                Some(p) => self@.contains_key(name@) && self@[name@] == p@,
                None => !self@.contains_key(name@),
            },
    {
        match self.find(name) {
            Some(i) => {
                proof {
                    lemma_catalog_at(self.listing(), i as int);
                }
                Some(&self.products[i])
            },
            None => None,
        }
    }

    /// Puts `product` under its name, in place of an entry of that name if
    /// there is one. Nothing about the product is checked.
    pub fn insert(&mut self, product: Product)
        requires
            old(self).wf(),
        ensures
            final(self).wf(),
            final(self)@ == old(self)@.insert(product.name@, product@),
    {
        let ghost before = self.listing();
        match self.find(product.name.as_str()) {
            Some(i) => {
                proof {
                    lemma_catalog_update(before, i as int, product@);
                }
                self.products.set(i, product);
                assert(self.listing() =~= before.update(i as int, product@));
            },
            None => {
                proof {
                    lemma_catalog_push(before, product@);
                }
                self.products.push(product);
                assert(self.listing() =~= before.push(product@));
            },
        }
    }

    /// Is the catalog empty?
    pub fn is_empty(&self) -> (empty: bool)
        ensures
            empty == (self.listing().len() == 0),
    {
        self.products.len() == 0
    }

    /// A snapshot of the catalog: every entry once, in the catalog's own
    /// order.
    pub fn list(&self) -> (all: Vec<&Product>)
        ensures
            all@.len() == self.listing().len(),
            forall|i: int| 0 <= i < all@.len() ==> (#[trigger] all@[i])@ == self.listing()[i],
    {
        let mut all: Vec<&Product> = Vec::new();
        let mut i: usize = 0;
        while i < self.products.len()
            invariant
                i <= self.products@.len(),
                all@.len() == i,
                forall|k: int| 0 <= k < i ==> (#[trigger] all@[k])@ == self.listing()[k],
            decreases self.products@.len() - i,
        {
            all.push(&self.products[i]);
            i += 1;
        }
        all
    }
}

/// The operations that change a catalog, each with the checks it makes.
pub trait InventoryManagement: Sized {
    /// The catalog as a mapping from name to entry.
    spec fn catalog(&self) -> Map<Seq<char>, ProductView>;

    /// What must hold of a catalog for its operations to be called.
    spec fn valid(&self) -> bool;

    /// Adds `product` to the catalog, replacing an entry of the same name.
    /// A negative price is refused and the catalog stays as it was.
    fn add_product(&mut self, product: Product) -> (r: Result<(), InventoryError>)
        requires
            old(self).valid(),
        ensures
            final(self).valid(),
            product.price < 0 ==> r == Err::<(), InventoryError>(InventoryError::InvalidPrice)
                && *final(self) == *old(self),
            product.price >= 0 ==> r is Ok && final(self).catalog() == old(self).catalog().insert(
                product.name@,
                product@,
            ),
    ;

    /// Replaces the supplied fields of the entry called `product_name`.
    ///
    /// With no field supplied the call fails with `NoFieldsProvided`; else
    /// with `ProductNotFound` if no entry has that name; else with
    /// `InvalidPrice` if the supplied price is negative. A failed call
    /// changes nothing.
    fn edit_product(
        &mut self,
        product_name: &str,
        description: Option<String>,
        price: Option<i64>,
        quantity: Option<u32>,
    ) -> (r: Result<(), InventoryError>)
        requires
            old(self).valid(),
        ensures
            final(self).valid(),
            r is Err ==> *final(self) == *old(self),
            (description is None && price is None && quantity is None) <==> r == Err::<
                (),
                InventoryError,
            >(InventoryError::NoFieldsProvided),
            (!(description is None && price is None && quantity is None)
                && !old(self).catalog().contains_key(product_name@)) <==> (r matches Err(e)
                && e.is_not_found(product_name@)),
            (!(description is None && price is None && quantity is None)
                && old(self).catalog().contains_key(product_name@) && (price matches Some(v) && v
                < 0)) <==> r == Err::<(), InventoryError>(InventoryError::InvalidPrice),
            r is Ok <==> (!(description is None && price is None && quantity is None)
                && old(self).catalog().contains_key(product_name@) && !(price matches Some(v) && v
                < 0)),
            r is Ok ==> final(self).catalog() == old(self).catalog().insert(
                product_name@,
                edited(
                    old(self).catalog()[product_name@],
                    text_of(description),
                    price_of(price),
                    stock_of(quantity),
                ),
            ),
    ;

    /// Removes the entry called `product_name`; fails with `ProductNotFound`,
    /// and changes nothing, if there is none.
    fn delete_product(&mut self, product_name: &str) -> (r: Result<(), InventoryError>)
        requires
            old(self).valid(),
        ensures
            final(self).valid(),
            old(self).catalog().contains_key(product_name@) ==> r is Ok && final(self).catalog()
                == old(self).catalog().remove(product_name@),
            !old(self).catalog().contains_key(product_name@) ==> (r matches Err(e)
                && e.is_not_found(product_name@)) && *final(self) == *old(self),
    ;
}

impl InventoryManagement for Inventory {
    open spec fn catalog(&self) -> Map<Seq<char>, ProductView> {
        self@
    }

    open spec fn valid(&self) -> bool {
        self.wf()
    }

    fn add_product(&mut self, product: Product) -> (r: Result<(), InventoryError>) {
        if product.price < 0 {
            return Err(InventoryError::InvalidPrice);
        }
        self.insert(product);
        Ok(())
    }

    fn edit_product(
        &mut self,
        product_name: &str,
        description: Option<String>,
        price: Option<i64>,
        quantity: Option<u32>,
    ) -> (r: Result<(), InventoryError>) {
        if description.is_none() && price.is_none() && quantity.is_none() {
            return Err(InventoryError::NoFieldsProvided);
        }
        let at = self.find(product_name);
        let i = match at {
            Some(i) => i,
            None => {
                return Err(InventoryError::ProductNotFound(String::from_str(product_name)));
            },
        };
        let ghost before = self.listing();
        proof {
            lemma_catalog_at(before, i as int);
        }
        let new_price = match price {
            Some(v) => {
                if v < 0 {
                    return Err(InventoryError::InvalidPrice);
                }
                v
            },
            None => self.products[i].price,
        };
        let new_quantity = match quantity {
            Some(q) => q,
            None => self.products[i].quantity,
        };
        let new_description = match description {
            Some(d) => d,
            None => self.products[i].description.clone(),
        };
        let updated = Product {
            name: self.products[i].name.clone(),
            description: new_description,
            price: new_price,
            quantity: new_quantity,
        };
        proof {
            lemma_catalog_update(before, i as int, updated@);
        }
        self.products.set(i, updated);
        assert(self.listing() =~= before.update(i as int, updated@));
        Ok(())
    }

    fn delete_product(&mut self, product_name: &str) -> (r: Result<(), InventoryError>) {
        let ghost before = self.listing();
        match self.find(product_name) {
            Some(i) => {
                proof {
                    lemma_catalog_remove(before, i as int);
                }
                let _ = self.products.remove(i);
                assert(self.listing() =~= before.remove(i as int));
                Ok(())
            },
            None => Err(InventoryError::ProductNotFound(String::from_str(product_name))),
        }
    }
}

/// What is shown for the outcome of a catalog operation: `done` where it
/// succeeded, else `failed` and the error's message.
pub open spec fn outcome_text(
    r: Result<(), InventoryError>,
    done: Seq<char>,
    failed: Seq<char>,
) -> Seq<char> {
    match r {
        Ok(_) => done,
        Err(e) => failed + e.message_text(),
    }
}

/// Writes what is shown for the outcome of a catalog operation.
fn outcome_string(r: &Result<(), InventoryError>, done: &str, failed: &str) -> (shown: String)
    ensures
        shown@ == outcome_text(*r, done@, failed@),
{
    match r {
        Ok(_) => String::from_str(done),
        Err(e) => {
            let mut shown = String::from_str(failed);
            shown.append(e.message().as_str());
            shown
        },
    }
}

/// The message with which an edit is refused, if it is.
pub open spec fn edit_refusal(
    catalog: Map<Seq<char>, ProductView>,
    name: Seq<char>,
    description: Option<Seq<char>>,
    price: Option<int>,
    quantity: Option<nat>,
) -> Option<Seq<char>> {
    if description is None && price is None && quantity is None {
        Some(InventoryError::NoFieldsProvided.message_text())
    } else if !catalog.contains_key(name) {
        Some("Product '"@ + name + "' not found."@)
    } else if price matches Some(v) && v < 0 {
        Some(InventoryError::InvalidPrice.message_text())
    } else {
        None
    }
}

/// Adds a product and says how it went.
pub fn add_product(inventory: &mut Inventory, product: Product) -> (shown: String)
    requires
        old(inventory).wf(),
    ensures
        final(inventory).wf(),
        product.price < 0 ==> *final(inventory) == *old(inventory) && shown@
            == "Error adding product: "@ + InventoryError::InvalidPrice.message_text(),
        product.price >= 0 ==> final(inventory)@ == old(inventory)@.insert(
            product.name@,
            product@,
        ) && shown@ == "Product added successfully!"@,
{
    let r = inventory.add_product(product);
    outcome_string(&r, "Product added successfully!", "Error adding product: ")
}

/// Edits a product and says how it went.
pub fn edit_product(
    inventory: &mut Inventory,
    product_name: &str,
    description: Option<String>,
    price: Option<i64>,
    quantity: Option<u32>,
) -> (shown: String)
    requires
        old(inventory).wf(),
    ensures
        final(inventory).wf(),
        match edit_refusal(
            old(inventory)@,
            product_name@,
            text_of(description),
            price_of(price),
            stock_of(quantity),
        ) {
            Some(why) => *final(inventory) == *old(inventory) && shown@
                == "Error editing product: "@ + why,
            None => final(inventory)@ == old(inventory)@.insert(
                product_name@,
                edited(
                    old(inventory)@[product_name@],
                    text_of(description),
                    price_of(price),
                    stock_of(quantity),
                ),
            ) && shown@ == "Product edited successfully!"@,
        },
{
    let r = inventory.edit_product(product_name, description, price, quantity);
    outcome_string(&r, "Product edited successfully!", "Error editing product: ")
}

/// Deletes a product and says how it went.
pub fn delete_product(inventory: &mut Inventory, product_name: &str) -> (shown: String)
    requires
        old(inventory).wf(),
    ensures
        final(inventory).wf(),
        old(inventory)@.contains_key(product_name@) ==> final(inventory)@ == old(
            inventory,
        )@.remove(product_name@) && shown@ == "Product deleted successfully!"@,
        !old(inventory)@.contains_key(product_name@) ==> *final(inventory) == *old(inventory)
            && shown@ == "Error deleting product: "@ + ("Product '"@ + product_name@
            + "' not found."@),
{
    let r = inventory.delete_product(product_name);
    outcome_string(&r, "Product deleted successfully!", "Error deleting product: ")
}

/// The headers of the table of products.
pub open spec fn product_headers() -> Seq<Seq<char>> {
    seq!["No"@, "Name"@, "Description"@, "Price"@, "Quantity"@]
}

/// The cells that the table of products shows for the product with the
/// given number.
pub open spec fn product_row(p: ProductView, number: nat) -> Seq<Seq<char>> {
    seq![decimal(number), p.name, p.description, money(p.price), decimal(p.quantity)]
}

/// The rows of the table of products, numbered from one.
pub open spec fn product_rows(listing: Seq<ProductView>) -> Seq<Seq<Seq<char>>> {
    Seq::new(listing.len(), |i: int| product_row(listing[i], (i + 1) as nat))
}

/// What is shown for the catalog: a table of its products, or a notice
/// where it has none.
pub open spec fn products_text(listing: Seq<ProductView>) -> Seq<char> {
    if listing.len() == 0 {
        "No products available in the inventory."@
    } else {
        table_text(product_headers(), product_rows(listing))
    }
}

/// Writes what is shown for the catalog.
pub fn list_products(inventory: &Inventory) -> (shown: String)
    ensures
        shown@ == products_text(inventory.listing()),
{
    if inventory.is_empty() {
        return String::from_str("No products available in the inventory.");
    }
    let mut headers: Vec<&str> = Vec::new();
    headers.push("No");
    headers.push("Name");
    headers.push("Description");
    headers.push("Price");
    headers.push("Quantity");
    assert(labels_of(headers@) =~= product_headers());
    let products = inventory.list();
    let mut rows: Vec<Vec<String>> = Vec::new();
    let mut i: usize = 0;
    while i < products.len()
        invariant
            i <= products@.len(),
            rows@.len() == i,
            forall|k: int|
                0 <= k < i ==> texts_of((#[trigger] rows@[k])@) == product_row(
                    products@[k]@,
                    (k + 1) as nat,
                ),
            forall|k: int| 0 <= k < i ==> (#[trigger] rows@[k])@.len() == 5,
        decreases products@.len() - i,
    {
        let p = products[i];
        let mut row: Vec<String> = Vec::new();
        row.push(decimal_string((i + 1) as u128));
        row.push(p.name.clone());
        row.push(p.description.clone());
        row.push(money_string(p.price as i128));
        row.push(decimal_string(p.quantity as u128));
        assert(texts_of(row@) =~= product_row(p@, (i + 1) as nat));
        rows.push(row);
        i += 1;
    }
    assert(grid_of(rows@) =~= product_rows(inventory.listing()));
    format_table(headers, rows)
}

} // verus!
