use crate::inventory::{edited, Inventory, Product, ProductView};
use crate::transaction::{
    entry, of_kind, purchased_product, restocked, views_of, Transaction, TransactionType,
    TransactionView,
};
use vstd::prelude::*;

verus! {

/// What a successful edit does. A field that was not supplied is as it
/// was, a supplied field has the supplied value, the name stays, and every
/// other entry of the catalog is untouched. Where a supplied value differs
/// from the value that the entry had, the entry differs afterwards.
pub proof fn lemma_edit_effect(
    before: Map<Seq<char>, ProductView>,
    after: Map<Seq<char>, ProductView>,
    name: Seq<char>,
    description: Option<Seq<char>>,
    price: Option<int>,
    quantity: Option<nat>,
)
    requires
        before.contains_key(name),
        after == before.insert(name, edited(before[name], description, price, quantity)),
    ensures
        after.contains_key(name),
        after[name].name == before[name].name,
        description is None ==> after[name].description == before[name].description,
        price is None ==> after[name].price == before[name].price,
        quantity is None ==> after[name].quantity == before[name].quantity,
        description matches Some(d) ==> after[name].description == d,
        price matches Some(v) ==> after[name].price == v,
        quantity matches Some(q) ==> after[name].quantity == q,
        forall|other: Seq<char>|
            other != name ==> after.contains_key(other) == before.contains_key(other)
                && after[other] == before[other],
        ((description matches Some(d) && d != before[name].description) || (price matches Some(v)
            && v != before[name].price) || (quantity matches Some(q) && q
            != before[name].quantity)) ==> after[name] != before[name],
{
}

/// What a successful sale does: the stock of the product goes down by
/// exactly the quantity sold, its other fields and all other entries stay,
/// and the ledger grows by one entry, its last: a sale of that quantity at
/// that price, with the product of the two as its total.
pub proof fn lemma_sale_effect(
    catalog_before: Map<Seq<char>, ProductView>,
    catalog_after: Map<Seq<char>, ProductView>,
    ledger_before: Seq<TransactionView>,
    ledger_after: Seq<TransactionView>,
    name: Seq<char>,
    quantity: nat,
    price: int,
)
    requires
        catalog_before.contains_key(name),
        catalog_before[name].quantity >= quantity,
        catalog_after == catalog_before.insert(
            name,
            restocked(catalog_before[name], -(quantity as int)),
        ),
        ledger_after == ledger_before.push(entry(TransactionType::Sale, name, quantity, price)),
    ensures
        catalog_after[name].quantity == catalog_before[name].quantity - quantity,
        catalog_after[name].price == catalog_before[name].price,
        catalog_after[name].description == catalog_before[name].description,
        catalog_after[name].name == catalog_before[name].name,
        forall|other: Seq<char>|
            other != name ==> catalog_after.contains_key(other) == catalog_before.contains_key(
                other,
            ) && catalog_after[other] == catalog_before[other],
        ledger_after.len() == ledger_before.len() + 1,
        ledger_after.last().transaction_type == TransactionType::Sale,
        ledger_after.last().product_name == name,
        ledger_after.last().quantity == quantity,
        ledger_after.last().price == price,
        ledger_after.last().total == price * quantity,
        forall|i: int| 0 <= i < ledger_before.len() ==> ledger_after[i] == ledger_before[i],
{
}

/// What the purchase of an unknown product does: the product enters the
/// catalog with the quantity bought and the purchase price, and a purchase
/// with the product of the two as its total is the ledger's new last entry.
pub proof fn lemma_purchase_of_new_product(
    catalog_before: Map<Seq<char>, ProductView>,
    catalog_after: Map<Seq<char>, ProductView>,
    ledger_before: Seq<TransactionView>,
    ledger_after: Seq<TransactionView>,
    name: Seq<char>,
    quantity: nat,
    price: int,
)
    requires
        !catalog_before.contains_key(name),
        catalog_after == catalog_before.insert(name, purchased_product(name, quantity, price)),
        ledger_after == ledger_before.push(
            entry(TransactionType::Purchase, name, quantity, price),
        ),
    ensures
        catalog_after.contains_key(name),
        catalog_after[name].name == name,
        catalog_after[name].quantity == quantity,
        catalog_after[name].price == price,
        catalog_after[name].description == "Purchased Product"@,
        forall|other: Seq<char>|
            other != name ==> catalog_after.contains_key(other) == catalog_before.contains_key(
                other,
            ) && catalog_after[other] == catalog_before[other],
        ledger_after.len() == ledger_before.len() + 1,
        ledger_after.last().transaction_type == TransactionType::Purchase,
        ledger_after.last().product_name == name,
        ledger_after.last().quantity == quantity,
        ledger_after.last().price == price,
        ledger_after.last().total == price * quantity,
        forall|i: int| 0 <= i < ledger_before.len() ==> ledger_after[i] == ledger_before[i],
{
}

/// What the purchase of a known product does: its stock goes up by exactly
/// the quantity bought, its price, description and name stay as they are,
/// and a purchase is the ledger's new last entry.
pub proof fn lemma_purchase_of_known_product(
    catalog_before: Map<Seq<char>, ProductView>,
    catalog_after: Map<Seq<char>, ProductView>,
    ledger_before: Seq<TransactionView>,
    ledger_after: Seq<TransactionView>,
    name: Seq<char>,
    quantity: nat,
    price: int,
)
    requires
        catalog_before.contains_key(name),
        catalog_after == catalog_before.insert(
            name,
            restocked(catalog_before[name], quantity as int),
        ),
        ledger_after == ledger_before.push(
            entry(TransactionType::Purchase, name, quantity, price),
        ),
    ensures
        catalog_after[name].quantity == catalog_before[name].quantity + quantity,
        catalog_after[name].price == catalog_before[name].price,
        catalog_after[name].description == catalog_before[name].description,
        catalog_after[name].name == catalog_before[name].name,
        forall|other: Seq<char>|
            other != name ==> catalog_after.contains_key(other) == catalog_before.contains_key(
                other,
            ) && catalog_after[other] == catalog_before[other],
        ledger_after.len() == ledger_before.len() + 1,
        ledger_after.last().transaction_type == TransactionType::Purchase,
        ledger_after.last().total == price * quantity,
        forall|i: int| 0 <= i < ledger_before.len() ==> ledger_after[i] == ledger_before[i],
{
}

/// Asking a catalog twice for its entries gives the same entries in the
/// same order, and each of them is the catalog's entry of that name.
pub proof fn lemma_listing_repeats(
    inventory: &Inventory,
    first: Seq<&Product>,
    second: Seq<&Product>,
)
    requires
        inventory.wf(),
        first.len() == inventory.listing().len(),
        forall|i: int| 0 <= i < first.len() ==> (#[trigger] first[i])@ == inventory.listing()[i],
        second.len() == inventory.listing().len(),
        forall|i: int| 0 <= i < second.len() ==> (#[trigger] second[i])@ == inventory.listing()[i],
    ensures
        first.len() == second.len(),
        forall|i: int| 0 <= i < first.len() ==> first[i]@ == second[i]@,
        forall|i: int|
            0 <= i < first.len() ==> inventory@.contains_key((#[trigger] first[i])@.name)
                && inventory@[first[i]@.name] == first[i]@,
        forall|i: int, j: int|
            0 <= i < j < first.len() ==> (#[trigger] first[i])@.name != (#[trigger] first[j])@.name,
{
    inventory.lemma_view_is_catalog_of_listing();
    assert forall|i: int| 0 <= i < first.len() implies inventory@.contains_key(
        (#[trigger] first[i])@.name,
    ) && inventory@[first[i]@.name] == first[i]@ by {
        assert(first[i]@ == inventory.listing()[i]);
    }
    assert forall|i: int, j: int| 0 <= i < j < first.len() implies (#[trigger] first[i])@.name != (
    #[trigger] first[j])@.name by {
        assert(first[i]@ == inventory.listing()[i]);
        assert(first[j]@ == inventory.listing()[j]);
    }
}

/// Asking a ledger twice for its entries of one kind gives the same
/// entries in the same order.
pub proof fn lemma_ledger_query_repeats(
    ledger: Seq<TransactionView>,
    kind: TransactionType,
    first: Seq<&Transaction>,
    second: Seq<&Transaction>,
)
    requires
        views_of(first) == of_kind(ledger, kind),
        views_of(second) == of_kind(ledger, kind),
    ensures
        first.len() == second.len(),
        forall|i: int| 0 <= i < first.len() ==> first[i]@ == second[i]@,
{
    assert(views_of(first).len() == first.len());
    assert(views_of(second).len() == second.len());
    assert forall|i: int| 0 <= i < first.len() implies first[i]@ == second[i]@ by {
        assert(views_of(first)[i] == first[i]@);
        assert(views_of(second)[i] == second[i]@);
    }
}

/// Every entry that a query for one kind hands out is of that kind and
/// stands in the ledger, and the query hands out no more entries than the
/// ledger holds.
pub proof fn lemma_ledger_query_selects(ledger: Seq<TransactionView>, kind: TransactionType)
    ensures
        of_kind(ledger, kind).len() <= ledger.len(),
        forall|i: int|
            0 <= i < of_kind(ledger, kind).len() ==> (#[trigger] of_kind(
                ledger,
                kind,
            )[i]).transaction_type == kind && ledger.contains(of_kind(ledger, kind)[i]),
        forall|i: int|
            0 <= i < ledger.len() && (#[trigger] ledger[i]).transaction_type == kind ==> of_kind(
                ledger,
                kind,
            ).contains(ledger[i]),
{
    let pred = |t: TransactionView| t.transaction_type == kind;
    ledger.lemma_filter_len(pred);
    assert forall|i: int| 0 <= i < of_kind(ledger, kind).len() implies (#[trigger] of_kind(
        ledger,
        kind,
    )[i]).transaction_type == kind && ledger.contains(of_kind(ledger, kind)[i]) by {
        ledger.lemma_filter_pred(pred, i);
        assert(ledger.filter(pred).contains(ledger.filter(pred)[i]));
        ledger.lemma_filter_contains_rev(pred, ledger.filter(pred)[i]);
    }
    assert forall|i: int|
        0 <= i < ledger.len() && (#[trigger] ledger[i]).transaction_type == kind implies of_kind(
        ledger,
        kind,
    ).contains(ledger[i]) by {
        ledger.lemma_filter_contains(pred, i);
    }
}

} // verus!
