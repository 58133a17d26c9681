use vstd::prelude::*;
use crate::clock::Timestamp;
use crate::model::{
    lemma_position_facts, lemma_position_is, recorded_quantity, Item, Sale, SaleOutcome, ShopState,
};

verus! {

/// Adding an item, selling, editing and deleting all keep the shop well
/// formed: ids stay distinct and below the next ones handed out.
pub proof fn law_operations_keep_well_formed(
    s: ShopState,
    id: u32,
    quantity: u32,
    at: Timestamp,
    image: String,
    name: String,
    price_bits: u64,
    sold: u32,
)
    requires
        s.well_formed(),
    ensures
        s.next_id < u32::MAX ==> s.added(image, name, price_bits, quantity).well_formed(),
        s.can_sell(id, quantity) ==> s.after_sell(id, quantity, at).well_formed(),
        s.can_sell_one(id) ==> s.after_sell_one(id).well_formed(),
        s.after_edit(id, name, price_bits, quantity, sold, image).well_formed(),
        s.after_delete(id).well_formed(),
{
    lemma_position_facts(s.items, id);
    if s.next_id < u32::MAX {
        let a = s.added(image, name, price_bits, quantity);
        assert forall|i: int, j: int| 0 <= i < j < a.items.len() implies #[trigger] a.items[i].id
            != #[trigger] a.items[j].id by {
            if j == s.items.len() {
                assert(s.items[i].id < s.next_id);
            } else {
                assert(s.items[i].id != s.items[j].id);
            }
        }
    }
    let d = s.after_delete(id);
    if let Some(k) = s.position(id) {
        assert forall|i: int, j: int| 0 <= i < j < d.items.len() implies #[trigger] d.items[i].id
            != #[trigger] d.items[j].id by {
            let oi = if i < k { i } else { i + 1 };
            let oj = if j < k { j } else { j + 1 };
            assert(d.items[i] == s.items[oi]);
            assert(d.items[j] == s.items[oj]);
            assert(s.items[oi].id != s.items[oj].id);
        }
        assert forall|i: int| 0 <= i < d.items.len() implies #[trigger] d.items[i].id
            < d.next_id by {
            let oi = if i < k { i } else { i + 1 };
            assert(d.items[i] == s.items[oi]);
        }
    }
    if s.can_sell(id, quantity) && s.sell_outcome(id, quantity) == SaleOutcome::Sold {
        let t = s.after_sell(id, quantity, at);
        let k = s.position(id).unwrap();
        assert forall|i: int, j: int| 0 <= i < j < t.items.len() implies #[trigger] t.items[i].id
            != #[trigger] t.items[j].id by {
            assert(t.items[i].id == s.items[i].id);
            assert(t.items[j].id == s.items[j].id);
            assert(s.items[i].id != s.items[j].id);
        }
        assert forall|i: int| 0 <= i < t.items.len() implies #[trigger] t.items[i].id
            < t.next_id by {
            assert(t.items[i].id == s.items[i].id);
            assert(s.items[i].id < s.next_id);
        }
        assert forall|i: int, j: int| 0 <= i < j < t.sales.len() implies #[trigger] t.sales[i].id
            != #[trigger] t.sales[j].id by {
            if j == s.sales.len() {
                assert(s.sales[i].id < s.next_sale_id);
            } else {
                assert(s.sales[i].id != s.sales[j].id);
            }
        }
    }
    if s.can_sell_one(id) && s.sell_one_outcome(id) == SaleOutcome::Sold {
        let t = s.after_sell_one(id);
        assert forall|i: int, j: int| 0 <= i < j < t.items.len() implies #[trigger] t.items[i].id
            != #[trigger] t.items[j].id by {
            assert(t.items[i].id == s.items[i].id);
            assert(t.items[j].id == s.items[j].id);
            assert(s.items[i].id != s.items[j].id);
        }
        assert forall|i: int| 0 <= i < t.items.len() implies #[trigger] t.items[i].id
            < t.next_id by {
            assert(t.items[i].id == s.items[i].id);
            assert(s.items[i].id < s.next_id);
        }
    }
    let e = s.after_edit(id, name, price_bits, quantity, sold, image);
    assert forall|i: int, j: int| 0 <= i < j < e.items.len() implies #[trigger] e.items[i].id
        != #[trigger] e.items[j].id by {
        assert(e.items[i].id == s.items[i].id);
        assert(e.items[j].id == s.items[j].id);
        assert(s.items[i].id != s.items[j].id);
    }
    assert forall|i: int| 0 <= i < e.items.len() implies #[trigger] e.items[i].id
        < e.next_id by {
        assert(e.items[i].id == s.items[i].id);
        assert(s.items[i].id < s.next_id);
    }
}

/// A newly added item can be found under the id it got, with the values it
/// was added with; that id was not in use before.
pub proof fn law_added_item_is_found(
    s: ShopState,
    image: String,
    name: String,
    price_bits: u64,
    quantity: u32,
)
    requires
        s.well_formed(),
        s.next_id < u32::MAX,
    ensures
        s.position(s.next_id) is None,
        s.added(image, name, price_bits, quantity).position(s.next_id) == Some(s.items.len() as int),
        s.added(image, name, price_bits, quantity).items[s.items.len() as int] == (Item {
            id: s.next_id,
            image,
            name,
            price_bits,
            quantity,
            sold: 0,
        }),
{
    let a = s.added(image, name, price_bits, quantity);
    lemma_position_facts(s.items, s.next_id);
    if let Some(k) = s.position(s.next_id) {
        assert(s.items[k].id < s.next_id);
    }
    assert forall|j: int| 0 <= j < s.items.len() implies a.items[j].id != s.next_id by {
        assert(a.items[j] == s.items[j]);
        assert(s.items[j].id < s.next_id);
    }
    lemma_position_is(a.items, s.next_id, s.items.len() as int);
}

/// A sale moves units from the stock to the sold count: for every item,
/// stock plus units sold stays the same, and nothing else about an item
/// changes but those two counts.
pub proof fn law_sale_conserves_stock(s: ShopState, id: u32, quantity: u32, at: Timestamp)
    requires
        s.can_sell(id, quantity),
    ensures
        s.after_sell(id, quantity, at).items.len() == s.items.len(),
        forall|i: int|
            0 <= i < s.items.len() ==> {
                let before = #[trigger] s.items[i];
                let after = s.after_sell(id, quantity, at).items[i];
                &&& after.quantity + after.sold == before.quantity + before.sold
                &&& after.id == before.id
                &&& after.name == before.name
                &&& after.image == before.image
                &&& after.price_bits == before.price_bits
            },
{
    lemma_position_facts(s.items, id);
}

/// A single-unit sale, too, keeps stock plus units sold of every item.
pub proof fn law_single_sale_conserves_stock(s: ShopState, id: u32)
    requires
        s.can_sell_one(id),
    ensures
        s.after_sell_one(id).items.len() == s.items.len(),
        s.after_sell_one(id).sales == s.sales,
        forall|i: int|
            0 <= i < s.items.len() ==> {
                let before = #[trigger] s.items[i];
                let after = s.after_sell_one(id).items[i];
                &&& after.quantity + after.sold == before.quantity + before.sold
                &&& after.id == before.id
            },
{
    lemma_position_facts(s.items, id);
}

proof fn lemma_recorded_push(sales: Seq<Sale>, sale: Sale, x: u32)
    ensures
        recorded_quantity(sales.push(sale), x) == recorded_quantity(sales, x) + if sale.item_id
            == x {
            sale.quantity as int
        } else {
            0
        },
{
    assert(sales.push(sale).drop_last() == sales);
}

/// Every unit that a sale takes off an item's stock is recorded in a sale of
/// that item: units sold minus the quantities recorded for the item is the
/// same before and after any sale request.
pub proof fn law_sales_record_sold_units(s: ShopState, id: u32, quantity: u32, at: Timestamp)
    requires
        s.item_ids_distinct(),
        s.can_sell(id, quantity),
    ensures
        forall|i: int|
            0 <= i < s.items.len() ==> {
                let t = s.after_sell(id, quantity, at);
                recorded_quantity(t.sales, t.items[i].id) - t.items[i].sold == recorded_quantity(
                    s.sales,
                    (#[trigger] s.items[i]).id,
                ) - s.items[i].sold
            },
{
    lemma_position_facts(s.items, id);
    if s.sell_outcome(id, quantity) == SaleOutcome::Sold {
        let t = s.after_sell(id, quantity, at);
        let k = s.position(id).unwrap();
        assert forall|i: int| 0 <= i < s.items.len() implies recorded_quantity(
            t.sales,
            t.items[i].id,
        ) - t.items[i].sold == recorded_quantity(s.sales, (#[trigger] s.items[i]).id)
            - s.items[i].sold by {
            lemma_recorded_push(s.sales, t.sales.last(), s.items[i].id);
            assert(t.sales == s.sales.push(t.sales.last()));
            if i != k {
                if i < k {
                    assert(s.items[i].id != s.items[k].id);
                } else {
                    assert(s.items[k].id != s.items[i].id);
                }
            }
        }
    }
}

/// A refused sale request leaves the shop as it was.
pub proof fn law_refused_sale_changes_nothing(s: ShopState, id: u32, quantity: u32, at: Timestamp)
    ensures
        s.sell_outcome(id, quantity) != SaleOutcome::Sold ==> s.after_sell(id, quantity, at) == s,
        s.sell_one_outcome(id) != SaleOutcome::Sold ==> s.after_sell_one(id) == s,
        s.sell_outcome(id, quantity) == SaleOutcome::Sold <==> s.sell_outcome(
            id,
            quantity,
        ).spec_status_code() == 200,
{
}

/// A successful sale appends exactly one record, with the next sale id, the
/// item's id, name and price, the quantity and the time of the sale.
pub proof fn law_sale_is_recorded(s: ShopState, id: u32, quantity: u32, at: Timestamp)
    requires
        s.can_sell(id, quantity),
        s.sell_outcome(id, quantity) == SaleOutcome::Sold,
    ensures
        s.after_sell(id, quantity, at).sales == s.sales.push(
            Sale {
                id: s.next_sale_id,
                item_id: id,
                item_name: s.items[s.position(id).unwrap()].name,
                quantity,
                price_at_sale_bits: s.items[s.position(id).unwrap()].price_bits,
                timestamp: at,
            },
        ),
        s.after_sell(id, quantity, at).next_sale_id == s.next_sale_id + 1,
{
    lemma_position_facts(s.items, id);
}

/// Sales are never lost or altered: every operation keeps the recorded
/// sales as a prefix of the new ones, and only a successful sale adds one.
pub proof fn law_sales_only_grow(
    s: ShopState,
    id: u32,
    quantity: u32,
    at: Timestamp,
    image: String,
    name: String,
    price_bits: u64,
    sold: u32,
)
    ensures
        s.sales.is_prefix_of(s.added(image, name, price_bits, quantity).sales),
        s.sales.is_prefix_of(s.after_sell(id, quantity, at).sales),
        s.after_sell(id, quantity, at).sales.len() == s.sales.len() + if s.sell_outcome(
            id,
            quantity,
        ) == SaleOutcome::Sold {
            1int
        } else {
            0
        },
        s.after_sell_one(id).sales == s.sales,
        s.after_edit(id, name, price_bits, quantity, sold, image).sales == s.sales,
        s.after_delete(id).sales == s.sales,
{
}

/// After a delete no item of a well-formed shop has the deleted id, and the
/// list is one item shorter if there was one to delete.
pub proof fn law_deleted_item_is_gone(s: ShopState, id: u32)
    requires
        s.well_formed(),
    ensures
        s.after_delete(id).position(id) is None,
        s.after_delete(id).items.len() == s.items.len() - if s.position(id) is Some {
            1int
        } else {
            0
        },
{
    lemma_position_facts(s.items, id);
    let d = s.after_delete(id);
    if let Some(k) = s.position(id) {
        assert forall|j: int| 0 <= j < d.items.len() implies d.items[j].id != id by {
            let oj = if j < k { j } else { j + 1 };
            assert(d.items[j] == s.items[oj]);
            if j >= k {
                assert(s.items[k].id != s.items[oj].id);
            }
        }
    }
    lemma_position_facts(d.items, id);
}

/// After an edit the item is found where it was, under its id, with the new
/// values; the other items are unchanged.
pub proof fn law_edit_then_find(
    s: ShopState,
    id: u32,
    name: String,
    price_bits: u64,
    quantity: u32,
    sold: u32,
    image: String,
)
    requires
        s.position(id) is Some,
    ensures
        ({
            let e = s.after_edit(id, name, price_bits, quantity, sold, image);
            let k = s.position(id).unwrap();
            &&& e.position(id) == Some(k)
            &&& e.items[k] == (Item { id, image, name, price_bits, quantity, sold })
            &&& e.items.len() == s.items.len()
            &&& forall|i: int| 0 <= i < s.items.len() && i != k ==> e.items[i] == s.items[i]
        }),
{
    lemma_position_facts(s.items, id);
    let e = s.after_edit(id, name, price_bits, quantity, sold, image);
    let k = s.position(id).unwrap();
    lemma_position_is(e.items, id, k);
}

/// Selling units that are in stock succeeds whatever the item's sold count:
/// for the first item with id `id`, at index `k`, asking for `quantity`
/// units with `0 < quantity <=` its stock is answered `Sold`; the stock goes
/// down and the sold count up by exactly `quantity`, every other item and
/// every other field stays, and one sale of `quantity` units of that item,
/// at its price and time `at`, is appended under the next sale id. Asking
/// for more than the stock is answered `NotEnoughStock`, asking for zero
/// units `InvalidQuantity`, and both leave the shop as it was.
pub proof fn law_selling_units_in_stock(
    s: ShopState,
    id: u32,
    k: int,
    quantity: u32,
    at: Timestamp,
)
    requires
        0 <= k < s.items.len(),
        s.items[k].id == id,
        forall|j: int| 0 <= j < k ==> s.items[j].id != id,
    ensures
        0 < quantity <= s.items[k].quantity ==> s.sell_outcome(id, quantity) == SaleOutcome::Sold,
        (0 < quantity <= s.items[k].quantity && s.items[k].sold + quantity <= u32::MAX
            && s.next_sale_id < u32::MAX) ==> {
            let t = s.after_sell(id, quantity, at);
            &&& s.can_sell(id, quantity)
            &&& t.items.len() == s.items.len()
            &&& t.items[k].quantity == s.items[k].quantity - quantity
            &&& t.items[k].sold == s.items[k].sold + quantity
            &&& t.items[k].id == id
            &&& t.items[k].name == s.items[k].name
            &&& t.items[k].image == s.items[k].image
            &&& t.items[k].price_bits == s.items[k].price_bits
            &&& forall|j: int| 0 <= j < s.items.len() && j != k ==> t.items[j] == s.items[j]
            &&& t.sales.len() == s.sales.len() + 1
            &&& t.sales.drop_last() == s.sales
            &&& t.sales.last().id == s.next_sale_id
            &&& t.sales.last().item_id == id
            &&& t.sales.last().item_name == s.items[k].name
            &&& t.sales.last().quantity == quantity
            &&& t.sales.last().price_at_sale_bits == s.items[k].price_bits
            &&& t.sales.last().timestamp == at
            &&& t.next_sale_id == s.next_sale_id + 1
            &&& t.next_id == s.next_id
        },
        s.can_sell(id, quantity) <==> (0 < quantity <= s.items[k].quantity ==> (s.items[k].sold
            + quantity <= u32::MAX && s.next_sale_id < u32::MAX)),
        quantity > s.items[k].quantity ==> s.sell_outcome(id, quantity)
            == SaleOutcome::NotEnoughStock && s.after_sell(id, quantity, at) == s,
        quantity == 0 ==> s.sell_outcome(id, quantity) == SaleOutcome::InvalidQuantity
            && s.after_sell(id, quantity, at) == s,
{
    lemma_position_is(s.items, id, k);
    let t = s.after_sell(id, quantity, at);
    if 0 < quantity <= s.items[k].quantity && s.items[k].sold + quantity <= u32::MAX
        && s.next_sale_id < u32::MAX {
        assert(t.sales.drop_last() =~= s.sales);
    }
}

/// Asking for a unit of an item that has none is refused, and for an item
/// that is not there too; both leave the shop as it was.
pub proof fn law_selling_what_is_missing(s: ShopState, id: u32, quantity: u32, at: Timestamp)
    requires
        forall|j: int| 0 <= j < s.items.len() ==> s.items[j].id != id,
    ensures
        s.sell_outcome(id, quantity) == SaleOutcome::NotFound,
        s.after_sell(id, quantity, at) == s,
        s.sell_one_outcome(id) == SaleOutcome::NotFound,
        s.after_sell_one(id) == s,
{
    lemma_position_facts(s.items, id);
    if let Some(k) = s.position(id) {
        assert(s.items[k].id == id);
    }
}

/// A single-unit sale of the first item with id `id`, at index `k`, that
/// has stock takes exactly one unit: its stock goes down by one and its sold
/// count up by one, nothing else changes and no sale is recorded. Without
/// stock it is answered `OutOfStock` and nothing changes.
pub proof fn law_single_unit_sale(s: ShopState, id: u32, k: int)
    requires
        0 <= k < s.items.len(),
        s.items[k].id == id,
        forall|j: int| 0 <= j < k ==> s.items[j].id != id,
    ensures
        s.items[k].quantity > 0 ==> s.sell_one_outcome(id) == SaleOutcome::Sold,
        (s.items[k].quantity > 0 && s.items[k].sold < u32::MAX) ==> {
            let t = s.after_sell_one(id);
            &&& s.can_sell_one(id)
            &&& t.items.len() == s.items.len()
            &&& t.items[k].quantity == s.items[k].quantity - 1
            &&& t.items[k].sold == s.items[k].sold + 1
            &&& t.items[k].id == id
            &&& t.items[k].name == s.items[k].name
            &&& t.items[k].image == s.items[k].image
            &&& t.items[k].price_bits == s.items[k].price_bits
            &&& forall|j: int| 0 <= j < s.items.len() && j != k ==> t.items[j] == s.items[j]
            &&& t.sales == s.sales
            &&& t.next_sale_id == s.next_sale_id
            &&& t.next_id == s.next_id
        },
        s.can_sell_one(id) <==> (s.items[k].quantity > 0 ==> s.items[k].sold < u32::MAX),
        s.items[k].quantity == 0 ==> s.sell_one_outcome(id) == SaleOutcome::OutOfStock
            && s.after_sell_one(id) == s,
{
    lemma_position_is(s.items, id, k);
}

/// A new item goes to the end of the list with the next id, the values it
/// was given and no unit sold; nothing else changes.
pub proof fn law_adding_an_item(
    s: ShopState,
    image: String,
    name: String,
    price_bits: u64,
    quantity: u32,
)
    requires
        s.next_id < u32::MAX,
    ensures
        ({
            let t = s.added(image, name, price_bits, quantity);
            &&& t.items.len() == s.items.len() + 1
            &&& t.items.drop_last() == s.items
            &&& t.items.last().id == s.next_id
            &&& t.items.last().name == name
            &&& t.items.last().image == image
            &&& t.items.last().price_bits == price_bits
            &&& t.items.last().quantity == quantity
            &&& t.items.last().sold == 0
            &&& t.next_id == s.next_id + 1
            &&& t.sales == s.sales
            &&& t.next_sale_id == s.next_sale_id
        }),
{
    let t = s.added(image, name, price_bits, quantity);
    assert(t.items.drop_last() =~= s.items);
}

/// Deleting the first item with id `id`, at index `k`, removes exactly that
/// item: the items before it and after it keep their order, and the sales
/// and ids stay.
pub proof fn law_delete_removes_that_item(s: ShopState, id: u32, k: int)
    requires
        0 <= k < s.items.len(),
        s.items[k].id == id,
        forall|j: int| 0 <= j < k ==> s.items[j].id != id,
    ensures
        s.after_delete(id).items.len() == s.items.len() - 1,
        forall|j: int| 0 <= j < k ==> s.after_delete(id).items[j] == s.items[j],
        forall|j: int| k < j < s.items.len() ==> s.after_delete(id).items[j - 1] == s.items[j],
        s.after_delete(id).sales == s.sales,
        s.after_delete(id).next_id == s.next_id,
        s.after_delete(id).next_sale_id == s.next_sale_id,
{
    lemma_position_is(s.items, id, k);
}

/// Deleting an id that no item has changes nothing, and neither does
/// editing it.
pub proof fn law_missing_id_changes_nothing(
    s: ShopState,
    id: u32,
    name: String,
    price_bits: u64,
    quantity: u32,
    sold: u32,
    image: String,
)
    requires
        forall|j: int| 0 <= j < s.items.len() ==> s.items[j].id != id,
    ensures
        s.after_delete(id) == s,
        s.after_edit(id, name, price_bits, quantity, sold, image) == s,
{
    lemma_position_facts(s.items, id);
    if let Some(k) = s.position(id) {
        assert(s.items[k].id == id);
    }
}

/// The web service answers a sale request with status 200 exactly when the
/// units were sold, 404 exactly when no item has the id, and 400 otherwise.
pub proof fn law_sale_statuses(o: SaleOutcome)
    ensures
        (o.spec_status_code() == 200) == (o == SaleOutcome::Sold),
        (o.spec_status_code() == 404) == (o == SaleOutcome::NotFound),
        (o != SaleOutcome::Sold && o != SaleOutcome::NotFound) ==> o.spec_status_code() == 400,
{
}

} // verus!
