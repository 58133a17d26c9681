use vstd::prelude::*;
use crate::clock::Timestamp;

verus! {

/// The file in which the shop keeps its data.
pub const FILE_PATH: &'static str = "items.bin";

/// A product on sale. The price is kept as the bit pattern of the `f64` that
/// the shop's users enter (`f64::to_bits`); the library stores and copies it
/// and never computes with it.
#[derive(Clone, Debug)]
pub struct Item {
    pub id: u32,
    pub image: String,
    pub name: String,
    pub price_bits: u64,
    pub quantity: u32,
    pub sold: u32,
}

/// The record of one sale: which item, under which name, how many units, at
/// which price (the `f64` bit pattern) and when.
#[derive(Clone, Debug)]
pub struct Sale {
    pub id: u32,
    pub item_id: u32,
    pub item_name: String,
    pub quantity: u32,
    pub price_at_sale_bits: u64,
    pub timestamp: Timestamp,
}

/// Everything the shop keeps: its items, its sales, and the ids that the
/// next item and the next sale will get.
#[derive(Debug)]
pub struct StoredData {
    pub next_id: u32,
    pub items: Vec<Item>,
    pub sales: Vec<Sale>,
    pub next_sale_id: u32,
}

/// The answer to a request to sell units of an item.
#[derive(Clone, Copy, PartialEq, Eq, Structural, Debug)]
pub enum SaleOutcome {
    /// The units were sold.
    Sold,
    /// A sale of zero units was asked for.
    InvalidQuantity,
    /// The item has fewer units in stock than were asked for.
    NotEnoughStock,
    /// The item has no unit left (single-unit sales).
    OutOfStock,
    /// No item has the given id.
    NotFound,
}

/// The mathematical state of the shop: `StoredData` with its vectors seen as
/// sequences.
pub struct ShopState {
    pub next_id: u32,
    pub items: Seq<Item>,
    pub sales: Seq<Sale>,
    pub next_sale_id: u32,
}

impl View for StoredData {
    type V = ShopState;

    open spec fn view(&self) -> ShopState {
        ShopState {
            next_id: self.next_id,
            items: self.items@,
            sales: self.sales@,
            next_sale_id: self.next_sale_id,
        }
    }
}

/// `i` is the first index of `items` whose item has id `id`.
pub open spec fn is_first_with_id(items: Seq<Item>, id: u32, i: int) -> bool {
    &&& 0 <= i < items.len()
    &&& items[i].id == id
    &&& forall|j: int| 0 <= j < i ==> items[j].id != id
}

/// Where the item with id `id` stands: the first index that holds that id,
/// or `None` when no item has it.
pub open spec fn position_of(items: Seq<Item>, id: u32) -> Option<int> {
    if exists|i: int| is_first_with_id(items, id, i) {
        Some(choose|i: int| is_first_with_id(items, id, i))
    } else {
        None
    }
}

/// A first index for `id` is what `position_of` gives.
pub proof fn lemma_position_is(items: Seq<Item>, id: u32, i: int)
    requires
        is_first_with_id(items, id, i),
    ensures
        position_of(items, id) == Some(i),
{
    let c = choose|c: int| is_first_with_id(items, id, c);
    assert(c == i) by {
        if c < i {
            assert(items[c].id == id);
        }
        if i < c {
            assert(items[i].id == id);
        }
    }
}

/// An item with id `id` at index `j` means that some first index for `id`
/// exists.
pub proof fn lemma_first_exists(items: Seq<Item>, id: u32, j: int)
    requires
        0 <= j < items.len(),
        items[j].id == id,
    ensures
        exists|m: int| is_first_with_id(items, id, m),
    decreases j,
{
    if exists|p: int| 0 <= p < j && items[p].id == id {
        let p = choose|p: int| 0 <= p < j && items[p].id == id;
        lemma_first_exists(items, id, p);
    } else {
        assert(is_first_with_id(items, id, j));
    }
}

/// What `position_of` gives is a first index for `id`; `None` means that no
/// item has that id.
pub proof fn lemma_position_facts(items: Seq<Item>, id: u32)
    ensures
        match position_of(items, id) {
            Some(k) => is_first_with_id(items, id, k),
            None => forall|j: int| 0 <= j < items.len() ==> items[j].id != id,
        },
{
    if position_of(items, id) is None {
        assert forall|j: int| 0 <= j < items.len() implies items[j].id != id by {
            if items[j].id == id {
                lemma_first_exists(items, id, j);
            }
        }
    }
}

/// Sum of the quantities of the sales recorded for the item `item_id`.
pub open spec fn recorded_quantity(sales: Seq<Sale>, item_id: u32) -> int
    decreases sales.len(),
{
    if sales.len() == 0 {
        0
    } else {
        recorded_quantity(sales.drop_last(), item_id) + if sales.last().item_id == item_id {
            sales.last().quantity as int
        } else {
            0
        }
    }
}

impl ShopState {
    /// The state of a shop that holds nothing yet.
    pub open spec fn empty() -> ShopState {
        ShopState { next_id: 0, items: Seq::empty(), sales: Seq::empty(), next_sale_id: 0 }
    }

    /// Ids are what the shop relies on to tell items and sales apart: no two
    /// items share an id, no two sales share an id, and every id in use is
    /// below the one that the next item (or sale) gets.
    pub open spec fn well_formed(self) -> bool {
        &&& forall|i: int| 0 <= i < self.items.len() ==> #[trigger] self.items[i].id < self.next_id
        &&& self.item_ids_distinct()
        &&& forall|i: int|
            0 <= i < self.sales.len() ==> #[trigger] self.sales[i].id < self.next_sale_id
        &&& forall|i: int, j: int|
            0 <= i < j < self.sales.len() ==> #[trigger] self.sales[i].id
                != #[trigger] self.sales[j].id
    }

    /// No two items share an id.
    pub open spec fn item_ids_distinct(self) -> bool {
        forall|i: int, j: int|
            0 <= i < j < self.items.len() ==> #[trigger] self.items[i].id
                != #[trigger] self.items[j].id
    }

    pub open spec fn position(self, id: u32) -> Option<int> {
        position_of(self.items, id)
    }

    /// The state after a new item was added: it gets the id `next_id`, no
    /// unit of it is sold yet, and it goes to the end of the list.
    pub open spec fn added(
        self,
        image: String,
        name: String,
        price_bits: u64,
        quantity: u32,
    ) -> ShopState {
        ShopState {
            next_id: (self.next_id + 1) as u32,
            items: self.items.push(
                Item { id: self.next_id, image, name, price_bits, quantity, sold: 0 },
            ),
            ..self
        }
    }

    /// What a request to sell `quantity` units of item `id` is answered.
    pub open spec fn sell_outcome(self, id: u32, quantity: u32) -> SaleOutcome {
        match self.position(id) {
            None => SaleOutcome::NotFound,
            Some(k) => if self.items[k].quantity >= quantity && quantity > 0 {
                SaleOutcome::Sold
            } else if quantity == 0 {
                SaleOutcome::InvalidQuantity
            } else {
                SaleOutcome::NotEnoughStock
            },
        }
    }

    /// A sale of `quantity` units of item `id` fits the counters: where it
    /// goes through, the item's sold count and the next sale id do not
    /// overflow.
    pub open spec fn can_sell(self, id: u32, quantity: u32) -> bool {
        self.sell_outcome(id, quantity) == SaleOutcome::Sold ==> {
            &&& self.items[self.position(id).unwrap()].sold + quantity <= u32::MAX
            &&& self.next_sale_id < u32::MAX
        }
    }

    /// The state after a request to sell `quantity` units of item `id` at
    /// time `at`: on success the item's stock goes down and its sold count up
    /// by `quantity`, and a sale record is appended; otherwise nothing changes.
    pub open spec fn after_sell(self, id: u32, quantity: u32, at: Timestamp) -> ShopState {
        if self.sell_outcome(id, quantity) == SaleOutcome::Sold {
            let k = self.position(id).unwrap();
            let it = self.items[k];
            ShopState {
                items: self.items.update(
                    k,
                    Item {
                        quantity: (it.quantity - quantity) as u32,
                        sold: (it.sold + quantity) as u32,
                        ..it
                    },
                ),
                sales: self.sales.push(
                    Sale {
                        id: self.next_sale_id,
                        item_id: it.id,
                        item_name: it.name,
                        quantity,
                        price_at_sale_bits: it.price_bits,
                        timestamp: at,
                    },
                ),
                next_sale_id: (self.next_sale_id + 1) as u32,
                ..self
            }
        } else {
            self
        }
    }

    /// What a request to sell a single unit of item `id` is answered.
    pub open spec fn sell_one_outcome(self, id: u32) -> SaleOutcome {
        match self.position(id) {
            None => SaleOutcome::NotFound,
            Some(k) => if self.items[k].quantity > 0 {
                SaleOutcome::Sold
            } else {
                SaleOutcome::OutOfStock
            },
        }
    }

    /// A single-unit sale of item `id` does not overflow its sold count.
    pub open spec fn can_sell_one(self, id: u32) -> bool {
        self.sell_one_outcome(id) == SaleOutcome::Sold ==> self.items[self.position(
            id,
        ).unwrap()].sold < u32::MAX
    }

    /// The state after a single unit of item `id` was asked for: on success
    /// its stock goes down by one and its sold count up by one, and no sale
    /// is recorded; otherwise nothing changes.
    pub open spec fn after_sell_one(self, id: u32) -> ShopState {
        if self.sell_one_outcome(id) == SaleOutcome::Sold {
            let k = self.position(id).unwrap();
            let it = self.items[k];
            ShopState {
                items: self.items.update(
                    k,
                    Item { quantity: (it.quantity - 1) as u32, sold: (it.sold + 1) as u32, ..it },
                ),
                ..self
            }
        } else {
            self
        }
    }

    /// The state after the item `id` was given new values: its id stays,
    /// every other field is replaced. Without such an item nothing changes.
    pub open spec fn after_edit(
        self,
        id: u32,
        name: String,
        price_bits: u64,
        quantity: u32,
        sold: u32,
        image: String,
    ) -> ShopState {
        match self.position(id) {
            None => self,
            Some(k) => ShopState {
                items: self.items.update(
                    k,
                    Item { id: self.items[k].id, image, name, price_bits, quantity, sold },
                ),
                ..self
            },
        }
    }

    /// The state after the item `id` was deleted: the first item with that
    /// id leaves the list and the others keep their order.
    pub open spec fn after_delete(self, id: u32) -> ShopState {
        match self.position(id) {
            None => self,
            Some(k) => ShopState { items: self.items.remove(k), ..self },
        }
    }
}

impl SaleOutcome {
    /// The HTTP status that the web service answers with.
    pub open spec fn spec_status_code(self) -> u16 {
        match self {
            SaleOutcome::Sold => 200,
            SaleOutcome::NotFound => 404,
            _ => 400,
        }
    }

    pub fn status_code(&self) -> (r: u16)
        ensures
            r == self.spec_status_code(),
    {
        match self {
            SaleOutcome::Sold => 200,
            SaleOutcome::NotFound => 404,
            _ => 400,
        }
    }

    /// The text that the web service answers with.
    pub fn message(&self) -> (r: &'static str)
        ensures
            *self == SaleOutcome::Sold ==> r@ == "Sold"@,
            *self == SaleOutcome::InvalidQuantity ==> r@ == "Quantity must be > 0"@,
            *self == SaleOutcome::NotEnoughStock ==> r@ == "Not enough stock"@,
            *self == SaleOutcome::OutOfStock ==> r@ == "Out of stock"@,
            *self == SaleOutcome::NotFound ==> r@ == "Item not found"@,
    {
        match self {
            SaleOutcome::Sold => "Sold",
            SaleOutcome::InvalidQuantity => "Quantity must be > 0",
            SaleOutcome::NotEnoughStock => "Not enough stock",
            SaleOutcome::OutOfStock => "Out of stock",
            SaleOutcome::NotFound => "Item not found",
        }
    }
}

} // verus!
