use vstd::prelude::*;
use crate::clock::{now_utc, Timestamp};
use crate::model::{is_first_with_id, lemma_position_is, Item, Sale, SaleOutcome, ShopState, StoredData};

verus! {

impl StoredData {
    /// An empty shop: no item, no sale, and ids that start at 0.
    pub fn new() -> (r: StoredData)
        ensures
            r@ == ShopState::empty(),
    {
        StoredData { next_id: 0, items: Vec::new(), sales: Vec::new(), next_sale_id: 0 }
    }

    /// The data read back from storage, or an empty shop where nothing could
    /// be read.
    pub fn loaded_or_empty(loaded: Option<StoredData>) -> (r: StoredData)
        ensures
            r@ == match loaded {
                Some(d) => d@,
                None => ShopState::empty(),
            },
    {
        match loaded {
            Some(d) => d,
            None => StoredData::new(),
        }
    }

    /// Whether the shop holds any item; editing and deleting end at once
    /// when it holds none.
    pub fn has_items(&self) -> (r: bool)
        ensures
            r == (self@.items.len() > 0),
    {
        self.items.len() > 0
    }

    /// The index of the first item with id `id`, if there is one.
    pub fn find_item(&self, id: u32) -> (r: Option<usize>)
        ensures
            match r {
                Some(k) => self@.position(id) == Some(k as int),
                None => self@.position(id) is None,
            },
    {
        let n = self.items.len();
        let mut i: usize = 0;
        while i < n
            invariant
                n == self.items@.len(),
                0 <= i <= n,
                forall|j: int| 0 <= j < i ==> self.items@[j].id != id,
            decreases n - i,
        {
            if self.items[i].id == id {
                proof {
                    lemma_position_is(self.items@, id, i as int);
                }
                return Some(i);
            }
            i = i + 1;
        }
        assert(!exists|c: int| is_first_with_id(self.items@, id, c));
        None
    }

    /// Whether another item can be added without the next item id
    /// overflowing.
    pub fn can_add_item(&self) -> (r: bool)
        ensures
            r == (self.next_id < u32::MAX),
    {
        self.next_id < u32::MAX
    }

    /// Whether a request to sell `quantity` units of item `id` fits the
    /// counters (see `ShopState::can_sell`).
    pub fn can_sell(&self, id: u32, quantity: u32) -> (r: bool)
        ensures
            r == self@.can_sell(id, quantity),
    {
        match self.find_item(id) {
            None => true,
            Some(k) => {
                let item = &self.items[k];
                if item.quantity >= quantity && quantity > 0 {
                    item.sold <= u32::MAX - quantity && self.next_sale_id < u32::MAX
                } else {
                    true
                }
            },
        }
    }

    /// Whether a request to sell a single unit of item `id` fits its sold
    /// count (see `ShopState::can_sell_one`).
    pub fn can_sell_one(&self, id: u32) -> (r: bool)
        ensures
            r == self@.can_sell_one(id),
    {
        match self.find_item(id) {
            None => true,
            Some(k) => self.items[k].quantity == 0 || self.items[k].sold < u32::MAX,
        }
    }

    /// Adds a new item with no unit sold yet and returns the id it got.
    pub fn add_item(&mut self, image: String, name: String, price_bits: u64, quantity: u32) -> (id:
        u32)
        requires
            old(self).next_id < u32::MAX,
        ensures
            id == old(self).next_id,
            final(self)@ == old(self)@.added(image, name, price_bits, quantity),
    {
        let id = self.next_id;
        self.next_id = self.next_id + 1;
        self.items.push(Item { id, image, name, price_bits, quantity, sold: 0 });
        id
    }

    /// Sells `quantity` units of item `id`, recording the sale at time `at`.
    pub fn sell_item_at(&mut self, id: u32, quantity: u32, at: Timestamp) -> (r: SaleOutcome)
        requires
            old(self)@.can_sell(id, quantity),
        ensures
            r == old(self)@.sell_outcome(id, quantity),
            final(self)@ == old(self)@.after_sell(id, quantity, at),
    {
        match self.find_item(id) {
            None => SaleOutcome::NotFound,
            Some(k) => {
                let in_stock = self.items[k].quantity;
                if in_stock >= quantity && quantity > 0 {
                    let sale_id = self.next_sale_id;
                    let item_id = self.items[k].id;
                    let item_name = self.items[k].name.clone();
                    let price = self.items[k].price_bits;
                    let item = &mut self.items[k];
                    item.quantity = item.quantity - quantity;
                    item.sold = item.sold + quantity;
                    self.sales.push(
                        Sale {
                            id: sale_id,
                            item_id,
                            item_name,
                            quantity,
                            price_at_sale_bits: price,
                            timestamp: at,
                        },
                    );
                    self.next_sale_id = self.next_sale_id + 1;
                    SaleOutcome::Sold
                } else if quantity == 0 {
                    SaleOutcome::InvalidQuantity
                } else {
                    SaleOutcome::NotEnoughStock
                }
            },
        }
    }

    /// What a request to sell `quantity` units of item `id` would be
    /// answered, without selling anything.
    pub fn sale_outcome(&self, id: u32, quantity: u32) -> (r: SaleOutcome)
        ensures
            r == self@.sell_outcome(id, quantity),
    {
        match self.find_item(id) {
            None => SaleOutcome::NotFound,
            Some(k) => {
                if self.items[k].quantity >= quantity && quantity > 0 {
                    SaleOutcome::Sold
                } else if quantity == 0 {
                    SaleOutcome::InvalidQuantity
                } else {
                    SaleOutcome::NotEnoughStock
                }
            },
        }
    }

    /// Sells `quantity` units of item `id` and records the sale at the
    /// current time; the clock is read only for a sale that goes through.
    pub fn sell_item(&mut self, id: u32, quantity: u32) -> (r: SaleOutcome)
        requires
            old(self)@.can_sell(id, quantity),
        ensures
            r == old(self)@.sell_outcome(id, quantity),
            r != SaleOutcome::Sold ==> final(self)@ == old(self)@,
            r == SaleOutcome::Sold ==> exists|at: Timestamp|
                {
                    &&& at.secs >= 0
                    &&& at.nanos < 1_000_000_000
                    &&& final(self)@ == old(self)@.after_sell(id, quantity, at)
                },
    {
        let outcome = self.sale_outcome(id, quantity);
        if outcome != SaleOutcome::Sold {
            return outcome;
        }
        let at = now_utc();
        self.sell_item_at(id, quantity, at)
    }

    /// Sells a single unit of item `id`; no sale is recorded.
    pub fn sell_one(&mut self, id: u32) -> (r: SaleOutcome)
        requires
            old(self)@.can_sell_one(id),
        ensures
            r == old(self)@.sell_one_outcome(id),
            final(self)@ == old(self)@.after_sell_one(id),
    {
        match self.find_item(id) {
            None => SaleOutcome::NotFound,
            Some(k) => {
                if self.items[k].quantity > 0 {
                    let item = &mut self.items[k];
                    item.quantity = item.quantity - 1;
                    item.sold = item.sold + 1;
                    SaleOutcome::Sold
                } else {
                    SaleOutcome::OutOfStock
                }
            },
        }
    }

    /// Gives the item `id` new values for every field but its id; answers
    /// whether there was such an item.
    pub fn edit_item(
        &mut self,
        id: u32,
        name: String,
        price_bits: u64,
        quantity: u32,
        sold: u32,
        image: String,
    ) -> (found: bool)
        ensures
            found == (old(self)@.position(id) is Some),
            final(self)@ == old(self)@.after_edit(id, name, price_bits, quantity, sold, image),
    {
        match self.find_item(id) {
            None => false,
            Some(k) => {
                let item_id = self.items[k].id;
                self.items.set(k, Item { id: item_id, image, name, price_bits, quantity, sold });
                true
            },
        }
    }

    /// Deletes the item `id` and hands it back, if there was one.
    pub fn delete_item(&mut self, id: u32) -> (r: Option<Item>)
        ensures
            match old(self)@.position(id) {
                Some(k) => r == Some(old(self)@.items[k]),
                None => r is None,
            },
            final(self)@ == old(self)@.after_delete(id),
    {
        match self.find_item(id) {
            None => None,
            Some(k) => Some(self.items.remove(k)),
        }
    }
}

} // verus!
