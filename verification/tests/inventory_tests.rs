use shop::clock::{now_utc, Timestamp};
use shop::model::{Item, SaleOutcome, StoredData, FILE_PATH};

fn shop_with_two_items() -> StoredData {
    let mut data = StoredData::new();
    data.add_item("a.png".to_string(), "Apple".to_string(), 1.5f64.to_bits(), 10);
    data.add_item("b.png".to_string(), "Banana".to_string(), 0.25f64.to_bits(), 3);
    data
}

fn at(secs: i64) -> Timestamp {
    Timestamp { secs, nanos: 0 }
}

fn ids_are_distinct_and_fresh(data: &StoredData) -> bool {
    for (i, a) in data.items.iter().enumerate() {
        if a.id >= data.next_id {
            return false;
        }
        for b in data.items.iter().skip(i + 1) {
            if a.id == b.id {
                return false;
            }
        }
    }
    for (i, a) in data.sales.iter().enumerate() {
        if a.id >= data.next_sale_id {
            return false;
        }
        for b in data.sales.iter().skip(i + 1) {
            if a.id == b.id {
                return false;
            }
        }
    }
    true
}

#[test]
fn new_shop_is_empty() {
    let data = StoredData::new();
    assert_eq!(data.next_id, 0);
    assert_eq!(data.next_sale_id, 0);
    assert!(data.items.is_empty());
    assert!(data.sales.is_empty());
}

#[test]
fn loaded_data_is_kept_and_missing_data_gives_empty_shop() {
    let data = StoredData::loaded_or_empty(Some(shop_with_two_items()));
    assert_eq!(data.items.len(), 2);
    assert_eq!(data.next_id, 2);
    let empty = StoredData::loaded_or_empty(None);
    assert_eq!(empty.items.len(), 0);
    assert_eq!(empty.next_id, 0);
}

#[test]
fn added_items_get_consecutive_ids() {
    let mut data = StoredData::new();
    let first = data.add_item("".to_string(), "Pen".to_string(), 2.0f64.to_bits(), 5);
    let second = data.add_item("p.jpg".to_string(), "Pad".to_string(), 3.0f64.to_bits(), 0);
    assert_eq!(first, 0);
    assert_eq!(second, 1);
    assert_eq!(data.next_id, 2);
    assert_eq!(data.items[1].name, "Pad");
    assert_eq!(data.items[1].image, "p.jpg");
    assert_eq!(data.items[1].quantity, 0);
    assert_eq!(data.items[1].sold, 0);
    assert_eq!(f64::from_bits(data.items[1].price_bits), 3.0);
}

#[test]
fn added_item_is_found_under_its_id() {
    let mut data = shop_with_two_items();
    let id = data.add_item("c.png".to_string(), "Cherry".to_string(), 4.0f64.to_bits(), 1);
    assert_eq!(data.find_item(id), Some(2));
    assert_eq!(data.find_item(99), None);
}

#[test]
fn find_item_gives_the_first_match() {
    let mut data = shop_with_two_items();
    data.items.push(Item {
        id: 0,
        image: String::new(),
        name: "Duplicate".to_string(),
        price_bits: 0,
        quantity: 1,
        sold: 0,
    });
    assert_eq!(data.find_item(0), Some(0));
}

#[test]
fn selling_moves_stock_to_sold_and_records_the_sale() {
    let mut data = shop_with_two_items();
    let outcome = data.sell_item_at(0, 4, at(1_700_000_000));
    assert_eq!(outcome, SaleOutcome::Sold);
    assert_eq!(data.items[0].quantity, 6);
    assert_eq!(data.items[0].sold, 4);
    assert_eq!(data.items[1].quantity, 3);
    assert_eq!(data.sales.len(), 1);
    let sale = &data.sales[0];
    assert_eq!(sale.id, 0);
    assert_eq!(sale.item_id, 0);
    assert_eq!(sale.item_name, "Apple");
    assert_eq!(sale.quantity, 4);
    assert_eq!(f64::from_bits(sale.price_at_sale_bits), 1.5);
    assert_eq!(sale.timestamp, at(1_700_000_000));
    assert_eq!(data.next_sale_id, 1);
}

#[test]
fn selling_the_whole_stock_is_allowed() {
    let mut data = shop_with_two_items();
    assert_eq!(data.sell_item_at(1, 3, at(5)), SaleOutcome::Sold);
    assert_eq!(data.items[1].quantity, 0);
    assert_eq!(data.items[1].sold, 3);
    assert_eq!(data.sell_item_at(1, 1, at(6)), SaleOutcome::NotEnoughStock);
}

#[test]
fn refused_sales_change_nothing() {
    let mut data = shop_with_two_items();
    assert_eq!(data.sell_item_at(0, 0, at(1)), SaleOutcome::InvalidQuantity);
    assert_eq!(data.sell_item_at(1, 4, at(1)), SaleOutcome::NotEnoughStock);
    assert_eq!(data.sell_item_at(7, 1, at(1)), SaleOutcome::NotFound);
    assert_eq!(data.sell_item_at(7, 0, at(1)), SaleOutcome::NotFound);
    assert_eq!(data.items[0].quantity, 10);
    assert_eq!(data.items[1].quantity, 3);
    assert_eq!(data.items[0].sold, 0);
    assert!(data.sales.is_empty());
    assert_eq!(data.next_sale_id, 0);
}

#[test]
fn sale_outcomes_answer_with_status_and_text() {
    assert_eq!(SaleOutcome::Sold.status_code(), 200);
    assert_eq!(SaleOutcome::Sold.message(), "Sold");
    assert_eq!(SaleOutcome::InvalidQuantity.status_code(), 400);
    assert_eq!(SaleOutcome::InvalidQuantity.message(), "Quantity must be > 0");
    assert_eq!(SaleOutcome::NotEnoughStock.status_code(), 400);
    assert_eq!(SaleOutcome::NotEnoughStock.message(), "Not enough stock");
    assert_eq!(SaleOutcome::OutOfStock.status_code(), 400);
    assert_eq!(SaleOutcome::OutOfStock.message(), "Out of stock");
    assert_eq!(SaleOutcome::NotFound.status_code(), 404);
    assert_eq!(SaleOutcome::NotFound.message(), "Item not found");
}

#[test]
fn selling_now_stamps_the_sale_with_the_clock() {
    let mut data = shop_with_two_items();
    let before = now_utc();
    assert_eq!(data.sell_item(1, 2), SaleOutcome::Sold);
    let after = now_utc();
    let stamp = data.sales[0].timestamp;
    assert!(stamp.secs >= before.secs && stamp.secs <= after.secs);
    assert!(stamp.nanos < 1_000_000_000);
    assert!(stamp.secs > 1_600_000_000);
}

#[test]
fn single_unit_sales_record_no_sale() {
    let mut data = shop_with_two_items();
    data.items[1].quantity = 1;
    assert_eq!(data.sell_one(1), SaleOutcome::Sold);
    assert_eq!(data.items[1].quantity, 0);
    assert_eq!(data.items[1].sold, 1);
    assert!(data.sales.is_empty());
    assert_eq!(data.sell_one(1), SaleOutcome::OutOfStock);
    assert_eq!(data.items[1].sold, 1);
    assert_eq!(data.sell_one(42), SaleOutcome::NotFound);
}

#[test]
fn editing_replaces_every_field_but_the_id() {
    let mut data = shop_with_two_items();
    let found = data.edit_item(1, "Plantain".to_string(), 9.0f64.to_bits(), 7, 2, "pl.webp".to_string());
    assert!(found);
    let item = &data.items[1];
    assert_eq!(item.id, 1);
    assert_eq!(item.name, "Plantain");
    assert_eq!(f64::from_bits(item.price_bits), 9.0);
    assert_eq!(item.quantity, 7);
    assert_eq!(item.sold, 2);
    assert_eq!(item.image, "pl.webp");
    assert_eq!(data.items[0].name, "Apple");
    assert_eq!(data.find_item(1), Some(1));
}

#[test]
fn editing_a_missing_item_changes_nothing() {
    let mut data = shop_with_two_items();
    let found = data.edit_item(5, "X".to_string(), 0, 0, 0, String::new());
    assert!(!found);
    assert_eq!(data.items[0].name, "Apple");
    assert_eq!(data.items[1].name, "Banana");
}

#[test]
fn deleting_removes_the_item_and_keeps_the_order() {
    let mut data = shop_with_two_items();
    data.add_item("c.png".to_string(), "Cherry".to_string(), 0, 1);
    let removed = data.delete_item(1).expect("item 1 exists");
    assert_eq!(removed.name, "Banana");
    assert_eq!(data.items.len(), 2);
    assert_eq!(data.items[0].name, "Apple");
    assert_eq!(data.items[1].name, "Cherry");
    assert_eq!(data.find_item(1), None);
    assert!(data.delete_item(1).is_none());
    assert_eq!(data.items.len(), 2);
    assert_eq!(data.next_id, 3);
}

#[test]
fn operations_keep_ids_distinct_and_fresh() {
    let mut data = shop_with_two_items();
    assert!(ids_are_distinct_and_fresh(&data));
    data.sell_item_at(0, 2, at(1));
    data.sell_item_at(1, 1, at(2));
    assert!(ids_are_distinct_and_fresh(&data));
    data.delete_item(0);
    data.add_item(String::new(), "New".to_string(), 0, 4);
    assert!(ids_are_distinct_and_fresh(&data));
    data.edit_item(2, "Newer".to_string(), 0, 4, 0, String::new());
    data.sell_one(2);
    assert!(ids_are_distinct_and_fresh(&data));
    assert_eq!(data.items.iter().map(|i| i.id).collect::<Vec<_>>(), vec![1, 2]);
}

#[test]
fn a_sale_conserves_stock_plus_sold() {
    let mut data = shop_with_two_items();
    let totals: Vec<u32> = data.items.iter().map(|i| i.quantity + i.sold).collect();
    data.sell_item_at(0, 7, at(3));
    data.sell_item_at(1, 9, at(4));
    data.sell_one(1);
    let after: Vec<u32> = data.items.iter().map(|i| i.quantity + i.sold).collect();
    assert_eq!(totals, after);
}

#[test]
fn sold_units_match_recorded_sales() {
    let mut data = shop_with_two_items();
    data.sell_item_at(0, 1, at(1));
    data.sell_item_at(1, 2, at(2));
    data.sell_item_at(0, 3, at(3));
    data.sell_item_at(0, 0, at(4));
    for item in &data.items {
        let recorded: u32 = data.sales.iter().filter(|s| s.item_id == item.id).map(|s| s.quantity).sum();
        assert_eq!(recorded, item.sold);
    }
    let sale_ids: Vec<u32> = data.sales.iter().map(|s| s.id).collect();
    assert_eq!(sale_ids, vec![0, 1, 2]);
}

#[test]
fn sales_are_never_lost() {
    let mut data = shop_with_two_items();
    data.sell_item_at(0, 1, at(1));
    data.delete_item(0);
    data.edit_item(1, "B".to_string(), 0, 1, 0, String::new());
    data.add_item(String::new(), "C".to_string(), 0, 1);
    assert_eq!(data.sales.len(), 1);
    assert_eq!(data.sales[0].item_name, "Apple");
}

#[test]
fn counters_that_would_overflow_are_detected() {
    let mut data = shop_with_two_items();
    assert!(data.can_add_item());
    assert!(data.can_sell(0, 3));
    assert!(data.can_sell_one(0));
    data.items[0].sold = u32::MAX - 2;
    assert!(data.can_sell(0, 2));
    assert!(!data.can_sell(0, 3));
    assert!(data.can_sell(0, 0));
    assert!(data.can_sell(0, 11));
    assert!(data.can_sell(9, 1));
    data.items[1].sold = u32::MAX;
    assert!(!data.can_sell_one(1));
    data.items[1].quantity = 0;
    assert!(data.can_sell_one(1));
    data.next_sale_id = u32::MAX;
    assert!(!data.can_sell(0, 1));
    data.next_id = u32::MAX;
    assert!(!data.can_add_item());
}

#[test]
fn data_lives_in_items_bin() {
    assert_eq!(FILE_PATH, "items.bin");
}

#[test]
fn an_empty_shop_has_no_items() {
    assert!(!StoredData::new().has_items());
    assert!(shop_with_two_items().has_items());
}

#[test]
fn bookkeeping_holds_with_distinct_ids_even_if_ids_are_stale() {
    let mut data = shop_with_two_items();
    data.next_id = 0;
    data.sales.push(shop::model::Sale {
        id: 5,
        item_id: 0,
        item_name: "Apple".to_string(),
        quantity: 1,
        price_at_sale_bits: 0,
        timestamp: at(0),
    });
    data.items[0].sold = 1;
    data.next_sale_id = 0;
    assert_eq!(data.sell_item_at(0, 2, at(1)), SaleOutcome::Sold);
    let recorded: u32 = data.sales.iter().filter(|s| s.item_id == 0).map(|s| s.quantity).sum();
    assert_eq!(recorded, data.items[0].sold);
}
