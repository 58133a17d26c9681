use shop::listing::{decimal_text, header_row, item_row, separator_row, table_row, NO_ITEMS};
use shop::model::{Item, SaleOutcome, StoredData};
use shop::session::{
    console_start, console_step, ConsoleEvent, ConsoleNotice, ConsoleOutput, ConsoleState,
    PromptKind,
};
use shop::upload::stored_extension;

fn line(s: &str) -> ConsoleEvent {
    ConsoleEvent::Line(s.to_string())
}

fn shop() -> StoredData {
    let mut data = StoredData::new();
    data.add_item("a.png".to_string(), "Apple".to_string(), 1.5f64.to_bits(), 10);
    data.add_item("b.png".to_string(), "Banana".to_string(), 0.25f64.to_bits(), 3);
    data
}

/// Steps through a menu entry: the answer, then the loaded data.
fn pick(state: ConsoleState, answer: &str, data: &mut StoredData) -> (ConsoleState, Vec<ConsoleOutput>) {
    let (state, out) = console_step(state, line(answer), data);
    assert!(matches!(out.as_slice(), [ConsoleOutput::LoadData]));
    console_step(state, ConsoleEvent::Loaded, data)
}

fn ends_with_menu(out: &[ConsoleOutput]) -> bool {
    matches!(out, [.., ConsoleOutput::ShowMenu, ConsoleOutput::Ask(PromptKind::Choice)])
}

#[test]
fn a_session_starts_with_the_banner_and_the_menu() {
    let (state, out) = console_start();
    assert!(matches!(state, ConsoleState::AwaitChoice));
    assert!(matches!(
        out.as_slice(),
        [ConsoleOutput::Show(ConsoleNotice::Banner), ConsoleOutput::ShowMenu, ConsoleOutput::Ask(PromptKind::Choice)]
    ));
}

#[test]
fn adding_an_item_through_the_console() {
    let mut data = shop();
    let (s, out) = pick(ConsoleState::AwaitChoice, " 2\n", &mut data);
    assert!(matches!(out.as_slice(), [ConsoleOutput::Show(ConsoleNotice::AddHeader), ConsoleOutput::Ask(PromptKind::Name)]));
    let (s, out) = console_step(s, line("  Cherry \n"), &mut data);
    assert!(matches!(out.as_slice(), [ConsoleOutput::AskPrice(None)]));
    let (s, out) = console_step(s, ConsoleEvent::Price(2.5f64.to_bits()), &mut data);
    assert!(matches!(out.as_slice(), [ConsoleOutput::Ask(PromptKind::Quantity)]));
    let (s, out) = console_step(s, line("many\n"), &mut data);
    assert!(matches!(out.as_slice(), [ConsoleOutput::Show(ConsoleNotice::InvalidQuantity), ConsoleOutput::Ask(PromptKind::Quantity)]));
    let (s, out) = console_step(s, line("7\n"), &mut data);
    assert!(matches!(out.as_slice(), [ConsoleOutput::Ask(PromptKind::NewImage)]));
    let (s, out) = console_step(s, line("\n"), &mut data);
    assert!(matches!(s, ConsoleState::AwaitChoice));
    match out.as_slice() {
        [ConsoleOutput::SaveData, ConsoleOutput::Show(ConsoleNotice::Added { name, id }), ..] => {
            assert_eq!(name, "Cherry");
            assert_eq!(*id, 2);
        }
        other => panic!("unexpected {:?}", other),
    }
    assert!(ends_with_menu(&out));
    let item = &data.items[2];
    assert_eq!(item.name, "Cherry");
    assert_eq!(item.quantity, 7);
    assert_eq!(item.sold, 0);
    assert_eq!(item.image, "https://via.placeholder.com/300x200?text=No+Image");
    assert_eq!(f64::from_bits(item.price_bits), 2.5);
}

#[test]
fn an_empty_name_cancels_the_addition() {
    let mut data = shop();
    let (s, _) = pick(ConsoleState::AwaitChoice, "2", &mut data);
    let (s, out) = console_step(s, line("   \n"), &mut data);
    assert!(matches!(s, ConsoleState::AwaitChoice));
    assert!(matches!(out.first(), Some(ConsoleOutput::Show(ConsoleNotice::Cancelled))));
    assert_eq!(data.items.len(), 2);
}

#[test]
fn exhausted_ids_stop_the_console() {
    let mut data = shop();
    data.next_id = u32::MAX;
    let s = ConsoleState::AddImage { name: "X".to_string(), price_bits: 0, quantity: 1 };
    let (s, out) = console_step(s, line("\n"), &mut data);
    assert!(matches!(s, ConsoleState::Finished));
    assert!(matches!(out.as_slice(), [ConsoleOutput::IdOverflow]));
    assert_eq!(data.items.len(), 2);
}

#[test]
fn editing_keeps_blank_answers_and_takes_new_ones() {
    let mut data = shop();
    let (s, out) = pick(ConsoleState::AwaitChoice, "3", &mut data);
    assert!(matches!(out.as_slice(), [ConsoleOutput::Show(ConsoleNotice::EditHeader), ConsoleOutput::ShowItems, ConsoleOutput::Ask(PromptKind::EditId)]));
    let (s, out) = console_step(s, line("1\n"), &mut data);
    match out.as_slice() {
        [ConsoleOutput::Show(ConsoleNotice::Editing(n)), ConsoleOutput::Ask(PromptKind::EditName(d))] => {
            assert_eq!(n, "Banana");
            assert_eq!(d, "Banana");
        }
        other => panic!("unexpected {:?}", other),
    }
    let (s, out) = console_step(s, line("\n"), &mut data);
    assert!(matches!(out.as_slice(), [ConsoleOutput::AskPrice(Some(bits))] if f64::from_bits(*bits) == 0.25));
    let (s, out) = console_step(s, ConsoleEvent::Price(0.5f64.to_bits()), &mut data);
    assert!(matches!(out.as_slice(), [ConsoleOutput::Ask(PromptKind::EditQuantity(3))]));
    let (s, out) = console_step(s, line("\n"), &mut data);
    assert!(matches!(out.as_slice(), [ConsoleOutput::Ask(PromptKind::EditSold(0))]));
    let (s, out) = console_step(s, line("x\n"), &mut data);
    assert!(matches!(out.as_slice(), [ConsoleOutput::Show(ConsoleNotice::InvalidValue), ConsoleOutput::Ask(PromptKind::EditSold(0))]));
    let (s, out) = console_step(s, line(" 4 \n"), &mut data);
    assert!(matches!(out.as_slice(), [ConsoleOutput::Ask(PromptKind::EditImage(i))] if i == "b.png"));
    let (s, out) = console_step(s, line("new.png\n"), &mut data);
    assert!(matches!(s, ConsoleState::AwaitChoice));
    assert!(matches!(out.as_slice(), [ConsoleOutput::SaveData, ConsoleOutput::Show(ConsoleNotice::Updated { id: 1, name }), ..] if name == "Banana"));
    let item = &data.items[1];
    assert_eq!((item.id, item.name.as_str(), item.quantity, item.sold, item.image.as_str()), (1, "Banana", 3, 4, "new.png"));
    assert_eq!(f64::from_bits(item.price_bits), 0.5);
}

#[test]
fn edit_and_delete_end_early_on_an_empty_shop_or_a_bad_id() {
    let mut empty = StoredData::new();
    let (s, out) = pick(ConsoleState::AwaitChoice, "3", &mut empty);
    assert!(matches!(s, ConsoleState::AwaitChoice));
    assert!(matches!(out.as_slice(), [ConsoleOutput::Show(ConsoleNotice::EditHeader), ConsoleOutput::ShowItems, ConsoleOutput::ShowMenu, ConsoleOutput::Ask(PromptKind::Choice)]));
    let (s, _) = pick(s, "4", &mut empty);
    assert!(matches!(s, ConsoleState::AwaitChoice));

    let mut data = shop();
    let (s, _) = pick(ConsoleState::AwaitChoice, "3", &mut data);
    let (s, out) = console_step(s, line("abc\n"), &mut data);
    assert!(matches!(out.first(), Some(ConsoleOutput::Show(ConsoleNotice::InvalidId))));
    let (s, _) = pick(s, "4", &mut data);
    let (s, out) = console_step(s, line("9\n"), &mut data);
    assert!(matches!(out.first(), Some(ConsoleOutput::Show(ConsoleNotice::DeleteNotFound(9)))));
    assert!(matches!(s, ConsoleState::AwaitChoice));
}

#[test]
fn deleting_only_when_confirmed() {
    let mut data = shop();
    let (s, out) = pick(ConsoleState::AwaitChoice, "4", &mut data);
    assert!(matches!(out.as_slice(), [ConsoleOutput::Show(ConsoleNotice::DeleteHeader), ConsoleOutput::ShowItems, ConsoleOutput::Ask(PromptKind::DeleteId)]));
    let (s, out) = console_step(s, line("0\n"), &mut data);
    assert!(matches!(out.as_slice(), [ConsoleOutput::Ask(PromptKind::ConfirmDelete(n))] if n == "Apple"));
    let (s, out) = console_step(s, line("no\n"), &mut data);
    assert!(matches!(out.first(), Some(ConsoleOutput::Show(ConsoleNotice::DeleteCancelled))));
    assert_eq!(data.items.len(), 2);
    let (s, _) = pick(s, "4", &mut data);
    let (s, _) = console_step(s, line("0\n"), &mut data);
    let (_, out) = console_step(s, line(" Y \n"), &mut data);
    assert!(matches!(out.as_slice(), [ConsoleOutput::SaveData, ConsoleOutput::Show(ConsoleNotice::Deleted(n)), ..] if n == "Apple"));
    assert_eq!(data.items.len(), 1);
    assert_eq!(data.items[0].name, "Banana");
}

#[test]
fn listing_quitting_and_unknown_answers() {
    let mut data = shop();
    let (s, out) = pick(ConsoleState::AwaitChoice, "1", &mut data);
    assert!(matches!(out.as_slice(), [ConsoleOutput::ShowItems, ConsoleOutput::ShowMenu, ConsoleOutput::Ask(PromptKind::Choice)]));
    let (s, out) = pick(s, "7", &mut data);
    assert!(matches!(out.first(), Some(ConsoleOutput::Show(ConsoleNotice::UnknownOption))));
    let (s, out) = pick(s, "Q", &mut data);
    assert!(matches!(s, ConsoleState::Finished));
    assert!(matches!(out.as_slice(), [ConsoleOutput::Show(ConsoleNotice::Bye), ConsoleOutput::Quit]));
    let (_, out) = console_step(s, line("1"), &mut data);
    assert!(matches!(out.as_slice(), [ConsoleOutput::Quit]));
}

#[test]
fn events_a_state_does_not_wait_for_change_nothing() {
    let mut data = shop();
    let (s, out) = console_step(ConsoleState::AddName, ConsoleEvent::Loaded, &mut data);
    assert!(matches!(s, ConsoleState::AddName));
    assert!(out.is_empty());
    assert_eq!(data.items.len(), 2);
}

#[test]
fn decimal_text_matches_to_string() {
    for n in (0u32..2000).chain([9, 10, 99, 100, 65535, u32::MAX - 1, u32::MAX]) {
        assert_eq!(decimal_text(n), n.to_string());
    }
}

#[test]
fn table_lines_match_the_format_widths() {
    assert_eq!(
        header_row(),
        format!("  {:<5} {:<25} {:>10} {:>10} {:>8}", "ID", "Name", "Price", "Qty", "Sold")
    );
    assert_eq!(separator_row(), format!("  {}", "-".repeat(62)));
    let item = Item { id: 12, image: String::new(), name: "Crème brûlée".to_string(), price_bits: 0, quantity: 345, sold: 6 };
    assert_eq!(
        item_row(&item, "$3.50"),
        format!("  {:<5} {:<25} {:>10} {:>10} {:>8}", 12, "Crème brûlée", "$3.50", 345, 6)
    );
    let long = "a name longer than twenty-five characters";
    assert_eq!(
        table_row("123456", long, "$12345678.00", "12345678901", "123456789"),
        format!("  {:<5} {:<25} {:>10} {:>10} {:>8}", "123456", long, "$12345678.00", "12345678901", "123456789")
    );
    assert_eq!(NO_ITEMS, "\n  (no items found)\n");
}

#[test]
fn stored_extension_lowercases_or_falls_back_to_bin() {
    assert_eq!(stored_extension(Some("JPG")), "jpg");
    assert_eq!(stored_extension(Some("Png")), "png");
    assert_eq!(stored_extension(None), "bin");
}

#[test]
fn sale_outcome_predicts_without_selling() {
    let mut data = shop();
    assert_eq!(data.sale_outcome(0, 3), SaleOutcome::Sold);
    assert_eq!(data.sale_outcome(0, 0), SaleOutcome::InvalidQuantity);
    assert_eq!(data.sale_outcome(1, 4), SaleOutcome::NotEnoughStock);
    assert_eq!(data.sale_outcome(8, 1), SaleOutcome::NotFound);
    assert_eq!(data.items[0].quantity, 10);
    assert_eq!(data.sell_item(8, 1), SaleOutcome::NotFound);
    assert_eq!(data.sell_item(1, 4), SaleOutcome::NotEnoughStock);
    assert!(data.sales.is_empty());
}
