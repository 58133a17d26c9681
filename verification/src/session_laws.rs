use vstd::prelude::*;
use crate::console::{MenuChoice, PLACEHOLDER_IMAGE};
use crate::model::{lemma_position_is, Item, ShopState};
use crate::session::{
    is_console_step, ConsoleEvent, ConsoleNotice, ConsoleOutput, ConsoleState, PromptKind,
};
use crate::text::{lowercase_of, parsed_u32, trimmed_of};

verus! {

/// The menu answers: once trimmed, `1` lists, `2` adds, `3` edits, `4`
/// deletes, `q` or `Q` quits, and any other answer is an unknown option;
/// answering changes no data and asks for the data file to be read.
pub proof fn law_menu_answers(
    raw: String,
    d: ShopState,
    next: ConsoleState,
    out: Seq<ConsoleOutput>,
    d2: ShopState,
)
    requires
        is_console_step(ConsoleState::AwaitChoice, ConsoleEvent::Line(raw), d, next, out, d2),
    ensures
        d2 == d,
        out == seq![ConsoleOutput::LoadData],
        trimmed_of(raw@) == "1"@ ==> next == ConsoleState::Dispatch(MenuChoice::List),
        trimmed_of(raw@) == "2"@ ==> next == ConsoleState::Dispatch(MenuChoice::Add),
        trimmed_of(raw@) == "3"@ ==> next == ConsoleState::Dispatch(MenuChoice::Edit),
        trimmed_of(raw@) == "4"@ ==> next == ConsoleState::Dispatch(MenuChoice::Delete),
        (trimmed_of(raw@) == "q"@ || trimmed_of(raw@) == "Q"@) ==> next == ConsoleState::Dispatch(
            MenuChoice::Quit,
        ),
        (trimmed_of(raw@) != "1"@ && trimmed_of(raw@) != "2"@ && trimmed_of(raw@) != "3"@
            && trimmed_of(raw@) != "4"@ && trimmed_of(raw@) != "q"@ && trimmed_of(raw@) != "Q"@)
            ==> next == ConsoleState::Dispatch(MenuChoice::Unknown),
{
    reveal_strlit("1");
    reveal_strlit("2");
    reveal_strlit("3");
    reveal_strlit("4");
    reveal_strlit("q");
    reveal_strlit("Q");
}

/// Editing and deleting end at once, back at the menu, when the shop holds
/// no item; otherwise they ask for an id. Neither changes any data yet.
pub proof fn law_edit_and_delete_need_items(
    c: MenuChoice,
    d: ShopState,
    next: ConsoleState,
    out: Seq<ConsoleOutput>,
    d2: ShopState,
)
    requires
        c == MenuChoice::Edit || c == MenuChoice::Delete,
        is_console_step(ConsoleState::Dispatch(c), ConsoleEvent::Loaded, d, next, out, d2),
    ensures
        d2 == d,
        d.items.len() == 0 ==> next == ConsoleState::AwaitChoice,
        d.items.len() > 0 ==> (next == ConsoleState::EditId || next == ConsoleState::DeleteId),
        d.items.len() > 0 && c == MenuChoice::Edit ==> out.last() == ConsoleOutput::Ask(
            PromptKind::EditId,
        ),
        d.items.len() > 0 && c == MenuChoice::Delete ==> out.last() == ConsoleOutput::Ask(
            PromptKind::DeleteId,
        ),
{
}

/// The name of a new item is the trimmed answer; a blank answer cancels the
/// addition, back at the menu, and changes nothing.
pub proof fn law_new_item_name(
    raw: String,
    d: ShopState,
    next: ConsoleState,
    out: Seq<ConsoleOutput>,
    d2: ShopState,
)
    requires
        is_console_step(ConsoleState::AddName, ConsoleEvent::Line(raw), d, next, out, d2),
    ensures
        d2 == d,
        trimmed_of(raw@).len() == 0 ==> next == ConsoleState::AwaitChoice && out[0]
            == ConsoleOutput::Show(ConsoleNotice::Cancelled),
        trimmed_of(raw@).len() > 0 ==> (next matches ConsoleState::AddPrice { name } && name@
            == trimmed_of(raw@)),
{
}

/// The stock of a new item is the number written in the answer; an answer
/// that is no number is complained about and asked again, with nothing
/// gathered so far lost.
pub proof fn law_new_item_quantity(
    name: String,
    price_bits: u64,
    raw: String,
    d: ShopState,
    next: ConsoleState,
    out: Seq<ConsoleOutput>,
    d2: ShopState,
)
    requires
        is_console_step(
            ConsoleState::AddQuantity { name, price_bits },
            ConsoleEvent::Line(raw),
            d,
            next,
            out,
            d2,
        ),
    ensures
        d2 == d,
        match parsed_u32(trimmed_of(raw@)) {
            Some(q) => next == (ConsoleState::AddImage { name, price_bits, quantity: q }),
            None => next == (ConsoleState::AddQuantity { name, price_bits }) && out[0]
                == ConsoleOutput::Show(ConsoleNotice::InvalidQuantity),
        },
{
}

/// Adding through the console: after the image is answered, the new item
/// goes to the end of the list with the next id, the name, price and stock
/// gathered, no unit sold, and as image the trimmed answer, or the
/// placeholder when the answer is blank. The data is saved. When the ids
/// are exhausted nothing is added.
pub proof fn law_new_item_is_added(
    name: String,
    price_bits: u64,
    quantity: u32,
    raw: String,
    d: ShopState,
    next: ConsoleState,
    out: Seq<ConsoleOutput>,
    d2: ShopState,
)
    requires
        is_console_step(
            ConsoleState::AddImage { name, price_bits, quantity },
            ConsoleEvent::Line(raw),
            d,
            next,
            out,
            d2,
        ),
    ensures
        d.next_id == u32::MAX ==> d2 == d && out == seq![ConsoleOutput::IdOverflow],
        d.next_id < u32::MAX ==> {
            &&& d2.items.len() == d.items.len() + 1
            &&& d2.items.drop_last() == d.items
            &&& d2.items.last().id == d.next_id
            &&& d2.items.last().name == name
            &&& d2.items.last().price_bits == price_bits
            &&& d2.items.last().quantity == quantity
            &&& d2.items.last().sold == 0
            &&& trimmed_of(raw@).len() > 0 ==> d2.items.last().image@ == trimmed_of(raw@)
            &&& trimmed_of(raw@).len() == 0 ==> d2.items.last().image@ == PLACEHOLDER_IMAGE@
            &&& d2.next_id == d.next_id + 1
            &&& d2.sales == d.sales
            &&& out[0] == ConsoleOutput::SaveData
        },
{
    if d.next_id < u32::MAX {
        let image = choose|image: String|
            {
                &&& image@ == (if trimmed_of(raw@).len() == 0 {
                    PLACEHOLDER_IMAGE@
                } else {
                    trimmed_of(raw@)
                })
                &&& d2 == d.added(image, name, price_bits, quantity)
            };
        assert(d2.items.drop_last() =~= d.items);
    }
}

/// The new name of an edited item is the trimmed answer; only a blank
/// answer keeps the current name.
pub proof fn law_edited_name(
    item: Item,
    raw: String,
    d: ShopState,
    next: ConsoleState,
    out: Seq<ConsoleOutput>,
    d2: ShopState,
)
    requires
        is_console_step(ConsoleState::EditName { item }, ConsoleEvent::Line(raw), d, next, out, d2),
    ensures
        d2 == d,
        next matches ConsoleState::EditPrice { item: kept, name } && {
            &&& kept == item
            &&& trimmed_of(raw@).len() > 0 ==> name@ == trimmed_of(raw@)
            &&& trimmed_of(raw@).len() == 0 ==> name@ == item.name@
        },
{
}

/// The new stock of an edited item is the number written in the answer, the
/// current stock for a blank answer; an answer that is no number is asked
/// again.
pub proof fn law_edited_quantity(
    item: Item,
    name: String,
    price_bits: u64,
    raw: String,
    d: ShopState,
    next: ConsoleState,
    out: Seq<ConsoleOutput>,
    d2: ShopState,
)
    requires
        is_console_step(
            ConsoleState::EditQuantity { item, name, price_bits },
            ConsoleEvent::Line(raw),
            d,
            next,
            out,
            d2,
        ),
    ensures
        d2 == d,
        trimmed_of(raw@).len() == 0 ==> next == (ConsoleState::EditSold {
            item,
            name,
            price_bits,
            quantity: item.quantity,
        }),
        trimmed_of(raw@).len() > 0 ==> match parsed_u32(trimmed_of(raw@)) {
            Some(q) => next == (ConsoleState::EditSold { item, name, price_bits, quantity: q }),
            None => next == (ConsoleState::EditQuantity { item, name, price_bits }),
        },
{
}

/// The new sold count of an edited item is the number written in the
/// answer, the current count for a blank answer; an answer that is no
/// number is asked again.
pub proof fn law_edited_sold(
    item: Item,
    name: String,
    price_bits: u64,
    quantity: u32,
    raw: String,
    d: ShopState,
    next: ConsoleState,
    out: Seq<ConsoleOutput>,
    d2: ShopState,
)
    requires
        is_console_step(
            ConsoleState::EditSold { item, name, price_bits, quantity },
            ConsoleEvent::Line(raw),
            d,
            next,
            out,
            d2,
        ),
    ensures
        d2 == d,
        trimmed_of(raw@).len() == 0 ==> next == (ConsoleState::EditImage {
            item,
            name,
            price_bits,
            quantity,
            sold: item.sold,
        }),
        trimmed_of(raw@).len() > 0 ==> match parsed_u32(trimmed_of(raw@)) {
            Some(v) => next == (ConsoleState::EditImage { item, name, price_bits, quantity, sold: v }),
            None => next == (ConsoleState::EditSold { item, name, price_bits, quantity }),
        },
{
}

/// Editing through the console: after the image is answered, the first item
/// with the edited item's id, at index `k`, gets the gathered name, price,
/// stock and sold count and, as image, the trimmed answer, or its current
/// image when the answer is blank; its id stays, the other items and the
/// sales do not change, and the data is saved.
pub proof fn law_edit_is_applied(
    item: Item,
    name: String,
    price_bits: u64,
    quantity: u32,
    sold: u32,
    raw: String,
    k: int,
    d: ShopState,
    next: ConsoleState,
    out: Seq<ConsoleOutput>,
    d2: ShopState,
)
    requires
        0 <= k < d.items.len(),
        d.items[k].id == item.id,
        forall|j: int| 0 <= j < k ==> d.items[j].id != item.id,
        is_console_step(
            ConsoleState::EditImage { item, name, price_bits, quantity, sold },
            ConsoleEvent::Line(raw),
            d,
            next,
            out,
            d2,
        ),
    ensures
        d2.items.len() == d.items.len(),
        d2.items[k].id == item.id,
        d2.items[k].name == name,
        d2.items[k].price_bits == price_bits,
        d2.items[k].quantity == quantity,
        d2.items[k].sold == sold,
        trimmed_of(raw@).len() > 0 ==> d2.items[k].image@ == trimmed_of(raw@),
        trimmed_of(raw@).len() == 0 ==> d2.items[k].image@ == item.image@,
        forall|j: int| 0 <= j < d.items.len() && j != k ==> d2.items[j] == d.items[j],
        d2.sales == d.sales,
        d2.next_id == d.next_id,
        out[0] == ConsoleOutput::SaveData,
{
    lemma_position_is(d.items, item.id, k);
}

/// The deletion asked about happens only when the trimmed answer, once
/// lowercased, is exactly `y`: then the first item with that id, at index
/// `k`, leaves the list, the others keep their order, and the data is
/// saved. Any other answer leaves the data as it was and saves nothing.
pub proof fn law_deletion_needs_confirmation(
    id: u32,
    name: String,
    raw: String,
    k: int,
    d: ShopState,
    next: ConsoleState,
    out: Seq<ConsoleOutput>,
    d2: ShopState,
)
    requires
        0 <= k < d.items.len(),
        d.items[k].id == id,
        forall|j: int| 0 <= j < k ==> d.items[j].id != id,
        is_console_step(
            ConsoleState::DeleteConfirm { id, name },
            ConsoleEvent::Line(raw),
            d,
            next,
            out,
            d2,
        ),
    ensures
        next == ConsoleState::AwaitChoice,
        lowercase_of(trimmed_of(raw@)) == "y"@ ==> {
            &&& d2.items == d.items.remove(k)
            &&& d2.sales == d.sales
            &&& out[0] == ConsoleOutput::SaveData
        },
        lowercase_of(trimmed_of(raw@)) != "y"@ ==> {
            &&& d2 == d
            &&& forall|i: int| 0 <= i < out.len() ==> !(out[i] is SaveData)
        },
{
    lemma_position_is(d.items, id, k);
    reveal_strlit("y");
}

} // verus!
