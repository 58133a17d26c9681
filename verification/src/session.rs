use vstd::prelude::*;
use crate::console::{
    answer_or_default, cancels_addition, confirms_deletion, image_or_placeholder, menu_choice,
    menu_choice_of, prompt_answer, MenuChoice, PLACEHOLDER_IMAGE,
};
use crate::model::{Item, ShopState, StoredData};
use crate::text::{lowercase_of, parse_u32, parsed_u32, trimmed_of};

verus! {

/// A question that the maintenance console asks.
#[derive(Debug)]
pub enum PromptKind {
    /// The menu entry.
    Choice,
    /// The name of a new item.
    Name,
    /// The stock of a new item.
    Quantity,
    /// The image of a new item (blank for none).
    NewImage,
    /// The id of the item to edit.
    EditId,
    /// The new name, offering the current one.
    EditName(String),
    /// The new stock, offering the current one.
    EditQuantity(u32),
    /// The new sold count, offering the current one.
    EditSold(u32),
    /// The new image, offering the current one.
    EditImage(String),
    /// The id of the item to delete.
    DeleteId,
    /// Whether to delete the item with this name.
    ConfirmDelete(String),
}

/// A message that the maintenance console shows.
#[derive(Debug)]
pub enum ConsoleNotice {
    Banner,
    AddHeader,
    EditHeader,
    DeleteHeader,
    Cancelled,
    InvalidQuantity,
    InvalidValue,
    InvalidId,
    EditNotFound(u32),
    Editing(String),
    Added { name: String, id: u32 },
    Updated { id: u32, name: String },
    DeleteNotFound(u32),
    Deleted(String),
    DeleteCancelled,
    UnknownOption,
    Bye,
}

/// What the maintenance console has the terminal and the data file do.
#[derive(Debug)]
pub enum ConsoleOutput {
    Show(ConsoleNotice),
    ShowMenu,
    /// List the items of the shop.
    ShowItems,
    /// Ask a question; its answer comes back as a `Line`.
    Ask(PromptKind),
    /// Ask for a price (offering the current one, as `f64` bits) until a
    /// valid one is given; it comes back as a `Price`.
    AskPrice(Option<u64>),
    /// Read the data file; `Loaded` follows.
    LoadData,
    /// Write the data file.
    SaveData,
    /// The item ids are exhausted: stop as an arithmetic overflow does.
    IdOverflow,
    /// End the session.
    Quit,
}

/// What the maintenance console has just learnt.
#[derive(Debug)]
pub enum ConsoleEvent {
    /// A line that was typed (untrimmed).
    Line(String),
    /// A valid price (`f64` bits).
    Price(u64),
    /// The data file was read.
    Loaded,
}

/// Where the maintenance console stands, with what it has gathered so far.
#[derive(Debug)]
pub enum ConsoleState {
    AwaitChoice,
    Dispatch(MenuChoice),
    AddName,
    AddPrice { name: String },
    AddQuantity { name: String, price_bits: u64 },
    AddImage { name: String, price_bits: u64, quantity: u32 },
    EditId,
    EditName { item: Item },
    EditPrice { item: Item, name: String },
    EditQuantity { item: Item, name: String, price_bits: u64 },
    EditSold { item: Item, name: String, price_bits: u64, quantity: u32 },
    EditImage { item: Item, name: String, price_bits: u64, quantity: u32, sold: u32 },
    DeleteId,
    DeleteConfirm { id: u32, name: String },
    Finished,
}

/// Back to the menu: show it and ask for the next entry.
pub open spec fn menu_outputs() -> Seq<ConsoleOutput> {
    seq![ConsoleOutput::ShowMenu, ConsoleOutput::Ask(PromptKind::Choice)]
}

/// The answer to a question that offers a default.
pub open spec fn answer_with_default(line: Seq<char>, default: Seq<char>) -> Seq<char> {
    if trimmed_of(line).len() == 0 {
        default
    } else {
        trimmed_of(line)
    }
}

/// A number answered to a question that offers the current value: that
/// value for a blank answer, otherwise the number written, if any.
pub open spec fn number_or_current(line: Seq<char>, current: u32) -> Option<u32> {
    if trimmed_of(line).len() == 0 {
        Some(current)
    } else {
        parsed_u32(trimmed_of(line))
    }
}

/// The first step of a session: the banner, the menu and its question.
pub open spec fn start_outputs() -> Seq<ConsoleOutput> {
    seq![ConsoleOutput::Show(ConsoleNotice::Banner)] + menu_outputs()
}

/// One step of the maintenance console: from state `s`, after event `e`,
/// on the shop `d`, it goes to state `next`, has `out` done, and leaves
/// the shop as `d2`.
pub open spec fn is_console_step(
    s: ConsoleState,
    e: ConsoleEvent,
    d: ShopState,
    next: ConsoleState,
    out: Seq<ConsoleOutput>,
    d2: ShopState,
) -> bool {
    match s {
        ConsoleState::Finished => next == ConsoleState::Finished && out == seq![
            ConsoleOutput::Quit,
        ] && d2 == d,
        ConsoleState::AwaitChoice => match e {
            ConsoleEvent::Line(raw) => {
                &&& next == ConsoleState::Dispatch(menu_choice_of(trimmed_of(raw@)))
                &&& out == seq![ConsoleOutput::LoadData]
                &&& d2 == d
            },
            _ => next == s && out.len() == 0 && d2 == d,
        },
        ConsoleState::Dispatch(c) => match e {
            ConsoleEvent::Loaded => d2 == d && match c {
                MenuChoice::List => next == ConsoleState::AwaitChoice && out == seq![
                    ConsoleOutput::ShowItems,
                ] + menu_outputs(),
                MenuChoice::Add => next == ConsoleState::AddName && out == seq![
                    ConsoleOutput::Show(ConsoleNotice::AddHeader),
                    ConsoleOutput::Ask(PromptKind::Name),
                ],
                MenuChoice::Edit => if d.items.len() == 0 {
                    next == ConsoleState::AwaitChoice && out == seq![
                        ConsoleOutput::Show(ConsoleNotice::EditHeader),
                        ConsoleOutput::ShowItems,
                    ] + menu_outputs()
                } else {
                    next == ConsoleState::EditId && out == seq![
                        ConsoleOutput::Show(ConsoleNotice::EditHeader),
                        ConsoleOutput::ShowItems,
                        ConsoleOutput::Ask(PromptKind::EditId),
                    ]
                },
                MenuChoice::Delete => if d.items.len() == 0 {
                    next == ConsoleState::AwaitChoice && out == seq![
                        ConsoleOutput::Show(ConsoleNotice::DeleteHeader),
                        ConsoleOutput::ShowItems,
                    ] + menu_outputs()
                } else {
                    next == ConsoleState::DeleteId && out == seq![
                        ConsoleOutput::Show(ConsoleNotice::DeleteHeader),
                        ConsoleOutput::ShowItems,
                        ConsoleOutput::Ask(PromptKind::DeleteId),
                    ]
                },
                MenuChoice::Quit => next == ConsoleState::Finished && out == seq![
                    ConsoleOutput::Show(ConsoleNotice::Bye),
                    ConsoleOutput::Quit,
                ],
                MenuChoice::Unknown => next == ConsoleState::AwaitChoice && out == seq![
                    ConsoleOutput::Show(ConsoleNotice::UnknownOption),
                ] + menu_outputs(),
            },
            _ => next == s && out.len() == 0 && d2 == d,
        },
        ConsoleState::AddName => match e {
            ConsoleEvent::Line(raw) => d2 == d && if trimmed_of(raw@).len() == 0 {
                next == ConsoleState::AwaitChoice && out == seq![
                    ConsoleOutput::Show(ConsoleNotice::Cancelled),
                ] + menu_outputs()
            } else {
                &&& next matches ConsoleState::AddPrice { name }
                &&& name@ == trimmed_of(raw@)
                &&& out == seq![ConsoleOutput::AskPrice(None)]
            },
            _ => next == s && out.len() == 0 && d2 == d,
        },
        ConsoleState::AddPrice { name } => match e {
            ConsoleEvent::Price(bits) => {
                &&& next == ConsoleState::AddQuantity { name, price_bits: bits }
                &&& out == seq![ConsoleOutput::Ask(PromptKind::Quantity)]
                &&& d2 == d
            },
            _ => next == s && out.len() == 0 && d2 == d,
        },
        ConsoleState::AddQuantity { name, price_bits } => match e {
            ConsoleEvent::Line(raw) => d2 == d && match parsed_u32(trimmed_of(raw@)) {
                None => next == ConsoleState::AddQuantity { name, price_bits } && out == seq![
                    ConsoleOutput::Show(ConsoleNotice::InvalidQuantity),
                    ConsoleOutput::Ask(PromptKind::Quantity),
                ],
                Some(q) => next == ConsoleState::AddImage { name, price_bits, quantity: q }
                    && out == seq![ConsoleOutput::Ask(PromptKind::NewImage)],
            },
            _ => next == s && out.len() == 0 && d2 == d,
        },
        ConsoleState::AddImage { name, price_bits, quantity } => match e {
            ConsoleEvent::Line(raw) => if d.next_id == u32::MAX {
                next == ConsoleState::Finished && out == seq![ConsoleOutput::IdOverflow] && d2
                    == d
            } else {
                &&& next == ConsoleState::AwaitChoice
                &&& out == seq![
                    ConsoleOutput::SaveData,
                    ConsoleOutput::Show(ConsoleNotice::Added { name, id: d.next_id }),
                ] + menu_outputs()
                &&& exists|image: String|
                    {
                        &&& image@ == answer_with_default(raw@, PLACEHOLDER_IMAGE@)
                        &&& d2 == d.added(image, name, price_bits, quantity)
                    }
            },
            _ => next == s && out.len() == 0 && d2 == d,
        },
        ConsoleState::EditId => match e {
            ConsoleEvent::Line(raw) => d2 == d && match parsed_u32(trimmed_of(raw@)) {
                None => next == ConsoleState::AwaitChoice && out == seq![
                    ConsoleOutput::Show(ConsoleNotice::InvalidId),
                ] + menu_outputs(),
                Some(id) => match d.position(id) {
                    None => next == ConsoleState::AwaitChoice && out == seq![
                        ConsoleOutput::Show(ConsoleNotice::EditNotFound(id)),
                    ] + menu_outputs(),
                    Some(k) => next == ConsoleState::EditName { item: d.items[k] } && out
                        == seq![
                        ConsoleOutput::Show(ConsoleNotice::Editing(d.items[k].name)),
                        ConsoleOutput::Ask(PromptKind::EditName(d.items[k].name)),
                    ],
                },
            },
            _ => next == s && out.len() == 0 && d2 == d,
        },
        ConsoleState::EditName { item } => match e {
            ConsoleEvent::Line(raw) => {
                &&& d2 == d
                &&& next matches ConsoleState::EditPrice { item: i2, name }
                &&& i2 == item
                &&& name@ == answer_with_default(raw@, item.name@)
                &&& out == seq![ConsoleOutput::AskPrice(Some(item.price_bits))]
            },
            _ => next == s && out.len() == 0 && d2 == d,
        },
        ConsoleState::EditPrice { item, name } => match e {
            ConsoleEvent::Price(bits) => {
                &&& next == ConsoleState::EditQuantity { item, name, price_bits: bits }
                &&& out == seq![ConsoleOutput::Ask(PromptKind::EditQuantity(item.quantity))]
                &&& d2 == d
            },
            _ => next == s && out.len() == 0 && d2 == d,
        },
        ConsoleState::EditQuantity { item, name, price_bits } => match e {
            ConsoleEvent::Line(raw) => d2 == d && match number_or_current(raw@, item.quantity) {
                None => next == ConsoleState::EditQuantity { item, name, price_bits } && out
                    == seq![
                    ConsoleOutput::Show(ConsoleNotice::InvalidQuantity),
                    ConsoleOutput::Ask(PromptKind::EditQuantity(item.quantity)),
                ],
                Some(q) => next == ConsoleState::EditSold { item, name, price_bits, quantity: q }
                    && out == seq![ConsoleOutput::Ask(PromptKind::EditSold(item.sold))],
            },
            _ => next == s && out.len() == 0 && d2 == d,
        },
        ConsoleState::EditSold { item, name, price_bits, quantity } => match e {
            ConsoleEvent::Line(raw) => d2 == d && match number_or_current(raw@, item.sold) {
                None => next == ConsoleState::EditSold { item, name, price_bits, quantity } && out
                    == seq![
                    ConsoleOutput::Show(ConsoleNotice::InvalidValue),
                    ConsoleOutput::Ask(PromptKind::EditSold(item.sold)),
                ],
                Some(v) => next == ConsoleState::EditImage {
                    item,
                    name,
                    price_bits,
                    quantity,
                    sold: v,
                } && out == seq![ConsoleOutput::Ask(PromptKind::EditImage(item.image))],
            },
            _ => next == s && out.len() == 0 && d2 == d,
        },
        ConsoleState::EditImage { item, name, price_bits, quantity, sold } => match e {
            ConsoleEvent::Line(raw) => {
                &&& next == ConsoleState::AwaitChoice
                &&& out == seq![
                    ConsoleOutput::SaveData,
                    ConsoleOutput::Show(ConsoleNotice::Updated { id: item.id, name }),
                ] + menu_outputs()
                &&& exists|image: String|
                    {
                        &&& image@ == answer_with_default(raw@, item.image@)
                        &&& d2 == d.after_edit(item.id, name, price_bits, quantity, sold, image)
                    }
            },
            _ => next == s && out.len() == 0 && d2 == d,
        },
        ConsoleState::DeleteId => match e {
            ConsoleEvent::Line(raw) => d2 == d && match parsed_u32(trimmed_of(raw@)) {
                None => next == ConsoleState::AwaitChoice && out == seq![
                    ConsoleOutput::Show(ConsoleNotice::InvalidId),
                ] + menu_outputs(),
                Some(id) => match d.position(id) {
                    None => next == ConsoleState::AwaitChoice && out == seq![
                        ConsoleOutput::Show(ConsoleNotice::DeleteNotFound(id)),
                    ] + menu_outputs(),
                    Some(k) => next == ConsoleState::DeleteConfirm {
                        id,
                        name: d.items[k].name,
                    } && out == seq![
                        ConsoleOutput::Ask(PromptKind::ConfirmDelete(d.items[k].name)),
                    ],
                },
            },
            _ => next == s && out.len() == 0 && d2 == d,
        },
        ConsoleState::DeleteConfirm { id, name } => match e {
            ConsoleEvent::Line(raw) => next == ConsoleState::AwaitChoice && if lowercase_of(
                trimmed_of(raw@),
            ) == "y"@ {
                out == seq![
                    ConsoleOutput::SaveData,
                    ConsoleOutput::Show(ConsoleNotice::Deleted(name)),
                ] + menu_outputs() && d2 == d.after_delete(id)
            } else {
                out == seq![ConsoleOutput::Show(ConsoleNotice::DeleteCancelled)]
                    + menu_outputs() && d2 == d
            },
            _ => next == s && out.len() == 0 && d2 == d,
        },
    }
}

fn one(a: ConsoleOutput) -> (r: Vec<ConsoleOutput>)
    ensures
        r@ == seq![a],
{
    let mut v = Vec::new();
    v.push(a);
    assert(v@ =~= seq![a]);
    v
}

fn two(a: ConsoleOutput, b: ConsoleOutput) -> (r: Vec<ConsoleOutput>)
    ensures
        r@ == seq![a, b],
{
    let mut v = Vec::new();
    v.push(a);
    v.push(b);
    assert(v@ =~= seq![a, b]);
    v
}

fn three(a: ConsoleOutput, b: ConsoleOutput, c: ConsoleOutput) -> (r: Vec<ConsoleOutput>)
    ensures
        r@ == seq![a, b, c],
{
    let mut v = Vec::new();
    v.push(a);
    v.push(b);
    v.push(c);
    assert(v@ =~= seq![a, b, c]);
    v
}

/// `v`, then the menu and its question.
fn then_menu(v: Vec<ConsoleOutput>) -> (r: Vec<ConsoleOutput>)
    ensures
        r@ == v@ + menu_outputs(),
{
    let mut v = v;
    let ghost v0 = v@;
    v.push(ConsoleOutput::ShowMenu);
    v.push(ConsoleOutput::Ask(PromptKind::Choice));
    assert(v@ =~= v0 + menu_outputs());
    v
}

/// A copy of an item, field by field.
fn copy_item(item: &Item) -> (r: Item)
    ensures
        r == *item,
{
    Item {
        id: item.id,
        image: item.image.clone(),
        name: item.name.clone(),
        price_bits: item.price_bits,
        quantity: item.quantity,
        sold: item.sold,
    }
}

/// A number answered to a question that offers the current value.
fn read_number_or_current(line: &str, current: u32) -> (r: Option<u32>)
    ensures
        r == number_or_current(line@, current),
{
    let answer = prompt_answer(line);
    if answer.as_str().unicode_len() == 0 {
        Some(current)
    } else {
        parse_u32(answer.as_str())
    }
}

/// How a session of the maintenance console begins.
pub fn console_start() -> (r: (ConsoleState, Vec<ConsoleOutput>))
    ensures
        r.0 == ConsoleState::AwaitChoice,
        r.1@ == start_outputs(),
{
    let out = then_menu(one(ConsoleOutput::Show(ConsoleNotice::Banner)));
    (ConsoleState::AwaitChoice, out)
}

/// One step of the maintenance console (see `is_console_step`).
pub fn console_step(state: ConsoleState, event: ConsoleEvent, data: &mut StoredData) -> (r: (
    ConsoleState,
    Vec<ConsoleOutput>,
))
    ensures
        is_console_step(state, event, old(data)@, r.0, r.1@, final(data)@),
        state is DeleteConfirm ==> (event matches ConsoleEvent::Line(raw) ==> (trimmed_of(raw@).len()
            == 0 ==> final(data)@ == old(data)@)),
{
    match state {
        ConsoleState::Finished => (ConsoleState::Finished, one(ConsoleOutput::Quit)),
        ConsoleState::AwaitChoice => match event {
            ConsoleEvent::Line(raw) => {
                let choice = menu_choice(prompt_answer(raw.as_str()).as_str());
                (ConsoleState::Dispatch(choice), one(ConsoleOutput::LoadData))
            },
            _ => (ConsoleState::AwaitChoice, Vec::new()),
        },
        ConsoleState::Dispatch(c) => match event {
            ConsoleEvent::Loaded => match c {
                MenuChoice::List => (
                    ConsoleState::AwaitChoice,
                    then_menu(one(ConsoleOutput::ShowItems)),
                ),
                MenuChoice::Add => (
                    ConsoleState::AddName,
                    two(
                        ConsoleOutput::Show(ConsoleNotice::AddHeader),
                        ConsoleOutput::Ask(PromptKind::Name),
                    ),
                ),
                MenuChoice::Edit => if data.has_items() {
                    (
                        ConsoleState::EditId,
                        three(
                            ConsoleOutput::Show(ConsoleNotice::EditHeader),
                            ConsoleOutput::ShowItems,
                            ConsoleOutput::Ask(PromptKind::EditId),
                        ),
                    )
                } else {
                    (
                        ConsoleState::AwaitChoice,
                        then_menu(
                            two(
                                ConsoleOutput::Show(ConsoleNotice::EditHeader),
                                ConsoleOutput::ShowItems,
                            ),
                        ),
                    )
                },
                MenuChoice::Delete => if data.has_items() {
                    (
                        ConsoleState::DeleteId,
                        three(
                            ConsoleOutput::Show(ConsoleNotice::DeleteHeader),
                            ConsoleOutput::ShowItems,
                            ConsoleOutput::Ask(PromptKind::DeleteId),
                        ),
                    )
                } else {
                    (
                        ConsoleState::AwaitChoice,
                        then_menu(
                            two(
                                ConsoleOutput::Show(ConsoleNotice::DeleteHeader),
                                ConsoleOutput::ShowItems,
                            ),
                        ),
                    )
                },
                MenuChoice::Quit => (
                    ConsoleState::Finished,
                    two(ConsoleOutput::Show(ConsoleNotice::Bye), ConsoleOutput::Quit),
                ),
                MenuChoice::Unknown => (
                    ConsoleState::AwaitChoice,
                    then_menu(one(ConsoleOutput::Show(ConsoleNotice::UnknownOption))),
                ),
            },
            _ => (ConsoleState::Dispatch(c), Vec::new()),
        },
        ConsoleState::AddName => match event {
            ConsoleEvent::Line(raw) => {
                let name = prompt_answer(raw.as_str());
                if cancels_addition(name.as_str()) {
                    (
                        ConsoleState::AwaitChoice,
                        then_menu(one(ConsoleOutput::Show(ConsoleNotice::Cancelled))),
                    )
                } else {
                    (ConsoleState::AddPrice { name }, one(ConsoleOutput::AskPrice(None)))
                }
            },
            _ => (ConsoleState::AddName, Vec::new()),
        },
        ConsoleState::AddPrice { name } => match event {
            ConsoleEvent::Price(bits) => (
                ConsoleState::AddQuantity { name, price_bits: bits },
                one(ConsoleOutput::Ask(PromptKind::Quantity)),
            ),
            _ => (ConsoleState::AddPrice { name }, Vec::new()),
        },
        ConsoleState::AddQuantity { name, price_bits } => match event {
            ConsoleEvent::Line(raw) => match parse_u32(prompt_answer(raw.as_str()).as_str()) {
                None => (
                    ConsoleState::AddQuantity { name, price_bits },
                    two(
                        ConsoleOutput::Show(ConsoleNotice::InvalidQuantity),
                        ConsoleOutput::Ask(PromptKind::Quantity),
                    ),
                ),
                Some(q) => (
                    ConsoleState::AddImage { name, price_bits, quantity: q },
                    one(ConsoleOutput::Ask(PromptKind::NewImage)),
                ),
            },
            _ => (ConsoleState::AddQuantity { name, price_bits }, Vec::new()),
        },
        ConsoleState::AddImage { name, price_bits, quantity } => match event {
            ConsoleEvent::Line(raw) => {
                if !data.can_add_item() {
                    return (ConsoleState::Finished, one(ConsoleOutput::IdOverflow));
                }
                let image = image_or_placeholder(prompt_answer(raw.as_str()));
                let shown = name.clone();
                let id = data.add_item(image, name, price_bits, quantity);
                (
                    ConsoleState::AwaitChoice,
                    then_menu(
                        two(
                            ConsoleOutput::SaveData,
                            ConsoleOutput::Show(ConsoleNotice::Added { name: shown, id }),
                        ),
                    ),
                )
            },
            _ => (ConsoleState::AddImage { name, price_bits, quantity }, Vec::new()),
        },
        ConsoleState::EditId => match event {
            ConsoleEvent::Line(raw) => match parse_u32(prompt_answer(raw.as_str()).as_str()) {
                None => (
                    ConsoleState::AwaitChoice,
                    then_menu(one(ConsoleOutput::Show(ConsoleNotice::InvalidId))),
                ),
                Some(id) => match data.find_item(id) {
                    None => (
                        ConsoleState::AwaitChoice,
                        then_menu(one(ConsoleOutput::Show(ConsoleNotice::EditNotFound(id)))),
                    ),
                    Some(k) => {
                        let item = copy_item(&data.items[k]);
                        let shown = item.name.clone();
                        let offered = item.name.clone();
                        (
                            ConsoleState::EditName { item },
                            two(
                                ConsoleOutput::Show(ConsoleNotice::Editing(shown)),
                                ConsoleOutput::Ask(PromptKind::EditName(offered)),
                            ),
                        )
                    },
                },
            },
            _ => (ConsoleState::EditId, Vec::new()),
        },
        ConsoleState::EditName { item } => match event {
            ConsoleEvent::Line(raw) => {
                let name = answer_or_default(raw.as_str(), item.name.as_str());
                let price = item.price_bits;
                (ConsoleState::EditPrice { item, name }, one(ConsoleOutput::AskPrice(Some(price))))
            },
            _ => (ConsoleState::EditName { item }, Vec::new()),
        },
        ConsoleState::EditPrice { item, name } => match event {
            ConsoleEvent::Price(bits) => {
                let current = item.quantity;
                (
                    ConsoleState::EditQuantity { item, name, price_bits: bits },
                    one(ConsoleOutput::Ask(PromptKind::EditQuantity(current))),
                )
            },
            _ => (ConsoleState::EditPrice { item, name }, Vec::new()),
        },
        ConsoleState::EditQuantity { item, name, price_bits } => match event {
            ConsoleEvent::Line(raw) => match read_number_or_current(raw.as_str(), item.quantity) {
                None => {
                    let current = item.quantity;
                    (
                        ConsoleState::EditQuantity { item, name, price_bits },
                        two(
                            ConsoleOutput::Show(ConsoleNotice::InvalidQuantity),
                            ConsoleOutput::Ask(PromptKind::EditQuantity(current)),
                        ),
                    )
                },
                Some(q) => {
                    let current = item.sold;
                    (
                        ConsoleState::EditSold { item, name, price_bits, quantity: q },
                        one(ConsoleOutput::Ask(PromptKind::EditSold(current))),
                    )
                },
            },
            _ => (ConsoleState::EditQuantity { item, name, price_bits }, Vec::new()),
        },
        ConsoleState::EditSold { item, name, price_bits, quantity } => match event {
            ConsoleEvent::Line(raw) => match read_number_or_current(raw.as_str(), item.sold) {
                None => {
                    let current = item.sold;
                    (
                        ConsoleState::EditSold { item, name, price_bits, quantity },
                        two(
                            ConsoleOutput::Show(ConsoleNotice::InvalidValue),
                            ConsoleOutput::Ask(PromptKind::EditSold(current)),
                        ),
                    )
                },
                Some(v) => {
                    let offered = item.image.clone();
                    (
                        ConsoleState::EditImage { item, name, price_bits, quantity, sold: v },
                        one(ConsoleOutput::Ask(PromptKind::EditImage(offered))),
                    )
                },
            },
            _ => (ConsoleState::EditSold { item, name, price_bits, quantity }, Vec::new()),
        },
        ConsoleState::EditImage { item, name, price_bits, quantity, sold } => match event {
            ConsoleEvent::Line(raw) => {
                let image = answer_or_default(raw.as_str(), item.image.as_str());
                let shown = name.clone();
                data.edit_item(item.id, name, price_bits, quantity, sold, image);
                (
                    ConsoleState::AwaitChoice,
                    then_menu(
                        two(
                            ConsoleOutput::SaveData,
                            ConsoleOutput::Show(ConsoleNotice::Updated { id: item.id, name: shown }),
                        ),
                    ),
                )
            },
            _ => (ConsoleState::EditImage { item, name, price_bits, quantity, sold }, Vec::new()),
        },
        ConsoleState::DeleteId => match event {
            ConsoleEvent::Line(raw) => match parse_u32(prompt_answer(raw.as_str()).as_str()) {
                None => (
                    ConsoleState::AwaitChoice,
                    then_menu(one(ConsoleOutput::Show(ConsoleNotice::InvalidId))),
                ),
                Some(id) => match data.find_item(id) {
                    None => (
                        ConsoleState::AwaitChoice,
                        then_menu(one(ConsoleOutput::Show(ConsoleNotice::DeleteNotFound(id)))),
                    ),
                    Some(k) => {
                        let name = data.items[k].name.clone();
                        let asked = data.items[k].name.clone();
                        (
                            ConsoleState::DeleteConfirm { id, name },
                            one(ConsoleOutput::Ask(PromptKind::ConfirmDelete(asked))),
                        )
                    },
                },
            },
            _ => (ConsoleState::DeleteId, Vec::new()),
        },
        ConsoleState::DeleteConfirm { id, name } => match event {
            ConsoleEvent::Line(raw) => {
                if confirms_deletion(prompt_answer(raw.as_str()).as_str()) {
                    data.delete_item(id);
                    (
                        ConsoleState::AwaitChoice,
                        then_menu(
                            two(
                                ConsoleOutput::SaveData,
                                ConsoleOutput::Show(ConsoleNotice::Deleted(name)),
                            ),
                        ),
                    )
                } else {
                    (
                        ConsoleState::AwaitChoice,
                        then_menu(one(ConsoleOutput::Show(ConsoleNotice::DeleteCancelled))),
                    )
                }
            },
            _ => (ConsoleState::DeleteConfirm { id, name }, Vec::new()),
        },
    }
}

} // verus!
