use vstd::prelude::*;
use crate::text::{lowercase_of, same_text, to_lowercase, trim, trimmed_of};

verus! {

/// The image that an item gets when none is given.
pub const PLACEHOLDER_IMAGE: &'static str = "https://via.placeholder.com/300x200?text=No+Image";

/// An entry of the maintenance console's menu.
#[derive(Clone, Copy, PartialEq, Eq, Structural, Debug)]
pub enum MenuChoice {
    List,
    Add,
    Edit,
    Delete,
    Quit,
    Unknown,
}

/// The menu entry that an answer selects: `1` to `4` for listing, adding,
/// editing and deleting items, `q` or `Q` to quit.
pub open spec fn menu_choice_of(answer: Seq<char>) -> MenuChoice {
    if answer == "1"@ {
        MenuChoice::List
    } else if answer == "2"@ {
        MenuChoice::Add
    } else if answer == "3"@ {
        MenuChoice::Edit
    } else if answer == "4"@ {
        MenuChoice::Delete
    } else if answer == "q"@ || answer == "Q"@ {
        MenuChoice::Quit
    } else {
        MenuChoice::Unknown
    }
}

/// Reads the menu entry that the (trimmed) answer selects.
pub fn menu_choice(answer: &str) -> (r: MenuChoice)
    ensures
        r == menu_choice_of(answer@),
{
    if same_text(answer, "1") {
        MenuChoice::List
    } else if same_text(answer, "2") {
        MenuChoice::Add
    } else if same_text(answer, "3") {
        MenuChoice::Edit
    } else if same_text(answer, "4") {
        MenuChoice::Delete
    } else if same_text(answer, "q") || same_text(answer, "Q") {
        MenuChoice::Quit
    } else {
        MenuChoice::Unknown
    }
}

/// The answer to a prompt: the line read, trimmed.
pub fn prompt_answer(line: &str) -> (r: String)
    ensures
        r@ == trimmed_of(line@),
{
    trim(line).to_owned()
}

/// The answer to a prompt that offers a default: the trimmed line, or the
/// default where the trimmed line is empty.
pub fn answer_or_default(line: &str, default: &str) -> (r: String)
    ensures
        r@ == if trimmed_of(line@).len() == 0 {
            default@
        } else {
            trimmed_of(line@)
        },
{
    let trimmed = trim(line);
    if trimmed.unicode_len() == 0 {
        default.to_owned()
    } else {
        trimmed.to_owned()
    }
}

/// Whether the name given for a new item cancels the addition: it does when
/// it is empty.
pub fn cancels_addition(name: &str) -> (r: bool)
    ensures
        r == (name@.len() == 0),
{
    name.unicode_len() == 0
}

/// The image of a new item: the one given, or the placeholder where none is.
pub fn image_or_placeholder(image: String) -> (r: String)
    ensures
        r@ == if image@.len() == 0 {
            PLACEHOLDER_IMAGE@
        } else {
            image@
        },
{
    if image.as_str().unicode_len() == 0 {
        PLACEHOLDER_IMAGE.to_owned()
    } else {
        image
    }
}

/// Whether an answer confirms a deletion: it reads `y` once lowercased.
pub fn confirms_deletion(answer: &str) -> (r: bool)
    ensures
        r == (lowercase_of(answer@) == "y"@),
        answer@.len() == 0 ==> !r,
{
    proof {
        reveal_strlit("y");
    }
    let lowered = to_lowercase(answer);
    same_text(lowered.as_str(), "y")
}

} // verus!
