use vstd::prelude::*;
use crate::model::Item;
use crate::text::{decimal_value, is_digit, parsed_u32, without_plus_sign};

verus! {

/// The line shown when the shop holds no item.
pub const NO_ITEMS: &'static str = "\n  (no items found)\n";

/// The digit that writes `d` (below 10).
pub open spec fn digit_char(d: int) -> char {
    if d == 0 {
        '0'
    } else if d == 1 {
        '1'
    } else if d == 2 {
        '2'
    } else if d == 3 {
        '3'
    } else if d == 4 {
        '4'
    } else if d == 5 {
        '5'
    } else if d == 6 {
        '6'
    } else if d == 7 {
        '7'
    } else if d == 8 {
        '8'
    } else {
        '9'
    }
}

/// How `n` is written in decimal, without leading zeros.
pub open spec fn decimal_text_of(n: nat) -> Seq<char>
    decreases n,
{
    if n < 10 {
        seq![digit_char(n as int)]
    } else {
        decimal_text_of(n / 10).push(digit_char((n % 10) as int))
    }
}

/// The digit that writes `d` is a decimal digit worth `d`.
proof fn lemma_digit_char(d: int)
    requires
        0 <= d < 10,
    ensures
        is_digit(digit_char(d)),
        digit_char(d) as int - '0' as int == d,
{
}

/// The decimal text of `n` is a non-empty string of digits that writes `n`.
proof fn lemma_decimal_text(n: nat)
    ensures
        decimal_text_of(n).len() > 0,
        forall|i: int| 0 <= i < decimal_text_of(n).len() ==> is_digit(#[trigger] decimal_text_of(n)[i]),
        decimal_value(decimal_text_of(n)) == n,
    decreases n,
{
    let t = decimal_text_of(n);
    if n < 10 {
        lemma_digit_char(n as int);
        assert(t.drop_last() =~= Seq::<char>::empty());
        assert(t.last() == digit_char(n as int));
        assert(decimal_value(Seq::<char>::empty()) == 0);
    } else {
        lemma_decimal_text(n / 10);
        lemma_digit_char((n % 10) as int);
        let u = decimal_text_of(n / 10);
        assert(t.drop_last() =~= u);
        assert(t.last() == digit_char((n % 10) as int));
        assert((n / 10) * 10 + n % 10 == n) by (nonlinear_arith);
        assert forall|i: int| 0 <= i < t.len() implies is_digit(#[trigger] t[i]) by {
            if i < u.len() {
                assert(t[i] == u[i]);
            }
        }
    }
}

/// Numbers read back: the decimal text of any `u32`, with or without a
/// leading `+`, is read as that number.
pub proof fn law_numbers_read_back(n: u32)
    ensures
        parsed_u32(decimal_text_of(n as nat)) == Some(n),
        parsed_u32(seq!['+'] + decimal_text_of(n as nat)) == Some(n),
{
    let t = decimal_text_of(n as nat);
    lemma_decimal_text(n as nat);
    assert(t.len() > 0 && t[0] != '+') by {
        assert(is_digit(t[0]));
    }
    assert(without_plus_sign(t) == t);
    let p = seq!['+'] + t;
    assert(without_plus_sign(p) =~= t);
}

/// `n` spaces.
pub open spec fn spaces(n: int) -> Seq<char> {
    Seq::new(if n > 0 { n as nat } else { 0 }, |i: int| ' ')
}

/// `s` followed by spaces up to `width` characters (`{:<width}`).
pub open spec fn pad_right(s: Seq<char>, width: int) -> Seq<char> {
    s + spaces(width - s.len())
}

/// `s` preceded by spaces up to `width` characters (`{:>width}`).
pub open spec fn pad_left(s: Seq<char>, width: int) -> Seq<char> {
    spaces(width - s.len()) + s
}

/// A line of the item table: id, name, price, stock and units sold, in
/// columns of 5, 25, 10, 10 and 8 characters, after two spaces.
pub open spec fn table_line(
    id: Seq<char>,
    name: Seq<char>,
    price: Seq<char>,
    quantity: Seq<char>,
    sold: Seq<char>,
) -> Seq<char> {
    "  "@ + pad_right(id, 5) + " "@ + pad_right(name, 25) + " "@ + pad_left(price, 10) + " "@
        + pad_left(quantity, 10) + " "@ + pad_left(sold, 8)
}

/// The columns of the item table line up: when each text fits its column,
/// a line is 64 characters long, the id and the name start at characters 2
/// and 8, the price, the stock and the units sold end at characters 44, 55
/// and 64, and every other character is a space.
pub proof fn law_table_columns(
    id: Seq<char>,
    name: Seq<char>,
    price: Seq<char>,
    quantity: Seq<char>,
    sold: Seq<char>,
)
    requires
        id.len() <= 5,
        name.len() <= 25,
        price.len() <= 10,
        quantity.len() <= 10,
        sold.len() <= 8,
    ensures
        ({
            let line = table_line(id, name, price, quantity, sold);
            &&& line.len() == 64
            &&& line.subrange(2, 2 + id.len() as int) == id
            &&& line.subrange(8, 8 + name.len() as int) == name
            &&& line.subrange(44 - price.len(), 44) == price
            &&& line.subrange(55 - quantity.len(), 55) == quantity
            &&& line.subrange(64 - sold.len(), 64) == sold
            &&& forall|k: int|
                0 <= k < 64 && !(2 <= k < 2 + id.len()) && !(8 <= k < 8 + name.len()) && !(44
                    - price.len() <= k < 44) && !(55 - quantity.len() <= k < 55) && !(64
                    - sold.len() <= k < 64) ==> #[trigger] line[k] == ' '
        }),
{
    reveal_strlit("  ");
    reveal_strlit(" ");
    let line = table_line(id, name, price, quantity, sold);
    let a = "  "@ + pad_right(id, 5);
    let b = a + " "@ + pad_right(name, 25);
    let c = b + " "@ + pad_left(price, 10);
    let e = c + " "@ + pad_left(quantity, 10);
    assert(line == e + " "@ + pad_left(sold, 8));
    assert(a.len() == 7);
    assert(b.len() == 33);
    assert(c.len() == 44);
    assert(e.len() == 55);
    assert(line.subrange(2, 2 + id.len() as int) =~= id);
    assert(line.subrange(8, 8 + name.len() as int) =~= name);
    assert(line.subrange(44 - price.len(), 44) =~= price);
    assert(line.subrange(55 - quantity.len(), 55) =~= quantity);
    assert(line.subrange(64 - sold.len(), 64) =~= sold);
}

fn digit_text(d: u32) -> (r: &'static str)
    requires
        d < 10,
    ensures
        r@ == seq![digit_char(d as int)],
{
    proof {
        reveal_strlit("0");
        reveal_strlit("1");
        reveal_strlit("2");
        reveal_strlit("3");
        reveal_strlit("4");
        reveal_strlit("5");
        reveal_strlit("6");
        reveal_strlit("7");
        reveal_strlit("8");
        reveal_strlit("9");
    }
    let r = if d == 0 {
        "0"
    } else if d == 1 {
        "1"
    } else if d == 2 {
        "2"
    } else if d == 3 {
        "3"
    } else if d == 4 {
        "4"
    } else if d == 5 {
        "5"
    } else if d == 6 {
        "6"
    } else if d == 7 {
        "7"
    } else if d == 8 {
        "8"
    } else {
        "9"
    };
    assert(r@ =~= seq![digit_char(d as int)]);
    r
}

/// `n` written in decimal, as `u32::to_string` writes it.
pub fn decimal_text(n: u32) -> (r: String)
    ensures
        r@ == decimal_text_of(n as nat),
    decreases n,
{
    if n < 10 {
        digit_text(n).to_owned()
    } else {
        let mut s = decimal_text(n / 10);
        s.append(digit_text(n % 10));
        proof {
            assert(decimal_text_of(n as nat) == decimal_text_of((n / 10) as nat).push(
                digit_char((n % 10) as int),
            ));
            assert(s@ =~= decimal_text_of(n as nat));
        }
        s
    }
}

/// Appends `count` spaces.
fn push_spaces(s: &mut String, count: usize)
    ensures
        final(s)@ == old(s)@ + spaces(count as int),
{
    let ghost start = s@;
    let mut i: usize = 0;
    while i < count
        invariant
            0 <= i <= count,
            s@ == start + spaces(i as int),
        decreases count - i,
    {
        s.append(" ");
        proof {
            reveal_strlit(" ");
            assert(s@ =~= start + spaces(i + 1));
        }
        i = i + 1;
    }
}

/// Appends `text` padded with spaces on the right to `width` characters.
fn push_left_aligned(s: &mut String, text: &str, width: usize)
    ensures
        final(s)@ == old(s)@ + pad_right(text@, width as int),
{
    let n = text.unicode_len();
    s.append(text);
    if n < width {
        push_spaces(s, width - n);
    } else {
        push_spaces(s, 0);
    }
    proof {
        assert(spaces(width - text@.len()) =~= spaces(
            if n < width {
                (width - n) as int
            } else {
                0
            },
        ));
        assert(s@ =~= old(s)@ + pad_right(text@, width as int));
    }
}

/// Appends `text` padded with spaces on the left to `width` characters.
fn push_right_aligned(s: &mut String, text: &str, width: usize)
    ensures
        final(s)@ == old(s)@ + pad_left(text@, width as int),
{
    let n = text.unicode_len();
    if n < width {
        push_spaces(s, width - n);
    } else {
        push_spaces(s, 0);
    }
    s.append(text);
    proof {
        assert(spaces(width - text@.len()) =~= spaces(
            if n < width {
                (width - n) as int
            } else {
                0
            },
        ));
        assert(s@ =~= old(s)@ + pad_left(text@, width as int));
    }
}

/// A table line from the texts of its five columns.
pub fn table_row(id: &str, name: &str, price: &str, quantity: &str, sold: &str) -> (r: String)
    ensures
        r@ == table_line(id@, name@, price@, quantity@, sold@),
{
    let mut s = "  ".to_owned();
    push_left_aligned(&mut s, id, 5);
    s.append(" ");
    push_left_aligned(&mut s, name, 25);
    s.append(" ");
    push_right_aligned(&mut s, price, 10);
    s.append(" ");
    push_right_aligned(&mut s, quantity, 10);
    s.append(" ");
    push_right_aligned(&mut s, sold, 8);
    proof {
        assert(s@ =~= table_line(id@, name@, price@, quantity@, sold@));
    }
    s
}

/// The heading line of the item table.
pub fn header_row() -> (r: String)
    ensures
        r@ == table_line("ID"@, "Name"@, "Price"@, "Qty"@, "Sold"@),
{
    table_row("ID", "Name", "Price", "Qty", "Sold")
}

/// The line under the heading: two spaces and 62 dashes.
pub fn separator_row() -> (r: String)
    ensures
        r@ == "  "@ + Seq::new(62, |i: int| '-'),
{
    let mut s = "  ".to_owned();
    let ghost start = s@;
    let mut i: usize = 0;
    while i < 62
        invariant
            0 <= i <= 62,
            s@ == start + Seq::new(i as nat, |j: int| '-'),
        decreases 62 - i,
    {
        s.append("-");
        proof {
            reveal_strlit("-");
            assert(s@ =~= start + Seq::new((i + 1) as nat, |j: int| '-'));
        }
        i = i + 1;
    }
    s
}

/// The table line of an item, with its price already written as text.
pub fn item_row(item: &Item, price_text: &str) -> (r: String)
    ensures
        r@ == table_line(
            decimal_text_of(item.id as nat),
            item.name@,
            price_text@,
            decimal_text_of(item.quantity as nat),
            decimal_text_of(item.sold as nat),
        ),
{
    let id = decimal_text(item.id);
    let quantity = decimal_text(item.quantity);
    let sold = decimal_text(item.sold);
    table_row(id.as_str(), item.name.as_str(), price_text, quantity.as_str(), sold.as_str())
}

} // verus!
