//! Builds the user-visible text: the numbered list, one `"{index}) {item}"`
//! line per item with 1-based numbering, and the fixed usage text.

use vstd::prelude::*;

verus! {

/// The decimal digit character for a value below ten.
pub open spec fn digit_char(d: int) -> char {
    if d == 0 {
        '0'
    } else if d == 1 {
        '1'
    } else if d == 2 {
        '2'
    } else if d == 3 {
        '3'
    } else if d == 4 {
        '4'
    } else if d == 5 {
        '5'
    } else if d == 6 {
        '6'
    } else if d == 7 {
        '7'
    } else if d == 8 {
        '8'
    } else {
        '9'
    }
}

/// The base-10 numeral of a natural number, most significant digit first.
pub open spec fn spec_digits(n: int) -> Seq<char>
    decreases n,
{
    if n < 10 {
        seq![digit_char(n)]
    } else {
        spec_digits(n / 10).push(digit_char(n % 10))
    }
}

fn digit_str(d: u64) -> (r: &'static str)
    requires
        d < 10,
    ensures
        r@ == seq![digit_char(d as int)],
{
    proof {
        reveal_strlit("0");
        reveal_strlit("1");
        reveal_strlit("2");
        reveal_strlit("3");
        reveal_strlit("4");
        reveal_strlit("5");
        reveal_strlit("6");
        reveal_strlit("7");
        reveal_strlit("8");
        reveal_strlit("9");
    }
    if d == 0 {
        "0"
    } else if d == 1 {
        "1"
    } else if d == 2 {
        "2"
    } else if d == 3 {
        "3"
    } else if d == 4 {
        "4"
    } else if d == 5 {
        "5"
    } else if d == 6 {
        "6"
    } else if d == 7 {
        "7"
    } else if d == 8 {
        "8"
    } else {
        "9"
    }
}

/// The decimal numeral of `n`, as the list numbering shows it.
pub fn u64_to_dec(n: u64) -> (r: String)
    ensures
        r@ == spec_digits(n as int),
    decreases n,
{
    if n < 10 {
        String::from_str(digit_str(n))
    } else {
        let high = u64_to_dec(n / 10);
        high.concat(digit_str(n % 10))
    }
}

/// One rendered line: the 1-based position, a `") "` separator, the item
/// text, and a newline.
pub open spec fn spec_line(pos: int, item: Seq<char>) -> Seq<char> {
    spec_digits(pos) + ") "@ + item + "\n"@
}

/// The rendered list: the lines of all items in order.
pub open spec fn spec_render(l: Seq<Seq<char>>) -> Seq<char>
    decreases l.len(),
{
    if l.len() == 0 {
        Seq::empty()
    } else {
        spec_render(l.drop_last()) + spec_line(l.len() as int, l.last())
    }
}

/// Render the numbered list of the given items, 1-based.
pub fn render_list(items: &Vec<String>) -> (r: String)
    ensures
        r@ == spec_render(items.deep_view()),
{
    let ghost l: Seq<Seq<char>> = items.deep_view();
    let mut out = String::new();
    let mut i: usize = 0;
    proof {
        assert(l.subrange(0, 0) =~= Seq::<Seq<char>>::empty());
    }
    while i < items.len()
        invariant
            i <= items.len(),
            l == items.deep_view(),
            out@ == spec_render(l.subrange(0, i as int)),
        decreases items.len() - i,
    {
        let num = u64_to_dec((i as u64) + 1);
        out.append(num.as_str());
        out.append(") ");
        out.append(items[i].as_str());
        out.append("\n");
        i = i + 1;
        proof {
            let prefix = l.subrange(0, i as int);
            assert(prefix.drop_last() =~= l.subrange(0, i - 1));
            assert(prefix.last() == l[i - 1]);
            assert(out@ =~= spec_render(prefix.drop_last()) + spec_line(i as int, prefix.last()));
        }
    }
    proof {
        assert(l.subrange(0, items.len() as int) =~= l);
    }
    out
}

/// The fixed usage text: the three command forms, as the help reply shows
/// them.
pub fn help_text() -> (r: &'static str)
    ensures
        r@
            == "\"!shop new\" - tworzy nowa pusta liste\n\"-nazwa produktu\" - dodaje produkt do listy\n\"!bought <numer>\" - usuwa pozycje <numer> z listy."@,
{
    "\"!shop new\" - tworzy nowa pusta liste\n\"-nazwa produktu\" - dodaje produkt do listy\n\"!bought <numer>\" - usuwa pozycje <numer> z listy."
}

} // verus!
