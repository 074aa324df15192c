//! Small text builders: decimal numerals and comma-separated lists.
use vstd::prelude::*;
use vstd::string::*;

verus! {

/// The character of a decimal digit.
pub open spec fn digit_char(d: nat) -> char {
    (d + 48) as char
}

/// The decimal numeral of `n`, without sign or leading zeros.
pub open spec fn decimal(n: nat) -> Seq<char>
    decreases n,
{
    if n < 10 {
        seq![digit_char(n)]
    } else {
        decimal(n / 10).push(digit_char(n % 10))
    }
}

/// The pieces written one after the other, with a comma between two of them.
pub open spec fn joined(items: Seq<Seq<char>>) -> Seq<char>
    decreases items.len(),
{
    if items.len() == 0 {
        Seq::empty()
    } else if items.len() == 1 {
        items[0]
    } else {
        joined(items.drop_last()) + seq![','] + items.last()
    }
}

/// The views of a vector of strings.
pub open spec fn views(items: Seq<String>) -> Seq<Seq<char>> {
    items.map_values(|s: String| s@)
}

fn digit_str(d: u64) -> (r: &'static str)
    requires
        d < 10,
    ensures
        r@ == seq![digit_char(d as nat)],
{
    proof {
        reveal_strlit("0");
        reveal_strlit("1");
        reveal_strlit("2");
        reveal_strlit("3");
        reveal_strlit("4");
        reveal_strlit("5");
        reveal_strlit("6");
        reveal_strlit("7");
        reveal_strlit("8");
        reveal_strlit("9");
    }
    let r = match d {
        0 => "0",
        1 => "1",
        2 => "2",
        3 => "3",
        4 => "4",
        5 => "5",
        6 => "6",
        7 => "7",
        8 => "8",
        _ => "9",
    };
    assert(r@ =~= seq![digit_char(d as nat)]);
    r
}

/// Writes `n` as a decimal numeral.
pub fn decimal_text(n: u64) -> (r: String)
    ensures
        r@ == decimal(n as nat),
    decreases n,
{
    if n < 10 {
        String::from_str(digit_str(n))
    } else {
        let mut s = decimal_text(n / 10);
        s.append(digit_str(n % 10));
        s
    }
}

/// Writes the pieces one after the other, with a comma between two of them.
pub fn join_with_commas(items: &Vec<String>) -> (r: String)
    ensures
        r@ == joined(views(items@)),
{
    let mut out = String::new();
    let mut i: usize = 0;
    while i < items.len()
        invariant
            i <= items.len(),
            out@ == joined(views(items@.subrange(0, i as int))),
        decreases items.len() - i,
    {
        let ghost before = views(items@.subrange(0, i as int));
        let ghost after = views(items@.subrange(0, i as int + 1));
        assert(after.drop_last() =~= before);
        assert(after.last() == items@[i as int]@);
        if i > 0 {
            out.append(",");
            proof {
                reveal_strlit(",");
            }
        }
        out.append(items[i].as_str());
        proof {
            if i == 0 {
                assert(out@ =~= joined(after));
            } else {
                assert(out@ =~= joined(after));
            }
        }
        i = i + 1;
    }
    assert(items@.subrange(0, items.len() as int) =~= items@);
    out
}

} // verus!
