//! What is printed for one target: its kept lines or their count, with the
//! target's name in front when more than one target is searched.

use vstd::prelude::*;

verus! {

/// The numeral of a single decimal digit.
pub open spec fn digit_text(d: nat) -> Seq<char> {
    if d == 0 {
        "0"@
    } else if d == 1 {
        "1"@
    } else if d == 2 {
        "2"@
    } else if d == 3 {
        "3"@
    } else if d == 4 {
        "4"@
    } else if d == 5 {
        "5"@
    } else if d == 6 {
        "6"@
    } else if d == 7 {
        "7"@
    } else if d == 8 {
        "8"@
    } else {
        "9"@
    }
}

/// `n` written in decimal, without leading zeros.
pub open spec fn decimal(n: nat) -> Seq<char>
    decreases n,
{
    if n < 10 {
        digit_text(n)
    } else {
        decimal(n / 10) + digit_text(n % 10)
    }
}

/// The prefix in front of each printed item: the name and a colon when
/// several targets are searched, nothing otherwise.
pub open spec fn prefix(name: Seq<char>, multiple: bool) -> Seq<char> {
    if multiple {
        name + ":"@
    } else {
        seq![]
    }
}

/// The kept lines, each after the prefix.
pub open spec fn listing(name: Seq<char>, lines: Seq<Seq<char>>, multiple: bool) -> Seq<char>
    decreases lines.len(),
{
    if lines.len() == 0 {
        seq![]
    } else {
        listing(name, lines.drop_last(), multiple) + prefix(name, multiple) + lines.last()
    }
}

/// What is printed for a target named `name` whose kept lines are `lines`.
pub open spec fn report_text(name: Seq<char>, lines: Seq<Seq<char>>, count: bool, multiple: bool) -> Seq<char> {
    if count {
        prefix(name, multiple) + decimal(lines.len()) + "\n"@
    } else {
        listing(name, lines, multiple)
    }
}

fn digit_str(d: usize) -> (r: &'static str)
    requires
        d < 10,
    ensures
        r@ == digit_text(d as nat),
{
    if d == 0 {
        "0"
    } else if d == 1 {
        "1"
    } else if d == 2 {
        "2"
    } else if d == 3 {
        "3"
    } else if d == 4 {
        "4"
    } else if d == 5 {
        "5"
    } else if d == 6 {
        "6"
    } else if d == 7 {
        "7"
    } else if d == 8 {
        "8"
    } else {
        "9"
    }
}

/// `n` written in decimal.
pub fn decimal_string(n: usize) -> (r: String)
    ensures
        r@ == decimal(n as nat),
    decreases n,
{
    if n < 10 {
        String::from_str(digit_str(n))
    } else {
        let mut s = decimal_string(n / 10);
        s.append(digit_str(n % 10));
        s
    }
}

/// Whether names go in front of what is printed: when more than one target
/// was resolved, failures included.
pub fn multiple_targets(resolved: usize) -> (r: bool)
    ensures
        r == (resolved > 1),
{
    resolved > 1
}

fn prefix_string(name: &str, multiple: bool) -> (r: String)
    ensures
        r@ == prefix(name@, multiple),
{
    if multiple {
        let mut s = String::from_str(name);
        s.append(":");
        s
    } else {
        let s = String::new();
        assert(s@ =~= prefix(name@, multiple));
        s
    }
}

/// What is printed for the target `name` whose kept lines are `lines`: the
/// count and a newline in count mode, else each line as it was read; either
/// way after `name` and a colon when `multiple` holds.
pub fn format_report(name: &str, lines: &Vec<String>, count: bool, multiple: bool) -> (r: String)
    ensures
        r@ == report_text(name@, lines.deep_view(), count, multiple),
{
    let pre = prefix_string(name, multiple);
    if count {
        let mut s = pre;
        let n = decimal_string(lines.len());
        s.append(n.as_str());
        s.append("\n");
        return s;
    }
    let ghost all = lines.deep_view();
    let mut s = String::new();
    let mut i: usize = 0;
    assert(s@ =~= listing(name@, all.take(0), multiple));
    while i < lines.len()
        invariant
            i <= lines.len(),
            all == lines.deep_view(),
            pre@ == prefix(name@, multiple),
            s@ == listing(name@, all.take(i as int), multiple),
        decreases lines.len() - i,
    {
        proof {
            let next = all.take(i as int + 1);
            assert(next.drop_last() == all.take(i as int));
            assert(next.last() == lines[i as int]@);
        }
        s.append(pre.as_str());
        s.append(lines[i].as_str());
        i = i + 1;
    }
    assert(all.take(lines.len() as int) == all);
    s
}

} // verus!
