//! Text helpers: views of string lists and decimal numerals.

use vstd::prelude::*;

verus! {

/// The character sequences held by a list of strings, in order.
pub open spec fn texts(list: Seq<String>) -> Seq<Seq<char>> {
    Seq::new(list.len(), |i: int| list[i]@)
}

/// Tells whether two texts hold the same characters.
pub fn same_text(a: &str, b: &str) -> (same: bool)
    ensures
        same == (a@ == b@),
{
    let left = a.to_owned();
    let right = b.to_owned();
    left == right
}

/// Tells whether `item` occurs in `list`.
pub fn list_contains(list: &Vec<String>, item: &str) -> (found: bool)
    ensures
        found == texts(list@).contains(item@),
{
    let mut i: usize = 0;
    while i < list.len()
        invariant
            i <= list.len(),
            forall|j: int| 0 <= j < i ==> texts(list@)[j] != item@,
        decreases list.len() - i,
    {
        if same_text(list[i].as_str(), item) {
            assert(texts(list@)[i as int] == item@);
            return true;
        }
        i = i + 1;
    }
    false
}

/// The parts written one after another with `sep` between neighbours.
pub open spec fn join_texts(parts: Seq<Seq<char>>, sep: Seq<char>) -> Seq<char>
    decreases parts.len(),
{
    if parts.len() == 0 {
        Seq::empty()
    } else if parts.len() == 1 {
        parts[0]
    } else {
        join_texts(parts.drop_last(), sep) + sep + parts.last()
    }
}

/// Writes the parts one after another with `sep` between neighbours.
pub fn join_strings(parts: &Vec<String>, sep: &str) -> (joined: String)
    ensures
        joined@ == join_texts(texts(parts@), sep@),
{
    let mut joined = String::new();
    let mut i: usize = 0;
    while i < parts.len()
        invariant
            i <= parts.len(),
            joined@ == join_texts(texts(parts@).take(i as int), sep@),
        decreases parts.len() - i,
    {
        let ghost before = texts(parts@).take(i as int);
        let ghost after = texts(parts@).take(i + 1);
        proof {
            assert(after.drop_last() =~= before);
            assert(after.last() == parts@[i as int]@);
        }
        if i > 0 {
            joined.append(sep);
            joined.append(parts[i].as_str());
        } else {
            joined.append(parts[i].as_str());
            assert(joined@ =~= after[0]);
        }
        i = i + 1;
    }
    assert(texts(parts@).take(i as int) =~= texts(parts@));
    joined
}

/// The decimal digit for a value below ten.
pub open spec fn digit_char(d: nat) -> char {
    if d == 0 {
        '0'
    } else if d == 1 {
        '1'
    } else if d == 2 {
        '2'
    } else if d == 3 {
        '3'
    } else if d == 4 {
        '4'
    } else if d == 5 {
        '5'
    } else if d == 6 {
        '6'
    } else if d == 7 {
        '7'
    } else if d == 8 {
        '8'
    } else {
        '9'
    }
}

/// The decimal numeral of a natural number, without leading zeros.
pub open spec fn decimal_text(n: nat) -> Seq<char>
    decreases n,
{
    if n < 10 {
        seq![digit_char(n)]
    } else {
        decimal_text(n / 10).push(digit_char(n % 10))
    }
}

/// The decimal numeral of an integer, with a leading minus sign below zero.
pub open spec fn signed_decimal_text(n: int) -> Seq<char> {
    if n < 0 {
        seq!['-'] + decimal_text((-n) as nat)
    } else {
        decimal_text(n as nat)
    }
}

/// The digits after the decimal point for a count of thousandths below one
/// thousand and above zero: three places with trailing zeros removed.
pub open spec fn fraction_text(frac: nat) -> Seq<char> {
    let d1 = digit_char(frac / 100);
    let d2 = digit_char((frac / 10) % 10);
    let d3 = digit_char(frac % 10);
    if frac % 10 != 0 {
        seq![d1, d2, d3]
    } else if (frac / 10) % 10 != 0 {
        seq![d1, d2]
    } else {
        seq![d1]
    }
}

/// The decimal numeral of a count of thousandths: the whole part, then a
/// point and up to three places where the value is not whole.
pub open spec fn milli_text(milli: nat) -> Seq<char> {
    if milli % 1000 == 0 {
        decimal_text(milli / 1000)
    } else {
        decimal_text(milli / 1000) + seq!['.'] + fraction_text(milli % 1000)
    }
}

fn digit_str(d: u32) -> (s: &'static str)
    requires
        d < 10,
    ensures
        s@ == seq![digit_char(d as nat)],
{
    proof {
        reveal_strlit("0");
        reveal_strlit("1");
        reveal_strlit("2");
        reveal_strlit("3");
        reveal_strlit("4");
        reveal_strlit("5");
        reveal_strlit("6");
        reveal_strlit("7");
        reveal_strlit("8");
        reveal_strlit("9");
    }
    let s = if d == 0 {
        "0"
    } else if d == 1 {
        "1"
    } else if d == 2 {
        "2"
    } else if d == 3 {
        "3"
    } else if d == 4 {
        "4"
    } else if d == 5 {
        "5"
    } else if d == 6 {
        "6"
    } else if d == 7 {
        "7"
    } else if d == 8 {
        "8"
    } else {
        "9"
    };
    assert(s@ =~= seq![digit_char(d as nat)]);
    s
}

/// Appends the decimal numeral of `n` to `out`.
pub fn push_decimal(out: &mut String, n: u32)
    ensures
        final(out)@ == old(out)@ + decimal_text(n as nat),
    decreases n,
{
    if n >= 10 {
        push_decimal(out, n / 10);
    }
    out.append(digit_str(n % 10));
    proof {
        if n >= 10 {
            assert(out@ =~= old(out)@ + decimal_text(n as nat));
        } else {
            assert(out@ =~= old(out)@ + decimal_text(n as nat));
        }
    }
}

/// The decimal numeral of `n`.
pub fn decimal_string(n: u32) -> (s: String)
    ensures
        s@ == decimal_text(n as nat),
{
    let mut s = String::new();
    push_decimal(&mut s, n);
    assert(s@ =~= decimal_text(n as nat));
    s
}

/// The decimal numeral of `n`, with a minus sign where it is negative.
pub fn signed_decimal_string(n: i32) -> (s: String)
    ensures
        s@ == signed_decimal_text(n as int),
{
    let mut s = String::new();
    if n < 0 {
        proof {
            reveal_strlit("-");
        }
        s.append("-");
        let magnitude: i64 = -(n as i64);
        push_decimal(&mut s, magnitude as u32);
        assert(s@ =~= signed_decimal_text(n as int));
    } else {
        push_decimal(&mut s, n as u32);
        assert(s@ =~= signed_decimal_text(n as int));
    }
    s
}

/// The decimal numeral of `milli` thousandths.
pub fn milli_string(milli: u32) -> (s: String)
    ensures
        s@ == milli_text(milli as nat),
{
    let mut s = String::new();
    push_decimal(&mut s, milli / 1000);
    let frac: u32 = milli % 1000;
    if frac != 0 {
        proof {
            reveal_strlit(".");
        }
        s.append(".");
        s.append(digit_str(frac / 100));
        if frac % 10 != 0 {
            s.append(digit_str((frac / 10) % 10));
            s.append(digit_str(frac % 10));
        } else if (frac / 10) % 10 != 0 {
            s.append(digit_str((frac / 10) % 10));
        }
    }
    assert(s@ =~= milli_text(milli as nat));
    s
}

/// The part of `text` after the last `sep`, or all of it where it holds
/// none.
pub open spec fn last_segment(text: Seq<char>, sep: char) -> Seq<char>
    decreases text.len(),
{
    if text.len() == 0 {
        Seq::empty()
    } else if text.last() == sep {
        Seq::empty()
    } else {
        last_segment(text.drop_last(), sep).push(text.last())
    }
}

/// Copies the part of `text` after the last `sep`.
pub fn final_segment(text: &str, sep: char) -> (segment: String)
    ensures
        segment@ == last_segment(text@, sep),
{
    let len = text.unicode_len();
    let mut start: usize = len;
    assert(text@.take(len as int) =~= text@);
    assert(last_segment(text@, sep) =~= last_segment(text@, sep) + text@.subrange(
        len as int,
        len as int,
    ));
    while start > 0
        invariant
            start <= len,
            len == text@.len(),
            last_segment(text@, sep) == last_segment(text@.take(start as int), sep)
                + text@.subrange(start as int, len as int),
        decreases start,
    {
        let ghost head = text@.take(start as int);
        assert(head.last() == text@[start - 1]);
        if text.get_char(start - 1) == sep {
            assert(last_segment(head, sep) =~= Seq::<char>::empty());
            assert(last_segment(text@, sep) =~= text@.subrange(start as int, len as int));
            return text.substring_char(start, len).to_owned();
        }
        proof {
            assert(head.drop_last() =~= text@.take(start - 1));
            assert(last_segment(head, sep) == last_segment(text@.take(start - 1), sep).push(
                text@[start - 1],
            ));
            assert(last_segment(text@.take(start - 1), sep).push(text@[start - 1]) + text@.subrange(
                start as int,
                len as int,
            ) =~= last_segment(text@.take(start - 1), sep) + text@.subrange(
                start - 1,
                len as int,
            ));
        }
        start = start - 1;
    }
    assert(text@.take(0) =~= Seq::<char>::empty());
    assert(last_segment(text@, sep) =~= text@.subrange(0, len as int));
    text.substring_char(0, len).to_owned()
}

/// Whether `text` ends with `suffix`.
pub open spec fn ends_with(text: Seq<char>, suffix: Seq<char>) -> bool {
    suffix.len() <= text.len() && text.subrange(text.len() - suffix.len(), text.len() as int)
        == suffix
}

/// `text` without its last `count` characters.
pub open spec fn without_last(text: Seq<char>, count: nat) -> Seq<char> {
    text.subrange(0, text.len() - count)
}

/// Copies `text` without `suffix` at its end, or returns `None` where `text`
/// does not end with `suffix`.
pub fn strip_suffix(text: &str, suffix: &str) -> (stripped: Option<String>)
    ensures
        stripped.is_some() == ends_with(text@, suffix@),
        stripped.is_some() ==> stripped.unwrap()@ == without_last(text@, suffix@.len()),
{
    let len = text.unicode_len();
    let tail = suffix.unicode_len();
    if tail > len {
        return None;
    }
    let offset = len - tail;
    let ghost end = text@.subrange(offset as int, len as int);
    let mut i: usize = 0;
    while i < tail
        invariant
            i <= tail,
            tail == suffix@.len(),
            len == text@.len(),
            offset == len - tail,
            end == text@.subrange(offset as int, len as int),
            forall|j: int| 0 <= j < i ==> end[j] == suffix@[j],
        decreases tail - i,
    {
        if text.get_char(offset + i) != suffix.get_char(i) {
            assert(end[i as int] != suffix@[i as int]);
            return None;
        }
        i = i + 1;
    }
    assert(end =~= suffix@);
    Some(text.substring_char(0, offset).to_owned())
}

} // verus!
