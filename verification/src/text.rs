//! Comparing and searching text by its characters.

use vstd::prelude::*;
use vstd::string::{StrSliceExecFns, StringExecFns};

verus! {

/// The character sequences of a list of strings, in the list's order.
pub open spec fn texts(list: Seq<String>) -> Seq<Seq<char>> {
    list.map_values(|s: String| s@)
}

/// The test that a text is another one than `text`.
pub open spec fn other_than(text: Seq<char>) -> spec_fn(Seq<char>) -> bool {
    |t: Seq<char>| t != text
}

/// Whether `needle` occurs in `list`.
pub fn contains_text(list: &Vec<String>, needle: &str) -> (found: bool)
    ensures
        found == texts(list@).contains(needle@),
{
    let mut i: usize = 0;
    while i < list.len()
        invariant
            i <= list@.len(),
            forall|j: int| 0 <= j < i ==> texts(list@)[j] != needle@,
        decreases list@.len() - i,
    {
        assert(texts(list@)[i as int] == list@[i as int]@);
        if *list[i].as_str() == *needle {
            return true;
        }
        i += 1;
    }
    false
}

/// A copy of `list`, string by string.
pub fn copy_texts(list: &Vec<String>) -> (copy: Vec<String>)
    ensures
        texts(copy@) == texts(list@),
{
    let mut copy: Vec<String> = Vec::new();
    let mut i: usize = 0;
    while i < list.len()
        invariant
            i <= list@.len(),
            copy@.len() == i,
            forall|j: int| 0 <= j < i ==> copy@[j]@ == list@[j]@,
        decreases list@.len() - i,
    {
        copy.push(list[i].clone());
        i += 1;
    }
    assert(texts(copy@) =~= texts(list@));
    copy
}

/// Filtering a sequence with one more item at its end.
pub proof fn lemma_filter_push<A>(s: Seq<A>, x: A, pred: spec_fn(A) -> bool)
    ensures
        s.push(x).filter(pred) == (if pred(x) {
            s.filter(pred).push(x)
        } else {
            s.filter(pred)
        }),
{
    reveal(Seq::filter);
    assert(s.push(x).drop_last() =~= s);
}

/// Filtering takes no item twice from a sequence that holds none twice,
/// and keeps exactly the items that pass.
pub proof fn lemma_filter_no_duplicates<A>(s: Seq<A>, pred: spec_fn(A) -> bool)
    requires
        s.no_duplicates(),
    ensures
        s.filter(pred).no_duplicates(),
        forall|x: A| #[trigger] s.filter(pred).contains(x) <==> s.contains(x) && pred(x),
    decreases s.len(),
{
    if s.len() == 0 {
        reveal(Seq::filter);
        assert(s.filter(pred) =~= Seq::<A>::empty());
    } else {
        let front = s.drop_last();
        let x = s.last();
        assert(s =~= front.push(x));
        lemma_filter_no_duplicates(front, pred);
        lemma_filter_push(front, x, pred);
        let kept = front.filter(pred);
        let out = s.filter(pred);
        assert(!front.contains(x)) by {
            if front.contains(x) {
                let i: int = front.index_of(x);
                assert(s[i] == s[s.len() - 1]);
            }
        }
        assert forall|y: A| out.contains(y) <==> s.contains(y) && pred(y) by {
            if out.contains(y) {
                let i: int = out.index_of(y);
                if i < kept.len() {
                    assert(kept[i] == y);
                    assert(kept.contains(y));
                    assert(front.contains(y));
                    let j: int = front.index_of(y);
                    assert(front[j] == y);
                    assert(s[j] == y);
                } else {
                    assert(s[s.len() - 1] == y);
                }
            }
            if s.contains(y) && pred(y) {
                let j: int = s.index_of(y);
                if j < front.len() {
                    assert(front[j] == y);
                    assert(front.contains(y));
                    assert(kept.contains(y));
                    let i: int = kept.index_of(y);
                    assert(out[i] == y);
                } else {
                    assert(y == x);
                    assert(out[kept.len() as int] == y);
                }
            }
        }
        assert forall|i: int, j: int| 0 <= i < out.len() && 0 <= j < out.len() && i != j implies out[i]
            != out[j] by {
            if i < kept.len() {
                assert(kept.contains(kept[i]));
            }
            if j < kept.len() {
                assert(kept.contains(kept[j]));
            }
        }
    }
}

/// The texts of `list` in a row, with `sep` between each two neighbours.
pub open spec fn joined(list: Seq<Seq<char>>, sep: Seq<char>) -> Seq<char>
    decreases list.len(),
{
    if list.len() == 0 {
        Seq::empty()
    } else if list.len() == 1 {
        list[0]
    } else {
        joined(list.drop_last(), sep) + sep + list.last()
    }
}

/// Writes the strings of `list` in a row, with `sep` between each two
/// neighbours.
pub fn join(list: &Vec<String>, sep: &str) -> (line: String)
    ensures
        line@ == joined(texts(list@), sep@),
{
    let mut line = String::new();
    let mut i: usize = 0;
    while i < list.len()
        invariant
            i <= list@.len(),
            line@ == joined(texts(list@).take(i as int), sep@),
        decreases list@.len() - i,
    {
        proof {
            let upto = texts(list@).take(i as int + 1);
            assert(upto.drop_last() =~= texts(list@).take(i as int));
            assert(upto.last() == list@[i as int]@);
        }
        if i > 0 {
            line.append(sep);
        }
        line.append(list[i].as_str());
        proof {
            assert(Seq::<char>::empty() + list@[i as int]@ =~= list@[i as int]@);
        }
        i += 1;
    }
    assert(texts(list@).take(list@.len() as int) =~= texts(list@));
    line
}

/// The digit `d` as a character.
pub open spec fn digit_char(d: int) -> char {
    if d == 0 {
        '0'
    } else if d == 1 {
        '1'
    } else if d == 2 {
        '2'
    } else if d == 3 {
        '3'
    } else if d == 4 {
        '4'
    } else if d == 5 {
        '5'
    } else if d == 6 {
        '6'
    } else if d == 7 {
        '7'
    } else if d == 8 {
        '8'
    } else {
        '9'
    }
}

/// The decimal digits of `n`, without leading zeros.
pub open spec fn digits(n: nat) -> Seq<char>
    decreases n,
{
    if n < 10 {
        seq![digit_char(n as int)]
    } else {
        digits(n / 10).push(digit_char((n % 10) as int))
    }
}

/// The number `n` in decimal, with a minus sign before a negative one.
pub open spec fn decimal_text(n: int) -> Seq<char> {
    if n < 0 {
        seq!['-'] + digits((-n) as nat)
    } else {
        digits(n as nat)
    }
}

fn digit_str(d: u64) -> (text: &'static str)
    requires
        d < 10,
    ensures
        text@ == seq![digit_char(d as int)],
{
    proof {
        reveal_strlit("0");
        reveal_strlit("1");
        reveal_strlit("2");
        reveal_strlit("3");
        reveal_strlit("4");
        reveal_strlit("5");
        reveal_strlit("6");
        reveal_strlit("7");
        reveal_strlit("8");
        reveal_strlit("9");
    }
    let text = if d == 0 {
        "0"
    } else if d == 1 {
        "1"
    } else if d == 2 {
        "2"
    } else if d == 3 {
        "3"
    } else if d == 4 {
        "4"
    } else if d == 5 {
        "5"
    } else if d == 6 {
        "6"
    } else if d == 7 {
        "7"
    } else if d == 8 {
        "8"
    } else {
        "9"
    };
    assert(text@ =~= seq![digit_char(d as int)]);
    text
}

/// Writes `n` in decimal.
pub fn decimal_u64(n: u64) -> (text: String)
    ensures
        text@ == decimal_text(n as int),
        text@ == digits(n as nat),
    decreases n,
{
    if n < 10 {
        digit_str(n).to_owned()
    } else {
        let mut text = decimal_u64(n / 10);
        text.append(digit_str(n % 10));
        assert(text@ =~= digits(n as nat));
        text
    }
}

/// Writes `n` in decimal, with a minus sign before a negative one.
pub fn decimal_i64(n: i64) -> (text: String)
    ensures
        text@ == decimal_text(n as int),
{
    if n < 0 {
        let size: u64 = ((-(n + 1)) as u64) + 1;
        proof {
            reveal_strlit("-");
        }
        let mut text = "-".to_owned();
        text.append(decimal_u64(size).as_str());
        assert(text@ =~= decimal_text(n as int));
        text
    } else {
        decimal_u64(n as u64)
    }
}

/// The text with every space replaced by an underscore.
pub open spec fn underscored(text: Seq<char>) -> Seq<char> {
    text.map_values(
        |c: char|
            if c == ' ' {
                '_'
            } else {
                c
            },
    )
}

/// Writes `text` with every space replaced by an underscore.
pub fn underscore_spaces(text: &str) -> (out: String)
    ensures
        out@ == underscored(text@),
{
    let n = text.unicode_len();
    let mut out = String::new();
    let mut i: usize = 0;
    while i < n
        invariant
            n == text@.len(),
            i <= n,
            out@ == underscored(text@.take(i as int)),
        decreases n - i,
    {
        proof {
            reveal_strlit("_");
            assert(text@.take(i as int + 1) =~= text@.take(i as int).push(text@[i as int]));
        }
        if text.get_char(i) == ' ' {
            out.append("_");
        } else {
            out.append(text.substring_char(i, i + 1));
        }
        assert(out@ =~= underscored(text@.take(i as int + 1)));
        i += 1;
    }
    assert(text@.take(n as int) =~= text@);
    out
}

/// What stands behind the last full stop of `text`; all of it where it
/// holds none.
pub open spec fn after_last_dot(text: Seq<char>) -> Seq<char>
    decreases text.len(),
{
    if text.len() == 0 {
        text
    } else if text.last() == '.' {
        Seq::empty()
    } else {
        after_last_dot(text.drop_last()).push(text.last())
    }
}

/// The part of `text` behind its last full stop; all of it where it holds
/// none.
pub fn last_segment(text: &str) -> (tail: &str)
    ensures
        tail@ == after_last_dot(text@),
{
    let n = text.unicode_len();
    let mut start: usize = 0;
    let mut i: usize = 0;
    while i < n
        invariant
            n == text@.len(),
            start <= i <= n,
            after_last_dot(text@.take(i as int)) == text@.subrange(start as int, i as int),
        decreases n - i,
    {
        proof {
            let upto = text@.take(i as int + 1);
            assert(upto.drop_last() =~= text@.take(i as int));
            assert(upto.last() == text@[i as int]);
        }
        if text.get_char(i) == '.' {
            start = i + 1;
        }
        i += 1;
        assert(after_last_dot(text@.take(i as int)) =~= text@.subrange(start as int, i as int));
    }
    assert(text@.take(n as int) =~= text@);
    text.substring_char(start, n)
}

} // verus!
