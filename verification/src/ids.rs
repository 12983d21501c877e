use crate::number::{decimal_digits, parse_digits, parse_number, push_decimal};
use crate::text::{chars_of, find_char, find_pair, first_index_of, first_pair_of, texts};
use vstd::prelude::*;

verus! {

/// The greatest number of ids that one range stands for.
pub const MAX_RANGE: usize = 100;

/// What an id text denotes: a number and whether it carries the mark `c` of
/// the completed group. A text that is no id denotes `(0, false)`, which no
/// task of a renumbered store answers to.
pub open spec fn task_id_of(s: Seq<char>) -> (nat, bool) {
    if s.len() > 0 && s.last() == 'c' && parse_number(s.drop_last(), usize::MAX as nat) is Some {
        (parse_number(s.drop_last(), usize::MAX as nat)->0, true)
    } else if parse_number(s, usize::MAX as nat) is Some {
        (parse_number(s, usize::MAX as nat)->0, false)
    } else {
        (0, false)
    }
}

/// Reads an id as the user writes it: a number, with a trailing `c` for a
/// completed task.
pub fn parse_task_id(id_str: &str) -> (r: (usize, bool))
    ensures
        (r.0 as nat, r.1) == task_id_of(id_str@),
{
    let chars = chars_of(id_str);
    let n = chars.len();
    assert(chars@.subrange(0, n as int) == chars@);
    if n > 0 && chars[n - 1] == 'c' {
        assert(chars@.subrange(0, n - 1) == chars@.drop_last());
        if let Some(id) = parse_digits(&chars, 0, n - 1, usize::MAX as u64) {
            return (id as usize, true);
        }
    }
    if let Some(id) = parse_digits(&chars, 0, n, usize::MAX as u64) {
        return (id as usize, false);
    }
    (0, false)
}

/// Whether an id text carries the mark `c` of the completed group.
pub open spec fn has_mark(s: Seq<char>) -> bool {
    s.len() > 0 && s.last() == 'c'
}

/// An id text without its mark.
pub open spec fn unmarked(s: Seq<char>) -> Seq<char> {
    if has_mark(s) {
        s.drop_last()
    } else {
        s
    }
}

/// The id text of a number in a group.
pub open spec fn id_text(n: nat, marked: bool) -> Seq<char> {
    if marked {
        decimal_digits(n).push('c')
    } else {
        decimal_digits(n)
    }
}

/// The two ends of a range text: what stands before and after its first
/// hyphen or, where it has no hyphen, its first `to`.
pub open spec fn range_ends_of(s: Seq<char>) -> Option<(Seq<char>, Seq<char>)> {
    let dash = first_index_of(s, '-');
    let to = first_pair_of(s, 't', 'o');
    if dash < s.len() {
        Some((s.take(dash), s.skip(dash + 1)))
    } else if to < s.len() {
        Some((s.take(to), s.skip(to + 2)))
    } else {
        None
    }
}

/// The numbers that two ends span, if both are numbers, the first is not
/// the greater, and they span no more than `MAX_RANGE` ids.
pub open spec fn span_between(first: Seq<char>, last: Seq<char>) -> Option<(nat, nat)> {
    match (parse_number(first, usize::MAX as nat), parse_number(last, usize::MAX as nat)) {
        (Some(x), Some(y)) => if x <= y && y - x < MAX_RANGE {
            Some((x, y))
        } else {
            None
        },
        _ => None,
    }
}

/// The first number, the last number and the group of a range text, if it
/// is a range: both ends of one group.
pub open spec fn range_bounds_of(s: Seq<char>) -> Option<(nat, nat, bool)> {
    match range_ends_of(s) {
        Some((first, last)) => if has_mark(first) == has_mark(last) {
            match span_between(unmarked(first), unmarked(last)) {
                Some((x, y)) => Some((x, y, has_mark(first))),
                None => None,
            }
        } else {
            None
        },
        None => None,
    }
}

/// The id texts of the numbers from `x` to `y` in one group.
pub open spec fn id_texts(x: nat, y: nat, marked: bool) -> Seq<Seq<char>> {
    Seq::new((y - x + 1) as nat, |k: int| id_text((x + k) as nat, marked))
}

/// The ids that one id text stands for: those of its range where it is a
/// range, else the text itself.
pub open spec fn id_range_of(s: Seq<char>) -> Seq<Seq<char>> {
    match range_bounds_of(s) {
        Some((x, y, marked)) => id_texts(x, y, marked),
        None => seq![s],
    }
}

/// The ids that a list of id texts stands for, ranges written out.
pub open spec fn expanded(ids: Seq<Seq<char>>) -> Seq<Seq<char>>
    decreases ids.len(),
{
    if ids.len() == 0 {
        Seq::empty()
    } else {
        expanded(ids.drop_last()) + id_range_of(ids.last())
    }
}

/// The two ends of a range of unmarked ids: what stands before and after
/// its `to` or, where it has no `to`, its hyphen; the text must hold that
/// separator once only.
pub open spec fn plain_range_ends_of(s: Seq<char>) -> Option<(Seq<char>, Seq<char>)> {
    let dash = first_index_of(s, '-');
    let to = first_pair_of(s, 't', 'o');
    if to < s.len() {
        if first_pair_of(s.skip(to + 2), 't', 'o') >= s.skip(to + 2).len() {
            Some((s.take(to), s.skip(to + 2)))
        } else {
            None
        }
    } else if dash < s.len() {
        if first_index_of(s.skip(dash + 1), '-') >= s.skip(dash + 1).len() {
            Some((s.take(dash), s.skip(dash + 1)))
        } else {
            None
        }
    } else {
        None
    }
}

/// The ids that a range of unmarked ids stands for, if the text is one.
pub open spec fn plain_range_of(s: Seq<char>) -> Option<Seq<Seq<char>>> {
    match plain_range_ends_of(s) {
        Some((first, last)) => match span_between(first, last) {
            Some((x, y)) => Some(id_texts(x, y, false)),
            None => None,
        },
        None => None,
    }
}

/// The id of a number in a group, as text.
pub fn format_id(n: usize, marked: bool) -> (r: String)
    ensures
        r@ == id_text(n as nat, marked),
{
    let mut out = String::new();
    push_decimal(&mut out, n);
    if marked {
        out.push('c');
    }
    out
}

/// The id texts of the numbers from `x` to `y` in one group.
fn write_range(x: usize, y: usize, marked: bool) -> (r: Vec<String>)
    requires
        x <= y,
    ensures
        texts(r@) == id_texts(x as nat, y as nat, marked),
{
    let mut out: Vec<String> = Vec::new();
    let mut n: usize = x;
    loop
        invariant_except_break
            x <= n <= y,
            out.len() == n - x,
            forall|k: int| 0 <= k < n - x ==> (#[trigger] out[k])@ == id_text((x + k) as nat, marked),
        ensures
            out.len() == y - x + 1,
            forall|k: int|
                0 <= k < y - x + 1 ==> (#[trigger] out[k])@ == id_text((x + k) as nat, marked),
        decreases y - n,
    {
        out.push(format_id(n, marked));
        if n == y {
            break ;
        }
        n += 1;
    }
    assert(texts(out@) =~= id_texts(x as nat, y as nat, marked));
    out
}

/// The numbers that `chars[a..b]` and `chars[c..d]` span.
fn read_span(chars: &Vec<char>, a: usize, b: usize, c: usize, d: usize) -> (r: Option<
    (usize, usize),
>)
    requires
        a <= b <= chars.len(),
        c <= d <= chars.len(),
    ensures
        match r {
            Some((x, y)) => span_between(
                chars@.subrange(a as int, b as int),
                chars@.subrange(c as int, d as int),
            ) == Some((x as nat, y as nat)) && x <= y,
            None => span_between(
                chars@.subrange(a as int, b as int),
                chars@.subrange(c as int, d as int),
            ) is None,
        },
{
    let first = parse_digits(chars, a, b, usize::MAX as u64);
    let last = parse_digits(chars, c, d, usize::MAX as u64);
    match (first, last) {
        (Some(x), Some(y)) => {
            if x <= y && y - x < MAX_RANGE as u64 {
                Some((x as usize, y as usize))
            } else {
                None
            }
        },
        _ => None,
    }
}

/// Writes out the ids that one id text stands for.
///
/// `2-4` and `2to4` stand for `2`, `3`, `4`; `2c-4c` for `2c`, `3c`, `4c`.
/// A text that is no such range, whose ends are of different groups, whose
/// first number is the greater, or that spans more than `MAX_RANGE` ids
/// stands for itself.
pub fn parse_id_range(id_str: &str) -> (r: Vec<String>)
    ensures
        texts(r@) == id_range_of(id_str@),
{
    let chars = chars_of(id_str);
    let n = chars.len();
    let ghost s = id_str@;
    assert(chars@.subrange(0, n as int) == s);
    let dash = find_char(&chars, 0, n, '-');
    let to = find_pair(&chars, 0, n, 't', 'o');
    let (end_first, start_last): (usize, usize) = if dash < n {
        (dash, dash + 1)
    } else if to < n {
        (to, to + 2)
    } else {
        (n, n)
    };
    if end_first < n {
        let ghost first = s.take(end_first as int);
        let ghost last = s.skip(start_last as int);
        assert(range_ends_of(s) == Some((first, last)));
        assert(chars@.subrange(0, end_first as int) == first);
        assert(chars@.subrange(start_last as int, n as int) == last);
        let first_marked = end_first > 0 && chars[end_first - 1] == 'c';
        let last_marked = n > start_last && chars[n - 1] == 'c';
        assert(first_marked == has_mark(first));
        assert(last_marked == has_mark(last));
        if first_marked == last_marked {
            let b: usize = if first_marked {
                (end_first - 1) as usize
            } else {
                end_first
            };
            let d: usize = if last_marked {
                (n - 1) as usize
            } else {
                n
            };
            assert(chars@.subrange(0, b as int) == unmarked(first));
            assert(chars@.subrange(start_last as int, d as int) == unmarked(last));
            if let Some((x, y)) = read_span(&chars, 0, b, start_last, d) {
                return write_range(x, y, first_marked);
            }
        }
    }
    let mut out: Vec<String> = Vec::new();
    out.push(id_str.to_owned());
    assert(texts(out@) =~= seq![s]);
    out
}

/// Writes out the ranges in a list of id texts.
pub fn expand_id_ranges(id_strs: &[String]) -> (r: Vec<String>)
    ensures
        texts(r@) == expanded(texts(id_strs@)),
{
    let ghost ids = texts(id_strs@);
    let mut out: Vec<String> = Vec::new();
    let mut k: usize = 0;
    assert(texts(out@) =~= expanded(ids.take(0)));
    while k < id_strs.len()
        invariant
            k <= id_strs.len(),
            ids == texts(id_strs@),
            texts(out@) == expanded(ids.take(k as int)),
        decreases id_strs.len() - k,
    {
        let mut more = parse_id_range(id_strs[k].as_str());
        let ghost before = texts(out@);
        let ghost added = texts(more@);
        assert(ids.take(k + 1).drop_last() == ids.take(k as int));
        assert(ids.take(k + 1).last() == id_strs[k as int]@);
        out.append(&mut more);
        assert(texts(out@) =~= before + added);
        k += 1;
    }
    assert(ids.take(k as int) == ids);
    out
}

/// Writes out a range of unmarked ids, `2-4` or `2to4`, if the text is one
/// that spans no more than `MAX_RANGE` ids.
pub fn parse_plain_range(id_str: &str) -> (r: Option<Vec<String>>)
    ensures
        match r {
            Some(ids) => plain_range_of(id_str@) == Some(texts(ids@)),
            None => plain_range_of(id_str@) is None,
        },
{
    let chars = chars_of(id_str);
    let n = chars.len();
    let ghost s = id_str@;
    assert(chars@.subrange(0, n as int) == s);
    let dash = find_char(&chars, 0, n, '-');
    let to = find_pair(&chars, 0, n, 't', 'o');
    let (end_first, start_last): (usize, usize) = if to < n {
        assert(chars@.subrange(to + 2, n as int) == s.skip(to + 2));
        if find_pair(&chars, to + 2, n, 't', 'o') < n - (to + 2) {
            return None;
        }
        (to, to + 2)
    } else if dash < n {
        assert(chars@.subrange(dash + 1, n as int) == s.skip(dash + 1));
        if find_char(&chars, dash + 1, n, '-') < n - (dash + 1) {
            return None;
        }
        (dash, dash + 1)
    } else {
        return None;
    };
    assert(chars@.subrange(0, end_first as int) == s.take(end_first as int));
    assert(chars@.subrange(start_last as int, n as int) == s.skip(start_last as int));
    match read_span(&chars, 0, end_first, start_last, n) {
        Some((x, y)) => Some(write_range(x, y, false)),
        None => None,
    }
}

} // verus!
