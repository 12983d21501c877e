use vstd::prelude::*;

verus! {

/// `String::push` of std appends one character to the string and changes
/// nothing else of it.
pub assume_specification[ String::push ](s: &mut String, ch: char)
    ensures
        final(s)@ == old(s)@.push(ch),
;

/// `String::pop` of std removes the last character of the string and
/// returns it, or returns `None` and leaves an empty string empty.
pub assume_specification[ String::pop ](s: &mut String) -> (r: Option<char>)
    ensures
        old(s)@.len() > 0 ==> r == Some(old(s)@.last()) && final(s)@ == old(s)@.drop_last(),
        old(s)@.len() == 0 ==> r is None && final(s)@ == old(s)@,
;

/// Whether std's `char::is_whitespace` holds of a character: whether it has
/// the Unicode property White_Space.
pub uninterp spec fn is_white_space(c: char) -> bool;

/// `char::is_whitespace` of std tells whether the character has the Unicode
/// property White_Space; its answer depends on the character alone.
pub assume_specification[ char::is_whitespace ](c: char) -> (r: bool)
    ensures
        r == is_white_space(c),
;

/// What std's `str::to_lowercase` makes of a text.
pub uninterp spec fn lowercase(s: Seq<char>) -> Seq<char>;

/// `str::to_lowercase` of std returns the lowercase equivalent of the text
/// as Unicode defines it; the result depends on the text alone.
#[verifier::external_body]
pub(crate) fn to_lowercase(s: &str) -> (r: String)
    ensures
        r@ == lowercase(s@),
{
    s.to_lowercase()
}

/// The characters of a string, one by one.
pub fn chars_of(s: &str) -> (r: Vec<char>)
    ensures
        r@ == s@,
{
    let mut out: Vec<char> = Vec::new();
    for c in it: s.chars()
        invariant
            out@ == it.seq().take(it.index() as int),
    {
        out.push(c);
    }
    out
}

/// The string made of the characters `chars[from..to]`.
pub fn string_of(chars: &Vec<char>, from: usize, to: usize) -> (r: String)
    requires
        from <= to <= chars.len(),
    ensures
        r@ == chars@.subrange(from as int, to as int),
{
    let mut out = String::new();
    let mut i: usize = from;
    while i < to
        invariant
            from <= i <= to <= chars.len(),
            out@ == chars@.subrange(from as int, i as int),
        decreases to - i,
    {
        out.push(chars[i]);
        i += 1;
    }
    out
}

/// Whether two texts are the same.
pub fn str_eq(a: &str, b: &str) -> (r: bool)
    ensures
        r == (a@ == b@),
{
    let x = chars_of(a);
    let y = chars_of(b);
    if x.len() != y.len() {
        return false;
    }
    let mut i: usize = 0;
    while i < x.len()
        invariant
            i <= x.len(),
            x.len() == y.len(),
            x@ == a@,
            y@ == b@,
            x@.take(i as int) == y@.take(i as int),
        decreases x.len() - i,
    {
        if x[i] != y[i] {
            return false;
        }
        assert(x@.take(i + 1) == x@.take(i as int).push(x@[i as int]));
        assert(y@.take(i + 1) == y@.take(i as int).push(y@[i as int]));
        i += 1;
    }
    assert(x@.take(i as int) == x@ && y@.take(i as int) == y@);
    true
}

/// The position of the first `c` in a text, or the length of the text where
/// it holds none.
pub open spec fn first_index_of(s: Seq<char>, c: char) -> int
    decreases s.len(),
{
    if s.len() == 0 || s[0] == c {
        0
    } else {
        1 + first_index_of(s.drop_first(), c)
    }
}

/// The position of the first `c` among `chars[from..to]`, counted from
/// `from`, or `to - from` where there is none.
pub fn find_char(chars: &Vec<char>, from: usize, to: usize, c: char) -> (r: usize)
    requires
        from <= to <= chars.len(),
    ensures
        r == first_index_of(chars@.subrange(from as int, to as int), c),
        r <= to - from,
{
    let ghost s = chars@.subrange(from as int, to as int);
    let mut i: usize = from;
    assert(s.skip(0) == s);
    while i < to
        invariant
            from <= i <= to <= chars.len(),
            s == chars@.subrange(from as int, to as int),
            first_index_of(s, c) == (i - from) + first_index_of(s.skip(i - from), c),
        decreases to - i,
    {
        let ghost rest = s.skip(i - from);
        assert(rest[0] == chars@[i as int]);
        if chars[i] == c {
            return i - from;
        }
        assert(rest.drop_first() == s.skip(i + 1 - from));
        i += 1;
    }
    assert(s.skip(to - from).len() == 0);
    to - from
}

/// The position of the first `a` that is followed by `b`, or the length of
/// the text where there is none.
pub open spec fn first_pair_of(s: Seq<char>, a: char, b: char) -> int
    decreases s.len(),
{
    if s.len() < 2 {
        s.len() as int
    } else if s[0] == a && s[1] == b {
        0
    } else {
        1 + first_pair_of(s.drop_first(), a, b)
    }
}

/// The position of the first `a` followed by `b` among `chars[from..to]`,
/// counted from `from`, or `to - from` where there is none.
pub fn find_pair(chars: &Vec<char>, from: usize, to: usize, a: char, b: char) -> (r: usize)
    requires
        from <= to <= chars.len(),
    ensures
        r == first_pair_of(chars@.subrange(from as int, to as int), a, b),
        r <= to - from,
        r < to - from ==> r + 2 <= to - from,
{
    let ghost s = chars@.subrange(from as int, to as int);
    let mut i: usize = from;
    assert(s.skip(0) == s);
    while i < to && to - i >= 2
        invariant
            from <= i <= to <= chars.len(),
            s == chars@.subrange(from as int, to as int),
            first_pair_of(s, a, b) == (i - from) + first_pair_of(s.skip(i - from), a, b),
        decreases to - i,
    {
        let ghost rest = s.skip(i - from);
        assert(rest[0] == chars@[i as int]);
        assert(rest[1] == chars@[i + 1]);
        if chars[i] == a && chars[i + 1] == b {
            return i - from;
        }
        assert(rest.drop_first() == s.skip(i + 1 - from));
        i += 1;
    }
    assert(s.skip(i - from).len() == to - i);
    to - from
}

/// The number of white-space characters that a text starts with.
pub open spec fn leading_space(s: Seq<char>) -> int
    decreases s.len(),
{
    if s.len() > 0 && is_white_space(s[0]) {
        1 + leading_space(s.drop_first())
    } else {
        0
    }
}

/// The number of white-space characters that a text ends with.
pub open spec fn trailing_space(s: Seq<char>) -> int
    decreases s.len(),
{
    if s.len() > 0 && is_white_space(s.last()) {
        1 + trailing_space(s.drop_last())
    } else {
        0
    }
}

/// A text without the white space at its two ends.
pub open spec fn trimmed(s: Seq<char>) -> Seq<char> {
    let rest = s.skip(leading_space(s));
    rest.take(rest.len() - trailing_space(rest))
}

/// The bounds of `chars[from..to]` without the white space at its two ends.
pub fn trim_bounds(chars: &Vec<char>, from: usize, to: usize) -> (r: (usize, usize))
    requires
        from <= to <= chars.len(),
    ensures
        from <= r.0 <= r.1 <= to,
        r.0 == from + leading_space(chars@.subrange(from as int, to as int)),
        r.1 == to - trailing_space(chars@.subrange(r.0 as int, to as int)),
        chars@.subrange(r.0 as int, r.1 as int) == trimmed(chars@.subrange(from as int, to as int)),
{
    let ghost s = chars@.subrange(from as int, to as int);
    let mut a: usize = from;
    assert(s.skip(0) == s);
    while a < to && chars[a].is_whitespace()
        invariant
            from <= a <= to <= chars.len(),
            s == chars@.subrange(from as int, to as int),
            leading_space(s) == (a - from) + leading_space(s.skip(a - from)),
        decreases to - a,
    {
        let ghost rest = s.skip(a - from);
        assert(rest[0] == chars@[a as int]);
        assert(rest.drop_first() == s.skip(a + 1 - from));
        a += 1;
    }
    proof {
        let rest = s.skip(a - from);
        if a < to {
            assert(rest[0] == chars@[a as int]);
        }
        assert(leading_space(rest) == 0);
    }
    let ghost rest = s.skip(a - from);
    assert(rest == chars@.subrange(a as int, to as int));
    let mut b: usize = to;
    assert(rest.take(rest.len() as int) == rest);
    while b > a && chars[b - 1].is_whitespace()
        invariant
            from <= a <= b <= to <= chars.len(),
            rest == chars@.subrange(a as int, to as int),
            trailing_space(rest) == (to - b) + trailing_space(rest.take(b - a)),
        decreases b - a,
    {
        let ghost head = rest.take(b - a);
        assert(head.last() == chars@[b - 1]);
        assert(head.drop_last() == rest.take(b - 1 - a));
        b -= 1;
    }
    proof {
        let head = rest.take(b - a);
        if b > a {
            assert(head.last() == chars@[b - 1]);
        }
        assert(trailing_space(head) == 0);
        assert(rest.take(rest.len() - trailing_space(rest)) == chars@.subrange(a as int, b as int));
    }
    (a, b)
}

/// The words of `s` behind the word `current` that is being read: `current`
/// ends at the next white space or at the end of the text.
pub open spec fn words_from(s: Seq<char>, current: Seq<char>) -> Seq<Seq<char>>
    decreases s.len(),
{
    let done = if current.len() > 0 {
        seq![current]
    } else {
        Seq::empty()
    };
    if s.len() == 0 {
        done
    } else if is_white_space(s[0]) {
        done + words_from(s.drop_first(), Seq::empty())
    } else {
        words_from(s.drop_first(), current.push(s[0]))
    }
}

/// The words of a text: its runs of characters between white space.
pub open spec fn words_of(s: Seq<char>) -> Seq<Seq<char>> {
    words_from(s, Seq::empty())
}

/// Words put together with one space between each two.
pub open spec fn joined(words: Seq<Seq<char>>) -> Seq<char>
    decreases words.len(),
{
    if words.len() == 0 {
        Seq::empty()
    } else if words.len() == 1 {
        words[0]
    } else {
        joined(words.drop_last()) + seq![' '] + words.last()
    }
}

/// The texts of a list of strings.
pub open spec fn texts(list: Seq<String>) -> Seq<Seq<char>> {
    list.map_values(|s: String| s@)
}

/// Splits a text into its words, as `str::split_whitespace` of std does.
pub fn split_words(s: &str) -> (r: Vec<String>)
    ensures
        texts(r@) == words_of(s@),
{
    let chars = chars_of(s);
    let mut out: Vec<String> = Vec::new();
    let mut current = String::new();
    let mut length: usize = 0;
    let mut i: usize = 0;
    assert(chars@.skip(0) == chars@);
    assert(texts(out@) =~= Seq::<Seq<char>>::empty());
    while i < chars.len()
        invariant
            i <= chars.len(),
            chars@ == s@,
            length == current@.len(),
            length <= i,
            words_of(s@) == texts(out@) + words_from(chars@.skip(i as int), current@),
        decreases chars.len() - i,
    {
        let ghost rest = chars@.skip(i as int);
        let ghost before = texts(out@);
        assert(rest[0] == chars@[i as int]);
        assert(rest.drop_first() == chars@.skip(i + 1));
        if chars[i].is_whitespace() {
            let ghost tail = words_from(rest.drop_first(), Seq::empty());
            let ghost word = current@;
            if length > 0 {
                out.push(current);
                assert(texts(out@) =~= before + seq![word]);
                assert(before + (seq![word] + tail) =~= (before + seq![word]) + tail);
                current = String::new();
                length = 0;
            } else {
                assert(word =~= Seq::<char>::empty());
                assert(before + (Seq::<Seq<char>>::empty() + tail) =~= before + tail);
            }
        } else {
            current.push(chars[i]);
            length += 1;
        }
        i += 1;
    }
    if length > 0 {
        let ghost before = texts(out@);
        out.push(current);
        assert(texts(out@) =~= before + seq![current@]);
    }
    out
}

/// Puts the words `words[from..to]` together with one space between each
/// two.
pub fn join_words(words: &Vec<String>, from: usize, to: usize) -> (r: String)
    requires
        from <= to <= words.len(),
    ensures
        r@ == joined(texts(words@).subrange(from as int, to as int)),
{
    let ghost all = texts(words@);
    let mut out = String::new();
    let mut k: usize = from;
    assert(all.subrange(from as int, from as int) =~= Seq::<Seq<char>>::empty());
    while k < to
        invariant
            from <= k <= to <= words.len(),
            all == texts(words@),
            out@ == joined(all.subrange(from as int, k as int)),
        decreases to - k,
    {
        let ghost next = all.subrange(from as int, k + 1);
        assert(next.drop_last() == all.subrange(from as int, k as int));
        assert(next.last() == words@[k as int]@);
        if k > from {
            out.push(' ');
        }
        out.append(words[k].as_str());
        k += 1;
    }
    out
}

/// The columns that a character takes on the screen: one for ASCII, two for
/// every other character.
pub open spec fn char_width(c: char) -> nat {
    if c <= '\u{7f}' {
        1
    } else {
        2
    }
}

/// The columns that a text takes on the screen.
pub open spec fn display_width_of(s: Seq<char>) -> nat
    decreases s.len(),
{
    if s.len() == 0 {
        0
    } else {
        display_width_of(s.drop_last()) + char_width(s.last())
    }
}

/// How many characters from the start of a text fit into `max` columns.
pub open spec fn fitting(s: Seq<char>, max: int) -> nat
    decreases s.len(),
{
    if s.len() == 0 || char_width(s[0]) > max {
        0
    } else {
        1 + fitting(s.drop_first(), max - char_width(s[0]))
    }
}

/// A text cut to the characters that fit into `max` columns, with three dots
/// in place of what was cut; a text that fits is left as it is.
pub open spec fn truncated(s: Seq<char>, max: nat) -> Seq<char> {
    if fitting(s, max as int) < s.len() {
        s.take(fitting(s, max as int) as int) + seq!['.', '.', '.']
    } else {
        s
    }
}

/// A run of `n` spaces.
pub open spec fn spaces(n: nat) -> Seq<char> {
    Seq::new(n, |i: int| ' ')
}

/// A text followed by the spaces that bring it to `width` columns; a text
/// that is as wide or wider is left as it is.
pub open spec fn padded(s: Seq<char>, width: nat) -> Seq<char> {
    if display_width_of(s) >= width {
        s
    } else {
        s + spaces((width - display_width_of(s)) as nat)
    }
}

/// A text followed by the spaces that bring it to `width` characters; a
/// text that is as long or longer is left as it is.
pub open spec fn padded_chars(s: Seq<char>, width: nat) -> Seq<char> {
    if s.len() >= width {
        s
    } else {
        s + spaces((width - s.len()) as nat)
    }
}

/// The columns that one character takes on the screen.
pub fn width_of_char(c: char) -> (r: usize)
    ensures
        r == char_width(c),
{
    if c <= '\u{7f}' {
        1
    } else {
        2
    }
}

/// The columns that a text takes on the screen, or `usize::MAX` where they
/// are more than that.
pub fn display_width(s: &str) -> (r: usize)
    ensures
        r == if display_width_of(s@) <= usize::MAX {
            display_width_of(s@)
        } else {
            usize::MAX as nat
        },
{
    let chars = chars_of(s);
    let mut width: usize = 0;
    let mut i: usize = 0;
    while i < chars.len()
        invariant
            i <= chars.len(),
            chars@ == s@,
            width == if display_width_of(chars@.take(i as int)) <= usize::MAX {
                display_width_of(chars@.take(i as int))
            } else {
                usize::MAX as nat
            },
        decreases chars.len() - i,
    {
        let w = width_of_char(chars[i]);
        assert(chars@.take(i + 1).drop_last() == chars@.take(i as int));
        assert(chars@.take(i + 1).last() == chars@[i as int]);
        width = if width > usize::MAX - w {
            usize::MAX
        } else {
            width + w
        };
        i += 1;
    }
    assert(chars@.take(i as int) == chars@);
    width
}

/// Appends `n` spaces to `out`.
pub fn push_spaces(out: &mut String, n: usize)
    ensures
        final(out)@ == old(out)@ + spaces(n as nat),
{
    let mut i: usize = 0;
    assert(out@ =~= old(out)@ + spaces(0));
    while i < n
        invariant
            i <= n,
            out@ == old(out)@ + spaces(i as nat),
        decreases n - i,
    {
        out.push(' ');
        assert(out@ =~= old(out)@ + spaces((i + 1) as nat));
        i += 1;
    }
}

/// Cuts a text to the characters that fit into `max_width` columns and
/// marks the cut with three dots.
pub fn truncate_str(s: &str, max_width: usize) -> (r: String)
    ensures
        r@ == truncated(s@, max_width as nat),
{
    let chars = chars_of(s);
    let mut width: usize = 0;
    let mut end: usize = 0;
    assert(chars@.skip(0) == chars@);
    while end < chars.len()
        invariant_except_break
            width <= max_width,
            fitting(s@, max_width as int) == end + fitting(chars@.skip(end as int), max_width - width),
        invariant
            end <= chars.len(),
            chars@ == s@,
        ensures
            fitting(s@, max_width as int) == end,
        decreases chars.len() - end,
    {
        let w = width_of_char(chars[end]);
        let ghost rest = chars@.skip(end as int);
        assert(rest[0] == chars@[end as int]);
        if w > max_width - width {
            break ;
        }
        assert(rest.drop_first() == chars@.skip(end + 1));
        width += w;
        end += 1;
    }
    if end < chars.len() {
        let mut out = string_of(&chars, 0, end);
        assert(chars@.subrange(0, end as int) == s@.take(end as int));
        out.push('.');
        out.push('.');
        out.push('.');
        assert(out@ =~= s@.take(end as int) + seq!['.', '.', '.']);
        out
    } else {
        s.to_owned()
    }
}

/// Brings a text to `width` columns by adding spaces at its end; a text
/// that is as wide or wider is returned as it is.
pub fn fixed_width_string(s: &str, width: usize) -> (r: String)
    ensures
        r@ == padded(s@, width as nat),
{
    let actual_width = display_width(s);
    let mut out = s.to_owned();
    if actual_width < width {
        push_spaces(&mut out, width - actual_width);
    }
    out
}

/// The number of characters of a text.
pub fn char_count(s: &str) -> (r: usize)
    ensures
        r == s@.len(),
{
    s.unicode_len()
}

/// Brings a text to `width` characters by adding spaces at its end; a text
/// that is as long or longer is returned as it is.
pub fn pad_right(s: &str, width: usize) -> (r: String)
    ensures
        r@ == padded_chars(s@, width as nat),
{
    let n = char_count(s);
    let mut out = s.to_owned();
    if n < width {
        push_spaces(&mut out, width - n);
    }
    out
}

} // verus!
