//! Character-level text helpers.
//!
//! Strings are modelled as `Seq<char>`; every helper is specified on that
//! model and works on `Vec<char>` buffers, which are obtained from and turned
//! back into strings at the edges.

use vstd::prelude::*;

verus! {

broadcast use vstd::string::group_string_axioms;

/// `String::push` of the standard library appends one character at the end
/// of the string and leaves the characters before it as they were.
pub assume_specification[ String::push ](s: &mut String, c: char)
    ensures
        final(s)@ == old(s)@.push(c),
;

/// Does `s` begin with `prefix`?
pub open spec fn starts_with(s: Seq<char>, prefix: Seq<char>) -> bool {
    prefix.len() <= s.len() && s.take(prefix.len() as int) == prefix
}

/// Does `s` end with `suffix`?
pub open spec fn ends_with(s: Seq<char>, suffix: Seq<char>) -> bool {
    suffix.len() <= s.len() && s.skip(s.len() - suffix.len()) == suffix
}

/// The characters that Unicode gives the property `White_Space`.
pub open spec fn is_whitespace(c: char) -> bool {
    let n = c as u32;
    ||| 0x09 <= n <= 0x0d
    ||| n == 0x20
    ||| n == 0x85
    ||| n == 0xa0
    ||| n == 0x1680
    ||| 0x2000 <= n <= 0x200a
    ||| n == 0x2028
    ||| n == 0x2029
    ||| n == 0x202f
    ||| n == 0x205f
    ||| n == 0x3000
}

/// `s` without its leading white space.
pub open spec fn trim_start(s: Seq<char>) -> Seq<char>
    decreases s.len(),
{
    if s.len() > 0 && is_whitespace(s[0]) {
        trim_start(s.drop_first())
    } else {
        s
    }
}

/// `s` without its trailing white space.
pub open spec fn trim_end(s: Seq<char>) -> Seq<char>
    decreases s.len(),
{
    if s.len() > 0 && is_whitespace(s.last()) {
        trim_end(s.drop_last())
    } else {
        s
    }
}

/// `s` without leading and trailing white space.
pub open spec fn trim(s: Seq<char>) -> Seq<char> {
    trim_end(trim_start(s))
}

/// `s` without the run of `c` at its start.
pub open spec fn trim_start_char(s: Seq<char>, c: char) -> Seq<char>
    decreases s.len(),
{
    if s.len() > 0 && s[0] == c {
        trim_start_char(s.drop_first(), c)
    } else {
        s
    }
}

/// `s` without the run of `c` at its end.
pub open spec fn trim_end_char(s: Seq<char>, c: char) -> Seq<char>
    decreases s.len(),
{
    if s.len() > 0 && s.last() == c {
        trim_end_char(s.drop_last(), c)
    } else {
        s
    }
}

/// `s` after `prefix` has been taken off its start as often as it stands there.
pub open spec fn strip_repeated_prefix(s: Seq<char>, prefix: Seq<char>) -> Seq<char>
    decreases s.len(),
{
    if prefix.len() > 0 && starts_with(s, prefix) {
        strip_repeated_prefix(s.skip(prefix.len() as int), prefix)
    } else {
        s
    }
}

/// The position of the first `c` in `s`, or the length of `s` where it has none.
pub open spec fn first_index_of(s: Seq<char>, c: char) -> int
    decreases s.len(),
{
    if s.len() == 0 || s[0] == c {
        0
    } else {
        1 + first_index_of(s.drop_first(), c)
    }
}

/// What follows the last `sep` in `s`; all of `s` where it has none.
pub open spec fn last_segment(s: Seq<char>, sep: char) -> Seq<char>
    decreases s.len(),
{
    if s.len() == 0 || s.last() == sep {
        Seq::empty()
    } else {
        last_segment(s.drop_last(), sep).push(s.last())
    }
}

/// `s` with every `from` replaced by `to`.
pub open spec fn replace_char(s: Seq<char>, from: char, to: char) -> Seq<char> {
    Seq::new(s.len(), |i: int| if s[i] == from { to } else { s[i] })
}

/// The character of one decimal digit.
pub open spec fn digit_char(d: nat) -> char {
    if d == 0 {
        '0'
    } else if d == 1 {
        '1'
    } else if d == 2 {
        '2'
    } else if d == 3 {
        '3'
    } else if d == 4 {
        '4'
    } else if d == 5 {
        '5'
    } else if d == 6 {
        '6'
    } else if d == 7 {
        '7'
    } else if d == 8 {
        '8'
    } else {
        '9'
    }
}

/// The decimal notation of `n`, without leading zeros.
pub open spec fn decimal(n: nat) -> Seq<char>
    decreases n,
{
    if n < 10 {
        seq![digit_char(n)]
    } else {
        decimal(n / 10).push(digit_char(n % 10))
    }
}

/// Does `needle` stand in `s` at the place `at`?
pub open spec fn occurs_at(s: Seq<char>, needle: Seq<char>, at: int) -> bool {
    0 <= at && at + needle.len() <= s.len() && s.subrange(at, at + needle.len()) == needle
}

/// `last_segment` yields a tail of `s` that holds no separator and stands
/// either at the start of `s` or right behind one.
pub proof fn lemma_last_segment(s: Seq<char>, sep: char)
    ensures
        last_segment(s, sep).len() <= s.len(),
        last_segment(s, sep) == s.skip(s.len() - last_segment(s, sep).len()),
        !last_segment(s, sep).contains(sep),
        last_segment(s, sep).len() < s.len() ==> s[s.len() - last_segment(s, sep).len() - 1]
            == sep,
    decreases s.len(),
{
    if s.len() == 0 || s.last() == sep {
        assert(last_segment(s, sep) =~= s.skip(s.len() as int));
    } else {
        let t = s.drop_last();
        let r = last_segment(t, sep);
        lemma_last_segment(t, sep);
        assert(r.push(s.last()) =~= s.skip(s.len() - r.len() - 1));
        assert forall|i: int| 0 <= i < r.len() + 1 implies r.push(s.last())[i] != sep by {
            if i < r.len() {
                assert(r.contains(r[i]));
            }
        }
    }
}

/// Pushing an element onto a vector pushes its model onto the vector's model.
pub proof fn lemma_push_deep_view<T: DeepView>(before: Vec<T>, after: Vec<T>, x: T)
    requires
        after@ == before@.push(x),
    ensures
        after.deep_view() == before.deep_view().push(x.deep_view()),
{
    assert(after.deep_view().len() == before.deep_view().len() + 1);
    assert forall|i: int| 0 <= i < after.deep_view().len() implies after.deep_view()[i]
        == before.deep_view().push(x.deep_view())[i] by {
        if i < before@.len() {
            assert(after@[i] == before@[i]);
        } else {
            assert(after@[i] == x);
        }
    }
    assert(after.deep_view() =~= before.deep_view().push(x.deep_view()));
}

/// The characters of a string slice, in order.
pub fn chars_of(s: &str) -> (r: Vec<char>)
    ensures
        r@ == s@,
{
    let mut out: Vec<char> = Vec::new();
    for c in it: s.chars()
        invariant
            it.seq() == s@,
            out@ == it.seq().take(it.index() as int),
    {
        out.push(c);
    }
    out
}

/// The string made of the characters `chars[from..to]`.
pub fn string_of(chars: &Vec<char>, from: usize, to: usize) -> (r: String)
    requires
        from <= to <= chars.len(),
    ensures
        r@ == chars@.subrange(from as int, to as int),
{
    let mut out = String::new();
    let mut i: usize = from;
    while i < to
        invariant
            from <= i <= to <= chars.len(),
            out@ == chars@.subrange(from as int, i as int),
        decreases to - i,
    {
        out.push(chars[i]);
        i += 1;
    }
    out
}

/// Tells white space from other characters.
pub fn char_is_whitespace(c: char) -> (r: bool)
    ensures
        r == is_whitespace(c),
{
    let n: u32 = c as u32;
    (0x09 <= n && n <= 0x0d) || n == 0x20 || n == 0x85 || n == 0xa0 || n == 0x1680 || (0x2000 <= n
        && n <= 0x200a) || n == 0x2028 || n == 0x2029 || n == 0x202f || n == 0x205f || n == 0x3000
}

/// Does `chars[from..to]` begin with `prefix`?
pub fn range_starts_with(chars: &Vec<char>, from: usize, to: usize, prefix: &Vec<char>) -> (r:
    bool)
    requires
        from <= to <= chars.len(),
    ensures
        r == starts_with(chars@.subrange(from as int, to as int), prefix@),
{
    let ghost s = chars@.subrange(from as int, to as int);
    if prefix.len() > to - from {
        return false;
    }
    let mut i: usize = 0;
    while i < prefix.len()
        invariant
            from <= to <= chars.len(),
            prefix.len() <= to - from,
            i <= prefix.len(),
            s == chars@.subrange(from as int, to as int),
            s.take(i as int) == prefix@.take(i as int),
        decreases prefix.len() - i,
    {
        if chars[from + i] != prefix[i] {
            assert(s.take(prefix.len() as int)[i as int] != prefix@[i as int]);
            return false;
        }
        assert(s.take(i + 1) =~= s.take(i as int).push(s[i as int]));
        assert(prefix@.take(i + 1) =~= prefix@.take(i as int).push(prefix@[i as int]));
        i += 1;
    }
    assert(prefix@.take(prefix.len() as int) =~= prefix@);
    true
}

/// Does `s` end with `suffix`?
pub fn str_ends_with(s: &str, suffix: &str) -> (r: bool)
    ensures
        r == ends_with(s@, suffix@),
{
    let text = chars_of(s);
    let tail = chars_of(suffix);
    if tail.len() > text.len() {
        return false;
    }
    let start: usize = text.len() - tail.len();
    let r = range_starts_with(&text, start, text.len(), &tail);
    proof {
        let t = text@.subrange(start as int, text.len() as int);
        assert(t =~= s@.skip(s@.len() - suffix@.len()));
        assert(t.take(tail.len() as int) =~= t);
    }
    r
}

/// The bounds of `chars[from..to]` without the white space at its two ends.
pub fn trim_range(chars: &Vec<char>, from: usize, to: usize) -> (r: (usize, usize))
    requires
        from <= to <= chars.len(),
    ensures
        from <= r.0 <= r.1 <= to,
        chars@.subrange(r.0 as int, r.1 as int) == trim(chars@.subrange(from as int, to as int)),
{
    let mut a: usize = from;
    while a < to && char_is_whitespace(chars[a])
        invariant
            from <= a <= to <= chars.len(),
            trim_start(chars@.subrange(from as int, to as int)) == trim_start(
                chars@.subrange(a as int, to as int),
            ),
        decreases to - a,
    {
        assert(chars@.subrange(a as int, to as int).drop_first() =~= chars@.subrange(
            a + 1,
            to as int,
        ));
        a += 1;
    }
    let mut b: usize = to;
    while a < b && char_is_whitespace(chars[b - 1])
        invariant
            a <= b <= to <= chars.len(),
            trim_end(chars@.subrange(a as int, to as int)) == trim_end(
                chars@.subrange(a as int, b as int),
            ),
        decreases b - a,
    {
        assert(chars@.subrange(a as int, b as int).drop_last() =~= chars@.subrange(
            a as int,
            b - 1,
        ));
        b -= 1;
    }
    (a, b)
}

/// Where `chars[from..to]` starts once the run of `c` at its start is left out.
pub fn skip_leading(chars: &Vec<char>, from: usize, to: usize, c: char) -> (a: usize)
    requires
        from <= to <= chars.len(),
    ensures
        from <= a <= to,
        chars@.subrange(a as int, to as int) == trim_start_char(
            chars@.subrange(from as int, to as int),
            c,
        ),
{
    let mut a: usize = from;
    while a < to && chars[a] == c
        invariant
            from <= a <= to <= chars.len(),
            trim_start_char(chars@.subrange(from as int, to as int), c) == trim_start_char(
                chars@.subrange(a as int, to as int),
                c,
            ),
        decreases to - a,
    {
        assert(chars@.subrange(a as int, to as int).drop_first() =~= chars@.subrange(
            a + 1,
            to as int,
        ));
        a += 1;
    }
    a
}

/// Where `chars[from..to]` ends once the run of `c` at its end is left out.
pub fn skip_trailing(chars: &Vec<char>, from: usize, to: usize, c: char) -> (b: usize)
    requires
        from <= to <= chars.len(),
    ensures
        from <= b <= to,
        chars@.subrange(from as int, b as int) == trim_end_char(
            chars@.subrange(from as int, to as int),
            c,
        ),
{
    let mut b: usize = to;
    while from < b && chars[b - 1] == c
        invariant
            from <= b <= to <= chars.len(),
            trim_end_char(chars@.subrange(from as int, to as int), c) == trim_end_char(
                chars@.subrange(from as int, b as int),
                c,
            ),
        decreases b - from,
    {
        assert(chars@.subrange(from as int, b as int).drop_last() =~= chars@.subrange(
            from as int,
            b - 1,
        ));
        b -= 1;
    }
    b
}

/// Where `chars[from..to]` starts once every leading copy of `prefix` is left out.
pub fn skip_repeated_prefix(chars: &Vec<char>, from: usize, to: usize, prefix: &Vec<char>) -> (a:
    usize)
    requires
        from <= to <= chars.len(),
    ensures
        from <= a <= to,
        chars@.subrange(a as int, to as int) == strip_repeated_prefix(
            chars@.subrange(from as int, to as int),
            prefix@,
        ),
{
    let mut a: usize = from;
    if prefix.len() == 0 {
        return a;
    }
    while range_starts_with(chars, a, to, prefix)
        invariant
            from <= a <= to <= chars.len(),
            prefix.len() > 0,
            strip_repeated_prefix(chars@.subrange(from as int, to as int), prefix@)
                == strip_repeated_prefix(chars@.subrange(a as int, to as int), prefix@),
        decreases to - a,
    {
        assert(chars@.subrange(a as int, to as int).skip(prefix.len() as int) =~= chars@.subrange(
            a + prefix.len(),
            to as int,
        ));
        a += prefix.len();
    }
    a
}

/// The position of the first `c` in `chars[from..to]`, or `to` where it has none.
pub fn find_char(chars: &Vec<char>, from: usize, to: usize, c: char) -> (i: usize)
    requires
        from <= to <= chars.len(),
    ensures
        from <= i <= to,
        i - from == first_index_of(chars@.subrange(from as int, to as int), c),
{
    let mut i: usize = from;
    while i < to && chars[i] != c
        invariant
            from <= i <= to <= chars.len(),
            first_index_of(chars@.subrange(from as int, to as int), c) == (i - from)
                + first_index_of(chars@.subrange(i as int, to as int), c),
        decreases to - i,
    {
        assert(chars@.subrange(i as int, to as int).drop_first() =~= chars@.subrange(
            i + 1,
            to as int,
        ));
        i += 1;
    }
    i
}

/// Where the last segment of `chars` starts, when `sep` parts the segments.
pub fn last_segment_start(chars: &Vec<char>, sep: char) -> (i: usize)
    ensures
        i <= chars.len(),
        chars@.skip(i as int) == last_segment(chars@, sep),
{
    let mut i: usize = chars.len();
    assert(chars@.take(i as int) =~= chars@);
    assert(last_segment(chars@, sep) + chars@.skip(i as int) =~= last_segment(chars@, sep));
    while i > 0 && chars[i - 1] != sep
        invariant
            i <= chars.len(),
            last_segment(chars@, sep) == last_segment(chars@.take(i as int), sep) + chars@.skip(
                i as int,
            ),
        decreases i,
    {
        assert(chars@.take(i as int).drop_last() =~= chars@.take(i - 1));
        assert(last_segment(chars@.take(i - 1), sep).push(chars@[i - 1]) + chars@.skip(i as int)
            =~= last_segment(chars@.take(i - 1), sep) + chars@.skip(i - 1));
        i -= 1;
    }
    assert(last_segment(chars@.take(i as int), sep) =~= Seq::<char>::empty());
    assert(Seq::<char>::empty() + chars@.skip(i as int) =~= chars@.skip(i as int));
    i
}

/// The text with every `from` replaced by `to`.
pub fn replace_in(s: &str, from: char, to: char) -> (r: String)
    ensures
        r@ == replace_char(s@, from, to),
{
    let chars = chars_of(s);
    let mut out = String::new();
    let mut i: usize = 0;
    while i < chars.len()
        invariant
            i <= chars.len(),
            chars@ == s@,
            out@ == replace_char(s@, from, to).take(i as int),
        decreases chars.len() - i,
    {
        let c = chars[i];
        out.push(if c == from { to } else { c });
        assert(replace_char(s@, from, to).take(i + 1) =~= replace_char(s@, from, to).take(
            i as int,
        ).push(replace_char(s@, from, to)[i as int]));
        i += 1;
    }
    assert(replace_char(s@, from, to).take(chars.len() as int) =~= replace_char(s@, from, to));
    out
}

/// The character of the decimal digit `d`.
pub fn digit(d: u32) -> (c: char)
    requires
        d < 10,
    ensures
        c == digit_char(d as nat),
{
    if d == 0 {
        '0'
    } else if d == 1 {
        '1'
    } else if d == 2 {
        '2'
    } else if d == 3 {
        '3'
    } else if d == 4 {
        '4'
    } else if d == 5 {
        '5'
    } else if d == 6 {
        '6'
    } else if d == 7 {
        '7'
    } else if d == 8 {
        '8'
    } else {
        '9'
    }
}

/// Appends the decimal notation of `n` to `out`.
pub fn push_decimal(out: &mut String, n: u64)
    ensures
        final(out)@ == old(out)@ + decimal(n as nat),
    decreases n,
{
    if n >= 10 {
        push_decimal(out, n / 10);
    }
    out.push(digit((n % 10) as u32));
    assert(out@ =~= old(out)@ + decimal(n as nat));
}

/// The decimal notation of `n`.
pub fn decimal_string(n: u32) -> (r: String)
    ensures
        r@ == decimal(n as nat),
{
    let mut out = String::new();
    push_decimal(&mut out, n as u64);
    assert(out@ =~= decimal(n as nat));
    out
}

/// The decimal notation of a count.
pub fn count_string(n: usize) -> (r: String)
    ensures
        r@ == decimal(n as nat),
{
    let mut out = String::new();
    push_decimal(&mut out, n as u64);
    assert(out@ =~= decimal(n as nat));
    out
}

} // verus!
