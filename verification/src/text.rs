//! Character-level text primitives: searching, trimming, case folding and
//! decimal numbers, each specified over `Seq<char>`.

use vstd::prelude::*;
use vstd::string::StringExecFns;

verus! {

/// `std`'s `==` on string slices compares the two texts character by character.
pub assume_specification[ <str as PartialEq>::eq ](a: &str, b: &str) -> (same: bool)
    ensures
        same == (a@ == b@),
;

/// Whether `c` is whitespace, as `char::is_whitespace` has it: `c` has the
/// Unicode property `White_Space`.
pub open spec fn is_whitespace(c: char) -> bool {
    let code = c as u32;
    ||| 0x0009 <= code <= 0x000D
    ||| code == 0x0020
    ||| code == 0x0085
    ||| code == 0x00A0
    ||| code == 0x1680
    ||| 0x2000 <= code <= 0x200A
    ||| code == 0x2028
    ||| code == 0x2029
    ||| code == 0x202F
    ||| code == 0x205F
    ||| code == 0x3000
}

/// The result of `str::to_lowercase` on `s` (Unicode lowercase mapping).
pub uninterp spec fn lowercase(s: Seq<char>) -> Seq<char>;

/// What the `Debug` impl of a list of texts writes: the texts in double
/// quotes, with what `str`'s `Debug` impl escapes escaped, separated by
/// commas and enclosed in square brackets.
pub uninterp spec fn debug_list(texts: Seq<Seq<char>>) -> Seq<char>;

/// Formats a list of texts with its `Debug` impl; the result is named by
/// [`debug_list`].
#[verifier::external_body]
pub(crate) fn format_debug_list(texts: &Vec<String>) -> (shown: String)
    ensures
        shown@ == debug_list(texts.deep_view()),
{
    format!("{:?}", texts)
}

/// Tests whether `c` is whitespace.
pub fn char_is_whitespace(c: char) -> (b: bool)
    ensures
        b == is_whitespace(c),
{
    let code = c as u32;
    (0x0009 <= code && code <= 0x000D) || code == 0x0020 || code == 0x0085 || code == 0x00A0
        || code == 0x1680 || (0x2000 <= code && code <= 0x200A) || code == 0x2028 || code
        == 0x2029 || code == 0x202F || code == 0x205F || code == 0x3000
}

/// Calls `str::to_lowercase`; the result is named by [`lowercase`].
#[verifier::external_body]
pub(crate) fn to_lowercase(s: &str) -> (lower: String)
    ensures
        lower@ == lowercase(s@),
{
    s.to_lowercase()
}

/// Calls `String::push`, which appends one character to the end of the text.
#[verifier::external_body]
pub(crate) fn push_char(s: &mut String, c: char)
    ensures
        final(s)@ == old(s)@.push(c),
{
    s.push(c)
}

/// Calls `String::pop`, which removes and returns the last character, if any.
#[verifier::external_body]
pub(crate) fn pop_char(s: &mut String) -> (last: Option<char>)
    ensures
        old(s)@.len() == 0 ==> last is None && final(s)@ == old(s)@,
        old(s)@.len() > 0 ==> last == Some(old(s)@.last()) && final(s)@ == old(s)@.drop_last(),
{
    s.pop()
}

/// The characters of `s`, in order.
pub fn chars_of(s: &str) -> (chars: Vec<char>)
    ensures
        chars@ == s@,
{
    broadcast use vstd::string::group_string_axioms;

    let mut chars: Vec<char> = Vec::new();
    for c in it: s.chars()
        invariant
            it.seq() == s@,
            chars@ == s@.take(it.index() as int),
    {
        chars.push(c);
    }
    assert(s@.take(s@.len() as int) == s@);
    chars
}

/// The text made of `chars[from..to]`.
pub fn string_of(chars: &Vec<char>, from: usize, to: usize) -> (s: String)
    requires
        from <= to <= chars@.len(),
    ensures
        s@ == chars@.subrange(from as int, to as int),
{
    let mut s = String::new();
    let mut i: usize = from;
    while i < to
        invariant
            from <= i <= to <= chars@.len(),
            s@ == chars@.subrange(from as int, i as int),
        decreases to - i,
    {
        push_char(&mut s, chars[i]);
        i = i + 1;
        assert(chars@.subrange(from as int, i as int) == chars@.subrange(
            from as int,
            i as int - 1,
        ).push(chars@[i as int - 1]));
    }
    s
}

/// `given` where it is present, else `fallback`.
pub open spec fn text_or(given: Option<Seq<char>>, fallback: Seq<char>) -> Seq<char> {
    match given {
        Some(text) => text,
        None => fallback,
    }
}

/// `pat` occurs in `text` starting at index `at`.
pub open spec fn occurs_at(text: Seq<char>, at: int, pat: Seq<char>) -> bool {
    &&& 0 <= at
    &&& at + pat.len() <= text.len()
    &&& text.subrange(at, at + pat.len()) == pat
}

/// `pat` occurs somewhere in `text`.
pub open spec fn contains_text(text: Seq<char>, pat: Seq<char>) -> bool {
    exists|at: int| occurs_at(text, at, pat)
}

/// Tests whether `pat` occurs in `text` at index `at`.
pub fn matches_at(text: &Vec<char>, at: usize, pat: &Vec<char>) -> (hit: bool)
    ensures
        hit == occurs_at(text@, at as int, pat@),
{
    if pat.len() > text.len() || at > text.len() - pat.len() {
        return false;
    }
    let mut k: usize = 0;
    while k < pat.len()
        invariant
            k <= pat.len(),
            at + pat.len() <= text.len(),
            forall|j: int| 0 <= j < k ==> text@[at + j] == pat@[j],
        decreases pat.len() - k,
    {
        if text[at + k] != pat[k] {
            assert(text@.subrange(at as int, at + pat.len())[k as int] == text@[at + k]);
            return false;
        }
        k = k + 1;
    }
    assert(text@.subrange(at as int, at + pat.len()) =~= pat@);
    true
}

/// Index of the first occurrence of `pat` in `text` at or after `from`.
pub open spec fn find_first(text: Seq<char>, pat: Seq<char>, from: int) -> Option<int>
    decreases text.len() - from,
{
    if from < 0 || from > text.len() {
        None
    } else if occurs_at(text, from, pat) {
        Some(from)
    } else if from == text.len() {
        None
    } else {
        find_first(text, pat, from + 1)
    }
}

/// What [`find_first`] returns is an occurrence with none before it, and it
/// returns `None` only where there is none.
pub proof fn lemma_find_first(text: Seq<char>, pat: Seq<char>, from: int)
    requires
        0 <= from,
    ensures
        match find_first(text, pat, from) {
            Some(at) => {
                &&& from <= at
                &&& occurs_at(text, at, pat)
                &&& forall|j: int| from <= j < at ==> !occurs_at(text, j, pat)
            },
            None => forall|j: int| from <= j ==> !occurs_at(text, j, pat),
        },
    decreases text.len() - from,
{
    if from > text.len() {
    } else if occurs_at(text, from, pat) {
    } else if from == text.len() {
    } else {
        lemma_find_first(text, pat, from + 1);
    }
}

/// Finds the first occurrence of `pat` in `text` at or after `from`.
pub fn find_from(text: &Vec<char>, from: usize, pat: &Vec<char>) -> (found: Option<usize>)
    ensures
        match found {
            Some(at) => find_first(text@, pat@, from as int) == Some(at as int),
            None => find_first(text@, pat@, from as int) is None,
        },
        match found {
            Some(at) => {
                &&& from <= at
                &&& occurs_at(text@, at as int, pat@)
                &&& forall|j: int| from <= j < at ==> !occurs_at(text@, j, pat@)
            },
            None => forall|j: int| from <= j ==> !occurs_at(text@, j, pat@),
        },
{
    proof {
        lemma_find_first(text@, pat@, from as int);
    }
    let mut at: usize = from;
    while at <= text.len()
        invariant
            from <= at,
            find_first(text@, pat@, from as int) == find_first(text@, pat@, at as int),
        decreases text.len() + 1 - at,
    {
        if matches_at(text, at, pat) {
            proof {
                lemma_find_first(text@, pat@, from as int);
            }
            return Some(at);
        }
        if at == text.len() {
            proof {
                lemma_find_first(text@, pat@, from as int);
            }
            return None;
        }
        at = at + 1;
    }
    proof {
        lemma_find_first(text@, pat@, from as int);
    }
    None
}

/// Tests whether `pat` occurs anywhere in `text`.
pub fn contains(text: &Vec<char>, pat: &Vec<char>) -> (hit: bool)
    ensures
        hit == contains_text(text@, pat@),
{
    let found = find_from(text, 0, pat);
    proof {
        if contains_text(text@, pat@) {
            let at = choose|at: int| occurs_at(text@, at, pat@);
            assert(0 <= at);
        }
    }
    found.is_some()
}

/// `text` with each occurrence of `pat` replaced by `with`, found from left to
/// right and without overlap. An empty `pat` replaces nothing.
pub open spec fn replace_all(text: Seq<char>, pat: Seq<char>, with: Seq<char>) -> Seq<char>
    decreases text.len(),
{
    if text.len() == 0 || pat.len() == 0 {
        text
    } else if occurs_at(text, 0, pat) {
        with + replace_all(text.skip(pat.len() as int), pat, with)
    } else {
        seq![text[0]] + replace_all(text.skip(1), pat, with)
    }
}

/// Replaces each occurrence of the non-empty `pat` in `text` by `with`.
pub fn replace(text: &Vec<char>, pat: &Vec<char>, with: &str) -> (out: String)
    requires
        pat@.len() > 0,
    ensures
        out@ == replace_all(text@, pat@, with@),
{
    let mut out = String::new();
    let mut i: usize = 0;
    assert(text@.skip(0) == text@);
    assert(Seq::<char>::empty() + replace_all(text@, pat@, with@) == replace_all(
        text@,
        pat@,
        with@,
    ));
    while i < text.len()
        invariant
            i <= text.len(),
            pat@.len() > 0,
            replace_all(text@, pat@, with@) == out@ + replace_all(text@.skip(i as int), pat@, with@),
        decreases text.len() - i,
    {
        let ghost rest = text@.skip(i as int);
        let ghost before = out@;
        if matches_at(text, i, pat) {
            assert(rest.subrange(0, pat@.len() as int) == text@.subrange(
                i as int,
                i + pat@.len(),
            ));
            assert(rest.skip(pat@.len() as int) == text@.skip(i + pat@.len()));
            out.append(with);
            i = i + pat.len();
            assert(before + (with@ + replace_all(text@.skip(i as int), pat@, with@)) == out@
                + replace_all(text@.skip(i as int), pat@, with@));
        } else {
            assert(occurs_at(rest, 0, pat@) ==> rest.subrange(0, pat@.len() as int)
                == text@.subrange(i as int, i + pat@.len()));
            assert(rest.skip(1) == text@.skip(i + 1));
            push_char(&mut out, text[i]);
            i = i + 1;
            assert(before + (seq![rest[0]] + replace_all(text@.skip(i as int), pat@, with@))
                == out@ + replace_all(text@.skip(i as int), pat@, with@));
        }
    }
    assert(out@ + Seq::<char>::empty() == out@);
    out
}

/// Replacing a pattern that does not occur changes nothing.
pub proof fn lemma_replace_absent(text: Seq<char>, pat: Seq<char>, with: Seq<char>)
    requires
        !contains_text(text, pat),
    ensures
        replace_all(text, pat, with) == text,
    decreases text.len(),
{
    if text.len() == 0 || pat.len() == 0 {
    } else {
        assert(!occurs_at(text, 0, pat));
        let rest = text.skip(1);
        assert forall|at: int| !occurs_at(rest, at, pat) by {
            if occurs_at(rest, at, pat) {
                assert(rest.subrange(at, at + pat.len()) == text.subrange(
                    at + 1,
                    at + 1 + pat.len(),
                ));
                assert(occurs_at(text, at + 1, pat));
            }
        }
        lemma_replace_absent(rest, pat, with);
        assert(seq![text[0]] + rest == text);
    }
}

/// Index of the first `c` in `s`, or the length of `s` when it holds none.
pub open spec fn position_of(s: Seq<char>, c: char) -> nat
    decreases s.len(),
{
    if s.len() == 0 || s[0] == c {
        0
    } else {
        1 + position_of(s.drop_first(), c)
    }
}

/// What [`position_of`] returns: it lies within `s`, no `c` comes before it,
/// and `c` stands there unless it is the length.
pub proof fn lemma_position_of(s: Seq<char>, c: char)
    ensures
        position_of(s, c) <= s.len(),
        forall|j: int| 0 <= j < position_of(s, c) ==> s[j] != c,
        position_of(s, c) < s.len() ==> s[position_of(s, c) as int] == c,
    decreases s.len(),
{
    if s.len() == 0 || s[0] == c {
    } else {
        let rest = s.drop_first();
        lemma_position_of(rest, c);
        assert forall|j: int| 0 <= j < position_of(s, c) implies s[j] != c by {
            if j > 0 {
                assert(s[j] == rest[j - 1]);
            }
        }
        if position_of(s, c) < s.len() {
            assert(s[position_of(s, c) as int] == rest[position_of(rest, c) as int]);
        }
    }
}

/// An index with the three properties of [`lemma_position_of`] is the position.
pub proof fn lemma_position_of_unique(s: Seq<char>, c: char, at: int)
    requires
        0 <= at <= s.len(),
        forall|j: int| 0 <= j < at ==> s[j] != c,
        at < s.len() ==> s[at] == c,
    ensures
        position_of(s, c) == at,
{
    lemma_position_of(s, c);
}

/// Index of the first `c` in `text[from..to]`, counted from `from`.
pub fn find_char(text: &Vec<char>, from: usize, to: usize, c: char) -> (at: usize)
    requires
        from <= to <= text@.len(),
    ensures
        from <= at <= to,
        at - from == position_of(text@.subrange(from as int, to as int), c),
{
    let mut at: usize = from;
    while at < to && text[at] != c
        invariant
            from <= at <= to <= text@.len(),
            forall|j: int| from <= j < at ==> text@[j] != c,
        decreases to - at,
    {
        at = at + 1;
    }
    proof {
        let s = text@.subrange(from as int, to as int);
        assert forall|j: int| 0 <= j < at - from implies s[j] != c by {
            assert(s[j] == text@[from + j]);
        }
        lemma_position_of_unique(s, c, at - from);
    }
    at
}

/// Number of characters at the start of `s` of which `p` holds.
pub open spec fn leading_run(s: Seq<char>, p: spec_fn(char) -> bool) -> nat
    decreases s.len(),
{
    if s.len() > 0 && p(s[0]) {
        1 + leading_run(s.drop_first(), p)
    } else {
        0
    }
}

/// Number of characters at the end of `s` of which `p` holds.
pub open spec fn trailing_run(s: Seq<char>, p: spec_fn(char) -> bool) -> nat
    decreases s.len(),
{
    if s.len() > 0 && p(s.last()) {
        1 + trailing_run(s.drop_last(), p)
    } else {
        0
    }
}

/// `s` without the characters at its start and at its end of which `p` holds.
pub open spec fn strip(s: Seq<char>, p: spec_fn(char) -> bool) -> Seq<char> {
    let started = s.skip(leading_run(s, p) as int);
    started.take(started.len() - trailing_run(started, p))
}

/// The predicate that holds of whitespace.
pub open spec fn whitespace() -> spec_fn(char) -> bool {
    |c: char| is_whitespace(c)
}

/// The predicate that holds of `c` alone.
pub open spec fn only(c: char) -> spec_fn(char) -> bool {
    |x: char| x == c
}

/// `s` without leading and trailing whitespace.
pub open spec fn trim(s: Seq<char>) -> Seq<char> {
    strip(s, whitespace())
}

/// `s` without the copies of `c` at its start and at its end.
pub open spec fn trim_matches(s: Seq<char>, c: char) -> Seq<char> {
    strip(s, only(c))
}

/// Bounds `(a, b)` of `text[from..to]` with the whitespace at both ends left out.
pub fn trim_range(text: &Vec<char>, from: usize, to: usize) -> (bounds: (usize, usize))
    requires
        from <= to <= text@.len(),
    ensures
        from <= bounds.0 <= bounds.1 <= to,
        text@.subrange(bounds.0 as int, bounds.1 as int) == trim(
            text@.subrange(from as int, to as int),
        ),
{
    let ghost p = whitespace();
    let ghost whole = text@.subrange(from as int, to as int);
    let mut a: usize = from;
    while a < to && char_is_whitespace(text[a])
        invariant
            from <= a <= to <= text@.len(),
            p == whitespace(),
            leading_run(whole, p) == (a - from) + leading_run(
                text@.subrange(a as int, to as int),
                p,
            ),
        decreases to - a,
    {
        assert(text@.subrange(a as int, to as int).drop_first() == text@.subrange(
            a as int + 1,
            to as int,
        ));
        a = a + 1;
    }
    let ghost started = text@.subrange(a as int, to as int);
    assert(started == whole.skip(leading_run(whole, p) as int));
    let mut b: usize = to;
    while a < b && char_is_whitespace(text[b - 1])
        invariant
            a <= b <= to <= text@.len(),
            p == whitespace(),
            started == text@.subrange(a as int, to as int),
            trailing_run(started, p) == (to - b) + trailing_run(
                text@.subrange(a as int, b as int),
                p,
            ),
        decreases b - a,
    {
        assert(text@.subrange(a as int, b as int).drop_last() == text@.subrange(
            a as int,
            b as int - 1,
        ));
        b = b - 1;
    }
    assert(text@.subrange(a as int, b as int) == started.take(started.len() - (to - b)));
    (a, b)
}

/// Bounds `(a, b)` of `text[from..to]` with the copies of `c` at both ends left out.
pub fn trim_matches_range(text: &Vec<char>, from: usize, to: usize, c: char) -> (bounds: (
    usize,
    usize,
))
    requires
        from <= to <= text@.len(),
    ensures
        from <= bounds.0 <= bounds.1 <= to,
        text@.subrange(bounds.0 as int, bounds.1 as int) == trim_matches(
            text@.subrange(from as int, to as int),
            c,
        ),
{
    let ghost p = only(c);
    let ghost whole = text@.subrange(from as int, to as int);
    let mut a: usize = from;
    while a < to && text[a] == c
        invariant
            from <= a <= to <= text@.len(),
            p == only(c),
            leading_run(whole, p) == (a - from) + leading_run(
                text@.subrange(a as int, to as int),
                p,
            ),
        decreases to - a,
    {
        assert(text@.subrange(a as int, to as int).drop_first() == text@.subrange(
            a as int + 1,
            to as int,
        ));
        a = a + 1;
    }
    let ghost started = text@.subrange(a as int, to as int);
    assert(started == whole.skip(leading_run(whole, p) as int));
    let mut b: usize = to;
    while a < b && text[b - 1] == c
        invariant
            a <= b <= to <= text@.len(),
            p == only(c),
            started == text@.subrange(a as int, to as int),
            trailing_run(started, p) == (to - b) + trailing_run(
                text@.subrange(a as int, b as int),
                p,
            ),
        decreases b - a,
    {
        assert(text@.subrange(a as int, b as int).drop_last() == text@.subrange(
            a as int,
            b as int - 1,
        ));
        b = b - 1;
    }
    assert(text@.subrange(a as int, b as int) == started.take(started.len() - (to - b)));
    (a, b)
}

/// The predicate that holds of everything but whitespace.
pub open spec fn non_whitespace() -> spec_fn(char) -> bool {
    |c: char| !is_whitespace(c)
}

/// The first word of `s`: its first run of characters that are no
/// whitespace. Empty where `s` holds nothing but whitespace.
pub open spec fn first_word(s: Seq<char>) -> Seq<char> {
    let started = s.skip(leading_run(s, whitespace()) as int);
    started.take(leading_run(started, non_whitespace()) as int)
}

/// Bounds `(a, b)` of the first word of `text[from..to]`.
pub fn first_word_range(text: &Vec<char>, from: usize, to: usize) -> (bounds: (usize, usize))
    requires
        from <= to <= text@.len(),
    ensures
        from <= bounds.0 <= bounds.1 <= to,
        text@.subrange(bounds.0 as int, bounds.1 as int) == first_word(
            text@.subrange(from as int, to as int),
        ),
{
    let ghost space = whitespace();
    let ghost word = non_whitespace();
    let ghost whole = text@.subrange(from as int, to as int);
    let mut a: usize = from;
    while a < to && char_is_whitespace(text[a])
        invariant
            from <= a <= to <= text@.len(),
            space == whitespace(),
            leading_run(whole, space) == (a - from) + leading_run(
                text@.subrange(a as int, to as int),
                space,
            ),
        decreases to - a,
    {
        assert(text@.subrange(a as int, to as int).drop_first() == text@.subrange(
            a as int + 1,
            to as int,
        ));
        a = a + 1;
    }
    let ghost started = text@.subrange(a as int, to as int);
    assert(started == whole.skip(leading_run(whole, space) as int));
    let mut b: usize = a;
    while b < to && !char_is_whitespace(text[b])
        invariant
            a <= b <= to <= text@.len(),
            word == non_whitespace(),
            started == text@.subrange(a as int, to as int),
            leading_run(started, word) == (b - a) + leading_run(
                text@.subrange(b as int, to as int),
                word,
            ),
        decreases to - b,
    {
        assert(text@.subrange(b as int, to as int).drop_first() == text@.subrange(
            b as int + 1,
            to as int,
        ));
        b = b + 1;
    }
    assert(text@.subrange(a as int, b as int) == started.take(b - a));
    (a, b)
}

/// The decimal digit that stands for `d`, for `d` below ten.
pub open spec fn digit_char(d: int) -> char {
    if d == 0 {
        '0'
    } else if d == 1 {
        '1'
    } else if d == 2 {
        '2'
    } else if d == 3 {
        '3'
    } else if d == 4 {
        '4'
    } else if d == 5 {
        '5'
    } else if d == 6 {
        '6'
    } else if d == 7 {
        '7'
    } else if d == 8 {
        '8'
    } else {
        '9'
    }
}

/// The value of a decimal digit, or `None` for any other character.
pub open spec fn digit_value(c: char) -> Option<int> {
    if c == '0' {
        Some(0)
    } else if c == '1' {
        Some(1)
    } else if c == '2' {
        Some(2)
    } else if c == '3' {
        Some(3)
    } else if c == '4' {
        Some(4)
    } else if c == '5' {
        Some(5)
    } else if c == '6' {
        Some(6)
    } else if c == '7' {
        Some(7)
    } else if c == '8' {
        Some(8)
    } else if c == '9' {
        Some(9)
    } else {
        None
    }
}

/// The decimal numeral of `n`, without sign or leading zeros.
pub open spec fn decimal(n: nat) -> Seq<char>
    decreases n,
{
    if n < 10 {
        seq![digit_char(n as int)]
    } else {
        decimal(n / 10).push(digit_char((n % 10) as int))
    }
}

/// The number that a run of decimal digits stands for; `None` when a character
/// is no digit. The empty run stands for zero.
pub open spec fn digits_value(s: Seq<char>) -> Option<int>
    decreases s.len(),
{
    if s.len() == 0 {
        Some(0)
    } else {
        match (digits_value(s.drop_last()), digit_value(s.last())) {
            (Some(v), Some(d)) => Some(v * 10 + d),
            _ => None,
        }
    }
}

/// What `str::parse::<u32>` accepts: an optional `+`, then at least one
/// decimal digit, standing for a number that fits in 32 bits.
pub open spec fn parse_u32(s: Seq<char>) -> Option<u32> {
    let digits = if s.len() > 0 && s[0] == '+' {
        s.drop_first()
    } else {
        s
    };
    if digits.len() == 0 {
        None
    } else {
        match digits_value(digits) {
            Some(v) => if v <= u32::MAX {
                Some(v as u32)
            } else {
                None
            },
            None => None,
        }
    }
}

/// The value of a run of digits is never negative, and grows with each digit.
pub proof fn lemma_digits_value_grows(s: Seq<char>)
    ensures
        digits_value(s) matches Some(v) ==> v >= 0,
        s.len() > 0 ==> (digits_value(s) matches Some(v) ==> (digits_value(
            s.drop_last(),
        ) matches Some(w) && w <= v)),
    decreases s.len(),
{
    if s.len() > 0 {
        lemma_digits_value_grows(s.drop_last());
    }
}

fn digit_of(d: u64) -> (c: char)
    requires
        d < 10,
    ensures
        c == digit_char(d as int),
{
    if d == 0 {
        '0'
    } else if d == 1 {
        '1'
    } else if d == 2 {
        '2'
    } else if d == 3 {
        '3'
    } else if d == 4 {
        '4'
    } else if d == 5 {
        '5'
    } else if d == 6 {
        '6'
    } else if d == 7 {
        '7'
    } else if d == 8 {
        '8'
    } else {
        '9'
    }
}

fn value_of_digit(c: char) -> (v: Option<u64>)
    ensures
        match v {
            Some(d) => digit_value(c) == Some(d as int) && d < 10,
            None => digit_value(c) is None,
        },
{
    if c == '0' {
        Some(0)
    } else if c == '1' {
        Some(1)
    } else if c == '2' {
        Some(2)
    } else if c == '3' {
        Some(3)
    } else if c == '4' {
        Some(4)
    } else if c == '5' {
        Some(5)
    } else if c == '6' {
        Some(6)
    } else if c == '7' {
        Some(7)
    } else if c == '8' {
        Some(8)
    } else if c == '9' {
        Some(9)
    } else {
        None
    }
}

/// Appends the decimal numeral of `n` to `out`.
pub fn push_decimal(out: &mut String, n: u64)
    ensures
        final(out)@ == old(out)@ + decimal(n as nat),
{
    let mut rev: Vec<char> = Vec::new();
    let mut m: u64 = n;
    while m >= 10
        invariant
            decimal(n as nat) == decimal(m as nat) + rev@.reverse(),
        decreases m,
    {
        let d = digit_of(m % 10);
        proof {
            assert(rev@.push(d).reverse() =~= seq![d] + rev@.reverse());
            assert(decimal(m as nat) == decimal((m / 10) as nat).push(d));
            assert(decimal((m / 10) as nat).push(d) + rev@.reverse() =~= decimal(
                (m / 10) as nat,
            ) + (seq![d] + rev@.reverse()));
        }
        rev.push(d);
        m = m / 10;
    }
    let d = digit_of(m);
    proof {
        assert(rev@.push(d).reverse() =~= seq![d] + rev@.reverse());
    }
    rev.push(d);
    assert(decimal(n as nat) == rev@.reverse());
    let mut k: usize = rev.len();
    while k > 0
        invariant
            k <= rev@.len(),
            out@ == old(out)@ + rev@.reverse().take(rev@.len() - k),
        decreases k,
    {
        k = k - 1;
        push_char(out, rev[k]);
        assert(rev@.reverse().take(rev@.len() - k) =~= rev@.reverse().take(
            rev@.len() - k - 1,
        ).push(rev@[k as int]));
    }
    assert(rev@.reverse().take(rev@.len() as int) =~= rev@.reverse());
}

/// The decimal numeral of `n` as a text.
pub fn decimal_string(n: u64) -> (s: String)
    ensures
        s@ == decimal(n as nat),
{
    let mut s = String::new();
    push_decimal(&mut s, n);
    s
}

/// Reads `text[from..to]` as an unsigned 32-bit decimal number.
pub fn parse_u32_range(text: &Vec<char>, from: usize, to: usize) -> (n: Option<u32>)
    requires
        from <= to <= text@.len(),
    ensures
        n == parse_u32(text@.subrange(from as int, to as int)),
{
    let ghost whole = text@.subrange(from as int, to as int);
    let start: usize = if from < to && text[from] == '+' {
        from + 1
    } else {
        from
    };
    let ghost digits = text@.subrange(start as int, to as int);
    assert(digits == if whole.len() > 0 && whole[0] == '+' {
        whole.drop_first()
    } else {
        whole
    });
    if start == to {
        return None;
    }
    let mut acc: u64 = 0;
    let mut i: usize = start;
    while i < to
        invariant
            start <= i <= to <= text@.len(),
            digits == text@.subrange(start as int, to as int),
            digits_value(text@.subrange(start as int, i as int)) == Some(acc as int),
            acc <= u32::MAX,
            whole == text@.subrange(from as int, to as int),
            parse_u32(whole) == match digits_value(digits) {
                Some(v) => if v <= u32::MAX {
                    Some(v as u32)
                } else {
                    None
                },
                None => None,
            },
        decreases to - i,
    {
        let ghost before = text@.subrange(start as int, i as int);
        let ghost upto = text@.subrange(start as int, i as int + 1);
        assert(upto.drop_last() == before);
        assert(upto.last() == text@[i as int]);
        match value_of_digit(text[i]) {
            Some(d) => {
                let next: u64 = acc * 10 + d;
                assert(digits_value(upto) == Some(next as int));
                if next > 0xffff_ffff {
                    proof {
                        lemma_digits_prefix(digits, i - start + 1);
                        assert(digits.take(i - start + 1) == upto);
                    }
                    return None;
                }
                acc = next;
            },
            None => {
                assert(digits_value(upto) is None);
                proof {
                    lemma_digits_prefix(digits, i - start + 1);
                    assert(digits.take(i - start + 1) == upto);
                }
                return None;
            },
        }
        i = i + 1;
    }
    assert(text@.subrange(start as int, i as int) == digits);
    Some(acc as u32)
}

/// Where a prefix of `s` is no number, or stands for one above `u32::MAX`,
/// the same holds of `s`.
pub proof fn lemma_digits_prefix(s: Seq<char>, k: int)
    requires
        0 <= k <= s.len(),
    ensures
        digits_value(s.take(k)) is None ==> digits_value(s) is None,
        digits_value(s.take(k)) matches Some(v) ==> (digits_value(s) matches Some(w) ==> v <= w),
    decreases s.len() - k,
{
    if k == s.len() {
        assert(s.take(k) == s);
    } else {
        lemma_digits_prefix(s, k + 1);
        assert(s.take(k + 1).drop_last() == s.take(k));
        lemma_digits_value_grows(s.take(k + 1));
    }
}

} // verus!
