//! Searching, splitting, trimming and integer parsing over character
//! sequences, with the meaning `str::find`, `str::split`, `str::trim` and
//! `u64::from_str` give them.

use vstd::prelude::*;

use crate::text::{occurs_at, occurs_at_exec};

verus! {

/// The first position at or after `from` where `m` occurs in `s`.
pub open spec fn find_from(s: Seq<char>, m: Seq<char>, from: int) -> Option<int>
    decreases s.len() - from,
{
    if from < 0 || from + m.len() > s.len() {
        None
    } else if occurs_at(s, m, from) {
        Some(from)
    } else if from >= s.len() {
        None
    } else {
        find_from(s, m, from + 1)
    }
}

/// What [`find_from`] finds: the first occurrence at or after `from`.
pub proof fn lemma_find_from(s: Seq<char>, m: Seq<char>, from: int)
    requires
        from >= 0,
    ensures
        find_from(s, m, from) matches Some(i) ==> from <= i && occurs_at(s, m, i) && forall|j: int|
            from <= j < i ==> !occurs_at(s, m, j),
        find_from(s, m, from) is None ==> forall|j: int| from <= j ==> !occurs_at(s, m, j),
    decreases s.len() - from,
{
    if from + m.len() <= s.len() && !occurs_at(s, m, from) && from < s.len() {
        lemma_find_from(s, m, from + 1);
    }
}

/// The first position at or after `from` where `m` occurs in `s`.
pub fn find_exec(s: &Vec<char>, m: &Vec<char>, from: usize) -> (r: Option<usize>)
    ensures
        match r {
            Some(i) => find_from(s@, m@, from as int) == Some(i as int) && i + m@.len() <= s@.len(),
            None => find_from(s@, m@, from as int) is None,
        },
{
    let mut i: usize = from;
    while m.len() <= s.len() && i <= s.len() - m.len()
        invariant
            from <= i,
            find_from(s@, m@, from as int) == find_from(s@, m@, i as int),
        decreases s@.len() - i,
    {
        if occurs_at_exec(s, m, i) {
            return Some(i);
        }
        if i >= s.len() {
            return None;
        }
        i = i + 1;
    }
    None
}

/// What `s.split(sep).next()` gives: everything before the first `sep`.
pub open spec fn split_first(s: Seq<char>, sep: Seq<char>) -> Seq<char> {
    match find_from(s, sep, 0) {
        Some(q) => s.subrange(0, q),
        None => s,
    }
}

/// What `s.split(sep).nth(1)` gives: the text between the first and the
/// second `sep`, or after the first to the end; `None` without any `sep`.
pub open spec fn split_second(s: Seq<char>, sep: Seq<char>) -> Option<Seq<char>> {
    match find_from(s, sep, 0) {
        None => None,
        Some(p) => {
            let start = p + sep.len();
            Some(
                s.subrange(
                    start,
                    match find_from(s, sep, start) {
                        Some(q) => q,
                        None => s.len() as int,
                    },
                ),
            )
        },
    }
}

/// Whether `sep` occurs exactly once in `s`, counting non-overlapping
/// occurrences from the start as `str::matches` does.
pub open spec fn occurs_once(s: Seq<char>, sep: Seq<char>) -> bool {
    match find_from(s, sep, 0) {
        Some(p) => find_from(s, sep, p + sep.len()) is None,
        None => false,
    }
}

/// The characters of `s` from `a` up to `b`.
pub fn subvec(s: &Vec<char>, a: usize, b: usize) -> (r: Vec<char>)
    requires
        a <= b <= s@.len(),
    ensures
        r@ == s@.subrange(a as int, b as int),
{
    let mut r: Vec<char> = Vec::new();
    let mut i: usize = a;
    while i < b
        invariant
            a <= i <= b,
            b <= s@.len(),
            r@ == s@.subrange(a as int, i as int),
        decreases b - i,
    {
        r.push(s[i]);
        i = i + 1;
        assert(r@ =~= s@.subrange(a as int, i as int));
    }
    r
}

pub fn split_first_exec(s: &Vec<char>, sep: &Vec<char>) -> (r: Vec<char>)
    ensures
        r@ == split_first(s@, sep@),
{
    match find_exec(s, sep, 0) {
        Some(q) => subvec(s, 0, q),
        None => {
            let r = subvec(s, 0, s.len());
            assert(r@ =~= s@);
            r
        },
    }
}

pub fn split_second_exec(s: &Vec<char>, sep: &Vec<char>) -> (r: Option<Vec<char>>)
    ensures
        match split_second(s@, sep@) {
            Some(t) => r matches Some(v) && v@ == t,
            None => r is None,
        },
{
    let found = find_exec(s, sep, 0);
    match found {
        None => None,
        Some(p) => {
            proof {
                lemma_find_from(s@, sep@, 0);
            }
            let sl = sep.len();
            let tl = s.len();
            assert(p + sl <= tl);
            let start = p + sl;
            match find_exec(s, sep, start) {
                Some(q) => {
                    proof {
                        lemma_find_from(s@, sep@, start as int);
                    }
                    Some(subvec(s, start, q))
                },
                None => Some(subvec(s, start, s.len())),
            }
        },
    }
}

pub fn occurs_once_exec(s: &Vec<char>, sep: &Vec<char>) -> (r: bool)
    ensures
        r == occurs_once(s@, sep@),
{
    let found = find_exec(s, sep, 0);
    match found {
        None => false,
        Some(p) => {
            let sl = sep.len();
            let tl = s.len();
            assert(p + sl <= tl);
            find_exec(s, sep, p + sl).is_none()
        },
    }
}

/// Unicode white space, as `char::is_whitespace` defines it.
pub open spec fn is_ws(c: char) -> bool {
    c == '\t' || c == '\n' || c == '\u{0B}' || c == '\u{0C}' || c == '\r' || c == ' ' || c
        == '\u{85}' || c == '\u{A0}' || c == '\u{1680}' || ('\u{2000}' <= c && c <= '\u{200A}')
        || c == '\u{2028}' || c == '\u{2029}' || c == '\u{202F}' || c == '\u{205F}' || c
        == '\u{3000}'
}

/// Whether `c` is white space.
pub fn is_ws_exec(c: char) -> (b: bool)
    ensures
        b == is_ws(c),
{
    c == '\t' || c == '\n' || c == '\u{0B}' || c == '\u{0C}' || c == '\r' || c == ' ' || c
        == '\u{85}' || c == '\u{A0}' || c == '\u{1680}' || ('\u{2000}' <= c && c <= '\u{200A}')
        || c == '\u{2028}' || c == '\u{2029}' || c == '\u{202F}' || c == '\u{205F}' || c
        == '\u{3000}'
}

/// The number of leading white-space characters of `s`.
pub open spec fn leading_ws(s: Seq<char>) -> nat
    decreases s.len(),
{
    if s.len() > 0 && is_ws(s[0]) {
        1 + leading_ws(s.drop_first())
    } else {
        0
    }
}

/// The number of trailing white-space characters of `s`.
pub open spec fn trailing_ws(s: Seq<char>) -> nat
    decreases s.len(),
{
    if s.len() > 0 && is_ws(s.last()) {
        1 + trailing_ws(s.drop_last())
    } else {
        0
    }
}

/// `s` without leading and trailing white space (`str::trim`).
pub open spec fn trim(s: Seq<char>) -> Seq<char> {
    let t = s.skip(leading_ws(s) as int);
    t.take(t.len() - trailing_ws(t))
}

/// Leading white space, counted through a white-space prefix of length `i`.
pub proof fn lemma_leading_ws(s: Seq<char>, i: int)
    requires
        0 <= i <= s.len(),
        forall|j: int| 0 <= j < i ==> is_ws(s[j]),
    ensures
        leading_ws(s) == i + leading_ws(s.skip(i)),
    decreases i,
{
    if i > 0 {
        assert(s.drop_first().skip(i - 1) =~= s.skip(i));
        lemma_leading_ws(s.drop_first(), i - 1);
    } else {
        assert(s.skip(0) =~= s);
    }
}

proof fn lemma_trailing_ws(s: Seq<char>, e: int)
    requires
        0 <= e <= s.len(),
        forall|j: int| e <= j < s.len() ==> is_ws(s[j]),
    ensures
        trailing_ws(s) == (s.len() - e) + trailing_ws(s.take(e)),
    decreases s.len() - e,
{
    if e < s.len() {
        assert(s.drop_last().take(e) =~= s.take(e));
        lemma_trailing_ws(s.drop_last(), e);
    } else {
        assert(s.take(e) =~= s);
    }
}

pub fn trim_exec(s: &Vec<char>) -> (r: Vec<char>)
    ensures
        r@ == trim(s@),
{
    let mut a: usize = 0;
    while a < s.len() && is_ws_exec(s[a])
        invariant
            0 <= a <= s@.len(),
            forall|j: int| 0 <= j < a ==> is_ws(s@[j]),
        decreases s@.len() - a,
    {
        a = a + 1;
    }
    proof {
        lemma_leading_ws(s@, a as int);
        let rest = s@.skip(a as int);
        if rest.len() > 0 {
            assert(rest[0] == s@[a as int]);
        }
        assert(leading_ws(rest) == 0);
    }
    let mut b: usize = s.len();
    while b > a && is_ws_exec(s[b - 1])
        invariant
            a <= b <= s@.len(),
            forall|j: int| b <= j < s@.len() ==> is_ws(s@[j]),
        decreases b,
    {
        b = b - 1;
    }
    proof {
        let t = s@.skip(a as int);
        assert forall|j: int| (b - a) <= j < t.len() implies is_ws(t[j]) by {
            assert(t[j] == s@[a + j]);
        }
        lemma_trailing_ws(t, b - a);
        let u = t.take(b - a);
        if u.len() > 0 {
            assert(u.last() == s@[b - 1]);
        }
        assert(trailing_ws(u) == 0);
        assert(t.take(t.len() - trailing_ws(t)) =~= s@.subrange(a as int, b as int));
    }
    subvec(s, a, b)
}

/// Whether `c` is an ASCII digit.
pub open spec fn is_digit(c: char) -> bool {
    '0' <= c && c <= '9'
}

/// The value of a string of ASCII digits.
pub open spec fn digits_value(s: Seq<char>) -> nat
    decreases s.len(),
{
    if s.len() == 0 {
        0
    } else {
        digits_value(s.drop_last()) * 10 + ((s.last() as u32) - 48) as nat
    }
}

/// `s` without one leading `+`, if it has one.
pub open spec fn unsigned_part(s: Seq<char>) -> Seq<char> {
    if s.len() > 0 && s[0] == '+' {
        s.drop_first()
    } else {
        s
    }
}

/// Every character is an ASCII digit.
pub open spec fn all_digits(d: Seq<char>) -> bool {
    forall|i: int| 0 <= i < d.len() ==> is_digit(#[trigger] d[i])
}

/// What `u64::from_str` accepts: an optional `+`, then one or more ASCII
/// digits whose value fits in 64 bits.
pub open spec fn parse_u64(s: Seq<char>) -> Option<u64> {
    let d = unsigned_part(s);
    if d.len() == 0 || !all_digits(d) {
        None
    } else if digits_value(d) > u64::MAX {
        None
    } else {
        Some(digits_value(d) as u64)
    }
}

proof fn lemma_digits_value_monotone(s: Seq<char>, i: int)
    requires
        0 <= i <= s.len(),
        forall|j: int| 0 <= j < s.len() ==> is_digit(#[trigger] s[j]),
    ensures
        digits_value(s.take(i)) <= digits_value(s),
    decreases s.len() - i,
{
    if i < s.len() {
        lemma_digits_value_monotone(s.drop_last(), if i < s.len() - 1 {
            i
        } else {
            s.len() - 1
        });
        assert(s.drop_last().take(if i < s.len() - 1 {
            i
        } else {
            s.len() - 1
        }) =~= s.take(if i < s.len() - 1 {
            i
        } else {
            s.len() - 1
        }));
        if i == s.len() - 1 {
            assert(s.take(i) =~= s.drop_last());
        } else {
            assert(s.drop_last().take(i) =~= s.take(i));
        }
    } else {
        assert(s.take(i) =~= s);
    }
}

pub fn parse_u64_exec(s: &Vec<char>) -> (r: Option<u64>)
    ensures
        r == parse_u64(s@),
{
    let start: usize = if s.len() > 0 && s[0] == '+' {
        1
    } else {
        0
    };
    let ghost d = unsigned_part(s@);
    assert(d =~= s@.skip(start as int));
    if start >= s.len() {
        return None;
    }
    let mut i: usize = start;
    while i < s.len()
        invariant
            start <= i <= s@.len(),
            d == s@.skip(start as int),
            d == unsigned_part(s@),
            forall|j: int| start <= j < i ==> is_digit(#[trigger] s@[j]),
        decreases s@.len() - i,
    {
        if !('0' <= s[i] && s[i] <= '9') {
            assert(d[i - start] == s@[i as int]);
            assert(!is_digit(d[i - start]));
            assert(!all_digits(d));
            return None;
        }
        i = i + 1;
    }
    assert forall|j: int| 0 <= j < d.len() implies is_digit(#[trigger] d[j]) by {
        assert(d[j] == s@[j + start]);
    }
    let mut value: u64 = 0;
    let mut k: usize = start;
    while k < s.len()
        invariant
            start <= k <= s@.len(),
            d == s@.skip(start as int),
            d == unsigned_part(s@),
            forall|j: int| 0 <= j < d.len() ==> is_digit(#[trigger] d[j]),
            value == digits_value(d.take(k - start)),
        decreases s@.len() - k,
    {
        assert(d[k - start] == s@[k as int]);
        assert(is_digit(d[k - start]));
        let digit: u64 = ((s[k] as u32) - 48) as u64;
        proof {
            assert(d.take(k - start + 1).drop_last() =~= d.take(k - start));
            assert(d.take(k - start + 1).last() == s@[k as int]);
        }
        if value > (u64::MAX - digit) / 10 {
            proof {
                lemma_digits_value_monotone(d, k - start + 1);
                assert(digits_value(d.take(k - start + 1)) == value * 10 + digit);
                assert(value * 10 + digit > u64::MAX) by (nonlinear_arith)
                    requires
                        value > (u64::MAX - digit) / 10,
                        digit <= 9,
                ;
            }
            assert(all_digits(d));
            return None;
        }
        assert(value * 10 + digit <= u64::MAX) by (nonlinear_arith)
            requires
                value <= (u64::MAX - digit) / 10,
                digit <= 9,
        ;
        value = value * 10 + digit;
        k = k + 1;
    }
    assert(d.take(d.len() as int) =~= d);
    Some(value)
}

/// A line without its terminator: a `\r` before the `\n` goes too.
pub open spec fn strip_cr(l: Seq<char>) -> Seq<char> {
    if l.len() > 0 && l.last() == '\r' {
        l.drop_last()
    } else {
        l
    }
}

/// The lines of `s`, as `str::lines` gives them: split after each `\n`,
/// which is removed together with a `\r` just before it; no empty line
/// after a final `\n`.
pub open spec fn lines(s: Seq<char>) -> Seq<Seq<char>>
    decreases s.len(),
{
    if s.len() == 0 {
        Seq::empty()
    } else {
        match find_from(s, seq!['\n'], 0) {
            None => seq![s],
            Some(i) => {
                proof {
                    lemma_find_from(s, seq!['\n'], 0);
                }
                seq![strip_cr(s.subrange(0, i))] + lines(s.subrange(i + 1, s.len() as int))
            },
        }
    }
}

/// The views of a list of character vectors.
pub open spec fn char_vec_views(v: Seq<Vec<char>>) -> Seq<Seq<char>> {
    v.map_values(|x: Vec<char>| x@)
}

/// The lines of `s`.
pub fn lines_exec(s: &Vec<char>) -> (r: Vec<Vec<char>>)
    ensures
        char_vec_views(r@) == lines(s@),
{
    let mut out: Vec<Vec<char>> = Vec::new();
    let mut start: usize = 0;
    assert(s@.subrange(0, s@.len() as int) =~= s@);
    assert(char_vec_views(out@) =~= Seq::<Seq<char>>::empty());
    while start < s.len()
        invariant
            start <= s@.len(),
            char_vec_views(out@) + lines(s@.subrange(start as int, s@.len() as int)) == lines(s@),
        decreases s@.len() - start,
    {
        let ghost rest = s@.subrange(start as int, s@.len() as int);
        let ghost before = out@;
        let mut i: usize = start;
        while i < s.len() && s[i] != '\n'
            invariant
                start <= i <= s@.len(),
                forall|j: int| start <= j < i ==> s@[j] != '\n',
            decreases s@.len() - i,
        {
            i = i + 1;
        }
        proof {
            assert forall|j: int| 0 <= j < i - start implies !occurs_at(rest, seq!['\n'], j) by {
                if occurs_at(rest, seq!['\n'], j) {
                    assert(rest.subrange(j, j + 1)[0] == rest[j]);
                    assert(rest[j] == s@[start + j]);
                }
            }
            lemma_find_from(rest, seq!['\n'], 0);
        }
        let mut line = subvec(s, start, i);
        if i < s.len() {
            proof {
                assert(rest.subrange(i - start, i - start + 1) =~= seq!['\n']);
                assert(occurs_at(rest, seq!['\n'], i - start));
                assert(find_from(rest, seq!['\n'], 0) == Some(i - start));
                assert(rest.subrange(0, i - start) =~= s@.subrange(start as int, i as int));
                assert(rest.subrange(i - start + 1, rest.len() as int) =~= s@.subrange(
                    i + 1,
                    s@.len() as int,
                ));
            }
            let ghost raw = line@;
            if line.len() > 0 && line[line.len() - 1] == '\r' {
                line.pop();
            }
            assert(line@ == strip_cr(raw));
            out.push(line);
            proof {
                assert(char_vec_views(out@) =~= char_vec_views(before).push(strip_cr(raw)));
                assert(lines(rest) == seq![strip_cr(raw)] + lines(
                    s@.subrange(i + 1, s@.len() as int),
                ));
                assert(char_vec_views(out@) + lines(s@.subrange(i + 1, s@.len() as int))
                    =~= char_vec_views(before) + lines(rest));
            }
            start = i + 1;
        } else {
            proof {
                assert(find_from(rest, seq!['\n'], 0) is None);
                assert(rest =~= line@);
                assert(lines(rest) == seq![rest]);
            }
            out.push(line);
            proof {
                assert(char_vec_views(out@) =~= char_vec_views(before).push(rest));
                assert(s@.subrange(s@.len() as int, s@.len() as int) =~= Seq::<char>::empty());
                assert(char_vec_views(out@) + lines(s@.subrange(s@.len() as int, s@.len() as int))
                    =~= char_vec_views(before) + lines(rest));
            }
            start = s.len();
        }
    }
    proof {
        assert(s@.subrange(start as int, s@.len() as int) =~= Seq::<char>::empty());
        assert(char_vec_views(out@) + lines(Seq::<char>::empty()) =~= char_vec_views(out@));
    }
    out
}

} // verus!
