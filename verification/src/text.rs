//! Text as sequences of characters: searching, trimming, splitting, replacing
//! and the decimal notation of integers.

use vstd::prelude::*;
use vstd::string::*;

verus! {

/// The characters that Unicode gives the property `White_Space`.
pub open spec fn is_white_space(c: char) -> bool {
    ||| '\u{9}' <= c <= '\u{d}'
    ||| c == ' '
    ||| c == '\u{85}'
    ||| c == '\u{a0}'
    ||| c == '\u{1680}'
    ||| '\u{2000}' <= c <= '\u{200a}'
    ||| c == '\u{2028}'
    ||| c == '\u{2029}'
    ||| c == '\u{202f}'
    ||| c == '\u{205f}'
    ||| c == '\u{3000}'
}

/// The decimal digits `0` to `9`.
pub open spec fn is_digit(c: char) -> bool {
    '0' <= c <= '9'
}

/// Whether `p` stands in `s` at position `i`.
pub open spec fn occurs_at(s: Seq<char>, p: Seq<char>, i: int) -> bool {
    0 <= i && i + p.len() <= s.len() && s.subrange(i, i + p.len()) == p
}

/// Whether `p` stands somewhere in `s`.
pub open spec fn has_text(s: Seq<char>, p: Seq<char>) -> bool {
    exists|i: int| occurs_at(s, p, i)
}

/// Whether `s` begins with `p`.
pub open spec fn begins_with(s: Seq<char>, p: Seq<char>) -> bool {
    occurs_at(s, p, 0)
}

/// Whether `s` ends with `p`.
pub open spec fn finishes_with(s: Seq<char>, p: Seq<char>) -> bool {
    occurs_at(s, p, s.len() - p.len())
}

/// Which characters a trim takes off.
#[derive(Clone, Copy, Debug, PartialEq, Eq, Structural)]
pub enum TrimSet {
    /// All white space.
    WhiteSpace,
    /// One given character.
    Only(char),
}

impl TrimSet {
    /// Whether the set holds `c`.
    pub open spec fn holds(self, c: char) -> bool {
        match self {
            TrimSet::WhiteSpace => is_white_space(c),
            TrimSet::Only(only) => c == only,
        }
    }
}

/// `s` without the leading characters that lie in `set`.
pub open spec fn trimmed_start(s: Seq<char>, set: TrimSet) -> Seq<char>
    decreases s.len(),
{
    if s.len() > 0 && set.holds(s[0]) {
        trimmed_start(s.subrange(1, s.len() as int), set)
    } else {
        s
    }
}

/// `s` without the trailing characters that lie in `set`.
pub open spec fn trimmed_end(s: Seq<char>, set: TrimSet) -> Seq<char>
    decreases s.len(),
{
    if s.len() > 0 && set.holds(s[s.len() - 1]) {
        trimmed_end(s.subrange(0, s.len() - 1), set)
    } else {
        s
    }
}

/// `s` without the characters of `set` at both its ends.
pub open spec fn trimmed(s: Seq<char>, set: TrimSet) -> Seq<char> {
    trimmed_end(trimmed_start(s, set), set)
}

/// The position of the first `c` in `s`, or the length of `s` if there is none.
pub open spec fn first_position(s: Seq<char>, c: char) -> int
    decreases s.len(),
{
    if s.len() == 0 || s[0] == c {
        0
    } else {
        1 + first_position(s.subrange(1, s.len() as int), c)
    }
}

/// A character that a text does not hold has no position in it.
pub proof fn lemma_no_position(s: Seq<char>, c: char)
    requires
        !s.contains(c),
    ensures
        first_position(s, c) == s.len(),
    decreases s.len(),
{
    if s.len() > 0 {
        let rest = s.subrange(1, s.len() as int);
        assert(s.contains(s[0]));
        assert forall|x: char| rest.contains(x) implies s.contains(x) by {
            let i = choose|i: int| 0 <= i < rest.len() && rest[i] == x;
            assert(s[i + 1] == x);
        }
        lemma_no_position(rest, c);
    }
}

/// The first `c` behind a text that holds none stands right behind it.
pub proof fn lemma_position_behind(a: Seq<char>, c: char, b: Seq<char>)
    requires
        !a.contains(c),
    ensures
        first_position(a + seq![c] + b, c) == a.len(),
    decreases a.len(),
{
    let whole = a + seq![c] + b;
    if a.len() > 0 {
        let rest = a.subrange(1, a.len() as int);
        assert(a.contains(a[0]));
        assert forall|x: char| rest.contains(x) implies a.contains(x) by {
            let i = choose|i: int| 0 <= i < rest.len() && rest[i] == x;
            assert(a[i + 1] == x);
        }
        lemma_position_behind(rest, c, b);
        assert(whole.subrange(1, whole.len() as int) =~= rest + seq![c] + b);
        assert(whole[0] == a[0]);
    } else {
        assert(whole[0] == c);
    }
}

/// The `n`-th of the pieces into which the separator `sep` cuts `s`, counted from zero.
pub open spec fn piece(s: Seq<char>, sep: char, n: nat) -> Option<Seq<char>>
    decreases n,
{
    let at = first_position(s, sep);
    if n == 0 {
        Some(s.subrange(0, at))
    } else if at == s.len() {
        None
    } else {
        piece(s.subrange(at + 1, s.len() as int), sep, (n - 1) as nat)
    }
}

/// `s` with each occurrence of `from`, taken from the left, replaced by `to`.
/// An empty `from` occurs nowhere.
pub open spec fn replaced(s: Seq<char>, from: Seq<char>, to: Seq<char>) -> Seq<char>
    decreases s.len(),
{
    if s.len() == 0 || from.len() == 0 {
        s
    } else if begins_with(s, from) {
        to + replaced(s.subrange(from.len() as int, s.len() as int), from, to)
    } else {
        seq![s[0]] + replaced(s.subrange(1, s.len() as int), from, to)
    }
}

/// The digits of `s`, in their order, without the characters that are none.
pub open spec fn digits_only(s: Seq<char>) -> Seq<char> {
    s.filter(|c: char| is_digit(c))
}

/// The digit that stands for `n`, which is below ten.
pub open spec fn digit_char(n: nat) -> char {
    if n == 0 {
        '0'
    } else if n == 1 {
        '1'
    } else if n == 2 {
        '2'
    } else if n == 3 {
        '3'
    } else if n == 4 {
        '4'
    } else if n == 5 {
        '5'
    } else if n == 6 {
        '6'
    } else if n == 7 {
        '7'
    } else if n == 8 {
        '8'
    } else {
        '9'
    }
}

/// The decimal notation of `n`.
pub open spec fn decimal(n: nat) -> Seq<char>
    decreases n,
{
    if n < 10 {
        seq![digit_char(n)]
    } else {
        decimal(n / 10).push(digit_char(n % 10))
    }
}

/// The number that a row of digits denotes.
pub open spec fn denoted(s: Seq<char>) -> nat
    decreases s.len(),
{
    if s.len() == 0 {
        0
    } else {
        denoted(s.drop_last()) * 10 + (s.last() as nat - '0' as nat) as nat
    }
}

/// Whether every character of `s` is a digit.
pub open spec fn all_digits(s: Seq<char>) -> bool {
    forall|i: int| 0 <= i < s.len() ==> is_digit(#[trigger] s[i])
}

/// `s` without one leading plus sign.
pub open spec fn unsigned_part(s: Seq<char>) -> Seq<char> {
    if s.len() > 0 && s[0] == '+' {
        s.subrange(1, s.len() as int)
    } else {
        s
    }
}

/// The number of at most `max` that `s` writes out: an optional plus sign and
/// then digits, at least one.
pub open spec fn parsed(s: Seq<char>, max: nat) -> Option<nat> {
    let body = unsigned_part(s);
    if body.len() > 0 && all_digits(body) && denoted(body) <= max {
        Some(denoted(body))
    } else {
        None
    }
}

/// Puts one character at the end of a text, as `String::push` does.
#[verifier::external_body]
fn push_char(text: &mut String, c: char)
    ensures
        final(text)@ == old(text)@.push(c),
{
    text.push(c)
}

/// The characters of a text in their order.
pub fn chars_of(s: &str) -> (v: Vec<char>)
    ensures
        v@ == s@,
{
    let mut v: Vec<char> = Vec::new();
    for c in it: s.chars()
        invariant
            v@ == it.seq().take(it.index()),
            it.seq() == s@,
    {
        v.push(c);
    }
    v
}

/// The text that the characters from `from` up to, but not including, `to` make.
pub fn text_between(v: &Vec<char>, from: usize, to: usize) -> (s: String)
    requires
        from <= to <= v@.len(),
    ensures
        s@ == v@.subrange(from as int, to as int),
{
    let mut s: String = String::new();
    let mut i: usize = from;
    while i < to
        invariant
            from <= i <= to <= v@.len(),
            s@ == v@.subrange(from as int, i as int),
        decreases to - i,
    {
        push_char(&mut s, v[i]);
        i = i + 1;
    }
    s
}

/// The text that a row of characters makes.
pub fn text_of(v: &Vec<char>) -> (s: String)
    ensures
        s@ == v@,
{
    text_between(v, 0, v.len())
}

/// Whether `p` stands in `v` at position `i`.
pub fn stands_at(v: &Vec<char>, p: &Vec<char>, i: usize) -> (r: bool)
    ensures
        r == occurs_at(v@, p@, i as int),
{
    if i > v.len() || p.len() > v.len() - i {
        return false;
    }
    let mut k: usize = 0;
    while k < p.len()
        invariant
            i + p@.len() <= v@.len() <= usize::MAX,
            k <= p@.len(),
            forall|j: int| 0 <= j < k ==> v@[i + j] == p@[j],
        decreases p@.len() - k,
    {
        if v[i + k] != p[k] {
            assert(v@.subrange(i as int, i + p@.len())[k as int] != p@[k as int]);
            return false;
        }
        k = k + 1;
    }
    assert(v@.subrange(i as int, i + p@.len()) =~= p@);
    true
}

/// Whether two texts are the same, character for character.
pub fn same_text(a: &str, b: &str) -> (r: bool)
    ensures
        r == (a@ == b@),
{
    let x: Vec<char> = chars_of(a);
    let y: Vec<char> = chars_of(b);
    if x.len() != y.len() {
        return false;
    }
    let r: bool = stands_at(&x, &y, 0);
    assert(x@.subrange(0, x@.len() as int) =~= x@);
    r
}

/// Whether `s` begins with `p`.
pub fn starts_with(s: &str, p: &str) -> (r: bool)
    ensures
        r == begins_with(s@, p@),
{
    stands_at(&chars_of(s), &chars_of(p), 0)
}

/// Whether `s` ends with `p`.
pub fn ends_with(s: &str, p: &str) -> (r: bool)
    ensures
        r == finishes_with(s@, p@),
{
    let v: Vec<char> = chars_of(s);
    let q: Vec<char> = chars_of(p);
    if q.len() > v.len() {
        return false;
    }
    stands_at(&v, &q, v.len() - q.len())
}

/// Whether `p` stands somewhere in `s`.
pub fn contains(s: &str, p: &str) -> (r: bool)
    ensures
        r == has_text(s@, p@),
{
    let v: Vec<char> = chars_of(s);
    let q: Vec<char> = chars_of(p);
    let mut i: usize = 0;
    while i < v.len()
        invariant
            v@ == s@,
            q@ == p@,
            i <= v@.len(),
            forall|k: int| 0 <= k < i ==> !occurs_at(v@, q@, k),
        decreases v@.len() - i,
    {
        if stands_at(&v, &q, i) {
            return true;
        }
        i = i + 1;
    }
    stands_at(&v, &q, i)
}

/// Whether one of `names` is the text `s`.
pub fn is_one_of(s: &str, names: &[&str]) -> (r: bool)
    ensures
        r == exists|i: int| 0 <= i < names@.len() && (#[trigger] names@[i])@ == s@,
{
    let mut i: usize = 0;
    while i < names.len()
        invariant
            i <= names@.len(),
            forall|k: int| 0 <= k < i ==> (#[trigger] names@[k])@ != s@,
        decreases names@.len() - i,
    {
        if same_text(names[i], s) {
            assert(names@[i as int]@ == s@);
            return true;
        }
        i = i + 1;
    }
    false
}

/// Whether one of `needles` stands somewhere in `s`.
pub fn contains_any(s: &str, needles: &[&str]) -> (r: bool)
    ensures
        r == exists|i: int| 0 <= i < needles@.len() && has_text(s@, (#[trigger] needles@[i])@),
{
    let mut i: usize = 0;
    while i < needles.len()
        invariant
            i <= needles@.len(),
            forall|k: int| 0 <= k < i ==> !has_text(s@, (#[trigger] needles@[k])@),
        decreases needles@.len() - i,
    {
        if contains(s, needles[i]) {
            assert(has_text(s@, needles@[i as int]@));
            return true;
        }
        i = i + 1;
    }
    false
}

/// Whether `c` is white space.
pub fn is_space(c: char) -> (r: bool)
    ensures
        r == is_white_space(c),
{
    ('\u{9}' <= c && c <= '\u{d}') || c == ' ' || c == '\u{85}' || c == '\u{a0}' || c
        == '\u{1680}' || ('\u{2000}' <= c && c <= '\u{200a}') || c == '\u{2028}' || c
        == '\u{2029}' || c == '\u{202f}' || c == '\u{205f}' || c == '\u{3000}'
}

impl TrimSet {
    /// Whether a trim takes `c` off.
    pub fn takes(self, c: char) -> (r: bool)
        ensures
            r == self.holds(c),
    {
        match self {
            TrimSet::WhiteSpace => is_space(c),
            TrimSet::Only(only) => c == only,
        }
    }
}

/// `s` without the characters of `set` at both its ends.
pub fn trim_set(s: &str, set: TrimSet) -> (r: String)
    ensures
        r@ == trimmed(s@, set),
{
    let v: Vec<char> = chars_of(s);
    let mut from: usize = 0;
    assert(v@.subrange(0, v@.len() as int) =~= v@);
    while from < v.len() && set.takes(v[from])
        invariant
            from <= v@.len(),
            trimmed_start(v@, set) == trimmed_start(v@.subrange(from as int, v@.len() as int), set),
        decreases v@.len() - from,
    {
        let ghost rest = v@.subrange(from as int, v@.len() as int);
        assert(rest[0] == v@[from as int]);
        assert(rest.subrange(1, rest.len() as int) =~= v@.subrange(from + 1, v@.len() as int));
        from = from + 1;
    }
    let ghost rest = v@.subrange(from as int, v@.len() as int);
    assert(from < v@.len() ==> rest[0] == v@[from as int]);
    assert(trimmed_start(v@, set) == rest);
    let mut to: usize = v.len();
    while from < to && set.takes(v[to - 1])
        invariant
            from <= to <= v@.len(),
            trimmed_end(rest, set) == trimmed_end(v@.subrange(from as int, to as int), set),
        decreases to,
    {
        let ghost part = v@.subrange(from as int, to as int);
        assert(part[part.len() - 1] == v@[to - 1]);
        assert(part.subrange(0, part.len() - 1) =~= v@.subrange(from as int, to - 1));
        to = to - 1;
    }
    let ghost part = v@.subrange(from as int, to as int);
    assert(from < to ==> part[part.len() - 1] == v@[to - 1]);
    text_between(&v, from, to)
}

/// `s` without the white space at both its ends.
pub fn trim(s: &str) -> (r: String)
    ensures
        r@ == trimmed(s@, TrimSet::WhiteSpace),
{
    trim_set(s, TrimSet::WhiteSpace)
}

/// The position of the first `c` in `v` at or after `from`, or the length of `v`.
pub fn find_from(v: &Vec<char>, c: char, from: usize) -> (at: usize)
    requires
        from <= v@.len(),
    ensures
        from <= at <= v@.len(),
        at == from + first_position(v@.subrange(from as int, v@.len() as int), c),
        at < v@.len() ==> v@[at as int] == c,
{
    let mut at: usize = from;
    while at < v.len() && v[at] != c
        invariant
            from <= at <= v@.len(),
            from + first_position(v@.subrange(from as int, v@.len() as int), c) == at
                + first_position(v@.subrange(at as int, v@.len() as int), c),
        decreases v@.len() - at,
    {
        let ghost rest = v@.subrange(at as int, v@.len() as int);
        assert(rest.subrange(1, rest.len() as int) =~= v@.subrange(at + 1, v@.len() as int));
        assert(rest[0] == v@[at as int]);
        at = at + 1;
    }
    assert(at < v@.len() ==> v@.subrange(at as int, v@.len() as int)[0] == v@[at as int]);
    at
}

/// The `n`-th of the pieces into which `sep` cuts `s`, counted from zero.
pub fn nth_piece(s: &str, sep: char, n: usize) -> (r: Option<String>)
    ensures
        r is Some == piece(s@, sep, n as nat) is Some,
        r matches Some(t) ==> Some(t@) == piece(s@, sep, n as nat),
{
    let v: Vec<char> = chars_of(s);
    let mut from: usize = 0;
    let mut left: usize = n;
    assert(v@.subrange(0, v@.len() as int) =~= v@);
    while left > 0
        invariant
            v@ == s@,
            from <= v@.len(),
            piece(s@, sep, n as nat) == piece(
                v@.subrange(from as int, v@.len() as int),
                sep,
                left as nat,
            ),
        decreases left,
    {
        let ghost rest = v@.subrange(from as int, v@.len() as int);
        let at: usize = find_from(&v, sep, from);
        if at == v.len() {
            return None;
        }
        assert(rest.subrange(at - from + 1, rest.len() as int) =~= v@.subrange(
            at + 1,
            v@.len() as int,
        ));
        from = at + 1;
        left = left - 1;
    }
    let at: usize = find_from(&v, sep, from);
    let ghost rest = v@.subrange(from as int, v@.len() as int);
    assert(rest.subrange(0, at - from) =~= v@.subrange(from as int, at as int));
    Some(text_between(&v, from, at))
}

/// `s` with each occurrence of `from`, taken from the left, replaced by `to`.
pub fn replace(s: &str, from: &str, to: &str) -> (r: String)
    requires
        from@.len() > 0,
    ensures
        r@ == replaced(s@, from@, to@),
{
    let v: Vec<char> = chars_of(s);
    let p: Vec<char> = chars_of(from);
    let mut out: String = String::new();
    let mut i: usize = 0;
    assert(v@.subrange(0, v@.len() as int) =~= v@);
    assert(out@ + replaced(s@, from@, to@) =~= replaced(s@, from@, to@));
    while i < v.len()
        invariant
            v@ == s@,
            p@ == from@,
            p@.len() > 0,
            i <= v@.len(),
            replaced(s@, from@, to@) == out@ + replaced(
                v@.subrange(i as int, v@.len() as int),
                from@,
                to@,
            ),
        decreases v@.len() - i,
    {
        let ghost rest = v@.subrange(i as int, v@.len() as int);
        let ghost before = out@;
        let here: bool = stands_at(&v, &p, i);
        proof {
            assert(here == begins_with(rest, from@)) by {
                if i + p@.len() <= v@.len() {
                    assert(rest.subrange(0, p@.len() as int) =~= v@.subrange(
                        i as int,
                        i + p@.len(),
                    ));
                }
            }
        }
        if here {
            out.append(to);
            assert(rest.subrange(p@.len() as int, rest.len() as int) =~= v@.subrange(
                i + p@.len(),
                v@.len() as int,
            ));
            i = i + p.len();
            assert(before + (to@ + replaced(v@.subrange(i as int, v@.len() as int), from@, to@))
                =~= out@ + replaced(v@.subrange(i as int, v@.len() as int), from@, to@));
        } else {
            push_char(&mut out, v[i]);
            assert(rest.subrange(1, rest.len() as int) =~= v@.subrange(i + 1, v@.len() as int));
            i = i + 1;
            assert(before + (seq![rest[0]] + replaced(
                v@.subrange(i as int, v@.len() as int),
                from@,
                to@,
            )) =~= out@ + replaced(v@.subrange(i as int, v@.len() as int), from@, to@));
        }
    }
    assert(out@ + replaced(v@.subrange(i as int, v@.len() as int), from@, to@) =~= out@);
    out
}

/// The digits of `s`, in their order.
pub fn keep_digits(s: &str) -> (r: String)
    ensures
        r@ == digits_only(s@),
{
    let v: Vec<char> = chars_of(s);
    let mut out: String = String::new();
    let mut i: usize = 0;
    let ghost test = |c: char| is_digit(c);
    assert(v@.take(0).filter(test) =~= Seq::<char>::empty()) by {
        reveal(Seq::filter);
    }
    while i < v.len()
        invariant
            v@ == s@,
            i <= v@.len(),
            test == (|c: char| is_digit(c)),
            out@ == v@.take(i as int).filter(test),
        decreases v@.len() - i,
    {
        proof {
            reveal(Seq::filter);
            assert(v@.take(i + 1).drop_last() =~= v@.take(i as int));
            assert(v@.take(i + 1).last() == v@[i as int]);
        }
        if '0' <= v[i] && v[i] <= '9' {
            push_char(&mut out, v[i]);
        }
        i = i + 1;
    }
    assert(v@.take(i as int) =~= s@);
    out
}

/// The digit that stands for `n`.
fn digit_of(n: u64) -> (c: char)
    requires
        n < 10,
    ensures
        c == digit_char(n as nat),
{
    match n {
        0 => '0',
        1 => '1',
        2 => '2',
        3 => '3',
        4 => '4',
        5 => '5',
        6 => '6',
        7 => '7',
        8 => '8',
        _ => '9',
    }
}

/// The decimal notation of `n`.
pub fn decimal_text(n: u64) -> (r: String)
    ensures
        r@ == decimal(n as nat),
    decreases n,
{
    if n < 10 {
        let mut r: String = String::new();
        push_char(&mut r, digit_of(n));
        assert(r@ =~= seq![digit_char(n as nat)]);
        r
    } else {
        let mut r: String = decimal_text(n / 10);
        push_char(&mut r, digit_of(n % 10));
        r
    }
}

/// The value of the digit `c`.
fn digit_value(c: char) -> (n: u64)
    requires
        is_digit(c),
    ensures
        n == c as nat - '0' as nat,
{
    c as u64 - '0' as u64
}

/// Further digits never make the denoted number smaller.
proof fn lemma_denoted_grows(s: Seq<char>, i: int)
    requires
        0 <= i <= s.len(),
    ensures
        denoted(s.take(i)) <= denoted(s),
    decreases s.len() - i,
{
    if i < s.len() {
        lemma_denoted_grows(s, i + 1);
        assert(s.take(i + 1).drop_last() =~= s.take(i));
    } else {
        assert(s.take(i) =~= s);
    }
}

/// Reads an unsigned number of at most `max`, as the decimal parsers of the
/// integer types do.
pub fn parse_up_to(s: &str, max: u64) -> (r: Option<u64>)
    ensures
        r is Some == parsed(s@, max as nat) is Some,
        r matches Some(n) ==> Some(n as nat) == parsed(s@, max as nat),
{
    let v: Vec<char> = chars_of(s);
    let from: usize = if v.len() > 0 && v[0] == '+' {
        1
    } else {
        0
    };
    let ghost body = unsigned_part(s@);
    assert(body =~= v@.subrange(from as int, v@.len() as int));
    if from == v.len() {
        return None;
    }
    let mut n: u64 = 0;
    let mut i: usize = from;
    while i < v.len()
        invariant
            v@ == s@,
            from <= i <= v@.len(),
            body == v@.subrange(from as int, v@.len() as int),
            body == unsigned_part(s@),
            n == denoted(body.take(i - from)),
            n <= max,
            forall|k: int| from <= k < i ==> is_digit(#[trigger] v@[k]),
        decreases v@.len() - i,
    {
        let c: char = v[i];
        assert(body[i - from] == c);
        if !('0' <= c && c <= '9') {
            assert(!all_digits(body));
            return None;
        }
        proof {
            assert(body.take(i - from + 1).drop_last() =~= body.take(i - from));
            assert(body.take(i - from + 1).last() == c);
            lemma_denoted_grows(body, i - from + 1);
        }
        let d: u64 = digit_value(c);
        if n > max / 10 || d > max - n * 10 {
            return None;
        }
        n = n * 10 + d;
        i = i + 1;
    }
    assert(body.take(i - from) =~= body);
    assert forall|k: int| 0 <= k < body.len() implies is_digit(#[trigger] body[k]) by {
        assert(is_digit(v@[from + k]));
    }
    Some(n)
}

/// What a text holds that may be missing.
pub open spec fn text_option(t: Option<String>) -> Option<Seq<char>> {
    match t {
        Some(s) => Some(s@),
        None => None,
    }
}

/// What a list of texts says.
pub open spec fn texts_view(texts: Seq<String>) -> Seq<Seq<char>> {
    texts.map_values(|t: String| t@)
}

/// Whether a text is empty.
pub fn is_empty(s: &str) -> (r: bool)
    ensures
        r == (s@.len() == 0),
{
    proof {
        reveal_strlit("");
        assert(s@.len() == 0 ==> s@ =~= ""@);
    }
    same_text(s, "")
}

/// The two texts one after the other.
pub fn cat(a: &str, b: &str) -> (r: String)
    ensures
        r@ == a@ + b@,
{
    let r: String = a.to_owned();
    r.concat(b)
}

/// What `str::to_lowercase` makes of a text: the lower case of each character by
/// the Unicode tables.
pub uninterp spec fn lowercased(s: Seq<char>) -> Seq<char>;

/// Whether a text holds no character beyond ASCII.
pub open spec fn is_ascii_text(s: Seq<char>) -> bool {
    forall|i: int| 0 <= i < s.len() ==> (#[trigger] s[i]) as u32 <= 127
}

/// The lower case of a character of ASCII.
pub open spec fn ascii_lower(c: char) -> char {
    if 'A' <= c <= 'Z' {
        (c as u32 + 32) as char
    } else {
        c
    }
}

/// A text in lower case: letter by letter where it is ASCII, by the Unicode tables where it
/// is not.
pub open spec fn lower_case(s: Seq<char>) -> Seq<char> {
    if is_ascii_text(s) {
        s.map_values(|c: char| ascii_lower(c))
    } else {
        lowercased(s)
    }
}

/// `str::to_lowercase`. Its result depends on the text alone. In a text of ASCII the letters
/// from `A` to `Z` become those from `a` to `z`, and the rest stays; what comes of other
/// texts is named, not described.
#[verifier::external_body]
pub(crate) fn lowercase(s: &str) -> (r: String)
    ensures
        r@ == lowercased(s@),
        is_ascii_text(s@) ==> r@ == s@.map_values(|c: char| ascii_lower(c)),
{
    s.to_lowercase()
}

/// Whether Unicode counts a character among the letters and numbers, as
/// `char::is_alphanumeric` tells.
pub uninterp spec fn alphanumeric(c: char) -> bool;

/// `char::is_alphanumeric`. Its result depends on the character alone.
#[verifier::external_body]
pub(crate) fn is_alphanumeric(c: char) -> (r: bool)
    ensures
        r == alphanumeric(c),
{
    c.is_alphanumeric()
}

/// `s` with an underscore in the place of each character that is neither a
/// letter nor a number.
pub open spec fn sanitised(s: Seq<char>) -> Seq<char> {
    s.map_values(
        |c: char|
            if alphanumeric(c) {
                c
            } else {
                '_'
            },
    )
}

/// Makes a text fit for the name of a pipeline element.
pub fn sanitise(s: &str) -> (r: String)
    ensures
        r@ == sanitised(s@),
{
    let v: Vec<char> = chars_of(s);
    let mut out: String = String::new();
    let mut i: usize = 0;
    while i < v.len()
        invariant
            v@ == s@,
            i <= v@.len(),
            out@.len() == i,
            forall|k: int| 0 <= k < i ==> out@[k] == sanitised(s@)[k],
        decreases v@.len() - i,
    {
        if is_alphanumeric(v[i]) {
            push_char(&mut out, v[i]);
        } else {
            push_char(&mut out, '_');
        }
        i = i + 1;
    }
    assert(out@ =~= sanitised(s@));
    out
}

/// A text that does not hold the first character of what is looked for is not changed.
pub proof fn law_nothing_to_replace(s: Seq<char>, from: Seq<char>, to: Seq<char>)
    requires
        from.len() > 0,
        !s.contains(from[0]),
    ensures
        replaced(s, from, to) == s,
    decreases s.len(),
{
    if s.len() > 0 {
        assert(s.contains(s[0]));
        if begins_with(s, from) {
            assert(s.subrange(0, from.len() as int)[0] == s[0]);
        }
        let rest = s.subrange(1, s.len() as int);
        assert forall|c: char| rest.contains(c) implies s.contains(c) by {
            let i = choose|i: int| 0 <= i < rest.len() && rest[i] == c;
            assert(s[i + 1] == c);
        }
        law_nothing_to_replace(rest, from, to);
        assert(seq![s[0]] + rest =~= s);
    }
}

/// What is looked for is replaced where it first stands, what stands before it is kept, and
/// what follows is replaced in its turn.
pub proof fn law_replaces_where_it_stands(
    a: Seq<char>,
    from: Seq<char>,
    b: Seq<char>,
    to: Seq<char>,
)
    requires
        from.len() > 0,
        !a.contains(from[0]),
    ensures
        replaced(a + from + b, from, to) == a + to + replaced(b, from, to),
    decreases a.len(),
{
    let whole = a + from + b;
    if a.len() == 0 {
        assert(whole.subrange(0, from.len() as int) =~= from);
        assert(whole.subrange(from.len() as int, whole.len() as int) =~= b);
        assert(a + to =~= to);
    } else {
        let rest = a.subrange(1, a.len() as int);
        assert(a.contains(a[0]));
        if begins_with(whole, from) {
            assert(whole.subrange(0, from.len() as int)[0] == whole[0]);
        }
        assert forall|c: char| rest.contains(c) implies a.contains(c) by {
            let i = choose|i: int| 0 <= i < rest.len() && rest[i] == c;
            assert(a[i + 1] == c);
        }
        assert(whole.subrange(1, whole.len() as int) =~= rest + from + b);
        law_replaces_where_it_stands(rest, from, b, to);
        assert(seq![a[0]] + (rest + to + replaced(b, from, to)) =~= a + to + replaced(b, from, to));
    }
}

proof fn lemma_trimmed_start(s: Seq<char>, set: TrimSet) -> (n: int)
    ensures
        0 <= n <= s.len(),
        trimmed_start(s, set) == s.subrange(n, s.len() as int),
        forall|i: int| 0 <= i < n ==> set.holds(#[trigger] s[i]),
        n < s.len() ==> !set.holds(s[n]),
    decreases s.len(),
{
    if s.len() > 0 && set.holds(s[0]) {
        let rest = s.subrange(1, s.len() as int);
        let n = lemma_trimmed_start(rest, set);
        assert(rest.subrange(n, rest.len() as int) =~= s.subrange(n + 1, s.len() as int));
        assert forall|i: int| 0 <= i < n + 1 implies set.holds(#[trigger] s[i]) by {
            if i > 0 {
                assert(rest[i - 1] == s[i]);
            }
        }
        n + 1
    } else {
        assert(s.subrange(0, s.len() as int) =~= s);
        0
    }
}

proof fn lemma_trimmed_end(s: Seq<char>, set: TrimSet) -> (n: int)
    ensures
        0 <= n <= s.len(),
        trimmed_end(s, set) == s.subrange(0, n),
        forall|i: int| n <= i < s.len() ==> set.holds(#[trigger] s[i]),
        n > 0 ==> !set.holds(s[n - 1]),
    decreases s.len(),
{
    if s.len() > 0 && set.holds(s[s.len() - 1]) {
        let rest = s.subrange(0, s.len() - 1);
        let n = lemma_trimmed_end(rest, set);
        assert(rest.subrange(0, n) =~= s.subrange(0, n));
        assert forall|i: int| n <= i < s.len() implies set.holds(#[trigger] s[i]) by {
            if i < s.len() - 1 {
                assert(rest[i] == s[i]);
            }
        }
        n
    } else {
        assert(s.subrange(0, s.len() as int) =~= s);
        s.len() as int
    }
}

/// Trimming takes off characters of the set at both ends, all of them, and nothing else: what
/// is left lies together in the text, begins and ends with a character that is not of the set,
/// and everything before and behind it is of the set.
pub proof fn law_trim_takes_off_both_ends(s: Seq<char>, set: TrimSet)
    ensures
        exists|i: int, j: int|
            0 <= i <= j <= s.len() && trimmed(s, set) == #[trigger] s.subrange(i, j) && (forall|
                k: int,
            |
                0 <= k < i || j <= k < s.len() ==> set.holds(#[trigger] s[k])),
        trimmed(s, set).len() > 0 ==> !set.holds(trimmed(s, set)[0]) && !set.holds(
            trimmed(s, set).last(),
        ),
{
    let i = lemma_trimmed_start(s, set);
    let rest = s.subrange(i, s.len() as int);
    let n = lemma_trimmed_end(rest, set);
    assert(rest.subrange(0, n) =~= s.subrange(i, i + n));
    assert forall|k: int| 0 <= k < i || i + n <= k < s.len() implies set.holds(
        #[trigger] s[k],
    ) by {
        if k >= i + n {
            assert(rest[k - i] == s[k]);
        }
    }
}

/// The decimal notation of a number is read back as that number: it is made of digits, has no
/// needless zero in front, and denotes what it was made from.
pub proof fn law_decimal_is_read_back(n: nat, max: nat)
    ensures
        all_digits(decimal(n)),
        decimal(n).len() > 0,
        n > 0 ==> decimal(n)[0] != '0',
        denoted(decimal(n)) == n,
        n <= max ==> parsed(decimal(n), max) == Some(n),
        n > max ==> parsed(decimal(n), max) is None,
    decreases n,
{
    let d = decimal(n);
    if n >= 10 {
        law_decimal_is_read_back(n / 10, max);
        assert(d.drop_last() =~= decimal(n / 10));
        assert(d.last() == digit_char(n % 10));
        assert(d[0] == decimal(n / 10)[0]);
        assert forall|i: int| 0 <= i < d.len() implies is_digit(#[trigger] d[i]) by {
            if i < d.len() - 1 {
                assert(decimal(n / 10)[i] == d[i]);
            }
        }
    } else {
        assert(d.drop_last() =~= Seq::<char>::empty());
        assert(denoted(Seq::<char>::empty()) == 0);
    }
    assert(is_digit(d[0]));
}

/// Two numbers with the same notation are the same.
pub proof fn law_decimals_differ(m: nat, n: nat)
    requires
        decimal(m) == decimal(n),
    ensures
        m == n,
{
    law_decimal_is_read_back(m, m);
    law_decimal_is_read_back(n, n);
}

/// A text that stands between some beginning and some end is found there.
pub proof fn law_text_is_found_where_it_stands(a: Seq<char>, p: Seq<char>, b: Seq<char>)
    ensures
        has_text(a + p + b, p),
        begins_with(p + b, p),
        finishes_with(a + p, p),
{
    assert((a + p + b).subrange(a.len() as int, (a.len() + p.len()) as int) =~= p);
    assert(occurs_at(a + p + b, p, a.len() as int));
    assert((p + b).subrange(0, p.len() as int) =~= p);
    assert((a + p).subrange(a.len() as int, (a.len() + p.len()) as int) =~= p);
}

/// A text in lower case is as long as the text and holds no capital letter, where it is ASCII;
/// small letters, digits and signs stay as they are.
pub proof fn law_lower_case_of_ascii(s: Seq<char>, i: int)
    requires
        is_ascii_text(s),
        0 <= i < s.len(),
    ensures
        lower_case(s).len() == s.len(),
        !('A' <= lower_case(s)[i] <= 'Z'),
        !('A' <= s[i] <= 'Z') ==> lower_case(s)[i] == s[i],
        'A' <= s[i] <= 'Z' ==> lower_case(s)[i] as u32 == s[i] as u32 + 32,
{
}

/// A text that is found in another stands there between some beginning and some end.
pub proof fn law_found_text_stands_there(s: Seq<char>, p: Seq<char>)
    requires
        has_text(s, p),
    ensures
        exists|a: Seq<char>, b: Seq<char>| s == #[trigger] (a + p + b),
{
    let i = choose|i: int| occurs_at(s, p, i);
    let a = s.subrange(0, i);
    let b = s.subrange(i + p.len(), s.len() as int);
    assert(s.subrange(i, i + p.len()) == p);
    assert(s =~= a + p + b);
}

/// A text is cut into pieces at its separators: the first piece is what stands before the
/// first separator, and the others are the pieces of what stands behind it.
pub proof fn law_pieces_are_cut_at_the_separator(a: Seq<char>, sep: char, b: Seq<char>, n: nat)
    requires
        !a.contains(sep),
    ensures
        piece(a, sep, 0) == Some(a),
        n > 0 ==> piece(a, sep, n) is None,
        piece(a + seq![sep] + b, sep, 0) == Some(a),
        piece(a + seq![sep] + b, sep, n + 1) == piece(b, sep, n),
{
    let all = a + seq![sep] + b;
    lemma_no_position(a, sep);
    lemma_position_behind(a, sep, b);
    assert(a.subrange(0, a.len() as int) =~= a);
    assert(all.subrange(0, a.len() as int) =~= a);
    assert(all.subrange(a.len() as int + 1, all.len() as int) =~= b);
}

proof fn lemma_digits_only(s: Seq<char>)
    ensures
        (forall|i: int| 0 <= i < s.len() ==> is_digit(#[trigger] s[i])) ==> digits_only(s) == s,
        (forall|i: int| 0 <= i < s.len() ==> !is_digit(#[trigger] s[i])) ==> digits_only(s)
            == Seq::<char>::empty(),
    decreases s.len(),
{
    reveal(Seq::filter);
    if s.len() > 0 {
        lemma_digits_only(s.drop_last());
        assert(s =~= s.drop_last().push(s.last()));
        assert(is_digit(s.last()) || !is_digit(s.last()));
        if forall|i: int| 0 <= i < s.len() ==> is_digit(#[trigger] s[i]) {
            assert forall|i: int| 0 <= i < s.drop_last().len() implies is_digit(
                #[trigger] s.drop_last()[i],
            ) by {
                assert(s.drop_last()[i] == s[i]);
            }
            assert(is_digit(s[s.len() - 1]));
            assert(digits_only(s) =~= s);
        }
        if forall|i: int| 0 <= i < s.len() ==> !is_digit(#[trigger] s[i]) {
            assert forall|i: int| 0 <= i < s.drop_last().len() implies !is_digit(
                #[trigger] s.drop_last()[i],
            ) by {
                assert(s.drop_last()[i] == s[i]);
            }
            assert(!is_digit(s[s.len() - 1]));
            assert(digits_only(s) =~= Seq::<char>::empty());
        }
    } else {
        assert(digits_only(s) =~= s);
    }
}

/// Of a number with other things round it, the digits are the number.
pub proof fn law_digits_are_kept(a: Seq<char>, number: Seq<char>, b: Seq<char>)
    requires
        all_digits(number),
        forall|i: int| 0 <= i < a.len() ==> !is_digit(#[trigger] a[i]),
        forall|i: int| 0 <= i < b.len() ==> !is_digit(#[trigger] b[i]),
    ensures
        digits_only(a + number + b) == number,
{
    let keep = |c: char| is_digit(c);
    Seq::filter_distributes_over_add(a + number, b, keep);
    Seq::filter_distributes_over_add(a, number, keep);
    lemma_digits_only(a);
    lemma_digits_only(number);
    lemma_digits_only(b);
    assert(digits_only(a + number + b) =~= digits_only(a) + digits_only(number) + digits_only(b));
    assert(Seq::<char>::empty() + number + Seq::<char>::empty() =~= number);
}

/// A text without white space at its ends is left by a trim as it is.
pub proof fn law_nothing_to_trim(s: Seq<char>, set: TrimSet)
    requires
        s.len() > 0 ==> !set.holds(s[0]) && !set.holds(s.last()),
    ensures
        trimmed(s, set) == s,
{
}

/// Of a text with characters of the set round it, a trim leaves the text; of nothing but such
/// characters it leaves nothing.
pub proof fn law_trim_leaves_the_text(a: Seq<char>, s: Seq<char>, b: Seq<char>, set: TrimSet)
    requires
        forall|i: int| 0 <= i < a.len() ==> set.holds(#[trigger] a[i]),
        forall|i: int| 0 <= i < b.len() ==> set.holds(#[trigger] b[i]),
        s.len() > 0 ==> !set.holds(s[0]) && !set.holds(s.last()),
    ensures
        trimmed(a + s + b, set) == s,
{
    let whole = a + s + b;
    let n = lemma_trimmed_start(whole, set);
    let rest = whole.subrange(n, whole.len() as int);
    let m = lemma_trimmed_end(rest, set);
    if s.len() > 0 {
        assert(whole[a.len() as int] == s[0]);
        if n < a.len() {
            assert(whole[n] == a[n]);
        }
        assert(n == a.len());
        assert(rest =~= s + b);
        assert(rest[s.len() - 1] == s.last());
        if m > s.len() {
            assert(rest[m - 1] == b[m - 1 - s.len()]);
        }
        assert(m == s.len());
        assert(rest.subrange(0, m) =~= s);
    } else {
        if n < whole.len() {
            if n < a.len() {
                assert(whole[n] == a[n]);
            } else {
                assert(whole[n] == b[n - a.len()]);
            }
        }
        assert(rest.len() == 0);
        assert(rest.subrange(0, m) =~= s);
    }
}

/// White space is what Unicode has as such: the control characters from tab to carriage return,
/// the blank and its kin, and the separators of lines and paragraphs.
pub proof fn law_white_space(c: char)
    ensures
        is_white_space(c) <==> {
            let n = c as u32;
            ||| 9 <= n <= 13
            ||| n == 32 || n == 133 || n == 160 || n == 5760
            ||| 8192 <= n <= 8202
            ||| n == 8232 || n == 8233 || n == 8239 || n == 8287 || n == 12288
        },
{
}

/// A number is written with the digits of its tens and of what is left, the digit of the lowest
/// value last, and is read so.
pub proof fn law_decimal_notation(n: nat, d: nat)
    requires
        d < 10,
    ensures
        decimal(d).len() == 1,
        decimal(d)[0] as u32 == '0' as u32 + d,
        n > 0 ==> decimal(10 * n + d) == decimal(n) + decimal(d),
        denoted(decimal(n) + decimal(d)) == 10 * n + d,
{
    assert((10 * n + d) / 10 == n);
    assert((10 * n + d) % 10 == d);
    law_decimal_is_read_back(n, n);
    let both = decimal(n) + decimal(d);
    assert(both.drop_last() =~= decimal(n));
    assert(both.last() == decimal(d)[0]);
    if n > 0 {
        assert(decimal(10 * n + d) =~= both);
    }
}

/// A number is read exactly from digits, with or without one plus sign before them, and up to
/// the largest that is wanted; anything else is no number.
pub proof fn law_only_digits_are_numbers(s: Seq<char>, max: nat)
    ensures
        s.len() > 0 && all_digits(s) && denoted(s) <= max ==> parsed(s, max) == Some(denoted(s))
            && parsed(seq!['+'] + s, max) == Some(denoted(s)),
        s.len() > 0 && all_digits(s) && denoted(s) > max ==> parsed(s, max) is None && parsed(
            seq!['+'] + s,
            max,
        ) is None,
        parsed(s, max) matches Some(n) ==> n <= max,
        parsed(s, max) is Some ==> forall|i: int|
            0 < i < s.len() ==> is_digit(#[trigger] s[i]),
        parsed(s, max) is Some ==> s.len() > 0 && (s[0] == '+' || is_digit(s[0])),
        s.len() == 0 ==> parsed(s, max) is None,
{
    let signed = seq!['+'] + s;
    assert(signed.subrange(1, signed.len() as int) =~= s);
    if s.len() > 0 && all_digits(s) {
        assert(is_digit(s[0]));
    }
    if parsed(s, max) is Some {
        let body = unsigned_part(s);
        assert forall|i: int| 0 < i < s.len() implies is_digit(#[trigger] s[i]) by {
            if s[0] == '+' {
                assert(body[i - 1] == s[i]);
            } else {
                assert(body[i] == s[i]);
            }
        }
        if s[0] != '+' {
            assert(is_digit(body[0]));
        }
    }
}

/// In a name that is made fit for an element, letters and numbers stay in their places, and an
/// underscore stands in every other one.
pub proof fn law_names_are_made_fit(s: Seq<char>, i: int)
    requires
        0 <= i < s.len(),
    ensures
        sanitised(s).len() == s.len(),
        alphanumeric(s[i]) ==> sanitised(s)[i] == s[i],
        !alphanumeric(s[i]) ==> sanitised(s)[i] == '_',
{
}

} // verus!
