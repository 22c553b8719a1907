//! Character-level text handling used throughout the crate: whitespace
//! trimming, prefixes, substrings, lexicographic order, and decimal integers.

use vstd::prelude::*;
use vstd::string::*;

verus! {

// ---------------------------------------------------------------------------
// Specifications
// ---------------------------------------------------------------------------

/// `char::is_whitespace`: the Unicode `White_Space` property.
pub open spec fn is_ws(c: char) -> bool {
    let u = c as u32;
    ||| (0x9 <= u && u <= 0xd)
    ||| u == 0x20
    ||| u == 0x85
    ||| u == 0xa0
    ||| u == 0x1680
    ||| (0x2000 <= u && u <= 0x200a)
    ||| u == 0x2028
    ||| u == 0x2029
    ||| u == 0x202f
    ||| u == 0x205f
    ||| u == 0x3000
}

/// `str::trim`: the text without its leading and trailing whitespace.
pub open spec fn trimmed(s: Seq<char>) -> Seq<char>
    decreases s.len(),
{
    if s.len() == 0 {
        s
    } else if is_ws(s[0]) {
        trimmed(s.drop_first())
    } else if is_ws(s.last()) {
        trimmed(s.drop_last())
    } else {
        s
    }
}

/// Text that is empty or made of whitespace only.
pub open spec fn is_blank(s: Seq<char>) -> bool {
    trimmed(s).len() == 0
}

/// `p` is a prefix of `s`.
pub open spec fn starts_with(s: Seq<char>, p: Seq<char>) -> bool {
    p.len() <= s.len() && s.take(p.len() as int) == p
}

/// `t` occurs somewhere in `s` (`str::contains`).
pub open spec fn has_substring(s: Seq<char>, t: Seq<char>) -> bool {
    exists|i: int| 0 <= i && i + t.len() <= s.len() && #[trigger] s.subrange(i, i + t.len()) == t
}

/// The strict lexicographic order of texts by code point, which is the
/// order `String` has through `Ord` (UTF-8 keeps code point order).
pub open spec fn lex_lt(a: Seq<char>, b: Seq<char>) -> bool
    decreases a.len(),
{
    if a.len() == 0 {
        b.len() > 0
    } else if b.len() == 0 {
        false
    } else if a[0] != b[0] {
        a[0] < b[0]
    } else {
        lex_lt(a.drop_first(), b.drop_first())
    }
}

/// The pieces of `s` joined with one space between each two
/// (`[..].join(" ")`).
pub open spec fn join_spaces(parts: Seq<Seq<char>>) -> Seq<char>
    decreases parts.len(),
{
    if parts.len() == 0 {
        Seq::empty()
    } else if parts.len() == 1 {
        parts[0]
    } else {
        join_spaces(parts.drop_last()) + seq![' '] + parts.last()
    }
}

/// The views of a sequence of strings.
pub open spec fn views(v: Seq<String>) -> Seq<Seq<char>> {
    v.map_values(|s: String| s@)
}

/// The decimal digit `d` as a character.
pub open spec fn digit_char(d: int) -> char {
    if d == 0 {
        '0'
    } else if d == 1 {
        '1'
    } else if d == 2 {
        '2'
    } else if d == 3 {
        '3'
    } else if d == 4 {
        '4'
    } else if d == 5 {
        '5'
    } else if d == 6 {
        '6'
    } else if d == 7 {
        '7'
    } else if d == 8 {
        '8'
    } else {
        '9'
    }
}

/// The decimal representation of a natural number, without leading zeros.
pub open spec fn nat_decimal(n: nat) -> Seq<char>
    decreases n,
{
    if n < 10 {
        seq![digit_char(n as int)]
    } else {
        nat_decimal(n / 10) + seq![digit_char((n % 10) as int)]
    }
}

/// The decimal representation of an integer, as `Display` writes it.
pub open spec fn int_decimal(n: int) -> Seq<char> {
    if n < 0 {
        seq!['-'] + nat_decimal((-n) as nat)
    } else {
        nat_decimal(n as nat)
    }
}

/// An ASCII decimal digit.
pub open spec fn is_digit(c: char) -> bool {
    '0' <= c && c <= '9'
}

/// The value of a string of decimal digits.
pub open spec fn digits_value(s: Seq<char>) -> int
    decreases s.len(),
{
    if s.len() == 0 {
        0
    } else {
        digits_value(s.drop_last()) * 10 + ((s.last() as u32) - 48)
    }
}

/// Every character of `s` is an ASCII decimal digit.
pub open spec fn all_digits(s: Seq<char>) -> bool {
    forall|i: int| 0 <= i < s.len() ==> is_digit(#[trigger] s[i])
}

/// `s` without its leading sign character, if it has one.
pub open spec fn unsigned_part(s: Seq<char>) -> Seq<char> {
    if s.len() > 0 && (s[0] == '-' || s[0] == '+') {
        s.drop_first()
    } else {
        s
    }
}

/// `str::parse::<i32>`: an optional sign, then one or more decimal digits,
/// whose value fits in an `i32`.
pub open spec fn parse_i32(s: Seq<char>) -> Option<i32> {
    let body = unsigned_part(s);
    let value = if s.len() > 0 && s[0] == '-' {
        -digits_value(body)
    } else {
        digits_value(body)
    };
    if body.len() > 0 && all_digits(body) && i32::MIN <= value <= i32::MAX {
        Some(value as i32)
    } else {
        None
    }
}

// ---------------------------------------------------------------------------
// Lemmas
// ---------------------------------------------------------------------------

/// Characterizes `trimmed` by the bounds of its non-whitespace core.
pub proof fn lemma_trimmed_bounds(s: Seq<char>, a: int, b: int)
    requires
        0 <= a <= b <= s.len(),
        forall|k: int| 0 <= k < a ==> is_ws(#[trigger] s[k]),
        forall|k: int| b <= k < s.len() ==> is_ws(#[trigger] s[k]),
        a < b ==> !is_ws(s[a]) && !is_ws(s[b - 1]),
    ensures
        trimmed(s) == s.subrange(a, b),
    decreases s.len(),
{
    if s.len() == 0 {
        assert(s.subrange(a, b) =~= s);
    } else if is_ws(s[0]) {
        let t = s.drop_first();
        let a2 = if a > 0 { a - 1 } else { 0 };
        let b2 = if b > 0 { b - 1 } else { 0 };
        assert forall|k: int| 0 <= k < a2 implies is_ws(#[trigger] t[k]) by {
            assert(t[k] == s[k + 1]);
        }
        assert forall|k: int| b2 <= k < t.len() implies is_ws(#[trigger] t[k]) by {
            assert(t[k] == s[k + 1]);
        }
        lemma_trimmed_bounds(t, a2, b2);
        assert(t.subrange(a2, b2) =~= s.subrange(a, b));
    } else if is_ws(s.last()) {
        let t = s.drop_last();
        assert forall|k: int| 0 <= k < a implies is_ws(#[trigger] t[k]) by {
            assert(t[k] == s[k]);
        }
        assert forall|k: int| b <= k < t.len() implies is_ws(#[trigger] t[k]) by {
            assert(t[k] == s[k]);
        }
        assert(b < s.len());
        lemma_trimmed_bounds(t, a, b);
        assert(t.subrange(a, b) =~= s.subrange(a, b));
    } else {
        assert(a == 0);
        assert(b == s.len());
        assert(s.subrange(a, b) =~= s);
    }
}

/// `lex_lt` is irreflexive.
pub proof fn lemma_lex_irreflexive(a: Seq<char>)
    ensures
        !lex_lt(a, a),
    decreases a.len(),
{
    if a.len() > 0 {
        lemma_lex_irreflexive(a.drop_first());
    }
}

/// `lex_lt` is transitive.
pub proof fn lemma_lex_transitive(a: Seq<char>, b: Seq<char>, c: Seq<char>)
    requires
        lex_lt(a, b),
        lex_lt(b, c),
    ensures
        lex_lt(a, c),
    decreases a.len(),
{
    if a.len() > 0 && b.len() > 0 && c.len() > 0 {
        if a[0] == b[0] && b[0] == c[0] {
            lemma_lex_transitive(a.drop_first(), b.drop_first(), c.drop_first());
        }
    }
}

/// Two different texts are ordered one way or the other.
pub proof fn lemma_lex_total(a: Seq<char>, b: Seq<char>)
    requires
        a != b,
    ensures
        lex_lt(a, b) || lex_lt(b, a),
    decreases a.len(),
{
    if a.len() > 0 && b.len() > 0 && a[0] == b[0] {
        if a.drop_first() == b.drop_first() {
            assert(a =~= seq![a[0]] + a.drop_first());
            assert(b =~= seq![b[0]] + b.drop_first());
        }
        lemma_lex_total(a.drop_first(), b.drop_first());
    } else if a.len() == 0 && b.len() == 0 {
        assert(a =~= b);
    }
}

/// `lex_lt` is asymmetric.
pub proof fn lemma_lex_asymmetric(a: Seq<char>, b: Seq<char>)
    requires
        lex_lt(a, b),
    ensures
        !lex_lt(b, a),
{
    if lex_lt(b, a) {
        lemma_lex_transitive(a, b, a);
        lemma_lex_irreflexive(a);
    }
}

proof fn lemma_digits_value_nonneg(s: Seq<char>)
    requires
        forall|i: int| 0 <= i < s.len() ==> is_digit(#[trigger] s[i]),
    ensures
        digits_value(s) >= 0,
    decreases s.len(),
{
    if s.len() > 0 {
        let t = s.drop_last();
        assert forall|i: int| 0 <= i < t.len() implies is_digit(#[trigger] t[i]) by {
            assert(t[i] == s[i]);
        }
        lemma_digits_value_nonneg(t);
        assert(is_digit(s[s.len() - 1]));
    }
}

// ---------------------------------------------------------------------------
// Executable text operations
// ---------------------------------------------------------------------------

/// The characters of `s`, in order.
pub fn chars_of(s: &str) -> (res: Vec<char>)
    ensures
        res@ == s@,
{
    let mut res: Vec<char> = Vec::new();
    for c in it: s.chars()
        invariant
            it.seq() == s@,
            res@ == it.seq().take(it.index() as int),
    {
        res.push(c);
    }
    res
}

/// A new `String` with the text of `s`.
pub fn owned(s: &str) -> (res: String)
    ensures
        res@ == s@,
{
    String::from_str(s)
}

/// Whether two texts are equal.
pub fn same_text(a: &str, b: &str) -> (res: bool)
    ensures
        res == (a@ == b@),
{
    let x = chars_of(a);
    let y = chars_of(b);
    if x.len() != y.len() {
        return false;
    }
    let mut i: usize = 0;
    while i < x.len()
        invariant
            x@ == a@,
            y@ == b@,
            x.len() == y.len(),
            i <= x.len(),
            forall|k: int| 0 <= k < i ==> x@[k] == y@[k],
        decreases x.len() - i,
    {
        if x[i] != y[i] {
            return false;
        }
        i = i + 1;
    }
    assert(x@ =~= y@);
    true
}

/// `str::trim`: `s` without its leading and trailing whitespace.
pub fn trim(s: &str) -> (res: String)
    ensures
        res@ == trimmed(s@),
{
    let v = chars_of(s);
    let n = v.len();
    let mut a: usize = 0;
    while a < n && is_whitespace(v[a])
        invariant
            v@ == s@,
            n == v.len(),
            a <= n,
            forall|k: int| 0 <= k < a ==> is_ws(#[trigger] v@[k]),
        decreases n - a,
    {
        a = a + 1;
    }
    let mut b: usize = n;
    while b > a && is_whitespace(v[b - 1])
        invariant
            v@ == s@,
            n == v.len(),
            a <= b <= n,
            forall|k: int| b <= k < n ==> is_ws(#[trigger] v@[k]),
        decreases b,
    {
        b = b - 1;
    }
    proof {
        lemma_trimmed_bounds(s@, a as int, b as int);
    }
    owned(s.substring_char(a, b))
}

/// Whether `c` is whitespace (`char::is_whitespace`).
pub fn is_whitespace(c: char) -> (res: bool)
    ensures
        res == is_ws(c),
{
    let u = c as u32;
    (0x9 <= u && u <= 0xd) || u == 0x20 || u == 0x85 || u == 0xa0 || u == 0x1680 || (0x2000 <= u
        && u <= 0x200a) || u == 0x2028 || u == 0x2029 || u == 0x202f || u == 0x205f || u == 0x3000
}

/// Whether `s` is empty or whitespace only (`s.trim().is_empty()`).
pub fn blank(s: &str) -> (res: bool)
    ensures
        res == is_blank(s@),
{
    let t = trim(s);
    t.as_str().unicode_len() == 0
}

/// Whether `p` is a prefix of `s`.
pub fn has_prefix(s: &Vec<char>, p: &Vec<char>) -> (res: bool)
    ensures
        res == starts_with(s@, p@),
{
    if p.len() > s.len() {
        return false;
    }
    let mut i: usize = 0;
    while i < p.len()
        invariant
            p.len() <= s.len(),
            i <= p.len(),
            forall|k: int| 0 <= k < i ==> s@[k] == p@[k],
        decreases p.len() - i,
    {
        if s[i] != p[i] {
            assert(s@.take(p.len() as int)[i as int] == s@[i as int]);
            return false;
        }
        i = i + 1;
    }
    assert(s@.take(p.len() as int) =~= p@);
    true
}

/// Whether `t` occurs in `s` (`str::contains`).
pub fn contains_text(s: &str, t: &str) -> (res: bool)
    ensures
        res == has_substring(s@, t@),
{
    let x = chars_of(s);
    let y = chars_of(t);
    if y.len() > x.len() {
        return false;
    }
    if y.len() == 0 {
        assert(s@.subrange(0, 0 + t@.len() as int) =~= t@);
        return true;
    }
    let last = x.len() - y.len();
    let mut i: usize = 0;
    while i <= last
        invariant
            x@ == s@,
            y@ == t@,
            0 < y.len() <= x.len(),
            last == x.len() - y.len(),
            forall|j: int| 0 <= j < i ==> #[trigger] x@.subrange(j, j + y.len()) != y@,
        decreases last + 1 - i,
    {
        let mut k: usize = 0;
        let mut matched = true;
        while k < y.len()
            invariant
                x@ == s@,
                y@ == t@,
                i <= last,
                last == x.len() - y.len(),
                k <= y.len(),
                matched ==> forall|m: int| 0 <= m < k ==> x@[i + m] == y@[m],
                !matched ==> x@.subrange(i as int, i + y.len()) != y@,
            decreases y.len() - k,
        {
            if matched && x[i + k] != y[k] {
                assert(x@.subrange(i as int, i + y.len())[k as int] == x@[i + k]);
                matched = false;
            }
            k = k + 1;
        }
        if matched {
            assert(x@.subrange(i as int, i + y.len()) =~= y@);
            return true;
        }
        i = i + 1;
    }
    proof {
        if has_substring(s@, t@) {
            let j = choose|j: int|
                0 <= j && j + t@.len() <= s@.len() && #[trigger] s@.subrange(j, j + t@.len())
                    == t@;
            assert(x@.subrange(j, j + y.len()) == y@);
        }
    }
    false
}

/// Whether `a` comes strictly before `b` in lexicographic order.
pub fn text_less(a: &str, b: &str) -> (res: bool)
    ensures
        res == lex_lt(a@, b@),
{
    let x = chars_of(a);
    let y = chars_of(b);
    let mut i: usize = 0;
    assert(a@.skip(0) =~= a@);
    assert(b@.skip(0) =~= b@);
    while i < x.len() && i < y.len() && x[i] == y[i]
        invariant
            x@ == a@,
            y@ == b@,
            i <= x.len(),
            i <= y.len(),
            forall|k: int| 0 <= k < i ==> x@[k] == y@[k],
            lex_lt(a@, b@) == lex_lt(a@.skip(i as int), b@.skip(i as int)),
        decreases x.len() - i,
    {
        proof {
            let p = a@.skip(i as int);
            let q = b@.skip(i as int);
            assert(p.drop_first() =~= a@.skip(i + 1));
            assert(q.drop_first() =~= b@.skip(i + 1));
        }
        i = i + 1;
    }
    let p = Ghost(a@.skip(i as int));
    let q = Ghost(b@.skip(i as int));
    if i == x.len() {
        assert(p@.len() == 0);
        i < y.len()
    } else if i == y.len() {
        assert(q@.len() == 0);
        false
    } else {
        assert(p@[0] == x@[i as int]);
        assert(q@[0] == y@[i as int]);
        x[i] < y[i]
    }
}

/// The text of the decimal digit `d`.
fn digit_text(d: u64) -> (res: &'static str)
    requires
        d < 10,
    ensures
        res@ == seq![digit_char(d as int)],
{
    proof {
        reveal_strlit("0");
        reveal_strlit("1");
        reveal_strlit("2");
        reveal_strlit("3");
        reveal_strlit("4");
        reveal_strlit("5");
        reveal_strlit("6");
        reveal_strlit("7");
        reveal_strlit("8");
        reveal_strlit("9");
    }
    if d == 0 {
        "0"
    } else if d == 1 {
        "1"
    } else if d == 2 {
        "2"
    } else if d == 3 {
        "3"
    } else if d == 4 {
        "4"
    } else if d == 5 {
        "5"
    } else if d == 6 {
        "6"
    } else if d == 7 {
        "7"
    } else if d == 8 {
        "8"
    } else {
        "9"
    }
}

/// The decimal representation of `n`.
pub fn nat_to_text(n: u64) -> (res: String)
    ensures
        res@ == nat_decimal(n as nat),
    decreases n,
{
    if n < 10 {
        owned(digit_text(n))
    } else {
        let mut s = nat_to_text(n / 10);
        s.append(digit_text(n % 10));
        s
    }
}

/// The decimal representation of `n`, as `Display` writes an `i32`.
pub fn i32_to_text(n: i32) -> (res: String)
    ensures
        res@ == int_decimal(n as int),
{
    if n < 0 {
        let magnitude: u64 = (0i64 - (n as i64)) as u64;
        let mut s = owned("-");
        proof {
            reveal_strlit("-");
        }
        let digits = nat_to_text(magnitude);
        s.append(digits.as_str());
        s
    } else {
        nat_to_text(n as u64)
    }
}

/// `str::parse::<i32>().ok()`.
pub fn parse_int(s: &str) -> (res: Option<i32>)
    ensures
        res == parse_i32(s@),
{
    let v = chars_of(s);
    let n = v.len();
    let negative = n > 0 && v[0] == '-';
    let start: usize = if n > 0 && (v[0] == '-' || v[0] == '+') {
        1
    } else {
        0
    };
    let w = chars_of(s.substring_char(start, n));
    let ghost body = unsigned_part(s@);
    assert(w@ =~= body);
    if w.len() == 0 {
        return None;
    }
    let ghost value = if negative {
        -digits_value(body)
    } else {
        digits_value(body)
    };
    match digits_of(&w) {
        None => {
            None
        },
        Some(acc) => {
            assert(acc < 2_147_483_649 ==> value == if negative { -(acc as int) } else { acc as int });
            assert(acc == 2_147_483_649 ==> parse_i32(s@) is None);
            if negative {
                if acc > 2_147_483_648 {
                    None
                } else {
                    Some((0i64 - (acc as i64)) as i32)
                }
            } else {
                if acc > 2_147_483_647 {
                    None
                } else {
                    Some(acc as i32)
                }
            }
        },
    }
}

/// The value of the digit string `w`, saturated at one past the largest
/// magnitude an `i32` holds; `None` when `w` holds a non-digit.
fn digits_of(w: &Vec<char>) -> (res: Option<u64>)
    ensures
        res is None <==> !all_digits(w@),
        res matches Some(acc) ==> {
            &&& acc <= 2_147_483_649
            &&& acc < 2_147_483_649 ==> acc == digits_value(w@)
            &&& acc == 2_147_483_649 ==> digits_value(w@) >= 2_147_483_649
        },
{
    let cap: u64 = 2_147_483_649;
    let mut acc: u64 = 0;
    let mut i: usize = 0;
    while i < w.len()
        invariant
            i <= w.len(),
            cap == 2_147_483_649,
            forall|k: int| 0 <= k < i ==> is_digit(#[trigger] w@[k]),
            acc <= cap,
            acc == cap ==> digits_value(w@.take(i as int)) >= cap,
            acc < cap ==> acc == digits_value(w@.take(i as int)),
        decreases w.len() - i,
    {
        let c = w[i];
        if c < '0' || c > '9' {
            assert(!is_digit(w@[i as int]));
            return None;
        }
        proof {
            lemma_digits_step(w@, i as int);
        }
        if acc < cap {
            let d = (c as u32 - 48) as u64;
            let candidate = acc * 10 + d;
            if candidate >= cap {
                acc = cap;
            } else {
                acc = candidate;
            }
        }
        i = i + 1;
    }
    assert(w@.take(w.len() as int) =~= w@);
    Some(acc)
}

proof fn lemma_digits_step(w: Seq<char>, i: int)
    requires
        0 <= i < w.len(),
        forall|k: int| 0 <= k < i ==> is_digit(#[trigger] w[k]),
        is_digit(w[i]),
    ensures
        digits_value(w.take(i + 1)) == digits_value(w.take(i)) * 10 + ((w[i] as u32) - 48),
        digits_value(w.take(i)) >= 0,
{
    let prefix = w.take(i);
    let next = w.take(i + 1);
    assert(next.drop_last() =~= prefix);
    assert forall|k: int| 0 <= k < prefix.len() implies is_digit(#[trigger] prefix[k]) by {
        assert(prefix[k] == w[k]);
    }
    lemma_digits_value_nonneg(prefix);
}

/// Whether `list` holds the text `s`.
pub fn list_contains(list: &Vec<String>, s: &str) -> (res: bool)
    ensures
        res == views(list@).contains(s@),
{
    let mut i: usize = 0;
    while i < list.len()
        invariant
            i <= list.len(),
            forall|k: int| 0 <= k < i ==> list@[k]@ != s@,
        decreases list.len() - i,
    {
        if same_text(list[i].as_str(), s) {
            assert(views(list@)[i as int] == s@);
            return true;
        }
        i = i + 1;
    }
    proof {
        if views(list@).contains(s@) {
            let k = choose|k: int| 0 <= k < views(list@).len() && views(list@)[k] == s@;
            assert(list@[k]@ == s@);
        }
    }
    false
}

/// The strings of `parts` joined with single spaces.
pub fn join_with_spaces(parts: &Vec<String>) -> (res: String)
    ensures
        res@ == join_spaces(views(parts@)),
{
    let mut res = String::new();
    let mut i: usize = 0;
    while i < parts.len()
        invariant
            i <= parts.len(),
            res@ == join_spaces(views(parts@.take(i as int))),
        decreases parts.len() - i,
    {
        proof {
            reveal_strlit(" ");
            let cur = views(parts@.take(i as int));
            let nxt = views(parts@.take(i + 1));
            assert(nxt.drop_last() =~= cur);
            assert(nxt.last() == parts@[i as int]@);
        }
        if i > 0 {
            res.append(" ");
        }
        res.append(parts[i].as_str());
        proof {
            if i == 0 {
                assert(views(parts@.take(1)).len() == 1);
            }
        }
        i = i + 1;
    }
    assert(parts@.take(parts.len() as int) =~= parts@);
    res
}

} // verus!
