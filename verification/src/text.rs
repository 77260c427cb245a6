//! Character-level text handling: Unicode whitespace, trimming, prefixes and
//! equality of string slices.
use vstd::prelude::*;

verus! {

/// The Unicode `White_Space` property, which decides what `trim` and
/// whitespace splitting remove.
pub open spec fn is_ws(c: char) -> bool {
    let u = c as u32;
    ||| 0x09 <= u <= 0x0D
    ||| u == 0x20
    ||| u == 0x85
    ||| u == 0xA0
    ||| u == 0x1680
    ||| 0x2000 <= u <= 0x200A
    ||| u == 0x2028
    ||| u == 0x2029
    ||| u == 0x202F
    ||| u == 0x205F
    ||| u == 0x3000
}

/// Whether `c` carries the Unicode `White_Space` property.
pub fn is_whitespace(c: char) -> (b: bool)
    ensures
        b == is_ws(c),
{
    let u = c as u32;
    (0x09 <= u && u <= 0x0D) || u == 0x20 || u == 0x85 || u == 0xA0 || u == 0x1680 || (0x2000
        <= u && u <= 0x200A) || u == 0x2028 || u == 0x2029 || u == 0x202F || u == 0x205F || u
        == 0x3000
}

/// `s` without its leading whitespace.
pub open spec fn trim_start(s: Seq<char>) -> Seq<char>
    decreases s.len(),
{
    if s.len() > 0 && is_ws(s[0]) {
        trim_start(s.drop_first())
    } else {
        s
    }
}

/// `s` without its trailing whitespace.
pub open spec fn trim_end(s: Seq<char>) -> Seq<char>
    decreases s.len(),
{
    if s.len() > 0 && is_ws(s.last()) {
        trim_end(s.drop_last())
    } else {
        s
    }
}

/// `s` without leading and trailing whitespace.
pub open spec fn trim(s: Seq<char>) -> Seq<char> {
    trim_end(trim_start(s))
}

/// `s` begins with `p`.
pub open spec fn has_prefix(s: Seq<char>, p: Seq<char>) -> bool {
    p.len() <= s.len() && s.take(p.len() as int) == p
}

pub proof fn lemma_trim_start_from(s: Seq<char>, i: int)
    requires
        0 <= i <= s.len(),
        forall|k: int| 0 <= k < i ==> is_ws(#[trigger] s[k]),
        i == s.len() || !is_ws(s[i]),
    ensures
        trim_start(s) == s.subrange(i, s.len() as int),
    decreases i,
{
    if i == 0 {
        assert(s.subrange(0, s.len() as int) =~= s);
    } else {
        let t = s.drop_first();
        assert forall|k: int| 0 <= k < i - 1 implies is_ws(#[trigger] t[k]) by {
            assert(t[k] == s[k + 1]);
        }
        if i - 1 < t.len() {
            assert(t[i - 1] == s[i]);
        }
        lemma_trim_start_from(t, i - 1);
        assert(t.subrange(i - 1, t.len() as int) =~= s.subrange(i, s.len() as int));
    }
}

pub proof fn lemma_trim_end_to(s: Seq<char>, j: int)
    requires
        0 <= j <= s.len(),
        forall|k: int| j <= k < s.len() ==> is_ws(#[trigger] s[k]),
        j == 0 || !is_ws(s[j - 1]),
    ensures
        trim_end(s) == s.subrange(0, j),
    decreases s.len() - j,
{
    if j == s.len() {
        assert(s.subrange(0, j) =~= s);
    } else {
        let t = s.drop_last();
        assert forall|k: int| j <= k < t.len() implies is_ws(#[trigger] t[k]) by {
            assert(t[k] == s[k]);
        }
        if j > 0 {
            assert(t[j - 1] == s[j - 1]);
        }
        lemma_trim_end_to(t, j);
        assert(t.subrange(0, j) =~= s.subrange(0, j));
    }
}

/// A sequence that neither begins nor ends with whitespace is its own trim.
pub proof fn lemma_trim_identity(s: Seq<char>)
    requires
        s.len() > 0 ==> !is_ws(s[0]) && !is_ws(s.last()),
    ensures
        trim(s) == s,
{
    lemma_trim_start_from(s, 0);
    assert(s.subrange(0, s.len() as int) =~= s);
    lemma_trim_end_to(s, s.len() as int);
}

/// The part of `s` between its leading and trailing whitespace.
pub fn trim_str(s: &str) -> (r: &str)
    ensures
        r@ == trim(s@),
{
    let n = s.unicode_len();
    let mut i: usize = 0;
    while i < n && is_whitespace(s.get_char(i))
        invariant
            n == s@.len(),
            i <= n,
            forall|k: int| 0 <= k < i ==> is_ws(#[trigger] s@[k]),
        decreases n - i,
    {
        i = i + 1;
    }
    let mut j: usize = n;
    while j > i && is_whitespace(s.get_char(j - 1))
        invariant
            n == s@.len(),
            i <= j <= n,
            forall|k: int| j <= k < n ==> is_ws(#[trigger] s@[k]),
        decreases j,
    {
        j = j - 1;
    }
    proof {
        lemma_trim_start_from(s@, i as int);
        let t = s@.subrange(i as int, n as int);
        assert forall|k: int| j - i <= k < t.len() implies is_ws(#[trigger] t[k]) by {
            assert(t[k] == s@[k + i]);
        }
        if j > i {
            assert(t[j - i - 1] == s@[j - 1]);
        }
        lemma_trim_end_to(t, j - i);
        assert(t.subrange(0, j - i) =~= s@.subrange(i as int, j as int));
    }
    s.substring_char(i, j)
}

/// Whether two string slices hold the same characters.
pub fn str_eq(a: &str, b: &str) -> (r: bool)
    ensures
        r == (a@ == b@),
{
    let n = a.unicode_len();
    if n != b.unicode_len() {
        return false;
    }
    let mut i: usize = 0;
    while i < n
        invariant
            n == a@.len(),
            n == b@.len(),
            i <= n,
            forall|k: int| 0 <= k < i ==> a@[k] == b@[k],
        decreases n - i,
    {
        if a.get_char(i) != b.get_char(i) {
            return false;
        }
        i = i + 1;
    }
    assert(a@ =~= b@);
    true
}

/// Whether `s` begins with `p`.
pub fn starts_with(s: &str, p: &str) -> (r: bool)
    ensures
        r == has_prefix(s@, p@),
{
    let n = s.unicode_len();
    let m = p.unicode_len();
    if m > n {
        return false;
    }
    let mut i: usize = 0;
    while i < m
        invariant
            n == s@.len(),
            m == p@.len(),
            m <= n,
            i <= m,
            forall|k: int| 0 <= k < i ==> s@[k] == p@[k],
        decreases m - i,
    {
        if s.get_char(i) != p.get_char(i) {
            assert(s@.take(m as int)[i as int] != p@[i as int]);
            return false;
        }
        i = i + 1;
    }
    assert(s@.take(m as int) =~= p@);
    true
}

/// `s` with the prefix `p` removed, if `s` begins with `p`.
pub fn strip_prefix<'a>(s: &'a str, p: &str) -> (r: Option<&'a str>)
    ensures
        r matches Some(rest) ==> has_prefix(s@, p@) && rest@ == s@.skip(p@.len() as int),
        r is None ==> !has_prefix(s@, p@),
{
    if starts_with(s, p) {
        let n = s.unicode_len();
        let m = p.unicode_len();
        let rest = s.substring_char(m, n);
        assert(rest@ =~= s@.skip(m as int));
        Some(rest)
    } else {
        None
    }
}

} // verus!

verus! {

// ─── Lines ───────────────────────────────────────────────────────────────────

/// Position of the first `'\n'` at or after `start`, or `s.len()` if none.
pub open spec fn line_end(s: Seq<char>, start: int) -> int
    decreases s.len() - start,
{
    if start >= s.len() {
        s.len() as int
    } else if s[start] == '\n' {
        start
    } else {
        line_end(s, start + 1)
    }
}

/// The line that begins at `start`: the characters up to the next `'\n'`,
/// and, where that `'\n'` exists, without a `'\r'` just before it.
pub open spec fn line_at(s: Seq<char>, start: int) -> Seq<char> {
    let e = line_end(s, start);
    let seg = s.subrange(start, e);
    if e < s.len() && seg.len() > 0 && seg.last() == '\r' {
        seg.drop_last()
    } else {
        seg
    }
}

/// Some line of `s` that begins at or after the line start `start`, once
/// trimmed, equals `target`. Lines follow `str::lines`: a final `'\n'`
/// does not open an empty last line.
pub open spec fn some_line_trims_to(s: Seq<char>, start: int, target: Seq<char>) -> bool
    decreases s.len() + 1 - start,
{
    if start < 0 || start >= s.len() {
        false
    } else {
        proof {
            lemma_line_end_bounds(s, start);
        }
        trim(line_at(s, start)) == target || some_line_trims_to(
            s,
            line_end(s, start) + 1,
            target,
        )
    }
}

/// Some line of `s`, once trimmed, equals `target`.
pub open spec fn has_trimmed_line(s: Seq<char>, target: Seq<char>) -> bool {
    some_line_trims_to(s, 0, target)
}

pub proof fn lemma_line_end_bounds(s: Seq<char>, start: int)
    requires
        0 <= start,
    ensures
        start <= line_end(s, start) || start > s.len(),
        line_end(s, start) <= s.len() || start > s.len(),
        start <= s.len() ==> start <= line_end(s, start) <= s.len(),
        line_end(s, start) < s.len() ==> s[line_end(s, start)] == '\n',
        forall|k: int| start <= k < line_end(s, start) ==> s[k] != '\n',
    decreases s.len() - start,
{
    if start < s.len() && s[start] != '\n' {
        lemma_line_end_bounds(s, start + 1);
    }
}

/// Where the next `'\n'` at or after `start` lies.
fn find_line_end(s: &str, start: usize, n: usize) -> (e: usize)
    requires
        n == s@.len(),
        start <= n,
    ensures
        e == line_end(s@, start as int),
        start <= e <= n,
{
    let mut i = start;
    while i < n && s.get_char(i) != '\n'
        invariant
            n == s@.len(),
            start <= i <= n,
            line_end(s@, start as int) == line_end(s@, i as int),
        decreases n - i,
    {
        i = i + 1;
    }
    i
}

/// Whether some line of `s`, once trimmed, equals `target`.
pub fn contains_trimmed_line(s: &str, target: &str) -> (r: bool)
    ensures
        r == has_trimmed_line(s@, target@),
{
    let n = s.unicode_len();
    let mut start: usize = 0;
    while start < n
        invariant
            n == s@.len(),
            start <= n,
            has_trimmed_line(s@, target@) == some_line_trims_to(s@, start as int, target@),
        decreases n - start,
    {
        let e = find_line_end(s, start, n);
        let mut end = e;
        if e < n && e > start && s.get_char(e - 1) == '\r' {
            end = e - 1;
        }
        let line = s.substring_char(start, end);
        proof {
            let seg = s@.subrange(start as int, e as int);
            if e < n && e > start && s@[e - 1] == '\r' {
                assert(line@ =~= seg.drop_last());
            } else {
                assert(line@ =~= seg);
            }
        }
        if str_eq(trim_str(line), target) {
            return true;
        }
        if e >= n {
            assert(!some_line_trims_to(s@, e + 1, target@));
            return false;
        }
        start = e + 1;
    }
    false
}

// ─── Whitespace-separated tokens ─────────────────────────────────────────────

/// End of the run of non-whitespace characters that begins at `i`.
pub open spec fn token_end(s: Seq<char>, i: int) -> int
    decreases s.len() - i,
{
    if 0 <= i < s.len() && !is_ws(s[i]) {
        token_end(s, i + 1)
    } else {
        i
    }
}

pub proof fn lemma_token_end_bounds(s: Seq<char>, i: int)
    requires
        0 <= i <= s.len(),
    ensures
        i <= token_end(s, i) <= s.len(),
        forall|k: int| i <= k < token_end(s, i) ==> !is_ws(s[k]),
        token_end(s, i) < s.len() ==> is_ws(s[token_end(s, i)]),
    decreases s.len() - i,
{
    if i < s.len() && !is_ws(s[i]) {
        lemma_token_end_bounds(s, i + 1);
    }
}

/// The whitespace-separated tokens of `s` from position `i` on, as
/// `str::split_whitespace` yields them.
pub open spec fn tokens_from(s: Seq<char>, i: int) -> Seq<Seq<char>>
    decreases s.len() - i,
{
    if i < 0 || i >= s.len() {
        seq![]
    } else if is_ws(s[i]) {
        tokens_from(s, i + 1)
    } else {
        let e = token_end(s, i + 1);
        if e <= i || e > s.len() {
            seq![]
        } else {
            seq![s.subrange(i, e)] + tokens_from(s, e)
        }
    }
}

/// The whitespace-separated tokens of `s`.
pub open spec fn tokens(s: Seq<char>) -> Seq<Seq<char>> {
    tokens_from(s, 0)
}

/// The token of index `k` among the whitespace-separated tokens of `s`.
pub open spec fn nth_token(s: Seq<char>, k: int) -> Option<Seq<char>> {
    if 0 <= k < tokens(s).len() {
        Some(tokens(s)[k])
    } else {
        None
    }
}

/// The whitespace-separated token of index `k` in `s`, if there is one.
pub fn token(s: &str, k: usize) -> (r: Option<&str>)
    ensures
        r matches Some(t) ==> nth_token(s@, k as int) == Some(t@),
        r is None ==> nth_token(s@, k as int) is None,
{
    let n = s.unicode_len();
    let mut i: usize = 0;
    let mut seen: usize = 0;
    while i < n
        invariant
            n == s@.len(),
            i <= n,
            seen <= k,
            tokens(s@).len() >= seen,
            tokens(s@).skip(seen as int) == tokens_from(s@, i as int),
        decreases n - i,
    {
        if is_whitespace(s.get_char(i)) {
            i = i + 1;
        } else {
            proof {
                lemma_token_end_bounds(s@, i + 1);
            }
            let mut e = i + 1;
            while e < n && !is_whitespace(s.get_char(e))
                invariant
                    n == s@.len(),
                    i < e <= n,
                    token_end(s@, i + 1) == token_end(s@, e as int),
                decreases n - e,
            {
                e = e + 1;
            }
            let ghost rest = tokens_from(s@, e as int);
            proof {
                assert(tokens_from(s@, i as int) == seq![s@.subrange(i as int, e as int)] + rest);
                assert(tokens(s@).skip(seen as int)[0] == s@.subrange(i as int, e as int));
                assert(tokens(s@).skip(seen as int + 1) =~= tokens(s@).skip(seen as int).skip(1));
                assert(tokens(s@).skip(seen as int).skip(1) =~= rest);
            }
            if seen == k {
                let t = s.substring_char(i, e);
                return Some(t);
            }
            seen = seen + 1;
            i = e;
        }
    }
    proof {
        assert(tokens_from(s@, i as int) =~= seq![]);
        assert(tokens(s@).len() == seen);
    }
    None
}

} // verus!

verus! {

// ─── Decimal numbers ─────────────────────────────────────────────────────────

/// `c` is an ASCII decimal digit.
pub open spec fn is_digit(c: char) -> bool {
    '0' <= c && c <= '9'
}

/// The value of the decimal digit `c`.
pub open spec fn digit_value(c: char) -> nat {
    (c as u32 - '0' as u32) as nat
}

/// Every character of `s` is a decimal digit.
pub open spec fn all_digits(s: Seq<char>) -> bool {
    forall|i: int| 0 <= i < s.len() ==> is_digit(#[trigger] s[i])
}

/// The value of the digit string `s`, most significant digit first.
pub open spec fn digits_value(s: Seq<char>) -> nat
    decreases s.len(),
{
    if s.len() == 0 {
        0
    } else {
        digits_value(s.drop_last()) * 10 + digit_value(s.last())
    }
}

/// The digits of an unsigned number: `s` without one leading `'+'`.
pub open spec fn unsigned_body(s: Seq<char>) -> Seq<char> {
    if s.len() > 0 && s[0] == '+' {
        s.drop_first()
    } else {
        s
    }
}

/// What `str::parse` gives for an unsigned integer type whose largest value
/// is `max`: an optional `'+'`, then one or more decimal digits whose value
/// does not exceed `max`.
pub open spec fn parse_unsigned(s: Seq<char>, max: nat) -> Option<nat> {
    let d = unsigned_body(s);
    if d.len() > 0 && all_digits(d) && digits_value(d) <= max {
        Some(digits_value(d))
    } else {
        None
    }
}

proof fn lemma_digits_value_prefix(d: Seq<char>, j: int)
    requires
        0 <= j <= d.len(),
    ensures
        digits_value(d.take(j)) <= digits_value(d),
    decreases d.len() - j,
{
    if j == d.len() {
        assert(d.take(j) =~= d);
    } else {
        let p = d.drop_last();
        assert(d.take(j) =~= p.take(j));
        lemma_digits_value_prefix(p, j);
    }
}

/// The unsigned integer written in `s`, as `str::parse::<u64>` reads it.
pub fn parse_u64(s: &str) -> (r: Option<u64>)
    ensures
        r is Some <==> parse_unsigned(s@, u64::MAX as nat) is Some,
        r matches Some(v) ==> v == parse_unsigned(s@, u64::MAX as nat)->0,
{
    let n = s.unicode_len();
    let mut b: usize = 0;
    if n > 0 && s.get_char(0) == '+' {
        b = 1;
    }
    let ghost d = unsigned_body(s@);
    assert(d =~= s@.subrange(b as int, n as int));
    if b == n {
        return None;
    }
    let mut value: u64 = 0;
    let mut i: usize = b;
    while i < n
        invariant
            n == s@.len(),
            b <= i <= n,
            d == s@.subrange(b as int, n as int),
            d == unsigned_body(s@),
            value == digits_value(d.take(i - b)),
            all_digits(d.take(i - b)),
        decreases n - i,
    {
        let c = s.get_char(i);
        assert(d[i - b] == c);
        if c < '0' || c > '9' {
            assert(!is_digit(d[i - b]));
            return None;
        }
        let dv = (c as u32 - '0' as u32) as u64;
        proof {
            assert(d.take(i - b + 1).drop_last() =~= d.take(i - b));
            assert(d.take(i - b + 1).last() == c);
            assert(digits_value(d.take(i - b + 1)) == value * 10 + dv);
        }
        match value.checked_mul(10) {
            Some(m) => match m.checked_add(dv) {
                Some(v) => {
                    value = v;
                },
                None => {
                    proof {
                        if all_digits(d) {
                            lemma_digits_value_prefix(d, i - b + 1);
                        }
                    }
                    return None;
                },
            },
            None => {
                proof {
                    if all_digits(d) {
                        lemma_digits_value_prefix(d, i - b + 1);
                    }
                }
                return None;
            },
        }
        i = i + 1;
        proof {
            assert forall|k: int| 0 <= k < i - b implies is_digit(#[trigger] d.take(i - b)[k]) by {
                if k < i - b - 1 {
                    assert(d.take(i - b)[k] == d.take(i - b - 1)[k]);
                }
            }
        }
    }
    assert(d.take(n - b) =~= d);
    Some(value)
}

/// The unsigned integer written in `s`, as `str::parse::<u32>` reads it.
pub fn parse_u32(s: &str) -> (r: Option<u32>)
    ensures
        r is Some <==> parse_unsigned(s@, u32::MAX as nat) is Some,
        r matches Some(v) ==> v == parse_unsigned(s@, u32::MAX as nat)->0,
{
    match parse_u64(s) {
        Some(v) => {
            if v <= 0xffff_ffff {
                Some(v as u32)
            } else {
                None
            }
        },
        None => None,
    }
}

/// The decimal digit character for `d < 10`.
pub open spec fn digit_char(d: nat) -> char {
    if d == 0 {
        '0'
    } else if d == 1 {
        '1'
    } else if d == 2 {
        '2'
    } else if d == 3 {
        '3'
    } else if d == 4 {
        '4'
    } else if d == 5 {
        '5'
    } else if d == 6 {
        '6'
    } else if d == 7 {
        '7'
    } else if d == 8 {
        '8'
    } else {
        '9'
    }
}

/// The decimal notation of `n`, without sign or leading zeros.
pub open spec fn decimal(n: nat) -> Seq<char>
    decreases n,
{
    if n < 10 {
        seq![digit_char(n)]
    } else {
        decimal(n / 10).push(digit_char(n % 10))
    }
}

proof fn lemma_digit_char(d: nat)
    requires
        d < 10,
    ensures
        is_digit(digit_char(d)),
        digit_value(digit_char(d)) == d,
        !is_ws(digit_char(d)),
{
}

/// Decimal notation consists of digits only, and reads back as the number.
pub proof fn lemma_decimal_digits(n: nat)
    ensures
        decimal(n).len() > 0,
        all_digits(decimal(n)),
        digits_value(decimal(n)) == n,
        !is_ws(decimal(n)[0]),
        !is_ws(decimal(n).last()),
    decreases n,
{
    lemma_digit_char(n % 10);
    if n < 10 {
        lemma_digit_char(n);
        assert(decimal(n).drop_last() =~= Seq::<char>::empty());
        assert(digits_value(Seq::<char>::empty()) == 0);
        assert(decimal(n).last() == digit_char(n));
        assert(digits_value(decimal(n)) == n);
    } else {
        lemma_decimal_digits(n / 10);
        let p = decimal(n / 10);
        assert(decimal(n).drop_last() =~= p);
        assert(decimal(n).last() == digit_char(n % 10));
        assert(digits_value(decimal(n)) == digits_value(p) * 10 + n % 10);
        assert((n / 10) * 10 + n % 10 == n);
        assert(digits_value(decimal(n)) == n);
        assert forall|i: int| 0 <= i < decimal(n).len() implies is_digit(#[trigger] decimal(n)[i]) by {
            if i < p.len() {
                assert(decimal(n)[i] == p[i]);
            }
        }
        assert(decimal(n)[0] == p[0]);
    }
}

fn digit_str(d: u64) -> (r: &'static str)
    requires
        d < 10,
    ensures
        r@ == seq![digit_char(d as nat)],
{
    proof {
        reveal_strlit("0");
        reveal_strlit("1");
        reveal_strlit("2");
        reveal_strlit("3");
        reveal_strlit("4");
        reveal_strlit("5");
        reveal_strlit("6");
        reveal_strlit("7");
        reveal_strlit("8");
        reveal_strlit("9");
    }
    if d == 0 {
        "0"
    } else if d == 1 {
        "1"
    } else if d == 2 {
        "2"
    } else if d == 3 {
        "3"
    } else if d == 4 {
        "4"
    } else if d == 5 {
        "5"
    } else if d == 6 {
        "6"
    } else if d == 7 {
        "7"
    } else if d == 8 {
        "8"
    } else {
        "9"
    }
}

/// Appends the decimal notation of `n` to `out`.
pub fn push_decimal(out: &mut String, n: u64)
    ensures
        final(out)@ == old(out)@ + decimal(n as nat),
    decreases n,
{
    if n >= 10 {
        push_decimal(out, n / 10);
    }
    let ghost mid = out@;
    out.append(digit_str(n % 10));
    proof {
        if n >= 10 {
            assert(old(out)@ + decimal(n as nat) =~= old(out)@ + decimal((n / 10) as nat) + seq![
                digit_char((n % 10) as nat),
            ]);
        } else {
            assert(decimal(n as nat) =~= seq![digit_char(n as nat)]);
        }
    }
}

/// The decimal notation of `n`, as `n.to_string()` writes it.
pub fn decimal_string(n: u32) -> (s: String)
    ensures
        s@ == decimal(n as nat),
{
    let mut s = String::new();
    push_decimal(&mut s, n as u64);
    assert(s@ =~= decimal(n as nat));
    s
}

} // verus!

verus! {

// ─── Lines of concatenated text ──────────────────────────────────────────────

/// The line that begins at `start` ends at or before any `'\n'` at `k`.
pub proof fn lemma_line_end_at_most(s: Seq<char>, start: int, k: int)
    requires
        0 <= start <= k < s.len(),
        s[k] == '\n',
    ensures
        line_end(s, start) <= k,
    decreases k - start,
{
    if s[start] != '\n' {
        lemma_line_end_at_most(s, start + 1, k);
    }
}

/// A line that begins at `start` and reaches a `'\n'` at `m` with none
/// before it ends at `m`.
pub proof fn lemma_line_end_exact(s: Seq<char>, start: int, m: int)
    requires
        0 <= start <= m < s.len(),
        s[m] == '\n',
        forall|k: int| start <= k < m ==> s[k] != '\n',
    ensures
        line_end(s, start) == m,
{
    lemma_line_end_at_most(s, start, m);
    lemma_line_end_bounds(s, start);
}

proof fn lemma_line_end_shift(a: Seq<char>, b: Seq<char>, start: int)
    requires
        a.len() <= start <= a.len() + b.len(),
    ensures
        line_end(a + b, start) == line_end(b, start - a.len()) + a.len(),
    decreases a.len() + b.len() - start,
{
    if start < a.len() + b.len() {
        assert((a + b)[start] == b[start - a.len()]);
        if (a + b)[start] != '\n' {
            lemma_line_end_shift(a, b, start + 1);
        }
    }
}

/// The lines of `a + b` from a start inside `b` are the lines of `b`.
pub proof fn lemma_lines_shift(a: Seq<char>, b: Seq<char>, start: int, t: Seq<char>)
    requires
        a.len() <= start,
    ensures
        some_line_trims_to(a + b, start, t) == some_line_trims_to(b, start - a.len(), t),
    decreases a.len() + b.len() + 1 - start,
{
    let s = a + b;
    if start < s.len() {
        lemma_line_end_shift(a, b, start);
        lemma_line_end_bounds(b, start - a.len());
        let e = line_end(s, start);
        assert(s.subrange(start, e) =~= b.subrange(start - a.len(), e - a.len()));
        assert(line_at(s, start) == line_at(b, start - a.len()));
        lemma_lines_shift(a, b, e + 1, t);
    }
}

/// When `a` ends with a line break, every line of `b` is a line of `a + b`.
pub proof fn lemma_lines_after_prefix(a: Seq<char>, b: Seq<char>, start: int, t: Seq<char>)
    requires
        a.len() > 0,
        a.last() == '\n',
        0 <= start <= a.len(),
        some_line_trims_to(b, 0, t),
    ensures
        some_line_trims_to(a + b, start, t),
    decreases a.len() - start,
{
    let s = a + b;
    if start == a.len() {
        lemma_lines_shift(a, b, start, t);
    } else {
        assert(s[a.len() - 1] == '\n');
        lemma_line_end_at_most(s, start, a.len() - 1);
        lemma_line_end_bounds(s, start);
        lemma_lines_after_prefix(a, b, line_end(s, start) + 1, t);
    }
}

} // verus!
