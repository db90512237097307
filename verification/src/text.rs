//! Text helpers over strings viewed as sequences of chars.
use vstd::prelude::*;

verus! {

/// The char of a decimal digit.
pub open spec fn digit_char(d: nat) -> char {
    if d == 0 { '0' }
    else if d == 1 { '1' }
    else if d == 2 { '2' }
    else if d == 3 { '3' }
    else if d == 4 { '4' }
    else if d == 5 { '5' }
    else if d == 6 { '6' }
    else if d == 7 { '7' }
    else if d == 8 { '8' }
    else { '9' }
}

/// The decimal writing of a natural number, most significant digit first, without
/// leading zeros (zero is written "0").
pub open spec fn decimal(n: nat) -> Seq<char>
    decreases n,
{
    if n < 10 {
        seq![digit_char(n)]
    } else {
        decimal(n / 10).push(digit_char(n % 10))
    }
}

/// The part of `s` after the last occurrence of `c`, or all of `s` when `c` does not occur.
pub open spec fn after_last(s: Seq<char>, c: char) -> Seq<char>
    decreases s.len(),
{
    if s.len() == 0 {
        s
    } else if s.last() == c {
        Seq::empty()
    } else {
        after_last(s.drop_last(), c).push(s.last())
    }
}

pub(crate) fn digit_str(d: usize) -> (r: &'static str)
    requires
        d < 10,
    ensures
        r@ == seq![digit_char(d as nat)],
{
    proof {
        reveal_strlit("0");
        reveal_strlit("1");
        reveal_strlit("2");
        reveal_strlit("3");
        reveal_strlit("4");
        reveal_strlit("5");
        reveal_strlit("6");
        reveal_strlit("7");
        reveal_strlit("8");
        reveal_strlit("9");
    }
    if d == 0 { "0" }
    else if d == 1 { "1" }
    else if d == 2 { "2" }
    else if d == 3 { "3" }
    else if d == 4 { "4" }
    else if d == 5 { "5" }
    else if d == 6 { "6" }
    else if d == 7 { "7" }
    else if d == 8 { "8" }
    else { "9" }
}

/// Writes `n` in decimal.
pub fn usize_to_decimal(n: usize) -> (r: String)
    ensures
        r@ == decimal(n as nat),
    decreases n,
{
    if n < 10 {
        String::from_str(digit_str(n))
    } else {
        let mut s = usize_to_decimal(n / 10);
        s.append(digit_str(n % 10));
        s
    }
}

/// Whether two strings hold the same chars.
pub fn str_eq(a: &str, b: &str) -> (r: bool)
    ensures
        r == (a@ == b@),
{
    let sa = String::from_str(a);
    let sb = String::from_str(b);
    sa == sb
}

/// The index of the first '\n' of `s` from `i` on, or the length of `s`.
pub open spec fn line_end(s: Seq<char>, i: int) -> int
    decreases s.len() - i,
{
    if i < 0 || i >= s.len() {
        s.len() as int
    } else if s[i] == '\n' {
        i
    } else {
        line_end(s, i + 1)
    }
}

/// Where line `k` of `s` starts, when `s` has that many lines: a line ends at '\n', and a
/// final '\n' ends the last line rather than starting an empty one.
pub open spec fn line_start(s: Seq<char>, k: nat) -> Option<int>
    decreases k,
{
    if k == 0 {
        if s.len() == 0 { None } else { Some(0) }
    } else {
        match line_start(s, (k - 1) as nat) {
            Some(st) => {
                let e = line_end(s, st);
                if e + 1 < s.len() { Some(e + 1) } else { None }
            },
            None => None,
        }
    }
}

/// Line `k` of `s`, as `str::lines` gives it: without its '\n', nor a '\r' just before it.
pub open spec fn nth_line(s: Seq<char>, k: nat) -> Option<Seq<char>> {
    match line_start(s, k) {
        Some(st) => {
            let e = line_end(s, st);
            Some(if e < s.len() && e > st && s[e - 1] == '\r' { s.subrange(st, e - 1) } else { s.subrange(st, e) })
        },
        None => None,
    }
}

proof fn lemma_line_end_bounds(s: Seq<char>, i: int)
    requires
        0 <= i <= s.len(),
    ensures
        i <= line_end(s, i) <= s.len(),
        line_end(s, i) < s.len() ==> s[line_end(s, i)] == '\n',
    decreases s.len() - i,
{
    if i < s.len() && s[i] != '\n' {
        lemma_line_end_bounds(s, i + 1);
    }
}

/// Once `s` has no line `a`, it has no later line either.
proof fn lemma_no_line_after(s: Seq<char>, a: nat, b: nat)
    requires
        a <= b,
        line_start(s, a) is None,
    ensures
        line_start(s, b) is None,
    decreases b - a,
{
    if a < b {
        lemma_no_line_after(s, a, (b - 1) as nat);
    }
}

fn line_end_of(s: &str, i: usize) -> (r: usize)
    requires
        i <= s@.len(),
    ensures
        r as int == line_end(s@, i as int),
        i <= r <= s@.len(),
{
    let n = s.unicode_len();
    let mut j = i;
    while j < n
        invariant
            i <= j <= n,
            n == s@.len(),
            line_end(s@, i as int) == line_end(s@, j as int),
        decreases n - j,
    {
        if s.get_char(j) == '\n' {
            return j;
        }
        j = j + 1;
    }
    j
}

/// Line `k` of `s` (counted from 0), as `str::lines` gives it, if `s` has that many lines.
pub fn nth_line_of(s: &str, k: usize) -> (r: Option<String>)
    ensures
        match r {
            Some(l) => nth_line(s@, k as nat) == Some(l@),
            None => nth_line(s@, k as nat) is None,
        },
{
    let n = s.unicode_len();
    if n == 0 {
        proof {
            lemma_no_line_after(s@, 0, k as nat);
        }
        return None;
    }
    let mut st: usize = 0;
    let mut j: usize = 0;
    while j < k
        invariant
            j <= k,
            n == s@.len(),
            st < n,
            line_start(s@, j as nat) == Some(st as int),
        decreases k - j,
    {
        let e = line_end_of(s, st);
        if e < n - 1 {
            st = e + 1;
        } else {
            proof {
                assert(line_start(s@, (j + 1) as nat) is None);
                lemma_no_line_after(s@, (j + 1) as nat, k as nat);
            }
            return None;
        }
        j = j + 1;
    }
    let e = line_end_of(s, st);
    if e < n && e > st && s.get_char(e - 1) == '\r' {
        Some(String::from_str(s.substring_char(st, e - 1)))
    } else {
        Some(String::from_str(s.substring_char(st, e)))
    }
}

/// Whether a char is white space, as `char::is_whitespace` says.
pub open spec fn is_blank(c: char) -> bool {
    ||| c == ' ' || c == '\t' || c == '\n' || c == '\u{0B}' || c == '\u{0C}' || c == '\r'
    ||| c == '\u{85}' || c == '\u{A0}' || c == '\u{1680}'
    ||| (c as u32) >= 0x2000 && (c as u32) <= 0x200A
    ||| c == '\u{2028}' || c == '\u{2029}' || c == '\u{202F}' || c == '\u{205F}' || c == '\u{3000}'
}

/// Whether a char is white space.
pub fn char_is_blank(c: char) -> (r: bool)
    ensures
        r == is_blank(c),
{
    let u = c as u32;
    c == ' ' || c == '\t' || c == '\n' || c == '\u{0B}' || c == '\u{0C}' || c == '\r'
        || c == '\u{85}' || c == '\u{A0}' || c == '\u{1680}'
        || (u >= 0x2000 && u <= 0x200A)
        || c == '\u{2028}' || c == '\u{2029}' || c == '\u{202F}' || c == '\u{205F}' || c == '\u{3000}'
}

/// The first index of `l` from `i` on that is not white space, or the length of `l`.
pub open spec fn skip_blanks(l: Seq<char>, i: int) -> int
    decreases l.len() - i,
{
    if i < 0 || i >= l.len() {
        l.len() as int
    } else if is_blank(l[i]) {
        skip_blanks(l, i + 1)
    } else {
        i
    }
}

/// The first index of `l` from `i` on that is white space, or the length of `l`.
pub open spec fn skip_word(l: Seq<char>, i: int) -> int
    decreases l.len() - i,
{
    if i < 0 || i >= l.len() {
        l.len() as int
    } else if is_blank(l[i]) {
        i
    } else {
        skip_word(l, i + 1)
    }
}

/// Where field `k` of `l` starts, fields being what white space separates.
pub open spec fn field_start(l: Seq<char>, k: nat) -> Option<int>
    decreases k,
{
    if k == 0 {
        let st = skip_blanks(l, 0);
        if st < l.len() { Some(st) } else { None }
    } else {
        match field_start(l, (k - 1) as nat) {
            Some(st) => {
                let next = skip_blanks(l, skip_word(l, st));
                if next < l.len() { Some(next) } else { None }
            },
            None => None,
        }
    }
}

/// Field `k` of `l`, as `str::split_whitespace` gives it.
pub open spec fn nth_field(l: Seq<char>, k: nat) -> Option<Seq<char>> {
    match field_start(l, k) {
        Some(st) => Some(l.subrange(st, skip_word(l, st))),
        None => None,
    }
}

proof fn lemma_skip_bounds(l: Seq<char>, i: int)
    requires
        0 <= i <= l.len(),
    ensures
        i <= skip_blanks(l, i) <= l.len(),
        i <= skip_word(l, i) <= l.len(),
    decreases l.len() - i,
{
    if i < l.len() {
        lemma_skip_bounds(l, i + 1);
    }
}

proof fn lemma_no_field_after(l: Seq<char>, a: nat, b: nat)
    requires
        a <= b,
        field_start(l, a) is None,
    ensures
        field_start(l, b) is None,
    decreases b - a,
{
    if a < b {
        lemma_no_field_after(l, a, (b - 1) as nat);
    }
}

fn skip_blanks_of(l: &str, i: usize) -> (r: usize)
    requires
        i <= l@.len(),
    ensures
        r as int == skip_blanks(l@, i as int),
        i <= r <= l@.len(),
{
    let n = l.unicode_len();
    let mut j = i;
    while j < n
        invariant
            i <= j <= n,
            n == l@.len(),
            skip_blanks(l@, i as int) == skip_blanks(l@, j as int),
        decreases n - j,
    {
        if !char_is_blank(l.get_char(j)) {
            return j;
        }
        j = j + 1;
    }
    j
}

fn skip_word_of(l: &str, i: usize) -> (r: usize)
    requires
        i <= l@.len(),
    ensures
        r as int == skip_word(l@, i as int),
        i <= r <= l@.len(),
{
    let n = l.unicode_len();
    let mut j = i;
    while j < n
        invariant
            i <= j <= n,
            n == l@.len(),
            skip_word(l@, i as int) == skip_word(l@, j as int),
        decreases n - j,
    {
        if char_is_blank(l.get_char(j)) {
            return j;
        }
        j = j + 1;
    }
    j
}

/// Field `k` of `l` (counted from 0), as `str::split_whitespace` gives it, if `l` has that
/// many fields.
pub fn nth_field_of(l: &str, k: usize) -> (r: Option<String>)
    ensures
        match r {
            Some(f) => nth_field(l@, k as nat) == Some(f@),
            None => nth_field(l@, k as nat) is None,
        },
{
    let n = l.unicode_len();
    let mut st = skip_blanks_of(l, 0);
    if st >= n {
        proof {
            lemma_no_field_after(l@, 0, k as nat);
        }
        return None;
    }
    let mut j: usize = 0;
    while j < k
        invariant
            j <= k,
            n == l@.len(),
            st < n,
            field_start(l@, j as nat) == Some(st as int),
        decreases k - j,
    {
        let w = skip_word_of(l, st);
        let next = skip_blanks_of(l, w);
        if next < n {
            st = next;
        } else {
            proof {
                assert(field_start(l@, (j + 1) as nat) is None);
                lemma_no_field_after(l@, (j + 1) as nat, k as nat);
            }
            return None;
        }
        j = j + 1;
    }
    let e = skip_word_of(l, st);
    Some(String::from_str(l.substring_char(st, e)))
}

/// `t` without any of its chars equal to `c`.
pub open spec fn without_char(t: Seq<char>, c: char) -> Seq<char>
    decreases t.len(),
{
    if t.len() == 0 {
        t
    } else if t.last() == c {
        without_char(t.drop_last(), c)
    } else {
        without_char(t.drop_last(), c).push(t.last())
    }
}

/// `t` without any of its chars equal to `c`.
pub fn remove_char(t: &str, c: char) -> (r: String)
    ensures
        r@ == without_char(t@, c),
{
    let n = t.unicode_len();
    let mut out = String::new();
    let mut i: usize = 0;
    proof {
        assert(t@.subrange(0, 0) =~= Seq::<char>::empty());
    }
    while i < n
        invariant
            i <= n,
            n == t@.len(),
            out@ == without_char(t@.subrange(0, i as int), c),
        decreases n - i,
    {
        let ch = t.get_char(i);
        proof {
            assert(t@.subrange(0, i + 1).drop_last() =~= t@.subrange(0, i as int));
            assert(t@.subrange(0, i + 1).last() == ch);
        }
        if ch != c {
            out.append(t.substring_char(i, i + 1));
            proof {
                assert(t@.subrange(i as int, i + 1) =~= seq![ch]);
            }
        }
        i = i + 1;
    }
    proof {
        assert(t@.subrange(0, n as int) =~= t@);
    }
    out
}

/// Whether a char is an ASCII digit.
pub open spec fn is_digit(c: char) -> bool {
    '0' <= c && c <= '9'
}

/// The value of a run of ASCII digits, most significant first.
pub open spec fn digits_value(d: Seq<char>) -> int
    decreases d.len(),
{
    if d.len() == 0 {
        0
    } else {
        digits_value(d.drop_last()) * 10 + ((d.last() as int) - ('0' as int))
    }
}

/// What `str::parse::<i32>` reads from `t`: an optional sign and at least one ASCII digit,
/// whose value fits in `i32`.
pub open spec fn parse_i32_text(t: Seq<char>) -> Option<i32> {
    let negative = t.len() > 0 && t[0] == '-';
    let d = unsigned_part(t);
    if d.len() == 0 || !all_digits(d) {
        None
    } else {
        let v = if negative { -digits_value(d) } else { digits_value(d) };
        if i32::MIN <= v <= i32::MAX { Some(v as i32) } else { None }
    }
}

/// `t` without the sign it starts with, if any.
pub open spec fn unsigned_part(t: Seq<char>) -> Seq<char> {
    if t.len() > 0 && (t[0] == '-' || t[0] == '+') { t.subrange(1, t.len() as int) } else { t }
}

/// Every char of `d` is an ASCII digit.
pub open spec fn all_digits(d: Seq<char>) -> bool {
    forall|i: int| 0 <= i < d.len() ==> #[trigger] is_digit(d[i])
}

/// Reads a decimal `i32` as `str::parse` does; `None` when the text is no such number.
pub fn parse_i32(t: &str) -> (r: Option<i32>)
    ensures
        r == parse_i32_text(t@),
{
    let n = t.unicode_len();
    let mut start: usize = 0;
    let mut negative = false;
    if n > 0 {
        let c0 = t.get_char(0);
        if c0 == '-' {
            start = 1;
            negative = true;
        } else if c0 == '+' {
            start = 1;
        }
    }
    let ghost d = if start == 1 { t@.subrange(1, n as int) } else { t@ };
    proof {
        assert(d =~= t@.subrange(start as int, n as int));
        assert(d == unsigned_part(t@));
        assert(negative == (t@.len() > 0 && t@[0] == '-'));
    }
    if start >= n {
        return None;
    }
    let cap: i64 = 2147483649;
    let mut acc: i64 = 0;
    let mut i: usize = start;
    proof {
        assert(d.subrange(0, 0) =~= Seq::<char>::empty());
    }
    while i < n
        invariant
            start <= i <= n,
            n == t@.len(),
            d == t@.subrange(start as int, n as int),
            d == unsigned_part(t@),
            negative == (t@.len() > 0 && t@[0] == '-'),
            cap == 2147483649,
            forall|j: int| 0 <= j < i - start ==> #[trigger] is_digit(d[j]),
            digits_value(d.subrange(0, i - start)) >= 0,
            acc == (if digits_value(d.subrange(0, i - start)) < cap { digits_value(d.subrange(0, i - start)) } else { cap as int }),
        decreases n - i,
    {
        let c = t.get_char(i);
        if c < '0' || c > '9' {
            proof {
                assert(d[i - start] == c);
                assert(0 <= i - start < d.len());
                assert(!is_digit(d[i - start]));
                assert(!all_digits(d));
            }
            return None;
        }
        let ghost prev = d.subrange(0, i - start);
        let ghost next = d.subrange(0, i - start + 1);
        proof {
            assert(next.drop_last() =~= prev);
            assert(next.last() == c);
            assert(d[i - start] == c);
        }
        let dv = (c as u32 - '0' as u32) as i64;
        proof {
            assert(dv == (c as int) - ('0' as int));
        }
        let v = acc * 10 + dv;
        acc = if v > cap { cap } else { v };
        i = i + 1;
    }
    proof {
        assert(d.subrange(0, n - start) =~= d);
    }
    if negative {
        if acc > 2147483648 {
            None
        } else {
            Some((0 - acc) as i32)
        }
    } else {
        if acc > 2147483647 {
            None
        } else {
            Some(acc as i32)
        }
    }
}

/// The part of `s` before the last occurrence of `c`, if `c` occurs.
pub open spec fn before_last(s: Seq<char>, c: char) -> Option<Seq<char>>
    decreases s.len(),
{
    if s.len() == 0 {
        None
    } else if s.last() == c {
        Some(s.drop_last())
    } else {
        before_last(s.drop_last(), c)
    }
}

/// The part of `s` before the last occurrence of `c`, or `None` when `c` does not occur.
pub fn before_last_char(s: &str, c: char) -> (r: Option<String>)
    ensures
        match r {
            Some(p) => before_last(s@, c) == Some(p@),
            None => before_last(s@, c) is None,
        },
{
    let n = s.unicode_len();
    let mut i = n;
    proof {
        assert(s@.subrange(0, n as int) =~= s@);
    }
    while i > 0
        invariant
            i <= n,
            n == s@.len(),
            before_last(s@, c) == before_last(s@.subrange(0, i as int), c),
        decreases i,
    {
        let ch = s.get_char(i - 1);
        proof {
            let pre = s@.subrange(0, i as int);
            assert(pre.drop_last() =~= s@.subrange(0, i - 1));
        }
        if ch == c {
            let sub = s.substring_char(0, i - 1);
            return Some(String::from_str(sub));
        }
        i = i - 1;
    }
    None
}

/// The part of `s` after the last occurrence of `c` (all of `s` when `c` does not occur).
pub fn after_last_char(s: &str, c: char) -> (r: String)
    ensures
        r@ == after_last(s@, c),
{
    let n = s.unicode_len();
    let mut i = n;
    proof {
        assert(s@.subrange(0, n as int) =~= s@);
        assert(s@.subrange(n as int, n as int) =~= Seq::<char>::empty());
        assert(after_last(s@, c) + Seq::<char>::empty() =~= after_last(s@, c));
    }
    while i > 0
        invariant
            i <= n,
            n == s@.len(),
            after_last(s@, c) == after_last(s@.subrange(0, i as int), c) + s@.subrange(i as int, n as int),
            forall|j: int| i <= j < n ==> s@[j] != c,
        decreases i,
    {
        let ch = s.get_char(i - 1);
        if ch == c {
            proof {
                let pre = s@.subrange(0, i as int);
                assert(pre.last() == c);
            }
            let sub = s.substring_char(i, n);
            return String::from_str(sub);
        }
        proof {
            let pre = s@.subrange(0, i as int);
            assert(pre.drop_last() =~= s@.subrange(0, i - 1));
            assert(s@.subrange(i - 1, n as int) =~= seq![ch] + s@.subrange(i as int, n as int));
            assert(after_last(pre, c) == after_last(pre.drop_last(), c).push(pre.last()));
            assert(after_last(pre.drop_last(), c).push(ch) + s@.subrange(i as int, n as int)
                =~= after_last(pre.drop_last(), c) + s@.subrange(i - 1, n as int));
        }
        i = i - 1;
    }
    proof {
        assert(s@.subrange(0, 0).len() == 0);
        assert(s@.subrange(0, n as int) =~= s@);
        assert(after_last(s@.subrange(0, 0), c) =~= Seq::<char>::empty());
    }
    let sub = s.substring_char(0, n);
    String::from_str(sub)
}

} // verus!

verus! {

/// The decimal writings of `s`, separated by ", ".
pub open spec fn join_decimals(s: Seq<usize>) -> Seq<char>
    decreases s.len(),
{
    if s.len() == 0 {
        Seq::empty()
    } else if s.len() == 1 {
        decimal(s[0] as nat)
    } else {
        join_decimals(s.drop_last()) + seq![',', ' '] + decimal(s.last() as nat)
    }
}

/// How `{:?}` writes a list of indices: "[1, 2, 3]".
pub open spec fn debug_list(s: Seq<usize>) -> Seq<char> {
    seq!['['] + join_decimals(s) + seq![']']
}

/// Writes a list of indices as `{:?}` does.
pub fn usize_list_to_debug(v: &Vec<usize>) -> (r: String)
    ensures
        r@ == debug_list(v@),
{
    proof {
        reveal_strlit("[");
        reveal_strlit("]");
        reveal_strlit(", ");
    }
    let mut s = String::from_str("[");
    let mut i: usize = 0;
    while i < v.len()
        invariant
            i <= v.len(),
            s@ == seq!['['] + join_decimals(v@.subrange(0, i as int)),
        decreases v.len() - i,
    {
        let ghost s0 = s@;
        proof {
            reveal_strlit(", ");
        }
        if i > 0 {
            s.append(", ");
        }
        let d = usize_to_decimal(v[i]);
        s.append(d.as_str());
        proof {
            let pre = v@.subrange(0, i as int);
            let next = v@.subrange(0, i + 1);
            assert(next.drop_last() =~= pre);
            assert(next.last() == v@[i as int]);
            if i == 0 {
                assert(pre.len() == 0);
                assert(join_decimals(pre) =~= Seq::<char>::empty());
                assert(next.len() == 1);
                assert(join_decimals(next) == decimal(next[0] as nat));
                assert(s@ =~= seq!['['] + join_decimals(next));
            } else {
                assert(join_decimals(next) == join_decimals(pre) + seq![',', ' '] + decimal(v@[i as int] as nat));
                assert(s@ =~= seq!['['] + join_decimals(next));
            }
        }
        i = i + 1;
    }
    s.append("]");
    proof {
        assert(v@.subrange(0, v.len() as int) =~= v@);
    }
    s
}

} // verus!

verus! {

/// The texts of a list of strings.
pub open spec fn strs(s: Seq<String>) -> Seq<Seq<char>> {
    s.map_values(|x: String| x@)
}

/// Whether a list of strings holds `s`.
pub fn contains_str(v: &Vec<String>, s: &str) -> (r: bool)
    ensures
        r == strs(v@).contains(s@),
{
    let mut i: usize = 0;
    while i < v.len()
        invariant
            i <= v@.len(),
            forall|j: int| 0 <= j < i ==> v@[j]@ != s@,
        decreases v@.len() - i,
    {
        if str_eq(v[i].as_str(), s) {
            assert(strs(v@)[i as int] == s@);
            return true;
        }
        i = i + 1;
    }
    proof {
        if strs(v@).contains(s@) {
            let j = choose|j: int| 0 <= j < strs(v@).len() && strs(v@)[j] == s@;
            assert(v@[j]@ == s@);
        }
    }
    false
}

/// The texts joined with `sep` between two of them.
pub open spec fn join_with(s: Seq<Seq<char>>, sep: Seq<char>) -> Seq<char>
    decreases s.len(),
{
    if s.len() == 0 {
        Seq::empty()
    } else if s.len() == 1 {
        s[0]
    } else {
        join_with(s.drop_last(), sep) + sep + s.last()
    }
}

/// Joins the strings with `sep` between two of them.
pub fn join_strings(v: &Vec<String>, sep: &str) -> (r: String)
    ensures
        r@ == join_with(strs(v@), sep@),
{
    proof {
        reveal_strlit("");
    }
    let mut s = String::from_str("");
    let mut i: usize = 0;
    while i < v.len()
        invariant
            i <= v@.len(),
            s@ == join_with(strs(v@.subrange(0, i as int)), sep@),
        decreases v@.len() - i,
    {
        proof {
            let pre = strs(v@.subrange(0, i as int));
            let next = strs(v@.subrange(0, i + 1));
            assert(next.drop_last() =~= pre);
            assert(next.last() == v@[i as int]@);
            if i == 0 {
                assert(pre.len() == 0);
            }
        }
        if i > 0 {
            s.append(sep);
        }
        s.append(v[i].as_str());
        i = i + 1;
    }
    proof {
        assert(v@.subrange(0, v@.len() as int) =~= v@);
    }
    s
}

} // verus!

verus! {

/// Whether no text occurs twice in a list.
pub fn texts_unique(v: &Vec<&str>) -> (r: bool)
    ensures
        r == v@.map_values(|s: &str| s@).no_duplicates(),
{
    let ghost t = v@.map_values(|s: &str| s@);
    let mut i: usize = 0;
    while i < v.len()
        invariant
            i <= v@.len(),
            t == v@.map_values(|s: &str| s@),
            forall|a: int, b: int| 0 <= a < b < v@.len() && a < i ==> t[a] != t[b],
        decreases v@.len() - i,
    {
        let mut j: usize = i + 1;
        while j < v.len()
            invariant
                i < v@.len(),
                i < j <= v@.len(),
                t == v@.map_values(|s: &str| s@),
                forall|a: int, b: int| 0 <= a < b < v@.len() && a < i ==> t[a] != t[b],
                forall|b: int| i < b < j ==> t[i as int] != t[b],
            decreases v@.len() - j,
        {
            if str_eq(v[i], v[j]) {
                proof {
                    assert(t[i as int] == t[j as int]);
                }
                return false;
            }
            j = j + 1;
        }
        i = i + 1;
    }
    true
}

} // verus!
