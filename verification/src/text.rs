use vstd::prelude::*;

use crate::outside::push_char;

verus! {

/// The Unicode `White_Space` property: the characters that `char::is_whitespace`
/// accepts and that `str::trim` removes.
pub open spec fn is_white_space(c: char) -> bool {
    ||| ('\u{9}' <= c && c <= '\u{d}')
    ||| c == ' '
    ||| c == '\u{85}'
    ||| c == '\u{a0}'
    ||| c == '\u{1680}'
    ||| ('\u{2000}' <= c && c <= '\u{200a}')
    ||| c == '\u{2028}'
    ||| c == '\u{2029}'
    ||| c == '\u{202f}'
    ||| c == '\u{205f}'
    ||| c == '\u{3000}'
}

/// Whether `c` is white space in the Unicode sense.
pub fn is_whitespace(c: char) -> (b: bool)
    ensures
        b == is_white_space(c),
        c == ' ' || c == '\t' || c == '\n' || c == '\r' ==> b,
        ('!' <= c && c <= '~') || ('\u{a1}' <= c && c <= '\u{167f}') || c > '\u{3000}' ==> !b,
{
    proof {
        lemma_white_space_ranges(c);
    }
    ('\u{9}' <= c && c <= '\u{d}') || c == ' ' || c == '\u{85}' || c == '\u{a0}' || c
        == '\u{1680}' || ('\u{2000}' <= c && c <= '\u{200a}') || c == '\u{2028}' || c
        == '\u{2029}' || c == '\u{202f}' || c == '\u{205f}' || c == '\u{3000}'
}

/// `s` without its leading white space.
pub open spec fn trim_start(s: Seq<char>) -> Seq<char>
    decreases s.len(),
{
    if s.len() > 0 && is_white_space(s[0]) {
        trim_start(s.drop_first())
    } else {
        s
    }
}

/// `s` without its trailing white space.
pub open spec fn trim_end(s: Seq<char>) -> Seq<char>
    decreases s.len(),
{
    if s.len() > 0 && is_white_space(s.last()) {
        trim_end(s.drop_last())
    } else {
        s
    }
}

/// `s` without leading and trailing white space, as `str::trim` gives it.
pub open spec fn trimmed(s: Seq<char>) -> Seq<char> {
    trim_end(trim_start(s))
}

/// Every character of `s` is white space.
pub open spec fn all_white_space(s: Seq<char>) -> bool {
    forall|i: int| 0 <= i < s.len() ==> is_white_space(#[trigger] s[i])
}

/// The characters of `s`, in order.
pub fn chars(s: &str) -> (v: Vec<char>)
    ensures
        v@ == s@,
{
    let mut v: Vec<char> = Vec::new();
    for c in it: s.chars()
        invariant
            v@ == it.seq().take(it.index() as int),
    {
        v.push(c);
    }
    v
}

/// The number of characters of `s` (not its number of bytes).
pub fn char_count(s: &str) -> (n: usize)
    ensures
        n == s@.len(),
{
    let v = chars(s);
    v.len()
}

/// Whether the two texts are the same characters in the same order.
pub fn same_text(a: &str, b: &str) -> (same: bool)
    ensures
        same == (a@ == b@),
{
    let x = chars(a);
    let y = chars(b);
    if x.len() != y.len() {
        return false;
    }
    let mut i: usize = 0;
    while i < x.len()
        invariant
            x@ == a@,
            y@ == b@,
            x@.len() == y@.len(),
            i <= x@.len(),
            forall|j: int| 0 <= j < i ==> x@[j] == y@[j],
        decreases x@.len() - i,
    {
        if x[i] != y[i] {
            return false;
        }
        i += 1;
    }
    assert(x@ =~= y@);
    true
}

/// The string made of `v[start..end]`.
fn string_of(v: &Vec<char>, start: usize, end: usize) -> (s: String)
    requires
        start <= end <= v@.len(),
    ensures
        s@ == v@.subrange(start as int, end as int),
{
    let mut s = String::new();
    let mut i: usize = start;
    while i < end
        invariant
            start <= i <= end <= v@.len(),
            s@ == v@.subrange(start as int, i as int),
        decreases end - i,
    {
        push_char(&mut s, v[i]);
        assert(v@.subrange(start as int, i + 1) =~= v@.subrange(start as int, i as int).push(
            v@[i as int],
        ));
        i += 1;
    }
    s
}

/// `s` with its leading and trailing white space removed.
pub fn trim(s: &str) -> (t: String)
    ensures
        t@ == trimmed(s@),
        exists|a: int, b: int|
            0 <= a <= b <= s@.len() && t@ == #[trigger] s@.subrange(a, b) && all_white_space(
                s@.take(a),
            ) && all_white_space(s@.skip(b)) && (a < b ==> !is_white_space(s@[a])
                && !is_white_space(s@[b - 1])),
        s@.len() > 0 && '!' <= s@[0] && s@[0] <= '~' && '!' <= s@.last() && s@.last() <= '~'
            ==> t@ == s@,
        (exists|i: int| 0 <= i < s@.len() && '!' <= #[trigger] s@[i] && s@[i] <= '~') ==> t@.len()
            > 0,
{
    proof {
        lemma_trimmed_subrange(s@);
        lemma_trim_keeps_printable_ends(s@);
        lemma_trim_keeps_printable(s@);
    }
    let v = chars(s);
    let n: usize = v.len();
    let mut start: usize = 0;
    assert(s@.skip(0) =~= s@);
    while start < n && is_whitespace(v[start])
        invariant
            start <= n == v@.len(),
            v@ == s@,
            trim_start(s@) == trim_start(s@.skip(start as int)),
        decreases n - start,
    {
        assert(s@.skip(start as int).drop_first() =~= s@.skip(start + 1));
        start += 1;
    }
    assert(trim_start(s@) == s@.skip(start as int)) by {
        if start == n {
            assert(s@.skip(start as int).len() == 0);
        }
    }
    let mut end: usize = n;
    while end > start && is_whitespace(v[end - 1])
        invariant
            start <= end <= n == v@.len(),
            v@ == s@,
            trimmed(s@) == trim_end(s@.subrange(start as int, end as int)),
        decreases end,
    {
        assert(s@.subrange(start as int, end as int).drop_last() =~= s@.subrange(
            start as int,
            end - 1,
        ));
        end -= 1;
    }
    assert(s@.skip(start as int) =~= s@.subrange(start as int, n as int));
    string_of(&v, start, end)
}

/// Leading white space removed, what is left starts with a character that is not
/// white space, and removing it again changes nothing.
pub proof fn lemma_trim_start_stable(s: Seq<char>)
    ensures
        trim_start(s).len() > 0 ==> !is_white_space(trim_start(s)[0]),
        trim_start(trim_start(s)) == trim_start(s),
        trim_start(s).len() <= s.len(),
        trim_start(s) == s.skip(s.len() - trim_start(s).len()),
        all_white_space(s.take(s.len() - trim_start(s).len())),
    decreases s.len(),
{
    if s.len() > 0 && is_white_space(s[0]) {
        lemma_trim_start_stable(s.drop_first());
        let k: int = s.len() - trim_start(s).len();
        assert(s.drop_first().skip(k - 1) =~= s.skip(k));
        assert forall|i: int| 0 <= i < k implies is_white_space(#[trigger] s.take(k)[i]) by {
            if i > 0 {
                assert(s.take(k)[i] == s.drop_first().take(k - 1)[i - 1]);
            }
        }
    } else {
        assert(s.skip(0) =~= s);
    }
}

/// Trailing white space removed, what is left ends with a character that is not
/// white space, and removing it again changes nothing.
pub proof fn lemma_trim_end_stable(s: Seq<char>)
    ensures
        trim_end(s).len() > 0 ==> !is_white_space(trim_end(s).last()),
        trim_end(trim_end(s)) == trim_end(s),
        trim_end(s).len() <= s.len(),
        trim_end(s) == s.take(trim_end(s).len() as int),
        all_white_space(s.skip(trim_end(s).len() as int)),
    decreases s.len(),
{
    if s.len() > 0 && is_white_space(s.last()) {
        lemma_trim_end_stable(s.drop_last());
        let k: int = trim_end(s).len() as int;
        assert(s.drop_last().take(k) =~= s.take(k));
        assert forall|i: int| 0 <= i < s.len() - k implies is_white_space(
            #[trigger] s.skip(k)[i],
        ) by {
            if k + i < s.len() - 1 {
                assert(s.skip(k)[i] == s.drop_last().skip(k)[i]);
            }
        }
    } else {
        assert(s.take(s.len() as int) =~= s);
    }
}

/// Removing trailing white space keeps a first character that is not white space.
proof fn lemma_trim_end_keeps_start(s: Seq<char>)
    requires
        s.len() > 0 ==> !is_white_space(s[0]),
    ensures
        trim_start(trim_end(s)) == trim_end(s),
{
    lemma_trim_end_stable(s);
    let t = trim_end(s);
    if t.len() > 0 {
        assert(t[0] == s[0]);
    }
}

/// Trimming is idempotent, and a trimmed text neither starts nor ends with white
/// space.
pub proof fn lemma_trim_idempotent(s: Seq<char>)
    ensures
        trimmed(trimmed(s)) == trimmed(s),
        trimmed(s).len() > 0 ==> !is_white_space(trimmed(s)[0]) && !is_white_space(
            trimmed(s).last(),
        ),
        trimmed(s).len() <= s.len(),
{
    lemma_trim_start_stable(s);
    let a = trim_start(s);
    lemma_trim_end_stable(a);
    lemma_trim_end_keeps_start(a);
    let t = trim_end(a);
    if t.len() > 0 {
        assert(t[0] == a[0]);
    }
}

/// A text trims to nothing exactly when it is all white space.
pub proof fn lemma_trimmed_empty(s: Seq<char>)
    ensures
        (trimmed(s).len() == 0) == all_white_space(s),
{
    lemma_trim_start_stable(s);
    let a = trim_start(s);
    lemma_trim_end_stable(a);
    let k: int = s.len() - a.len();
    if trimmed(s).len() == 0 {
        assert forall|i: int| 0 <= i < s.len() implies is_white_space(#[trigger] s[i]) by {
            if i < k {
                assert(s[i] == s.take(k)[i]);
            } else {
                assert(s[i] == a.skip(0)[i - k]);
            }
        }
    }
    if all_white_space(s) && a.len() > 0 {
        assert(a[0] == s[k]);
    }
}

/// The decimal digit `d` (below ten).
pub open spec fn digit_char(d: nat) -> char {
    if d == 0 {
        '0'
    } else if d == 1 {
        '1'
    } else if d == 2 {
        '2'
    } else if d == 3 {
        '3'
    } else if d == 4 {
        '4'
    } else if d == 5 {
        '5'
    } else if d == 6 {
        '6'
    } else if d == 7 {
        '7'
    } else if d == 8 {
        '8'
    } else {
        '9'
    }
}

/// The decimal digits of `m`, most significant first, without leading zeros.
pub open spec fn digits(m: nat) -> Seq<char>
    decreases m,
{
    if m < 10 {
        seq![digit_char(m)]
    } else {
        digits(m / 10).push(digit_char(m % 10))
    }
}

/// The decimal rendering of `n`: a minus sign for negative numbers, then the
/// digits of its magnitude.
pub open spec fn decimal(n: int) -> Seq<char> {
    if n < 0 {
        seq!['-'] + digits((-n) as nat)
    } else {
        digits(n as nat)
    }
}

fn digit(d: u64) -> (c: char)
    requires
        d < 10,
    ensures
        c == digit_char(d as nat),
{
    match d {
        0 => '0',
        1 => '1',
        2 => '2',
        3 => '3',
        4 => '4',
        5 => '5',
        6 => '6',
        7 => '7',
        8 => '8',
        _ => '9',
    }
}

proof fn lemma_reverse_push(s: Seq<char>, c: char)
    ensures
        s.push(c).reverse() == seq![c] + s.reverse(),
{
    assert(s.push(c).reverse() =~= seq![c] + s.reverse());
}

proof fn lemma_digits_step(m: nat)
    requires
        m >= 10,
    ensures
        digits(m) == digits(m / 10) + seq![digit_char(m % 10)],
{
    assert(digits(m) =~= digits(m / 10) + seq![digit_char(m % 10)]);
}

/// `n` rendered in decimal, as `i64::to_string` renders it.
pub fn decimal_string(n: i64) -> (s: String)
    ensures
        s@ == decimal(n as int),
{
    let magnitude: u64 = if n < 0 {
        ((-(n + 1)) as u64) + 1
    } else {
        n as u64
    };
    let ghost whole = magnitude as nat;
    let mut q: u64 = magnitude;
    let mut rev: Vec<char> = Vec::new();
    loop
        invariant_except_break
            digits(whole) == digits(q as nat) + rev@.reverse(),
        ensures
            digits(whole) == rev@.reverse(),
        decreases q,
    {
        let r: u64 = q % 10;
        let d = digit(r);
        proof {
            lemma_reverse_push(rev@, d);
        }
        rev.push(d);
        if q < 10 {
            assert(digits(q as nat) =~= seq![d]);
            assert(digits(whole) =~= rev@.reverse());
            break ;
        }
        proof {
            lemma_digits_step(q as nat);
        }
        q = q / 10;
    }
    let mut s = String::new();
    if n < 0 {
        push_char(&mut s, '-');
    }
    let ghost sign = s@;
    let len: usize = rev.len();
    let mut i: usize = 0;
    while i < len
        invariant
            len == rev@.len(),
            i <= len,
            s@ == sign + rev@.reverse().take(i as int),
        decreases len - i,
    {
        push_char(&mut s, rev[len - 1 - i]);
        assert(rev@.reverse().take(i + 1) =~= rev@.reverse().take(i as int).push(
            rev@[len - 1 - i],
        ));
        i += 1;
    }
    assert(rev@.reverse().take(len as int) =~= rev@.reverse());
    assert(s@ =~= decimal(n as int)) by {
        if n < 0 {
            assert(whole == -(n as int));
        }
    }
    s
}

/// The value of a decimal digit character.
pub open spec fn digit_value(c: char) -> nat {
    if c == '1' {
        1
    } else if c == '2' {
        2
    } else if c == '3' {
        3
    } else if c == '4' {
        4
    } else if c == '5' {
        5
    } else if c == '6' {
        6
    } else if c == '7' {
        7
    } else if c == '8' {
        8
    } else if c == '9' {
        9
    } else {
        0
    }
}

/// The number that a string of decimal digits denotes.
pub open spec fn digits_value(s: Seq<char>) -> nat
    decreases s.len(),
{
    if s.len() == 0 {
        0
    } else {
        digits_value(s.drop_last()) * 10 + digit_value(s.last())
    }
}

proof fn lemma_digits_value(m: nat)
    ensures
        digits_value(digits(m)) == m,
        digits(m).len() > 0,
        digits(m)[0] != '-',
    decreases m,
{
    assert(digit_value(digit_char(m % 10)) == m % 10);
    if m >= 10 {
        lemma_digits_value(m / 10);
        let d = digits(m);
        assert(d.drop_last() =~= digits(m / 10));
        assert(d[0] == digits(m / 10)[0]);
        assert(d.last() == digit_char(m % 10));
        assert(digits_value(d) == digits_value(digits(m / 10)) * 10 + digit_value(d.last()));
        assert(m == (m / 10) * 10 + m % 10);
    } else {
        let d = digits(m);
        assert(d.drop_last() =~= Seq::<char>::empty());
        assert(d.last() == digit_char(m));
        assert(digits_value(d) == digits_value(d.drop_last()) * 10 + digit_value(d.last()));
    }
}

/// Distinct numbers have distinct decimal renderings, so the rendering
/// identifies the number.
pub proof fn lemma_decimal_injective(a: int, b: int)
    requires
        decimal(a) == decimal(b),
    ensures
        a == b,
{
    if a < 0 {
        lemma_digits_value((-a) as nat);
    } else {
        lemma_digits_value(a as nat);
    }
    if b < 0 {
        lemma_digits_value((-b) as nat);
    } else {
        lemma_digits_value(b as nat);
    }
    if a < 0 && b < 0 {
        assert(decimal(a).drop_first() =~= digits((-a) as nat));
        assert(decimal(b).drop_first() =~= digits((-b) as nat));
    } else if a < 0 && b >= 0 {
        assert(decimal(a)[0] == '-');
    } else if a >= 0 && b < 0 {
        assert(decimal(b)[0] == '-');
    }
}

/// White space is control characters 9 to 13, the space, and a few characters
/// from U+0085 to U+3000: no printable ASCII character (`!` to `~`), nothing from
/// U+00A1 to U+167F, nothing above U+3000, and not the zero-width space U+200B is
/// white space, while the space, tab, line feed, carriage return, no-break space
/// (U+00A0) and ideographic space (U+3000) are.
pub proof fn lemma_white_space_ranges(c: char)
    ensures
        c == ' ' || c == '\t' || c == '\n' || c == '\r' || c == '\u{a0}' || c == '\u{3000}'
            ==> is_white_space(c),
        c == '\u{200b}' ==> !is_white_space(c),
        ('!' <= c && c <= '~') || ('\u{a1}' <= c && c <= '\u{167f}') || c > '\u{3000}'
            ==> !is_white_space(c),
{
}

/// Trimming keeps a contiguous part of the text and removes only white space on
/// either side of it; what it keeps starts and ends with characters that are not
/// white space.
pub proof fn lemma_trimmed_subrange(s: Seq<char>)
    ensures
        exists|a: int, b: int|
            0 <= a <= b <= s.len() && trimmed(s) == #[trigger] s.subrange(a, b) && all_white_space(
                s.take(a),
            ) && all_white_space(s.skip(b)) && (a < b ==> !is_white_space(s[a])
                && !is_white_space(s[b - 1])),
{
    lemma_trim_start_stable(s);
    let x = trim_start(s);
    let a: int = s.len() - x.len();
    lemma_trim_end_stable(x);
    let t = trim_end(x);
    let b: int = a + t.len();
    assert(t =~= s.subrange(a, b));
    assert forall|i: int| 0 <= i < s.skip(b).len() implies is_white_space(#[trigger] s.skip(b)[i]) by {
        assert(s.skip(b)[i] == x.skip(t.len() as int)[i]);
    }
    if a < b {
        assert(s[a] == x[0]);
        assert(s[b - 1] == t.last());
        lemma_trim_idempotent(s);
    }
    assert(trimmed(s) == s.subrange(a, b));
}

/// A text that starts and ends with printable ASCII characters is left as it is
/// by trimming.
pub proof fn lemma_trim_keeps_printable_ends(s: Seq<char>)
    ensures
        s.len() > 0 && '!' <= s[0] && s[0] <= '~' && '!' <= s.last() && s.last() <= '~'
            ==> trimmed(s) == s,
{
    if s.len() > 0 && '!' <= s[0] && s[0] <= '~' && '!' <= s.last() && s.last() <= '~' {
        lemma_white_space_ranges(s[0]);
        lemma_white_space_ranges(s.last());
        assert(trim_start(s) == s);
    }
}

/// A text that holds a printable ASCII character does not trim to nothing.
pub proof fn lemma_trim_keeps_printable(s: Seq<char>)
    ensures
        (exists|i: int| 0 <= i < s.len() && '!' <= #[trigger] s[i] && s[i] <= '~') ==> trimmed(
            s,
        ).len() > 0,
{
    if exists|i: int| 0 <= i < s.len() && '!' <= #[trigger] s[i] && s[i] <= '~' {
        let i = choose|i: int| 0 <= i < s.len() && '!' <= #[trigger] s[i] && s[i] <= '~';
        lemma_white_space_ranges(s[i]);
        lemma_trimmed_empty(s);
    }
}

/// The decimal rendering reads back: it is made of decimal digits, after a
/// minus sign exactly for negative numbers, with no leading zero, and the digits
/// denote the magnitude.
pub proof fn lemma_decimal_reads_back(n: int)
    ensures
        ({
            let d = decimal(n);
            let m: int = if n < 0 { -n } else { n };
            let ds = if n < 0 { d.drop_first() } else { d };
            &&& (n < 0 <==> (d.len() > 0 && d[0] == '-'))
            &&& ds.len() > 0
            &&& forall|i: int| 0 <= i < ds.len() ==> '0' <= #[trigger] ds[i] && ds[i] <= '9'
            &&& (ds[0] == '0' ==> ds.len() == 1)
            &&& digits_value(ds) == m
        }),
{
    let m: nat = if n < 0 { (-n) as nat } else { n as nat };
    lemma_digits_value(m);
    lemma_digits_shape(m);
    if n < 0 {
        assert(decimal(n).drop_first() =~= digits(m));
    }
}

proof fn lemma_digits_shape(m: nat)
    ensures
        forall|i: int| 0 <= i < digits(m).len() ==> '0' <= #[trigger] digits(m)[i] && digits(m)[i] <= '9',
        digits(m)[0] == '0' ==> m == 0 && digits(m).len() == 1,
    decreases m,
{
    if m >= 10 {
        lemma_digits_shape(m / 10);
        let d = digits(m);
        assert forall|i: int| 0 <= i < d.len() implies '0' <= #[trigger] d[i] && d[i] <= '9' by {
            if i < d.len() - 1 {
                assert(d[i] == digits(m / 10)[i]);
            }
        }
        assert(d[0] == digits(m / 10)[0]);
    }
}

} // verus!
