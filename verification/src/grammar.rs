//! The shapes of e-mail addresses and usernames that registration accepts:
//! `^[a-z0-9](\.?[a-z0-9]){5,29}\@(gmail|googlemail)\.com$` and `^[a-z]{4,20}$`.
use vstd::prelude::*;

use crate::text::chars;

verus! {

/// A lower-case ASCII letter, `[a-z]`.
pub open spec fn is_lower_letter(c: char) -> bool {
    'a' <= c && c <= 'z'
}

/// A lower-case ASCII letter or a decimal digit, `[a-z0-9]`.
pub open spec fn is_lower_alnum(c: char) -> bool {
    is_lower_letter(c) || ('0' <= c && c <= '9')
}

/// Adds `k` to a count that may be missing.
pub open spec fn shift(count: Option<nat>, k: nat) -> Option<nat> {
    match count {
        Some(j) => Some(j + k),
        None => None,
    }
}

/// How many groups `\.?[a-z0-9]` the whole of `s` splits into, or `None` when
/// it does not split into such groups.
pub open spec fn group_count(s: Seq<char>) -> Option<nat>
    decreases s.len(),
{
    if s.len() == 0 {
        Some(0)
    } else if is_lower_alnum(s[0]) {
        shift(group_count(s.drop_first()), 1)
    } else if s.len() >= 2 && s[0] == '.' && is_lower_alnum(s[1]) {
        shift(group_count(s.skip(2)), 1)
    } else {
        None
    }
}

/// The local part `[a-z0-9](\.?[a-z0-9]){5,29}`.
pub open spec fn local_part_matches(s: Seq<char>) -> bool {
    &&& s.len() >= 1
    &&& is_lower_alnum(s[0])
    &&& match group_count(s.drop_first()) {
        Some(k) => 5 <= k <= 29,
        None => false,
    }
}

/// `@gmail.com`
pub open spec fn gmail_domain() -> Seq<char> {
    seq!['@', 'g', 'm', 'a', 'i', 'l', '.', 'c', 'o', 'm']
}

/// `@googlemail.com`
pub open spec fn googlemail_domain() -> Seq<char> {
    seq!['@', 'g', 'o', 'o', 'g', 'l', 'e', 'm', 'a', 'i', 'l', '.', 'c', 'o', 'm']
}

/// `s` ends with `suffix`.
pub open spec fn ends_with(s: Seq<char>, suffix: Seq<char>) -> bool {
    suffix.len() <= s.len() && s.skip(s.len() - suffix.len()) == suffix
}

/// The e-mail shape `^[a-z0-9](\.?[a-z0-9]){5,29}\@(gmail|googlemail)\.com$`.
pub open spec fn email_matches(s: Seq<char>) -> bool {
    ||| ends_with(s, gmail_domain()) && local_part_matches(s.take(s.len() - gmail_domain().len()))
    ||| ends_with(s, googlemail_domain()) && local_part_matches(
        s.take(s.len() - googlemail_domain().len()),
    )
}

/// The username shape `^[a-z]{4,20}$`.
pub open spec fn username_matches(s: Seq<char>) -> bool {
    &&& 4 <= s.len() <= 20
    &&& forall|i: int| 0 <= i < s.len() ==> is_lower_letter(#[trigger] s[i])
}

fn lower_letter(c: char) -> (b: bool)
    ensures
        b == is_lower_letter(c),
{
    'a' <= c && c <= 'z'
}

fn lower_alnum(c: char) -> (b: bool)
    ensures
        b == is_lower_alnum(c),
{
    ('a' <= c && c <= 'z') || ('0' <= c && c <= '9')
}

/// Whether `v` ends with `suffix`.
fn has_suffix(v: &Vec<char>, suffix: &Vec<char>) -> (b: bool)
    ensures
        b == ends_with(v@, suffix@),
{
    let n: usize = v.len();
    let m: usize = suffix.len();
    if m > n {
        return false;
    }
    let start: usize = n - m;
    let mut i: usize = 0;
    while i < m
        invariant
            n == v@.len(),
            m == suffix@.len(),
            start == n - m,
            i <= m,
            forall|j: int| 0 <= j < i ==> v@[start + j] == suffix@[j],
        decreases m - i,
    {
        if v[start + i] != suffix[i] {
            assert(v@.skip(start as int)[i as int] != suffix@[i as int]);
            return false;
        }
        i += 1;
    }
    assert(v@.skip(start as int) =~= suffix@);
    true
}

/// Whether `v[..end]` is a local part `[a-z0-9](\.?[a-z0-9]){5,29}`.
fn local_part(v: &Vec<char>, end: usize) -> (b: bool)
    requires
        end <= v@.len(),
    ensures
        b == local_part_matches(v@.take(end as int)),
{
    let ghost t = v@.take(end as int);
    if end == 0 || !lower_alnum(v[0]) {
        return false;
    }
    let mut i: usize = 1;
    let mut k: usize = 0;
    assert(t.drop_first() =~= t.skip(1));
    while i < end
        invariant
            1 <= i <= end <= v@.len(),
            t == v@.take(end as int),
            k < i,
            group_count(t.drop_first()) == shift(group_count(t.skip(i as int)), k as nat),
        decreases end - i,
    {
        let ghost rest = t.skip(i as int);
        if lower_alnum(v[i]) {
            assert(rest.drop_first() =~= t.skip(i + 1));
            i += 1;
            k += 1;
        } else if v[i] == '.' && i + 1 < end && lower_alnum(v[i + 1]) {
            assert(rest.skip(2) =~= t.skip(i + 2));
            i += 2;
            k += 1;
        } else {
            assert(group_count(rest) == None::<nat>);
            return false;
        }
    }
    assert(t.skip(i as int).len() == 0);
    5 <= k && k <= 29
}

/// Whether `email` has the accepted shape: a Gmail or Googlemail address whose
/// local part is six to thirty lower-case letters or digits, with single dots
/// allowed between them.
pub fn is_google_email(email: &str) -> (b: bool)
    ensures
        b == email_matches(email@),
        b ==> forall|i: int|
            0 <= i < email@.len() ==> ('a' <= #[trigger] email@[i] && email@[i] <= 'z') || ('0'
                <= email@[i] && email@[i] <= '9') || email@[i] == '.' || email@[i] == '@',
{
    proof {
        if email_matches(email@) {
            lemma_email_characters(email@);
        }
    }
    let v = chars(email);
    let gmail: Vec<char> = vec!['@', 'g', 'm', 'a', 'i', 'l', '.', 'c', 'o', 'm'];
    let googlemail: Vec<char> = vec![
        '@',
        'g',
        'o',
        'o',
        'g',
        'l',
        'e',
        'm',
        'a',
        'i',
        'l',
        '.',
        'c',
        'o',
        'm',
    ];
    assert(gmail@ =~= gmail_domain());
    assert(googlemail@ =~= googlemail_domain());
    if has_suffix(&v, &gmail) && local_part(&v, v.len() - gmail.len()) {
        return true;
    }
    has_suffix(&v, &googlemail) && local_part(&v, v.len() - googlemail.len())
}

/// Whether `username` has the accepted shape: four to twenty lower-case ASCII
/// letters.
pub fn is_username(username: &str) -> (b: bool)
    ensures
        b == username_matches(username@),
        b <==> (4 <= username@.len() <= 20 && forall|i: int|
            0 <= i < username@.len() ==> 'a' <= #[trigger] username@[i] && username@[i] <= 'z'),
{
    let v = chars(username);
    let n: usize = v.len();
    if n < 4 || n > 20 {
        return false;
    }
    let mut i: usize = 0;
    while i < n
        invariant
            n == v@.len(),
            v@ == username@,
            i <= n,
            forall|j: int| 0 <= j < i ==> is_lower_letter(#[trigger] v@[j]),
        decreases n - i,
    {
        if !lower_letter(v[i]) {
            return false;
        }
        i += 1;
    }
    true
}

/// The groups `\.?[a-z0-9]` are at most two characters each and at least one.
proof fn lemma_group_count_length(s: Seq<char>)
    ensures
        group_count(s) matches Some(k) ==> k <= s.len() <= 2 * k,
    decreases s.len(),
{
    if s.len() > 0 {
        if is_lower_alnum(s[0]) {
            lemma_group_count_length(s.drop_first());
        } else if s.len() >= 2 && s[0] == '.' && is_lower_alnum(s[1]) {
            lemma_group_count_length(s.skip(2));
        }
    }
}

/// Every username of the accepted shape is also within the accepted length (4 to
/// 20 characters).
pub proof fn lemma_username_shape_within_length(s: Seq<char>)
    requires
        username_matches(s),
    ensures
        4 <= s.len() <= 20,
{
}

/// Every e-mail address of the accepted shape is at least 16 characters long, the
/// lower bound of the accepted length, and at most 74.
pub proof fn lemma_email_shape_length(s: Seq<char>)
    requires
        email_matches(s),
    ensures
        16 <= s.len() <= 74,
{
    if ends_with(s, gmail_domain()) && local_part_matches(s.take(s.len() - 10)) {
        lemma_group_count_length(s.take(s.len() - 10).drop_first());
    } else {
        lemma_group_count_length(s.take(s.len() - 15).drop_first());
    }
}

/// What splits into groups `\.?[a-z0-9]` holds only lower-case ASCII letters,
/// digits and dots, and every dot is followed by a letter or digit.
proof fn lemma_group_characters(s: Seq<char>)
    requires
        group_count(s) is Some,
    ensures
        forall|i: int|
            0 <= i < s.len() ==> ('a' <= #[trigger] s[i] && s[i] <= 'z') || ('0' <= s[i] && s[i]
                <= '9') || s[i] == '.',
        forall|i: int|
            0 <= i < s.len() && #[trigger] s[i] == '.' ==> i + 1 < s.len() && (('a' <= s[i + 1]
                && s[i + 1] <= 'z') || ('0' <= s[i + 1] && s[i + 1] <= '9')),
    decreases s.len(),
{
    if s.len() > 0 {
        if is_lower_alnum(s[0]) {
            let t = s.drop_first();
            lemma_group_characters(t);
            assert forall|i: int| 0 < i < s.len() implies s[i] == t[i - 1] by {}
        } else {
            let t = s.skip(2);
            lemma_group_characters(t);
            assert forall|i: int| 1 < i < s.len() implies s[i] == t[i - 2] by {}
        }
    }
}

/// Only lower-case letters and digits form groups of their own.
proof fn lemma_plain_groups(t: Seq<char>)
    requires
        forall|i: int|
            0 <= i < t.len() ==> ('a' <= #[trigger] t[i] && t[i] <= 'z') || ('0' <= t[i] && t[i]
                <= '9'),
    ensures
        group_count(t) == Some(t.len()),
    decreases t.len(),
{
    if t.len() > 0 {
        let r = t.drop_first();
        assert forall|i: int| 0 <= i < r.len() implies ('a' <= #[trigger] r[i] && r[i] <= 'z') || (
        '0' <= r[i] && r[i] <= '9') by {
            assert(r[i] == t[i + 1]);
        }
        lemma_plain_groups(r);
    }
}

/// An accepted e-mail address is made only of lower-case ASCII letters, decimal
/// digits, dots and `@`; it starts with a letter or digit; every dot is followed
/// by a letter or digit; and it ends in `@gmail.com` or `@googlemail.com`.
pub proof fn lemma_email_characters(s: Seq<char>)
    requires
        email_matches(s),
    ensures
        forall|i: int|
            0 <= i < s.len() ==> ('a' <= #[trigger] s[i] && s[i] <= 'z') || ('0' <= s[i] && s[i]
                <= '9') || s[i] == '.' || s[i] == '@',
        ('a' <= s[0] && s[0] <= 'z') || ('0' <= s[0] && s[0] <= '9'),
        forall|i: int|
            0 <= i < s.len() && #[trigger] s[i] == '.' ==> i + 1 < s.len() && (('a' <= s[i + 1]
                && s[i + 1] <= 'z') || ('0' <= s[i + 1] && s[i + 1] <= '9')),
        s.len() >= 10 && s.skip(s.len() - 10) == seq!['@', 'g', 'm', 'a', 'i', 'l', '.', 'c', 'o', 'm']
            || s.len() >= 15 && s.skip(s.len() - 15) == seq![
            '@',
            'g',
            'o',
            'o',
            'g',
            'l',
            'e',
            'm',
            'a',
            'i',
            'l',
            '.',
            'c',
            'o',
            'm',
        ],
{
    let k: int = if ends_with(s, gmail_domain()) && local_part_matches(s.take(s.len() - 10)) {
        s.len() - 10
    } else {
        s.len() - 15
    };
    let local = s.take(k);
    let domain = s.skip(k);
    assert(local_part_matches(local));
    let tail = local.drop_first();
    lemma_group_characters(tail);
    assert forall|i: int| 0 <= i < s.len() implies ('a' <= #[trigger] s[i] && s[i] <= 'z') || (
    '0' <= s[i] && s[i] <= '9') || s[i] == '.' || s[i] == '@' by {
        if i == 0 {
            assert(s[i] == local[0]);
        } else if i < k {
            assert(s[i] == tail[i - 1]);
        } else {
            assert(s[i] == domain[i - k]);
        }
    }
    assert(s[0] == local[0]);
    assert forall|i: int| 0 <= i < s.len() && #[trigger] s[i] == '.' implies i + 1 < s.len() && ((
    'a' <= s[i + 1] && s[i + 1] <= 'z') || ('0' <= s[i + 1] && s[i + 1] <= '9')) by {
        if i == 0 {
            assert(s[i] == local[0]);
        } else if i < k {
            assert(s[i] == tail[i - 1]);
            if i + 1 < k {
                assert(s[i + 1] == tail[i]);
            } else {
                assert(tail[i - 1] == '.');
            }
        } else {
            assert(s[i] == domain[i - k]);
            assert(s[i + 1] == domain[i + 1 - k]);
        }
    }
}

/// Every address made of six to thirty lower-case ASCII letters and digits
/// followed by `@gmail.com` or by `@googlemail.com` is accepted.
pub proof fn lemma_plain_google_email_accepted(local: Seq<char>)
    requires
        6 <= local.len() <= 30,
        forall|i: int|
            0 <= i < local.len() ==> ('a' <= #[trigger] local[i] && local[i] <= 'z') || ('0'
                <= local[i] && local[i] <= '9'),
    ensures
        email_matches(local + seq!['@', 'g', 'm', 'a', 'i', 'l', '.', 'c', 'o', 'm']),
        email_matches(
            local + seq![
                '@',
                'g',
                'o',
                'o',
                'g',
                'l',
                'e',
                'm',
                'a',
                'i',
                'l',
                '.',
                'c',
                'o',
                'm',
            ],
        ),
{
    let r = local.drop_first();
    assert forall|i: int| 0 <= i < r.len() implies ('a' <= #[trigger] r[i] && r[i] <= 'z') || ('0'
        <= r[i] && r[i] <= '9') by {
        assert(r[i] == local[i + 1]);
    }
    lemma_plain_groups(r);
    assert(local[0] == local[0]);
    let g = local + gmail_domain();
    assert(g.skip(g.len() - 10) =~= gmail_domain());
    assert(g.take(g.len() - 10) =~= local);
    let h = local + googlemail_domain();
    assert(h.skip(h.len() - 15) =~= googlemail_domain());
    assert(h.take(h.len() - 15) =~= local);
}

/// The accepted usernames are exactly those of four to twenty characters, each a
/// lower-case ASCII letter.
pub proof fn lemma_username_shape(s: Seq<char>)
    ensures
        username_matches(s) <==> (4 <= s.len() <= 20 && forall|i: int|
            0 <= i < s.len() ==> 'a' <= #[trigger] s[i] && s[i] <= 'z'),
{
}

} // verus!
