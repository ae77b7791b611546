//! PII redaction for captured on-screen text.
//!
//! Two passes over the text:
//! 1. every maximal run of e-mail characters (ASCII letters and digits plus
//!    `._%+-@`) that looks like an address — a non-empty local part, an `@`,
//!    and a `.` strictly inside the domain part — becomes `<EMAIL>`;
//! 2. every phone-number-shaped span — starting at a digit, `(` or `+`,
//!    running over digits and the separators ` -().+`, ending at its last
//!    digit, and holding at least seven digits — becomes `<PHONE>`.

use vstd::prelude::*;
use crate::text::{chars_of, push_char, push_str, string_of};

verus! {

/// Minimum number of digits for a span to count as a phone number.
pub const MIN_PHONE_DIGITS: usize = 7;

/// ASCII letter or digit.
pub open spec fn is_ascii_alnum(c: char) -> bool {
    ('a' <= c && c <= 'z') || ('A' <= c && c <= 'Z') || ('0' <= c && c <= '9')
}

/// ASCII digit.
pub open spec fn is_digit(c: char) -> bool {
    '0' <= c && c <= '9'
}

/// Characters that may appear in an e-mail address.
pub open spec fn is_email_char(c: char) -> bool {
    is_ascii_alnum(c) || c == '.' || c == '_' || c == '%' || c == '+' || c == '-' || c == '@'
}

/// Characters that may appear inside a phone number.
pub open spec fn is_phone_char(c: char) -> bool {
    is_digit(c) || c == ' ' || c == '-' || c == '(' || c == ')' || c == '.' || c == '+'
}

/// Characters that may start a phone number.
pub open spec fn is_phone_start(c: char) -> bool {
    is_digit(c) || c == '(' || c == '+'
}

/// Length of the longest prefix of `s` made of e-mail characters.
pub open spec fn email_run(s: Seq<char>) -> nat
    decreases s.len(),
{
    if s.len() > 0 && is_email_char(s[0]) {
        1 + email_run(s.drop_first())
    } else {
        0
    }
}

/// Length of the longest prefix of `s` made of phone characters.
pub open spec fn phone_run(s: Seq<char>) -> nat
    decreases s.len(),
{
    if s.len() > 0 && is_phone_char(s[0]) {
        1 + phone_run(s.drop_first())
    } else {
        0
    }
}

/// One past the index of the last digit of `t` (0 when `t` has no digit).
pub open spec fn last_digit_end(t: Seq<char>) -> nat
    decreases t.len(),
{
    if t.len() == 0 {
        0
    } else if is_digit(t.last()) {
        t.len()
    } else {
        last_digit_end(t.drop_last())
    }
}

/// Number of digits in `t`.
pub open spec fn digit_count(t: Seq<char>) -> nat
    decreases t.len(),
{
    if t.len() == 0 {
        0
    } else {
        digit_count(t.drop_last()) + if is_digit(t.last()) {
            1nat
        } else {
            0nat
        }
    }
}

/// A run of e-mail characters looks like an address: some `@` after at
/// least one character, followed later by a `.` that is neither right
/// after that `@` nor the last character.
pub open spec fn looks_like_email(t: Seq<char>) -> bool {
    exists|k: int, p: int| 0 < k && k + 1 < p && p < t.len() - 1 && t[k] == '@' && t[p] == '.'
}

/// Length of the phone number starting at `s[0]`, or 0 when none starts there.
pub open spec fn phone_len(s: Seq<char>) -> nat {
    if s.len() > 0 && is_phone_start(s[0]) {
        let e = last_digit_end(s.take(phone_run(s) as int));
        if e > 0 && digit_count(s.take(e as int)) >= MIN_PHONE_DIGITS {
            e
        } else {
            0
        }
    } else {
        0
    }
}

pub proof fn lemma_email_run_le(s: Seq<char>)
    ensures
        email_run(s) <= s.len(),
        forall|i: int| 0 <= i < email_run(s) ==> is_email_char(#[trigger] s[i]),
        email_run(s) < s.len() ==> !is_email_char(s[email_run(s) as int]),
    decreases s.len(),
{
    if s.len() > 0 && is_email_char(s[0]) {
        lemma_email_run_le(s.drop_first());
        assert forall|i: int| 0 <= i < email_run(s) implies is_email_char(#[trigger] s[i]) by {
            if i > 0 {
                assert(s[i] == s.drop_first()[i - 1]);
            }
        }
        if email_run(s) < s.len() {
            assert(s[email_run(s) as int] == s.drop_first()[email_run(s.drop_first()) as int]);
        }
    }
}

pub proof fn lemma_phone_run_le(s: Seq<char>)
    ensures
        phone_run(s) <= s.len(),
        forall|i: int| 0 <= i < phone_run(s) ==> is_phone_char(#[trigger] s[i]),
        phone_run(s) < s.len() ==> !is_phone_char(s[phone_run(s) as int]),
    decreases s.len(),
{
    if s.len() > 0 && is_phone_char(s[0]) {
        lemma_phone_run_le(s.drop_first());
        assert forall|i: int| 0 <= i < phone_run(s) implies is_phone_char(#[trigger] s[i]) by {
            if i > 0 {
                assert(s[i] == s.drop_first()[i - 1]);
            }
        }
        if phone_run(s) < s.len() {
            assert(s[phone_run(s) as int] == s.drop_first()[phone_run(s.drop_first()) as int]);
        }
    }
}

pub proof fn lemma_last_digit_end_le(t: Seq<char>)
    ensures
        last_digit_end(t) <= t.len(),
    decreases t.len(),
{
    if t.len() > 0 && !is_digit(t.last()) {
        lemma_last_digit_end_le(t.drop_last());
    }
}

pub proof fn lemma_phone_len_le(s: Seq<char>)
    ensures
        phone_len(s) <= s.len(),
{
    lemma_phone_run_le(s);
    lemma_last_digit_end_le(s.take(phone_run(s) as int));
}

/// `s` with every address-shaped run of e-mail characters replaced by `<EMAIL>`.
pub open spec fn redact_emails(s: Seq<char>) -> Seq<char>
    decreases s.len(),
{
    if s.len() == 0 {
        s
    } else {
        let r = email_run(s);
        proof {
            lemma_email_run_le(s);
        }
        if r == 0 {
            seq![s[0]] + redact_emails(s.drop_first())
        } else if looks_like_email(s.take(r as int)) {
            "<EMAIL>"@ + redact_emails(s.skip(r as int))
        } else {
            s.take(r as int) + redact_emails(s.skip(r as int))
        }
    }
}

/// `s` with every phone-number span replaced by `<PHONE>`.
pub open spec fn redact_phones(s: Seq<char>) -> Seq<char>
    decreases s.len(),
{
    if s.len() == 0 {
        s
    } else {
        let e = phone_len(s);
        proof {
            lemma_phone_len_le(s);
        }
        if e > 0 {
            "<PHONE>"@ + redact_phones(s.skip(e as int))
        } else {
            seq![s[0]] + redact_phones(s.drop_first())
        }
    }
}

/// The redaction of `s`: e-mail addresses first, then phone numbers.
pub open spec fn spec_redact(s: Seq<char>) -> Seq<char> {
    redact_phones(redact_emails(s))
}

fn is_ascii_alnum_char(c: char) -> (b: bool)
    ensures
        b == is_ascii_alnum(c),
{
    ('a' <= c && c <= 'z') || ('A' <= c && c <= 'Z') || ('0' <= c && c <= '9')
}

fn is_email_ch(c: char) -> (b: bool)
    ensures
        b == is_email_char(c),
{
    is_ascii_alnum_char(c) || c == '.' || c == '_' || c == '%' || c == '+' || c == '-' || c == '@'
}

fn is_phone_ch(c: char) -> (b: bool)
    ensures
        b == is_phone_char(c),
{
    ('0' <= c && c <= '9') || c == ' ' || c == '-' || c == '(' || c == ')' || c == '.' || c == '+'
}

proof fn lemma_email_run_shift(s: Seq<char>, i: int, j: int)
    requires
        0 <= i <= j <= s.len(),
        forall|k: int| i <= k < j ==> is_email_char(#[trigger] s[k]),
    ensures
        email_run(s.subrange(i, s.len() as int)) == (j - i) + email_run(s.subrange(j, s.len() as int)),
    decreases j - i,
{
    if i < j {
        let t = s.subrange(i, s.len() as int);
        assert(t.drop_first() =~= s.subrange(i + 1, s.len() as int));
        assert(t[0] == s[i]);
        lemma_email_run_shift(s, i + 1, j);
    }
}

proof fn lemma_phone_run_shift(s: Seq<char>, i: int, j: int)
    requires
        0 <= i <= j <= s.len(),
        forall|k: int| i <= k < j ==> is_phone_char(#[trigger] s[k]),
    ensures
        phone_run(s.subrange(i, s.len() as int)) == (j - i) + phone_run(s.subrange(j, s.len() as int)),
    decreases j - i,
{
    if i < j {
        let t = s.subrange(i, s.len() as int);
        assert(t.drop_first() =~= s.subrange(i + 1, s.len() as int));
        assert(t[0] == s[i]);
        lemma_phone_run_shift(s, i + 1, j);
    }
}

/// Length of the e-mail run of `v[i..]`.
fn email_run_at(v: &Vec<char>, i: usize) -> (r: usize)
    requires
        i <= v@.len(),
    ensures
        i + r <= v@.len(),
        r == email_run(v@.subrange(i as int, v@.len() as int)),
{
    let mut j = i;
    while j < v.len() && is_email_ch(v[j])
        invariant
            i <= j <= v@.len(),
            forall|k: int| i <= k < j ==> is_email_char(#[trigger] v@[k]),
        decreases v@.len() - j,
    {
        j = j + 1;
    }
    proof {
        lemma_email_run_shift(v@, i as int, j as int);
        let t = v@.subrange(j as int, v@.len() as int);
        if j < v@.len() {
            assert(t[0] == v@[j as int]);
        }
    }
    j - i
}

/// Length of the phone run of `v[i..]`.
fn phone_run_at(v: &Vec<char>, i: usize) -> (r: usize)
    requires
        i <= v@.len(),
    ensures
        i + r <= v@.len(),
        r == phone_run(v@.subrange(i as int, v@.len() as int)),
{
    let mut j = i;
    while j < v.len() && is_phone_ch(v[j])
        invariant
            i <= j <= v@.len(),
            forall|k: int| i <= k < j ==> is_phone_char(#[trigger] v@[k]),
        decreases v@.len() - j,
    {
        j = j + 1;
    }
    proof {
        lemma_phone_run_shift(v@, i as int, j as int);
        let t = v@.subrange(j as int, v@.len() as int);
        if j < v@.len() {
            assert(t[0] == v@[j as int]);
        }
    }
    j - i
}

/// Whether `v[from..to]` looks like an e-mail address.
fn looks_like_email_at(v: &Vec<char>, from: usize, to: usize) -> (b: bool)
    requires
        from <= to <= v@.len(),
    ensures
        b == looks_like_email(v@.subrange(from as int, to as int)),
{
    let ghost t = v@.subrange(from as int, to as int);
    let n = to - from;
    // first '@' at a position k >= 1
    let mut k: usize = 1;
    while k < n && v[from + k] != '@'
        invariant
            1 <= k,
            n == to - from,
            from <= to <= v@.len(),
            t == v@.subrange(from as int, to as int),
            forall|q: int| 1 <= q < k && q < n ==> t[q] != '@',
        decreases n - k,
    {
        k = k + 1;
    }
    if k >= n {
        assert forall|a: int, p: int| !(0 < a && a + 1 < p && p < t.len() - 1 && t[a] == '@' && t[p] == '.') by {
            if 0 < a && a < t.len() {
                assert(t[a] != '@');
            }
        }
        return false;
    }
    assert(t[k as int] == '@');
    // any '.' strictly inside (k + 1, n - 1)
    let mut q: usize = k + 1;
    while q < n - 1
        invariant
            1 <= k,
            k + 1 <= q,
            k < n,
            q <= n,
            n == to - from,
            from <= to <= v@.len(),
            t == v@.subrange(from as int, to as int),
            t[k as int] == '@',
            forall|z: int| 1 <= z < k ==> t[z] != '@',
            forall|z: int| k + 1 < z <= q && z < n - 1 ==> t[z] != '.',
        decreases n - q,
    {
        q = q + 1;
        if q + 1 < n && v[from + q] == '.' {
            assert(t[q as int] == '.');
            assert(0 < k && k + 1 < q && q < t.len() - 1 && t[k as int] == '@' && t[q as int] == '.');
            return true;
        }
    }
    assert forall|a: int, z: int| !(0 < a && a + 1 < z && z < t.len() - 1 && t[a] == '@' && t[z] == '.') by {
        if 0 < a && a + 1 < z && z < t.len() - 1 && t[a] == '@' && t[z] == '.' {
            assert(a >= k);
            assert(z > k + 1);
        }
    }
    false
}

proof fn lemma_take_skip(s: Seq<char>, i: int, r: int)
    requires
        0 <= i <= s.len(),
        0 <= r <= s.len() - i,
    ensures
        s.subrange(i, s.len() as int).take(r) == s.subrange(i, i + r),
        s.subrange(i, s.len() as int).skip(r) == s.subrange(i + r, s.len() as int),
{
    assert(s.subrange(i, s.len() as int).take(r) =~= s.subrange(i, i + r));
    assert(s.subrange(i, s.len() as int).skip(r) =~= s.subrange(i + r, s.len() as int));
}

/// The e-mail pass over a character vector.
fn redact_emails_vec(v: &Vec<char>) -> (out: Vec<char>)
    ensures
        out@ == redact_emails(v@),
{
    let n = v.len();
    let mut out: Vec<char> = Vec::new();
    let mut i: usize = 0;
    let marker = chars_of("<EMAIL>");
    assert(v@.subrange(0, n as int) =~= v@);
    while i < n
        invariant
            n == v@.len(),
            i <= n,
            marker@ == "<EMAIL>"@,
            out@ + redact_emails(v@.subrange(i as int, n as int)) == redact_emails(v@),
        decreases n - i,
    {
        let ghost rest = v@.subrange(i as int, n as int);
        let r = email_run_at(v, i);
        proof {
            lemma_take_skip(v@, i as int, r as int);
        }
        if r == 0 {
            out.push(v[i]);
            proof {
                assert(rest.drop_first() =~= v@.subrange(i + 1, n as int));
                assert(redact_emails(rest) == seq![rest[0]] + redact_emails(rest.drop_first()));
                assert(out@ + redact_emails(v@.subrange(i + 1, n as int)) =~= redact_emails(v@));
            }
            i = i + 1;
        } else {
            if looks_like_email_at(v, i, i + r) {
                let mut k: usize = 0;
                let ghost before = out@;
                while k < marker.len()
                    invariant
                        k <= marker@.len(),
                        out@ == before + marker@.subrange(0, k as int),
                    decreases marker@.len() - k,
                {
                    out.push(marker[k]);
                    proof {
                        assert(marker@.subrange(0, k + 1) =~= marker@.subrange(0, k as int).push(marker@[k as int]));
                    }
                    k = k + 1;
                }
                proof {
                    assert(marker@.subrange(0, marker@.len() as int) =~= marker@);
                    assert(out@ + redact_emails(v@.subrange(i + r, n as int)) =~= redact_emails(v@));
                }
            } else {
                let mut k: usize = i;
                let ghost before = out@;
                while k < i + r
                    invariant
                        i <= k <= i + r <= n,
                        n == v@.len(),
                        out@ == before + v@.subrange(i as int, k as int),
                    decreases i + r - k,
                {
                    out.push(v[k]);
                    proof {
                        assert(v@.subrange(i as int, k + 1) =~= v@.subrange(i as int, k as int).push(v@[k as int]));
                    }
                    k = k + 1;
                }
                proof {
                    assert(out@ + redact_emails(v@.subrange(i + r, n as int)) =~= redact_emails(v@));
                }
            }
            i = i + r;
        }
    }
    assert(out@ =~= redact_emails(v@)) by {
        assert(v@.subrange(n as int, n as int).len() == 0);
    }
    out
}

proof fn lemma_digits_extend(t: Seq<char>, i: int)
    requires
        0 <= i < t.len(),
    ensures
        digit_count(t.take(i + 1)) == digit_count(t.take(i)) + if is_digit(t[i]) { 1nat } else { 0nat },
{
    assert(t.take(i + 1).drop_last() =~= t.take(i));
}

proof fn lemma_last_digit_shrink(t: Seq<char>, j: int)
    requires
        0 < j <= t.len(),
        !is_digit(t[j - 1]),
    ensures
        last_digit_end(t.take(j)) == last_digit_end(t.take(j - 1)),
{
    assert(t.take(j).drop_last() =~= t.take(j - 1));
}

/// Length of the phone number starting at `v[i]` (0 when there is none).
fn phone_len_at(v: &Vec<char>, i: usize) -> (e: usize)
    requires
        i < v@.len(),
    ensures
        i + e <= v@.len(),
        e == phone_len(v@.subrange(i as int, v@.len() as int)),
{
    let ghost s = v@.subrange(i as int, v@.len() as int);
    let c = v[i];
    if !(('0' <= c && c <= '9') || c == '(' || c == '+') {
        return 0;
    }
    let r = phone_run_at(v, i);
    proof {
        lemma_take_skip(v@, i as int, r as int);
    }
    let ghost t = s.take(r as int);
    // last digit end within v[i..i+r]
    assert(t.take(r as int) =~= t);
    let vlen = v.len();
    assert(v@.len() <= usize::MAX);
    let mut j = r;
    while j > 0 && !('0' <= v[i + j - 1] && v[i + j - 1] <= '9')
        invariant
            j <= r,
            v@.len() <= usize::MAX,
            i + r <= v@.len(),
            t == v@.subrange(i as int, i + r),
            last_digit_end(t) == last_digit_end(t.take(j as int)),
        decreases j,
    {
        proof {
            assert(t[j - 1] == v@[i + j - 1]);
            lemma_last_digit_shrink(t, j as int);
        }
        j = j - 1;
    }
    proof {
        assert(t.take(r as int) =~= t);
        if j > 0 {
            assert(t.take(j as int).last() == v@[i + j - 1]);
        }
    }
    let e = j;
    assert(last_digit_end(t) == e);
    if e == 0 {
        return 0;
    }
    // count digits in v[i..i+e]
    let mut d: usize = 0;
    let mut k: usize = 0;
    while k < e
        invariant
            k <= e <= r,
            i + r <= v@.len(),
            v@.len() <= usize::MAX,
            t == v@.subrange(i as int, i + r),
            d <= k,
            d == digit_count(t.take(k as int)),
        decreases e - k,
    {
        proof {
            lemma_digits_extend(t, k as int);
            assert(t[k as int] == v@[i + k]);
        }
        if '0' <= v[i + k] && v[i + k] <= '9' {
            d = d + 1;
        }
        k = k + 1;
    }
    proof {
        assert(s.take(e as int) =~= t.take(e as int));
    }
    if d >= MIN_PHONE_DIGITS {
        e
    } else {
        0
    }
}

/// The phone pass over a character vector.
fn redact_phones_vec(v: &Vec<char>) -> (out: Vec<char>)
    ensures
        out@ == redact_phones(v@),
{
    let n = v.len();
    let mut out: Vec<char> = Vec::new();
    let mut i: usize = 0;
    let marker = chars_of("<PHONE>");
    assert(v@.subrange(0, n as int) =~= v@);
    while i < n
        invariant
            n == v@.len(),
            i <= n,
            marker@ == "<PHONE>"@,
            out@ + redact_phones(v@.subrange(i as int, n as int)) == redact_phones(v@),
        decreases n - i,
    {
        let ghost rest = v@.subrange(i as int, n as int);
        let e = phone_len_at(v, i);
        proof {
            lemma_take_skip(v@, i as int, e as int);
        }
        if e == 0 {
            out.push(v[i]);
            proof {
                assert(rest.drop_first() =~= v@.subrange(i + 1, n as int));
                assert(out@ + redact_phones(v@.subrange(i + 1, n as int)) =~= redact_phones(v@));
            }
            i = i + 1;
        } else {
            let mut k: usize = 0;
            let ghost before = out@;
            while k < marker.len()
                invariant
                    k <= marker@.len(),
                    out@ == before + marker@.subrange(0, k as int),
                decreases marker@.len() - k,
            {
                out.push(marker[k]);
                proof {
                    assert(marker@.subrange(0, k + 1) =~= marker@.subrange(0, k as int).push(marker@[k as int]));
                }
                k = k + 1;
            }
            proof {
                assert(marker@.subrange(0, marker@.len() as int) =~= marker@);
                assert(out@ + redact_phones(v@.subrange(i + e, n as int)) =~= redact_phones(v@));
            }
            i = i + e;
        }
    }
    assert(out@ =~= redact_phones(v@)) by {
        assert(v@.subrange(n as int, n as int).len() == 0);
    }
    out
}

/// Redact e-mail addresses and phone numbers from `text`.
pub fn redact(text: &str) -> (r: String)
    ensures
        r@ == spec_redact(text@),
{
    let v = chars_of(text);
    let a = redact_emails_vec(&v);
    let b = redact_phones_vec(&a);
    string_of(&b)
}


// ── What the e-mail pass does to an address ─────────────────────────────

/// A character of the local part of a standard address: an ASCII letter or
/// digit, or one of `. _ % + -`.
pub open spec fn address_local_char(c: char) -> bool {
    ('a' <= c && c <= 'z') || ('A' <= c && c <= 'Z') || ('0' <= c && c <= '9') || c == '.' || c == '_' || c == '%'
        || c == '+' || c == '-'
}

/// A character of a domain label: an ASCII letter or digit, `.` or `-`.
pub open spec fn address_domain_char(c: char) -> bool {
    ('a' <= c && c <= 'z') || ('A' <= c && c <= 'Z') || ('0' <= c && c <= '9') || c == '.' || c == '-'
}

/// A character that can border an address: none of the characters an
/// address is made of (ASCII letters and digits, `. _ % + - @`).
pub open spec fn address_border_char(c: char) -> bool {
    !(('a' <= c && c <= 'z') || ('A' <= c && c <= 'Z') || ('0' <= c && c <= '9') || c == '.' || c == '_' || c == '%'
        || c == '+' || c == '-' || c == '@')
}

proof fn lemma_email_run_over(t: Seq<char>, post: Seq<char>)
    requires
        forall|i: int| 0 <= i < t.len() ==> is_email_char(#[trigger] t[i]),
    ensures
        email_run(t + post) == t.len() + email_run(post),
    decreases t.len(),
{
    if t.len() > 0 {
        assert((t + post).drop_first() =~= t.drop_first() + post);
        assert((t + post)[0] == t[0]);
        assert forall|i: int| 0 <= i < t.drop_first().len() implies is_email_char(#[trigger] t.drop_first()[i]) by {
            assert(t.drop_first()[i] == t[i + 1]);
        }
        lemma_email_run_over(t.drop_first(), post);
    } else {
        assert(t + post =~= post);
    }
}

proof fn lemma_email_run_stops(a: Seq<char>, b: Seq<char>)
    requires
        a.len() > 0,
        !is_email_char(a.last()),
    ensures
        email_run(a + b) == email_run(a),
        email_run(a) < a.len(),
    decreases a.len(),
{
    if is_email_char(a[0]) {
        assert(a.len() > 1);
        assert((a + b).drop_first() =~= a.drop_first() + b);
        assert((a + b)[0] == a[0]);
        assert(a.drop_first().last() == a.last());
        lemma_email_run_stops(a.drop_first(), b);
    } else {
        assert((a + b)[0] == a[0]);
    }
}

proof fn lemma_redact_emails_split(a: Seq<char>, b: Seq<char>)
    requires
        a.len() == 0 || !is_email_char(a.last()),
    ensures
        redact_emails(a + b) == redact_emails(a) + redact_emails(b),
    decreases a.len(),
{
    if a.len() == 0 {
        assert(a + b =~= b);
        assert(redact_emails(a) =~= Seq::<char>::empty());
        assert(Seq::<char>::empty() + redact_emails(b) =~= redact_emails(b));
    } else {
        let s = a + b;
        assert(s[0] == a[0]);
        lemma_email_run_stops(a, b);
        let r = email_run(a);
        lemma_email_run_le(a);
        if r == 0 {
            assert(s.drop_first() =~= a.drop_first() + b);
            if a.drop_first().len() > 0 {
                assert(a.drop_first().last() == a.last());
            }
            lemma_redact_emails_split(a.drop_first(), b);
            assert(redact_emails(s) =~= redact_emails(a) + redact_emails(b));
        } else {
            assert(s.take(r as int) =~= a.take(r as int));
            assert(s.skip(r as int) =~= a.skip(r as int) + b);
            assert(a.skip(r as int).last() == a.last());
            lemma_redact_emails_split(a.skip(r as int), b);
            assert(redact_emails(s) =~= redact_emails(a) + redact_emails(b));
        }
    }
}

/// Standard addresses are redacted. An address `local@dom.tld` whose local
/// part uses ASCII letters, digits and `. _ % + -`, and whose domain labels
/// use ASCII letters, digits, `.` and `-` (hyphenated domains included),
/// standing between text that does not continue it, becomes `<EMAIL>`:
/// the e-mail pass gives the text around it, each passed on its own, with
/// `<EMAIL>` in its place.
pub proof fn law_addresses_redacted(pre: Seq<char>, local: Seq<char>, dom: Seq<char>, tld: Seq<char>, post: Seq<char>)
    requires
        local.len() > 0,
        dom.len() > 0,
        tld.len() > 0,
        forall|i: int| 0 <= i < local.len() ==> address_local_char(#[trigger] local[i]),
        forall|i: int| 0 <= i < dom.len() ==> address_domain_char(#[trigger] dom[i]),
        forall|i: int| 0 <= i < tld.len() ==> address_domain_char(#[trigger] tld[i]),
        pre.len() == 0 || address_border_char(pre.last()),
        post.len() == 0 || address_border_char(post[0]),
    ensures
        redact_emails(pre + (local + "@"@ + dom + "."@ + tld) + post) == redact_emails(pre) + "<EMAIL>"@
            + redact_emails(post),
{
    reveal_strlit("@");
    reveal_strlit(".");
    let addr = local + "@"@ + dom + "."@ + tld;
    let k = local.len() as int;
    let p = k + 1 + dom.len();
    assert(addr[k] == '@');
    assert(addr[p] == '.');
    assert forall|i: int| 0 <= i < addr.len() implies is_email_char(#[trigger] addr[i]) by {
        if i < k {
            assert(addr[i] == local[i]);
            assert(address_local_char(local[i]));
        } else if k < i < p {
            assert(addr[i] == dom[i - k - 1]);
            assert(address_domain_char(dom[i - k - 1]));
        } else if i > p {
            assert(addr[i] == tld[i - p - 1]);
            assert(address_domain_char(tld[i - p - 1]));
        }
    }
    assert(looks_like_email(addr));
    let s = addr + post;
    lemma_email_run_over(addr, post);
    if post.len() > 0 {
        assert(!is_email_char(post[0]));
    }
    assert(email_run(s) == addr.len());
    assert(s.take(addr.len() as int) =~= addr);
    assert(s.skip(addr.len() as int) =~= post);
    assert(redact_emails(s) == "<EMAIL>"@ + redact_emails(post));
    if pre.len() > 0 {
        assert(!is_email_char(pre.last()));
    }
    lemma_redact_emails_split(pre, s);
    assert(pre + addr + post =~= pre + s);
    assert(redact_emails(pre) + ("<EMAIL>"@ + redact_emails(post)) =~= redact_emails(pre) + "<EMAIL>"@ + redact_emails(
        post,
    ));
}


/// Text without an `@` holds no address, and the e-mail pass leaves it as
/// it is.
pub proof fn law_no_at_no_email(s: Seq<char>)
    requires
        forall|i: int| 0 <= i < s.len() ==> s[i] != '@',
    ensures
        redact_emails(s) == s,
    decreases s.len(),
{
    if s.len() > 0 {
        let r = email_run(s);
        lemma_email_run_le(s);
        if r == 0 {
            assert forall|i: int| 0 <= i < s.drop_first().len() implies s.drop_first()[i] != '@' by {
                assert(s.drop_first()[i] == s[i + 1]);
            }
            law_no_at_no_email(s.drop_first());
            assert(seq![s[0]] + s.drop_first() =~= s);
        } else {
            let t = s.take(r as int);
            if looks_like_email(t) {
                let (k, p) = choose|k: int, p: int| 0 < k && k + 1 < p && p < t.len() - 1 && t[k] == '@' && t[p] == '.';
                assert(s[k] == '@');
            }
            assert forall|i: int| 0 <= i < s.skip(r as int).len() implies s.skip(r as int)[i] != '@' by {
                assert(s.skip(r as int)[i] == s[i + r]);
            }
            law_no_at_no_email(s.skip(r as int));
            assert(t + s.skip(r as int) =~= s);
        }
    }
}

} // verus!
