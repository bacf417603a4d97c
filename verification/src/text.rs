//! Verified string utilities shared by the rest of the crate: building
//! strings character by character, decimal formatting of counters and
//! quotas, and association lists of string pairs used for task options.
use vstd::prelude::*;

verus! {

/// Relies on String::push: appends one character to the end of the string.
#[verifier::external_body]
pub fn push_char(s: &mut String, c: char)
    ensures
        final(s)@ == old(s)@ + seq![c],
{
    s.push(c)
}

pub open spec fn digit_char(d: nat) -> char {
    if d == 0 { '0' }
    else if d == 1 { '1' }
    else if d == 2 { '2' }
    else if d == 3 { '3' }
    else if d == 4 { '4' }
    else if d == 5 { '5' }
    else if d == 6 { '6' }
    else if d == 7 { '7' }
    else if d == 8 { '8' }
    else { '9' }
}

/// The decimal digits of `n`, most significant first.
pub open spec fn dec_digits(n: nat) -> Seq<char>
    decreases n,
{
    if n < 10 {
        seq![digit_char(n)]
    } else {
        dec_digits(n / 10) + seq![digit_char(n % 10)]
    }
}

fn digit_to_char(d: u64) -> (c: char)
    requires
        d < 10,
    ensures
        c == digit_char(d as nat),
{
    if d == 0 { '0' }
    else if d == 1 { '1' }
    else if d == 2 { '2' }
    else if d == 3 { '3' }
    else if d == 4 { '4' }
    else if d == 5 { '5' }
    else if d == 6 { '6' }
    else if d == 7 { '7' }
    else if d == 8 { '8' }
    else { '9' }
}

/// Append the decimal form of `n` to `out`.
pub fn append_decimal(out: &mut String, n: u64)
    ensures
        final(out)@ == old(out)@ + dec_digits(n as nat),
{
    let mut digits: Vec<char> = Vec::new();
    let mut m: u64 = n;
    if m == 0 {
        push_char(out, '0');
        proof {
            assert(out@ =~= old(out)@ + dec_digits(0));
        }
        return;
    }
    while m > 0
        invariant
            dec_digits(n as nat) =~= (if m > 0 { dec_digits(m as nat) } else { Seq::<char>::empty() })
                + digits@.reverse(),
        decreases m,
    {
        let d: u64 = m % 10;
        let c = digit_to_char(d);
        let ghost pre = digits@;
        digits.push(c);
        m = m / 10;
        proof {
            assert(digits@.reverse() =~= seq![c] + pre.reverse());
        }
    }
    let glen: usize = digits.len();
    proof {
        assert(dec_digits(n as nat) =~= digits@.reverse());
        assert(dec_digits(n as nat).len() == glen);
    }
    let mut i: usize = 0;
    while i < glen
        invariant
            i <= glen,
            glen == digits@.len(),
            dec_digits(n as nat) =~= digits@.reverse(),
            out@ =~= old(out)@ + dec_digits(n as nat).take(i as int),
        decreases glen - i,
    {
        push_char(out, digits[glen - 1 - i]);
        i = i + 1;
        proof {
            assert(digits@.reverse()[i - 1] == digits@[glen - 1 - (i - 1)]);
            assert(out@ =~= old(out)@ + dec_digits(n as nat).take(i as int));
        }
    }
    proof {
        assert(dec_digits(n as nat).take(glen as int) =~= dec_digits(n as nat));
    }
}


/// View of an association list: each pair of strings as a pair of
/// character sequences.
pub open spec fn kv_deep(m: Seq<(String, String)>) -> Seq<(Seq<char>, Seq<char>)> {
    m.map_values(|p: (String, String)| (p.0@, p.1@))
}

/// Index of the first pair in `m` whose key is `k`, or -1 if none is.
pub open spec fn kv_index(m: Seq<(Seq<char>, Seq<char>)>, k: Seq<char>) -> int
    decreases m.len(),
{
    if m.len() == 0 {
        -1
    } else if m[0].0 == k {
        0
    } else {
        let r = kv_index(m.drop_first(), k);
        if r < 0 { -1 } else { 1 + r }
    }
}

pub open spec fn kv_has(m: Seq<(Seq<char>, Seq<char>)>, k: Seq<char>) -> bool {
    kv_index(m, k) >= 0
}

/// The value bound to `k` in `m`; meaningful only when `kv_has(m, k)`.
pub open spec fn kv_value(m: Seq<(Seq<char>, Seq<char>)>, k: Seq<char>) -> Seq<char> {
    m[kv_index(m, k)].1
}

/// `m` after binding `k` to `v`: the first pair with key `k` is replaced,
/// or a new pair is appended when no key is `k`.
pub open spec fn kv_updated(m: Seq<(Seq<char>, Seq<char>)>, k: Seq<char>, v: Seq<char>) -> Seq<
    (Seq<char>, Seq<char>),
> {
    if kv_has(m, k) {
        m.update(kv_index(m, k), (k, v))
    } else {
        m.push((k, v))
    }
}

proof fn lemma_kv_index_first(m: Seq<(Seq<char>, Seq<char>)>, k: Seq<char>, i: int)
    requires
        0 <= i <= m.len(),
        forall|j: int| 0 <= j < i ==> m[j].0 != k,
        i < m.len() ==> m[i].0 == k,
    ensures
        i < m.len() ==> kv_index(m, k) == i,
        i == m.len() ==> kv_index(m, k) == -1,
    decreases m.len(),
{
    if m.len() > 0 {
        if m[0].0 == k {
        } else {
            assert(i >= 1);
            assert forall|j: int| 0 <= j < i - 1 implies m.drop_first()[j].0 != k by {
                assert(m.drop_first()[j] == m[j + 1]);
            }
            if i < m.len() {
                assert(m.drop_first()[i - 1] == m[i]);
            }
            lemma_kv_index_first(m.drop_first(), k, i - 1);
        }
    }
}

/// The value bound to `key` in the association list `m`, if any.
pub fn kv_get<'a>(m: &'a Vec<(String, String)>, key: &str) -> (r: Option<&'a String>)
    ensures
        match r {
            Some(v) => kv_has(kv_deep(m@), key@) && v@ == kv_value(kv_deep(m@), key@),
            None => !kv_has(kv_deep(m@), key@),
        },
{
    let key_s: String = key.to_owned();
    let mut i: usize = 0;
    while i < m.len()
        invariant
            key_s@ == key@,
            i <= m@.len(),
            forall|j: int| 0 <= j < i ==> kv_deep(m@)[j].0 != key@,
        decreases m@.len() - i,
    {
        if m[i].0 == key_s {
            proof {
                lemma_kv_index_first(kv_deep(m@), key@, i as int);
            }
            return Some(&m[i].1);
        }
        proof {
            assert(kv_deep(m@)[i as int].0 == m@[i as int].0@);
        }
        i = i + 1;
    }
    proof {
        lemma_kv_index_first(kv_deep(m@), key@, m@.len() as int);
    }
    None
}

/// Bind `key` to `val` in the association list `m`.
pub fn kv_set(m: &mut Vec<(String, String)>, key: &str, val: String)
    ensures
        kv_deep(final(m)@) == kv_updated(kv_deep(old(m)@), key@, val@),
{
    let key_s: String = key.to_owned();
    let mut i: usize = 0;
    while i < m.len()
        invariant
            key_s@ == key@,
            i <= m@.len(),
            forall|j: int| 0 <= j < i ==> kv_deep(m@)[j].0 != key@,
            m@ == old(m)@,
        decreases m@.len() - i,
    {
        if m[i].0 == key_s {
            proof {
                lemma_kv_index_first(kv_deep(m@), key@, i as int);
            }
            let pair = m.remove(i);
            let k = pair.0;
            m.insert(i, (k, val));
            proof {
                assert(kv_deep(m@) =~= kv_updated(kv_deep(old(m)@), key@, val@));
            }
            return;
        }
        proof {
            assert(kv_deep(m@)[i as int].0 == m@[i as int].0@);
        }
        i = i + 1;
    }
    proof {
        lemma_kv_index_first(kv_deep(m@), key@, m@.len() as int);
    }
    let k = key.to_owned();
    m.push((k, val));
    proof {
        assert(kv_deep(m@) =~= kv_updated(kv_deep(old(m)@), key@, val@));
    }
}


/// ASCII whitespace, as `str::split_ascii_whitespace` understands it.
pub open spec fn is_ascii_wsp(c: char) -> bool {
    c == ' ' || c == '\t' || c == '\n' || c == '\r' || c == '\u{c}'
}

fn is_wsp_char(c: char) -> (r: bool)
    ensures
        r == is_ascii_wsp(c),
{
    c == ' ' || c == '\t' || c == '\n' || c == '\r' || c == '\u{c}'
}

/// Length of the whitespace-free token at the head of `s`.
pub open spec fn token_len(s: Seq<char>) -> int
    decreases s.len(),
{
    if s.len() == 0 || is_ascii_wsp(s[0]) {
        0
    } else {
        1 + token_len(s.drop_first())
    }
}

proof fn lemma_token_len_bounds(s: Seq<char>)
    ensures
        0 <= token_len(s) <= s.len(),
    decreases s.len(),
{
    if s.len() > 0 && !is_ascii_wsp(s[0]) {
        lemma_token_len_bounds(s.drop_first());
    }
}

#[via_fn]
proof fn wsp_tokens_decreases(s: Seq<char>) {
    lemma_token_len_bounds(s);
    if s.len() > 0 && !is_ascii_wsp(s[0]) {
        lemma_token_len_bounds(s.drop_first());
    }
}

/// The maximal whitespace-free tokens of `s`, in order. This is the
/// splitting that `str::split_ascii_whitespace` performs: runs of ASCII
/// whitespace separate tokens and never yield empty ones.
pub open spec fn wsp_tokens(s: Seq<char>) -> Seq<Seq<char>>
    decreases s.len(),
    via wsp_tokens_decreases
{
    if s.len() == 0 {
        Seq::empty()
    } else if is_ascii_wsp(s[0]) {
        wsp_tokens(s.drop_first())
    } else {
        Seq::empty().push(s.take(token_len(s))) + wsp_tokens(s.skip(token_len(s)))
    }
}

proof fn lemma_token_len_at(s: Seq<char>, k: int)
    requires
        0 <= k <= s.len(),
        forall|j: int| 0 <= j < k ==> !is_ascii_wsp(s[j]),
        k < s.len() ==> is_ascii_wsp(s[k]),
    ensures
        token_len(s) == k,
    decreases s.len(),
{
    if k == 0 {
    } else {
        assert(!is_ascii_wsp(s[0]));
        let t = s.drop_first();
        assert forall|j: int| 0 <= j < k - 1 implies !is_ascii_wsp(t[j]) by {
            assert(t[j] == s[j + 1]);
        }
        if k - 1 < t.len() {
            assert(t[k - 1] == s[k]);
        }
        lemma_token_len_at(t, k - 1);
    }
}

/// Split `s` into its ASCII-whitespace-separated tokens.
pub fn split_ascii_tokens(s: &str) -> (r: Vec<String>)
    ensures
        r@.map_values(|t: String| t@) == wsp_tokens(s@),
{
    let n: usize = s.unicode_len();
    let mut r: Vec<String> = Vec::new();
    let mut i: usize = 0;
    proof {
        assert(s@.skip(0) =~= s@);
        assert(r@.map_values(|t: String| t@) =~= Seq::<Seq<char>>::empty());
    }
    while i < n
        invariant
            n == s@.len(),
            i <= n,
            r@.map_values(|t: String| t@) + wsp_tokens(s@.skip(i as int)) =~= wsp_tokens(s@),
        decreases n - i,
    {
        let c = s.get_char(i);
        if is_wsp_char(c) {
            proof {
                assert(s@.skip(i as int).drop_first() =~= s@.skip(i as int + 1));
            }
            i = i + 1;
        } else {
            let ghost start = i as int;
            let mut tok = String::new();
            while i < n
                invariant
                    n == s@.len(),
                    0 <= start <= i as int <= n,
                    tok@ =~= s@.subrange(start, i as int),
                    forall|j: int| start <= j < i as int ==> !is_ascii_wsp(s@[j]),
                ensures
                    n == s@.len(),
                    0 <= start <= i as int <= n,
                    tok@ =~= s@.subrange(start, i as int),
                    forall|j: int| start <= j < i as int ==> !is_ascii_wsp(s@[j]),
                    i < n ==> is_ascii_wsp(s@[i as int]),
                decreases n - i,
            {
                let c2 = s.get_char(i);
                if is_wsp_char(c2) {
                    break;
                }
                push_char(&mut tok, c2);
                i = i + 1;
            }
            proof {
                let rest = s@.skip(start);
                let k = i as int - start;
                assert forall|j: int| 0 <= j < k implies !is_ascii_wsp(rest[j]) by {
                    assert(rest[j] == s@[start + j]);
                }
                if k < rest.len() {
                    assert(rest[k] == s@[i as int]);
                }
                lemma_token_len_at(rest, k);
                assert(rest.take(k) =~= s@.subrange(start, i as int));
                assert(rest.skip(k) =~= s@.skip(i as int));
                assert(wsp_tokens(rest) == Seq::empty().push(tok@) + wsp_tokens(s@.skip(i as int)));
            }
            let ghost pre = r@;
            r.push(tok);
            proof {
                assert(r@.map_values(|t: String| t@) =~= pre.map_values(|t: String| t@).push(
                    s@.subrange(start, i as int),
                ));
                assert(r@.map_values(|t: String| t@) + wsp_tokens(s@.skip(i as int)) =~= wsp_tokens(
                    s@,
                ));
            }
        }
    }
    proof {
        assert(wsp_tokens(s@.skip(n as int)) =~= Seq::<Seq<char>>::empty());
        assert(r@.map_values(|t: String| t@) =~= wsp_tokens(s@));
    }
    r
}


pub open spec fn is_digit(c: char) -> bool {
    48 <= c as u32 <= 57
}

pub open spec fn digit_val(c: char) -> nat {
    (c as u32 - 48) as nat
}

pub open spec fn all_digits(s: Seq<char>) -> bool {
    forall|i: int| 0 <= i < s.len() ==> is_digit(s[i])
}

/// Numeric value of a sequence of decimal digits.
pub open spec fn digits_val(s: Seq<char>) -> nat
    decreases s.len(),
{
    if s.len() == 0 {
        0
    } else {
        digits_val(s.drop_last()) * 10 + digit_val(s.last())
    }
}

/// `s` without a single leading sign character, if it has one.
pub open spec fn sign_body(s: Seq<char>) -> Seq<char> {
    if s.len() > 0 && (s[0] == '+' || s[0] == '-') {
        s.drop_first()
    } else {
        s
    }
}

/// An optionally signed, non-empty run of decimal digits: what
/// `str::parse` accepts for integers, overflow aside.
pub open spec fn is_int_token(s: Seq<char>) -> bool {
    sign_body(s).len() > 0 && all_digits(sign_body(s))
}

pub open spec fn int_token_value(s: Seq<char>) -> int {
    if s.len() > 0 && s[0] == '-' {
        -(digits_val(sign_body(s)) as int)
    } else {
        digits_val(sign_body(s)) as int
    }
}

/// What `str::parse::<i32>` returns on `s`: the written value when `s` is
/// a well-formed integer that fits, and nothing otherwise.
pub open spec fn parse_i32_spec(s: Seq<char>) -> Option<i32> {
    if is_int_token(s) && -0x8000_0000 <= int_token_value(s) <= 0x7fff_ffff {
        Some(int_token_value(s) as i32)
    } else {
        None
    }
}

fn digit_of(c: char) -> (r: Option<u64>)
    ensures
        match r {
            Some(d) => is_digit(c) && d == digit_val(c),
            None => !is_digit(c),
        },
{
    let cu = c as u32;
    if 48 <= cu && cu <= 57 {
        Some((cu - 48) as u64)
    } else {
        None
    }
}

/// Decimal integer parsing with the overflow behaviour of `str::parse`.
pub fn parse_i32(s: &str) -> (r: Option<i32>)
    ensures
        r == parse_i32_spec(s@),
{
    let n: usize = s.unicode_len();
    if n == 0 {
        return None;
    }
    let c0 = s.get_char(0);
    let neg = c0 == '-';
    let start: usize = if c0 == '-' || c0 == '+' { 1 } else { 0 };
    if start == n {
        return None;
    }
    let ghost body = sign_body(s@);
    proof {
        assert(body =~= s@.skip(start as int));
    }
    let mut mag: u64 = 0;
    let mut big = false;
    let mut i: usize = start;
    while i < n
        invariant
            n == s@.len(),
            start as int <= i as int <= n,
            body == sign_body(s@),
            body =~= s@.skip(start as int),
            forall|j: int| start as int <= j < i as int ==> is_digit(s@[j]),
            !big ==> mag == digits_val(s@.subrange(start as int, i as int)) && mag <= 0xffff_ffff,
            big ==> digits_val(s@.subrange(start as int, i as int)) > 0xffff_ffff,
        decreases n - i,
    {
        let c = s.get_char(i);
        let d = match digit_of(c) {
            Some(d) => d,
            None => {
                proof {
                    assert(body[i as int - start as int] == s@[i as int]);
                    assert(!all_digits(body));
                }
                return None;
            },
        };
        let ghost pre = s@.subrange(start as int, i as int);
        let ghost cur = s@.subrange(start as int, i as int + 1);
        proof {
            assert(cur.drop_last() =~= pre);
            assert(cur.last() == s@[i as int]);
        }
        if big {
        } else {
            let next: u64 = mag * 10 + d;
            if next > 0xffff_ffff {
                big = true;
                mag = 0;
            } else {
                mag = next;
            }
        }
        i = i + 1;
    }
    proof {
        assert(s@.subrange(start as int, n as int) =~= body);
        assert(is_int_token(s@));
    }
    if big {
        return None;
    }
    if neg {
        if mag > 0x8000_0000 {
            None
        } else {
            Some((-(mag as i64)) as i32)
        }
    } else {
        if mag > 0x7fff_ffff {
            None
        } else {
            Some(mag as i32)
        }
    }
}

/// Scanner states for the shape of a decimal floating-point literal,
/// following the grammar that `str::parse` documents for floats:
/// an optional sign, then digits with at most one point (at least one
/// digit in the whole mantissa), then an optional exponent.
#[derive(PartialEq, Eq, Structural, Clone, Copy, Debug)]
pub enum NumSt {
    Start,
    AfterSign,
    IntPart,
    LeadDot,
    DotInt,
    Frac,
    ExpStart,
    ExpSign,
    ExpDig,
    Bad,
}

pub open spec fn num_step(st: NumSt, c: char) -> NumSt {
    match st {
        NumSt::Start => {
            if c == '+' || c == '-' { NumSt::AfterSign }
            else if is_digit(c) { NumSt::IntPart }
            else if c == '.' { NumSt::LeadDot }
            else { NumSt::Bad }
        },
        NumSt::AfterSign => {
            if is_digit(c) { NumSt::IntPart }
            else if c == '.' { NumSt::LeadDot }
            else { NumSt::Bad }
        },
        NumSt::IntPart => {
            if is_digit(c) { NumSt::IntPart }
            else if c == '.' { NumSt::DotInt }
            else if c == 'e' || c == 'E' { NumSt::ExpStart }
            else { NumSt::Bad }
        },
        NumSt::LeadDot => if is_digit(c) { NumSt::Frac } else { NumSt::Bad },
        NumSt::DotInt => {
            if is_digit(c) { NumSt::Frac }
            else if c == 'e' || c == 'E' { NumSt::ExpStart }
            else { NumSt::Bad }
        },
        NumSt::Frac => {
            if is_digit(c) { NumSt::Frac }
            else if c == 'e' || c == 'E' { NumSt::ExpStart }
            else { NumSt::Bad }
        },
        NumSt::ExpStart => {
            if c == '+' || c == '-' { NumSt::ExpSign }
            else if is_digit(c) { NumSt::ExpDig }
            else { NumSt::Bad }
        },
        NumSt::ExpSign => if is_digit(c) { NumSt::ExpDig } else { NumSt::Bad },
        NumSt::ExpDig => if is_digit(c) { NumSt::ExpDig } else { NumSt::Bad },
        NumSt::Bad => NumSt::Bad,
    }
}

pub open spec fn num_scan(st: NumSt, s: Seq<char>) -> NumSt
    decreases s.len(),
{
    if s.len() == 0 {
        st
    } else {
        num_scan(num_step(st, s[0]), s.drop_first())
    }
}

pub open spec fn num_accepts(st: NumSt) -> bool {
    st == NumSt::IntPart || st == NumSt::DotInt || st == NumSt::Frac || st == NumSt::ExpDig
}

/// A well-formed decimal floating-point literal.
pub open spec fn is_decimal_token(s: Seq<char>) -> bool {
    num_accepts(num_scan(NumSt::Start, s))
}

pub open spec fn eqi(c: char, lo: char, up: char) -> bool {
    c == lo || c == up
}

pub open spec fn is_inf_kw(s: Seq<char>) -> bool {
    s.len() == 3 && eqi(s[0], 'i', 'I') && eqi(s[1], 'n', 'N') && eqi(s[2], 'f', 'F')
}

pub open spec fn is_infinity_kw(s: Seq<char>) -> bool {
    s.len() == 8 && eqi(s[0], 'i', 'I') && eqi(s[1], 'n', 'N') && eqi(s[2], 'f', 'F') && eqi(
        s[3], 'i', 'I',
    ) && eqi(s[4], 'n', 'N') && eqi(s[5], 'i', 'I') && eqi(s[6], 't', 'T') && eqi(s[7], 'y', 'Y')
}

pub open spec fn is_nan_kw(s: Seq<char>) -> bool {
    s.len() == 3 && eqi(s[0], 'n', 'N') && eqi(s[1], 'a', 'A') && eqi(s[2], 'n', 'N')
}

/// A token that `str::parse` accepts for floats: an optionally signed
/// decimal literal, or a case-insensitive infinity or not-a-number keyword
/// after an optional sign.
pub open spec fn is_float_token(s: Seq<char>) -> bool {
    is_decimal_token(s) || is_inf_kw(sign_body(s)) || is_infinity_kw(sign_body(s)) || is_nan_kw(
        sign_body(s),
    )
}

proof fn lemma_num_scan_push(st: NumSt, u: Seq<char>, c: char)
    ensures
        num_scan(st, u.push(c)) == num_step(num_scan(st, u), c),
    decreases u.len(),
{
    let v = u.push(c);
    if u.len() == 0 {
        assert(v[0] == c);
        assert(v.drop_first() =~= Seq::<char>::empty());
        assert(num_scan(st, v) == num_scan(num_step(st, c), v.drop_first()));
        assert(num_scan(num_step(st, c), Seq::<char>::empty()) == num_step(st, c));
        assert(num_scan(st, u) == st);
    } else {
        assert(v[0] == u[0]);
        assert(v.drop_first() =~= u.drop_first().push(c));
        assert(num_scan(st, v) == num_scan(num_step(st, u[0]), u.drop_first().push(c)));
        lemma_num_scan_push(num_step(st, u[0]), u.drop_first(), c);
        assert(num_scan(st, u) == num_scan(num_step(st, u[0]), u.drop_first()));
    }
}

fn num_step_exec(st: NumSt, c: char) -> (r: NumSt)
    ensures
        r == num_step(st, c),
{
    let digit = digit_of(c).is_some();
    match st {
        NumSt::Start => {
            if c == '+' || c == '-' { NumSt::AfterSign }
            else if digit { NumSt::IntPart }
            else if c == '.' { NumSt::LeadDot }
            else { NumSt::Bad }
        },
        NumSt::AfterSign => {
            if digit { NumSt::IntPart }
            else if c == '.' { NumSt::LeadDot }
            else { NumSt::Bad }
        },
        NumSt::IntPart => {
            if digit { NumSt::IntPart }
            else if c == '.' { NumSt::DotInt }
            else if c == 'e' || c == 'E' { NumSt::ExpStart }
            else { NumSt::Bad }
        },
        NumSt::LeadDot => if digit { NumSt::Frac } else { NumSt::Bad },
        NumSt::DotInt => {
            if digit { NumSt::Frac }
            else if c == 'e' || c == 'E' { NumSt::ExpStart }
            else { NumSt::Bad }
        },
        NumSt::Frac => {
            if digit { NumSt::Frac }
            else if c == 'e' || c == 'E' { NumSt::ExpStart }
            else { NumSt::Bad }
        },
        NumSt::ExpStart => {
            if c == '+' || c == '-' { NumSt::ExpSign }
            else if digit { NumSt::ExpDig }
            else { NumSt::Bad }
        },
        NumSt::ExpSign => if digit { NumSt::ExpDig } else { NumSt::Bad },
        NumSt::ExpDig => if digit { NumSt::ExpDig } else { NumSt::Bad },
        NumSt::Bad => NumSt::Bad,
    }
}

fn eqi_exec(c: char, lo: char, up: char) -> (r: bool)
    ensures
        r == eqi(c, lo, up),
{
    c == lo || c == up
}

/// Whether `s` is a token that `str::parse` accepts for floats.
pub fn is_float_literal(s: &str) -> (r: bool)
    ensures
        r == is_float_token(s@),
{
    let n: usize = s.unicode_len();
    let start: usize = if n > 0 && { let c = s.get_char(0); c == '+' || c == '-' } { 1 } else { 0 };
    let ghost body = sign_body(s@);
    proof {
        assert(body =~= s@.skip(start as int));
    }
    let m = n - start;
    let mut kw = false;
    if m == 3 || m == 8 {
        let a0 = s.get_char(start);
        let a1 = s.get_char(start + 1);
        let a2 = s.get_char(start + 2);
        if m == 3 {
            kw = (eqi_exec(a0, 'i', 'I') && eqi_exec(a1, 'n', 'N') && eqi_exec(a2, 'f', 'F')) || (
            eqi_exec(a0, 'n', 'N') && eqi_exec(a1, 'a', 'A') && eqi_exec(a2, 'n', 'N'));
        } else {
            let a3 = s.get_char(start + 3);
            let a4 = s.get_char(start + 4);
            let a5 = s.get_char(start + 5);
            let a6 = s.get_char(start + 6);
            let a7 = s.get_char(start + 7);
            kw = eqi_exec(a0, 'i', 'I') && eqi_exec(a1, 'n', 'N') && eqi_exec(a2, 'f', 'F')
                && eqi_exec(a3, 'i', 'I') && eqi_exec(a4, 'n', 'N') && eqi_exec(a5, 'i', 'I')
                && eqi_exec(a6, 't', 'T') && eqi_exec(a7, 'y', 'Y');
        }
        proof {
            assert(forall|j: int| 0 <= j < body.len() ==> body[j] == s@[start as int + j]);
        }
    }
    if kw {
        return true;
    }
    let mut st = NumSt::Start;
    let mut i: usize = 0;
    proof {
        assert(s@.take(0) =~= Seq::<char>::empty());
    }
    while i < n
        invariant
            n == s@.len(),
            i <= n,
            st == num_scan(NumSt::Start, s@.take(i as int)),
        decreases n - i,
    {
        let c = s.get_char(i);
        st = num_step_exec(st, c);
        proof {
            assert(s@.take(i as int + 1) =~= s@.take(i as int).push(s@[i as int]));
            lemma_num_scan_push(NumSt::Start, s@.take(i as int), s@[i as int]);
        }
        i = i + 1;
    }
    proof {
        assert(s@.take(n as int) =~= s@);
    }
    match st {
        NumSt::IntPart | NumSt::DotInt | NumSt::Frac | NumSt::ExpDig => true,
        _ => false,
    }
}


proof fn lemma_kv_index_props(m: Seq<(Seq<char>, Seq<char>)>, k: Seq<char>)
    ensures
        kv_index(m, k) >= 0 ==> kv_index(m, k) < m.len() && m[kv_index(m, k)].0 == k && (forall|
            j: int,
        | 0 <= j < kv_index(m, k) ==> m[j].0 != k),
        kv_index(m, k) < 0 ==> forall|j: int| 0 <= j < m.len() ==> m[j].0 != k,
    decreases m.len(),
{
    if m.len() > 0 && m[0].0 != k {
        lemma_kv_index_props(m.drop_first(), k);
        assert forall|j: int| 1 <= j < m.len() implies m[j] == m.drop_first()[j - 1] by {}
    }
}

/// Binding one key leaves every other key's binding alone.
pub proof fn lemma_kv_updated_frame(
    m: Seq<(Seq<char>, Seq<char>)>,
    k1: Seq<char>,
    v: Seq<char>,
    k2: Seq<char>,
)
    requires
        k1 != k2,
    ensures
        kv_has(kv_updated(m, k1, v), k2) == kv_has(m, k2),
        kv_has(m, k2) ==> kv_value(kv_updated(m, k1, v), k2) == kv_value(m, k2),
{
    let u = kv_updated(m, k1, v);
    lemma_kv_index_props(m, k1);
    lemma_kv_index_props(m, k2);
    if kv_has(m, k1) {
        let i1 = kv_index(m, k1);
        assert(u == m.update(i1, (k1, v)));
        assert(forall|j: int| 0 <= j < m.len() ==> u[j].0 == m[j].0);
        if kv_has(m, k2) {
            let j2 = kv_index(m, k2);
            assert forall|j: int| 0 <= j < j2 implies u[j].0 != k2 by {}
            lemma_kv_index_first(u, k2, j2);
            assert(j2 != i1);
            assert(u[j2] == m[j2]);
        } else {
            assert forall|j: int| 0 <= j < u.len() implies u[j].0 != k2 by {}
            lemma_kv_index_first(u, k2, u.len() as int);
        }
    } else {
        assert(u == m.push((k1, v)));
        if kv_has(m, k2) {
            let j2 = kv_index(m, k2);
            assert(u[j2] == m[j2]);
            assert forall|j: int| 0 <= j < j2 implies u[j].0 != k2 by {
                assert(u[j] == m[j]);
            }
            lemma_kv_index_first(u, k2, j2);
        } else {
            assert forall|j: int| 0 <= j < u.len() implies u[j].0 != k2 by {
                if j < m.len() {
                    assert(u[j] == m[j]);
                } else {
                    assert(u[j].0 == k1);
                }
            }
            lemma_kv_index_first(u, k2, u.len() as int);
        }
    }
}

} // verus!
