//! The placeholder-substitution mini-language applied to message text
//! before composition.
//!
//! Two token kinds are recognised. A time-from token,
//! `<<timefrom:SECONDS:FORMAT>>`, renders the absolute difference between
//! the current time and the given epoch second count through the duration
//! format `FORMAT` (`%d`, `%h`, `%m`, `%s` component codes). A time-now
//! token, `<<timenow:ZONE:FORMAT>>`, renders the current time in the named
//! timezone through a strftime-style format. The first occurrence of each
//! kind is substituted; a token whose reference timestamp does not fit or
//! whose timezone is unknown is replaced by the empty string; text without
//! tokens passes through unchanged.

use vstd::prelude::*;

use std::fmt::Write;

use crate::text::{
    chars_to_string, contains_chars, contains_pat, dec_chars, dec_str, find_from, find_pat,
    lemma_find_from_bounds, match_at, extend_chars, replace_all, replace_all_chars, str_to_chars,
    sub_chars,
};

verus! {

// ---------------------------------------------------------------------------
// Character classes and runs
// ---------------------------------------------------------------------------

pub open spec fn is_digit_char(c: char) -> bool {
    ('0' as u32) <= (c as u32) && (c as u32) <= ('9' as u32)
}

pub open spec fn is_tz_char(c: char) -> bool {
    ||| ('a' as u32) <= (c as u32) && (c as u32) <= ('z' as u32)
    ||| ('A' as u32) <= (c as u32) && (c as u32) <= ('Z' as u32)
    ||| is_digit_char(c)
    ||| c == '_'
    ||| c == '/'
}

/// The end of the run of decimal digits starting at `i`.
pub open spec fn digits_end(s: Seq<char>, i: int) -> int
    decreases s.len() - i,
    when 0 <= i <= s.len()
{
    if i < s.len() && is_digit_char(s[i]) {
        digits_end(s, i + 1)
    } else {
        i
    }
}

/// The end of the run of timezone-name characters starting at `i`.
pub open spec fn tz_end(s: Seq<char>, i: int) -> int
    decreases s.len() - i,
    when 0 <= i <= s.len()
{
    if i < s.len() && is_tz_char(s[i]) {
        tz_end(s, i + 1)
    } else {
        i
    }
}

fn is_digit_exec(c: char) -> (r: bool)
    ensures
        r == is_digit_char(c),
{
    ('0' as u32) <= (c as u32) && (c as u32) <= ('9' as u32)
}

fn is_tz_exec(c: char) -> (r: bool)
    ensures
        r == is_tz_char(c),
{
    (('a' as u32) <= (c as u32) && (c as u32) <= ('z' as u32))
        || (('A' as u32) <= (c as u32) && (c as u32) <= ('Z' as u32))
        || (('0' as u32) <= (c as u32) && (c as u32) <= ('9' as u32)) || c == '_' || c == '/'
}

fn scan_digits(v: &Vec<char>, start: usize) -> (e: usize)
    requires
        start <= v@.len(),
    ensures
        e as int == digits_end(v@, start as int),
        start <= e <= v@.len(),
{
    let n = v.len();
    let mut i = start;
    while i < n && is_digit_exec(v[i])
        invariant
            start <= i <= n,
            n == v@.len(),
            digits_end(v@, start as int) == digits_end(v@, i as int),
        decreases n - i,
    {
        i += 1;
    }
    i
}

fn scan_tz(v: &Vec<char>, start: usize) -> (e: usize)
    requires
        start <= v@.len(),
    ensures
        e as int == tz_end(v@, start as int),
        start <= e <= v@.len(),
{
    let n = v.len();
    let mut i = start;
    while i < n && is_tz_exec(v[i])
        invariant
            start <= i <= n,
            n == v@.len(),
            tz_end(v@, start as int) == tz_end(v@, i as int),
        decreases n - i,
    {
        i += 1;
    }
    i
}

// ---------------------------------------------------------------------------
// Digit strings as numbers
// ---------------------------------------------------------------------------

pub open spec fn digit_val(c: char) -> nat {
    if c == '0' {
        0
    } else if c == '1' {
        1
    } else if c == '2' {
        2
    } else if c == '3' {
        3
    } else if c == '4' {
        4
    } else if c == '5' {
        5
    } else if c == '6' {
        6
    } else if c == '7' {
        7
    } else if c == '8' {
        8
    } else if c == '9' {
        9
    } else {
        0
    }
}

/// The value of a digit string read as a decimal number.
pub open spec fn val_of_digits(s: Seq<char>) -> nat
    decreases s.len(),
{
    if s.len() == 0 {
        0
    } else {
        val_of_digits(s.drop_last()) * 10 + digit_val(s.last())
    }
}

fn digit_val_exec(c: char) -> (d: u64)
    ensures
        d as nat == digit_val(c),
{
    if c == '0' {
        0
    } else if c == '1' {
        1
    } else if c == '2' {
        2
    } else if c == '3' {
        3
    } else if c == '4' {
        4
    } else if c == '5' {
        5
    } else if c == '6' {
        6
    } else if c == '7' {
        7
    } else if c == '8' {
        8
    } else if c == '9' {
        9
    } else {
        0
    }
}

proof fn lemma_val_step(s: Seq<char>, j: int)
    requires
        0 <= j < s.len(),
    ensures
        val_of_digits(s.subrange(0, j + 1)) == val_of_digits(s.subrange(0, j)) * 10 + digit_val(
            s[j],
        ),
{
    assert(s.subrange(0, j + 1).drop_last() =~= s.subrange(0, j));
    assert(s.subrange(0, j + 1).last() == s[j]);
}

proof fn lemma_val_mono(s: Seq<char>, j: int)
    requires
        0 <= j <= s.len(),
    ensures
        val_of_digits(s) >= val_of_digits(s.subrange(0, j)),
    decreases s.len() - j,
{
    if j == s.len() {
        assert(s.subrange(0, j) =~= s);
    } else {
        lemma_val_step(s, j);
        lemma_val_mono(s, j + 1);
    }
}

/// Parses a digit string as a non-negative `i64`; `None` when its value
/// exceeds `i64::MAX`.
fn parse_i64(digits: &Vec<char>) -> (r: Option<i64>)
    ensures
        match r {
            Some(x) => 0 <= x && x as nat == val_of_digits(digits@),
            None => val_of_digits(digits@) > i64::MAX as nat,
        },
{
    let n = digits.len();
    let mut acc: u64 = 0;
    let mut j: usize = 0;
    while j < n
        invariant
            0 <= j <= n,
            n == digits@.len(),
            acc as nat == val_of_digits(digits@.subrange(0, j as int)),
            acc <= i64::MAX as u64,
        decreases n - j,
    {
        let d = digit_val_exec(digits[j]);
        proof {
            lemma_val_step(digits@, j as int);
        }
        if acc > (u64::MAX - 9) / 10 {
            proof {
                lemma_val_mono(digits@, j + 1);
            }
            return None;
        }
        let next = acc * 10 + d;
        if next > i64::MAX as u64 {
            proof {
                lemma_val_mono(digits@, j + 1);
            }
            return None;
        }
        acc = next;
        j += 1;
    }
    assert(digits@.subrange(0, n as int) =~= digits@);
    Some(acc as i64)
}

// ---------------------------------------------------------------------------
// Duration formats
// ---------------------------------------------------------------------------

pub open spec fn abs_diff(a: int, b: int) -> nat {
    if a >= b {
        (a - b) as nat
    } else {
        (b - a) as nat
    }
}

/// The rendering of `seconds` through the duration format `fmt`: each of
/// `%d`, `%h`, `%m` that occurs in `fmt` consumes its floor-divided
/// component from the remaining duration, and `%s` stands for the
/// remaining seconds; the codes are then textually replaced.
pub open spec fn spec_fmt_displacement(fmt: Seq<char>, seconds: nat) -> Seq<char> {
    let d_on = contains_pat(fmt, ("%d")@);
    let days: nat = if d_on {
        seconds / 86400
    } else {
        0
    };
    let rem1: nat = if d_on {
        seconds % 86400
    } else {
        seconds
    };
    let h_on = contains_pat(fmt, ("%h")@);
    let hours: nat = if h_on {
        rem1 / 3600
    } else {
        0
    };
    let rem2: nat = if h_on {
        rem1 % 3600
    } else {
        rem1
    };
    let m_on = contains_pat(fmt, ("%m")@);
    let minutes: nat = if m_on {
        rem2 / 60
    } else {
        0
    };
    let rem3: nat = if m_on {
        rem2 % 60
    } else {
        rem2
    };
    replace_all(
        replace_all(
            replace_all(replace_all(fmt, ("%s")@, dec_str(rem3)), ("%m")@, dec_str(minutes)),
            ("%h")@,
            dec_str(hours),
        ),
        ("%d")@,
        dec_str(days),
    )
}

fn fmt_displacement_chars(fmt: &Vec<char>, seconds: u64) -> (r: Vec<char>)
    ensures
        r@ == spec_fmt_displacement(fmt@, seconds as nat),
{
    let pat_d = str_to_chars("%d");
    let pat_h = str_to_chars("%h");
    let pat_m = str_to_chars("%m");
    let pat_s = str_to_chars("%s");
    proof {
        reveal_strlit("%d");
        reveal_strlit("%h");
        reveal_strlit("%m");
        reveal_strlit("%s");
    }
    let d_on = contains_chars(fmt, &pat_d);
    let days: u64 = if d_on {
        seconds / 86400
    } else {
        0
    };
    let rem1: u64 = if d_on {
        seconds % 86400
    } else {
        seconds
    };
    let h_on = contains_chars(fmt, &pat_h);
    let hours: u64 = if h_on {
        rem1 / 3600
    } else {
        0
    };
    let rem2: u64 = if h_on {
        rem1 % 3600
    } else {
        rem1
    };
    let m_on = contains_chars(fmt, &pat_m);
    let minutes: u64 = if m_on {
        rem2 / 60
    } else {
        0
    };
    let rem3: u64 = if m_on {
        rem2 % 60
    } else {
        rem2
    };
    let step1 = replace_all_chars(fmt, &pat_s, &dec_chars(rem3));
    let step2 = replace_all_chars(&step1, &pat_m, &dec_chars(minutes));
    let step3 = replace_all_chars(&step2, &pat_h, &dec_chars(hours));
    replace_all_chars(&step3, &pat_d, &dec_chars(days))
}

/// Renders `seconds` through the duration format `format`.
pub fn fmt_displacement(format: &str, seconds: u64) -> (r: String)
    ensures
        r@ == spec_fmt_displacement(format@, seconds as nat),
{
    let fmt = str_to_chars(format);
    let out = fmt_displacement_chars(&fmt, seconds);
    chars_to_string(&out)
}

// ---------------------------------------------------------------------------
// Token grammar
// ---------------------------------------------------------------------------

pub open spec fn tf_head() -> Seq<char> {
    ("<<timefrom:")@
}

pub open spec fn tn_head() -> Seq<char> {
    ("<<timenow:")@
}

pub open spec fn close_mark() -> Seq<char> {
    (">>")@
}

/// A complete time-from token begins at position `p`: the token head, at
/// least one digit, a colon, and a later closing mark.
pub open spec fn tf_at(s: Seq<char>, p: int) -> bool {
    &&& match_at(s, tf_head(), p)
    &&& {
        let ds = p + tf_head().len();
        let de = digits_end(s, ds);
        &&& de > ds
        &&& de < s.len()
        &&& s[de] == ':'
        &&& find_from(s, close_mark(), de + 1) is Some
    }
}

/// A complete time-now token begins at position `p`.
pub open spec fn tn_at(s: Seq<char>, p: int) -> bool {
    &&& match_at(s, tn_head(), p)
    &&& {
        let ts = p + tn_head().len();
        let te = tz_end(s, ts);
        &&& te > ts
        &&& te < s.len()
        &&& s[te] == ':'
        &&& find_from(s, close_mark(), te + 1) is Some
    }
}

pub open spec fn first_tf_from(s: Seq<char>, p: int) -> Option<int>
    decreases s.len() - p,
    when 0 <= p <= s.len()
{
    if p >= s.len() {
        None
    } else if tf_at(s, p) {
        Some(p)
    } else {
        first_tf_from(s, p + 1)
    }
}

pub open spec fn first_tn_from(s: Seq<char>, p: int) -> Option<int>
    decreases s.len() - p,
    when 0 <= p <= s.len()
{
    if p >= s.len() {
        None
    } else if tn_at(s, p) {
        Some(p)
    } else {
        first_tn_from(s, p + 1)
    }
}

/// `s` holds no recognised token of either kind.
pub open spec fn token_free(s: Seq<char>) -> bool {
    &&& first_tf_from(s, 0) is None
    &&& first_tn_from(s, 0) is None
}

// ---------------------------------------------------------------------------
// What the substitution yields
// ---------------------------------------------------------------------------

/// What the first time-from token renders to: the duration format applied
/// to the absolute difference between now and the referenced timestamp, or
/// the empty string when the timestamp does not fit an `i64`.
pub open spec fn spec_tf_render(digits: Seq<char>, fmt: Seq<char>, now: int) -> Seq<char> {
    if val_of_digits(digits) > i64::MAX as nat {
        Seq::empty()
    } else {
        spec_fmt_displacement(fmt, abs_diff(now, val_of_digits(digits) as int))
    }
}

/// What `chrono` and `chrono-tz` render for the time `now` in the named
/// timezone through the given format; `None` when the timezone name is
/// unknown, the timestamp out of range, or the format invalid.
pub uninterp spec fn tz_render(now: int, tz: Seq<char>, fmt: Seq<char>) -> Option<Seq<char>>;

pub open spec fn spec_tn_render(tz: Seq<char>, fmt: Seq<char>, now: int) -> Seq<char> {
    match tz_render(now, tz, fmt) {
        None => Seq::empty(),
        Some(r) => r,
    }
}

/// `s` with its first time-from token substituted.
pub open spec fn spec_sub_tf(s: Seq<char>, now: int) -> Seq<char> {
    match first_tf_from(s, 0) {
        None => s,
        Some(p) => {
            let ds = p + tf_head().len();
            let de = digits_end(s, ds);
            let j = find_from(s, close_mark(), de + 1)->0;
            s.subrange(0, p) + spec_tf_render(s.subrange(ds, de), s.subrange(de + 1, j), now)
                + s.subrange(j + 2, s.len() as int)
        },
    }
}

/// `s` with its first time-now token substituted.
pub open spec fn spec_sub_tn(s: Seq<char>, now: int) -> Seq<char> {
    match first_tn_from(s, 0) {
        None => s,
        Some(p) => {
            let ts = p + tn_head().len();
            let te = tz_end(s, ts);
            let j = find_from(s, close_mark(), te + 1)->0;
            s.subrange(0, p) + spec_tn_render(s.subrange(ts, te), s.subrange(te + 1, j), now)
                + s.subrange(j + 2, s.len() as int)
        },
    }
}

/// The whole substitution at time `now`: the time-from pass, then the
/// time-now pass on its result.
pub open spec fn spec_substitute(s: Seq<char>, now: int) -> Seq<char> {
    spec_sub_tn(spec_sub_tf(s, now), now)
}

// ---------------------------------------------------------------------------
// Finding tokens
// ---------------------------------------------------------------------------

fn tf_check_at(v: &Vec<char>, p: usize, head: &Vec<char>, close: &Vec<char>) -> (r: Option<
    (usize, usize),
>)
    requires
        head@ == tf_head(),
        close@ == close_mark(),
        p < v@.len(),
    ensures
        match r {
            Some((de, j)) => {
                &&& tf_at(v@, p as int)
                &&& de as int == digits_end(v@, p + tf_head().len())
                &&& find_from(v@, close_mark(), de + 1) == Some(j as int)
                &&& p + tf_head().len() < de
                &&& de < v@.len()
            },
            None => !tf_at(v@, p as int),
        },
{
    proof {
        reveal_strlit(">>");
    }
    let n = v.len();
    if head.len() > n - p {
        return None;
    }
    if !crate::text::chars_match_at(v, head, p) {
        return None;
    }
    let ds = p + head.len();
    let de = scan_digits(v, ds);
    if !(de > ds && de < n) {
        return None;
    }
    if v[de] != ':' {
        return None;
    }
    match find_pat(v, close, de + 1) {
        Some(j) => Some((de, j)),
        None => None,
    }
}

fn tn_check_at(v: &Vec<char>, p: usize, head: &Vec<char>, close: &Vec<char>) -> (r: Option<
    (usize, usize),
>)
    requires
        head@ == tn_head(),
        close@ == close_mark(),
        p < v@.len(),
    ensures
        match r {
            Some((te, j)) => {
                &&& tn_at(v@, p as int)
                &&& te as int == tz_end(v@, p + tn_head().len())
                &&& find_from(v@, close_mark(), te + 1) == Some(j as int)
                &&& p + tn_head().len() < te
                &&& te < v@.len()
            },
            None => !tn_at(v@, p as int),
        },
{
    proof {
        reveal_strlit(">>");
    }
    let n = v.len();
    if head.len() > n - p {
        return None;
    }
    if !crate::text::chars_match_at(v, head, p) {
        return None;
    }
    let ts = p + head.len();
    let te = scan_tz(v, ts);
    if !(te > ts && te < n) {
        return None;
    }
    if v[te] != ':' {
        return None;
    }
    match find_pat(v, close, te + 1) {
        Some(j) => Some((te, j)),
        None => None,
    }
}

fn find_first_tf(v: &Vec<char>) -> (r: Option<(usize, usize, usize)>)
    ensures
        match r {
            Some((p, de, j)) => {
                &&& first_tf_from(v@, 0) == Some(p as int)
                &&& de as int == digits_end(v@, p + tf_head().len())
                &&& find_from(v@, close_mark(), de + 1) == Some(j as int)
                &&& p + tf_head().len() < de
                &&& de < v@.len()
            },
            None => first_tf_from(v@, 0) is None,
        },
{
    let head = str_to_chars("<<timefrom:");
    let close = str_to_chars(">>");
    let n = v.len();
    let mut p: usize = 0;
    while p < n
        invariant
            0 <= p <= n,
            n == v@.len(),
            head@ == tf_head(),
            close@ == close_mark(),
            first_tf_from(v@, 0) == first_tf_from(v@, p as int),
        decreases n - p,
    {
        match tf_check_at(v, p, &head, &close) {
            Some((de, j)) => {
                return Some((p, de, j));
            },
            None => {},
        }
        p += 1;
    }
    None
}

fn find_first_tn(v: &Vec<char>) -> (r: Option<(usize, usize, usize)>)
    ensures
        match r {
            Some((p, te, j)) => {
                &&& first_tn_from(v@, 0) == Some(p as int)
                &&& te as int == tz_end(v@, p + tn_head().len())
                &&& find_from(v@, close_mark(), te + 1) == Some(j as int)
                &&& p + tn_head().len() < te
                &&& te < v@.len()
            },
            None => first_tn_from(v@, 0) is None,
        },
{
    let head = str_to_chars("<<timenow:");
    let close = str_to_chars(">>");
    let n = v.len();
    let mut p: usize = 0;
    while p < n
        invariant
            0 <= p <= n,
            n == v@.len(),
            head@ == tn_head(),
            close@ == close_mark(),
            first_tn_from(v@, 0) == first_tn_from(v@, p as int),
        decreases n - p,
    {
        match tn_check_at(v, p, &head, &close) {
            Some((te, j)) => {
                return Some((p, te, j));
            },
            None => {},
        }
        p += 1;
    }
    None
}

// ---------------------------------------------------------------------------
// Rendering and splicing
// ---------------------------------------------------------------------------

fn abs_diff_u64(now: i64, val: i64) -> (d: u64)
    requires
        val >= 0,
    ensures
        d as nat == abs_diff(now as int, val as int),
{
    if now >= val {
        (now - val) as u64
    } else if now >= 0 {
        (val - now) as u64
    } else {
        (val as u64) + ((-(now + 1)) as u64) + 1
    }
}

fn render_tf(digits: &Vec<char>, fmt: &Vec<char>, now: i64) -> (r: Vec<char>)
    ensures
        r@ == spec_tf_render(digits@, fmt@, now as int),
{
    match parse_i64(digits) {
        None => Vec::new(),
        Some(val) => {
            let secs = abs_diff_u64(now, val);
            fmt_displacement_chars(fmt, secs)
        },
    }
}

/// Relies on `chrono_tz`'s `Tz::from_str` and `chrono`'s
/// `DateTime::with_timezone` and `DateTime::format`: which names parse as
/// timezones and what a format renders to depend on the arguments alone.
/// Returns `None` when the name is not a known timezone, when the
/// timestamp lies outside chrono's range, or when the format string is
/// invalid.
#[verifier::external_body]
fn render_time_in_tz(now: i64, tz: &str, fmt: &str) -> (r: Option<String>)
    ensures
        match r {
            Some(s) => tz_render(now as int, tz@, fmt@) == Some(s@),
            None => tz_render(now as int, tz@, fmt@) is None,
        },
{
    let zone: chrono_tz::Tz = match tz.parse() {
        Ok(z) => z,
        Err(_) => return None,
    };
    let moment = match chrono::DateTime::<chrono::Utc>::from_timestamp_secs(now) {
        Some(m) => m,
        None => return None,
    };
    let mut out = String::new();
    match write!(out, "{}", moment.with_timezone(&zone).format(fmt)) {
        Ok(_) => Some(out),
        Err(_) => None,
    }
}

/// Relies on `chrono::Utc::now`: the current wall-clock time as epoch
/// seconds. Nothing is assumed of the returned value.
#[verifier::external_body]
fn now_epoch_seconds() -> i64 {
    chrono::Utc::now().timestamp()
}

fn sub_tf_chars(v: &Vec<char>, now: i64) -> (r: Vec<char>)
    ensures
        r@ == spec_sub_tf(v@, now as int),
{
    match find_first_tf(v) {
        None => sub_chars(v, 0, v.len()),
        Some((p, de, j)) => {
            let n = v.len();
            proof {
                reveal_strlit(">>");
                lemma_find_from_bounds(v@, close_mark(), de + 1);
                assert(j + close_mark().len() <= v@.len());
                assert(j + 2 <= n);
            }
            let head = str_to_chars("<<timefrom:");
            let ds = p + head.len();
            let digits = sub_chars(v, ds, de);
            let fmt = sub_chars(v, de + 1, j);
            let rendered = render_tf(&digits, &fmt, now);
            let mut out = sub_chars(v, 0, p);
            extend_chars(&mut out, &rendered);
            let tail = sub_chars(v, j + 2, n);
            extend_chars(&mut out, &tail);
            out
        },
    }
}

fn sub_tn_chars(v: &Vec<char>, now: i64) -> (r: Vec<char>)
    ensures
        r@ == spec_sub_tn(v@, now as int),
{
    match find_first_tn(v) {
        None => sub_chars(v, 0, v.len()),
        Some((p, te, j)) => {
            let n = v.len();
            proof {
                reveal_strlit(">>");
                lemma_find_from_bounds(v@, close_mark(), te + 1);
                assert(j + close_mark().len() <= v@.len());
                assert(j + 2 <= n);
            }
            let head = str_to_chars("<<timenow:");
            let ts = p + head.len();
            let tzv = sub_chars(v, ts, te);
            let fmtv = sub_chars(v, te + 1, j);
            let tzs = chars_to_string(&tzv);
            let fmts = chars_to_string(&fmtv);
            let rendered: Vec<char> = match render_time_in_tz(now, tzs.as_str(), fmts.as_str()) {
                Some(s) => str_to_chars(s.as_str()),
                None => Vec::new(),
            };
            let mut out = sub_chars(v, 0, p);
            extend_chars(&mut out, &rendered);
            let tail = sub_chars(v, j + 2, n);
            extend_chars(&mut out, &tail);
            out
        },
    }
}

// ---------------------------------------------------------------------------
// The substitution itself
// ---------------------------------------------------------------------------

/// Substitutes the first time-from token and the first time-now token of
/// `s`, evaluated at the time `now` (epoch seconds). Text without tokens
/// passes through unchanged.
pub fn substitute_at(s: &str, now: i64) -> (r: String)
    ensures
        r@ == spec_substitute(s@, now as int),
        token_free(s@) ==> r@ == s@,
{
    let v = str_to_chars(s);
    let pass1 = sub_tf_chars(&v, now);
    let pass2 = sub_tn_chars(&pass1, now);
    chars_to_string(&pass2)
}

/// Substitutes the first token of each kind at the current wall-clock time.
pub fn substitute(s: &str) -> (r: String)
    ensures
        exists|now: int| r@ == spec_substitute(s@, now),
        token_free(s@) ==> r@ == s@,
{
    let now = now_epoch_seconds();
    let r = substitute_at(s, now);
    proof {
        assert(r@ == spec_substitute(s@, now as int));
    }
    r
}

} // verus!
