//! Fixed renderings of a duration given in seconds: a short clock-like form
//! and a long form that names each nonzero unit.

use vstd::prelude::*;

use crate::text::{chars_to_string, dec_str, extend_chars, push_dec, str_to_chars};

verus! {

/// Decimal rendering padded with a leading zero to at least two digits.
pub open spec fn pad2(n: nat) -> Seq<char> {
    if n < 10 {
        seq!['0'] + dec_str(n)
    } else {
        dec_str(n)
    }
}

/// The short form: `"<days> days, <hh>:<mm>:<ss>"`.
pub open spec fn shorthand_spec(seconds: nat) -> Seq<char> {
    let days = seconds / 86400;
    let rem1 = seconds % 86400;
    let hours = rem1 / 3600;
    let rem2 = rem1 % 3600;
    let minutes = rem2 / 60;
    let secs = rem2 % 60;
    dec_str(days) + (" days, ")@ + pad2(hours) + (":")@ + pad2(minutes) + (":")@ + pad2(secs)
}

/// One segment of the long form: nothing when the unit is zero, else the
/// count and the unit name, preceded by a separator when something came
/// before it.
pub open spec fn append_part(acc: Seq<char>, n: nat, name: Seq<char>) -> Seq<char> {
    if n == 0 {
        acc
    } else if acc.len() == 0 {
        dec_str(n) + (" ")@ + name
    } else {
        acc + (", ")@ + dec_str(n) + (" ")@ + name
    }
}

/// The long form: the nonzero units among days, hours, minutes and seconds,
/// each as `"<count> <name>"`, joined by `", "`.
pub open spec fn longhand_spec(seconds: nat) -> Seq<char> {
    let days = seconds / 86400;
    let rem1 = seconds % 86400;
    let hours = rem1 / 3600;
    let rem2 = rem1 % 3600;
    let minutes = rem2 / 60;
    let secs = rem2 % 60;
    append_part(
        append_part(
            append_part(append_part(Seq::empty(), days, ("days")@), hours, ("hours")@),
            minutes,
            ("minutes")@,
        ),
        secs,
        ("seconds")@,
    )
}

fn push_pad2(out: &mut Vec<char>, n: u64)
    ensures
        final(out)@ == old(out)@ + pad2(n as nat),
{
    if n < 10 {
        out.push('0');
        push_dec(out, n);
        proof {
            reveal_strlit("0");
        }
        assert(out@ =~= old(out)@ + pad2(n as nat));
    } else {
        push_dec(out, n);
    }
}

fn push_part(out: &mut Vec<char>, n: u64, name: &str)
    ensures
        final(out)@ == append_part(old(out)@, n as nat, name@),
{
    if n > 0 {
        if out.len() > 0 {
            let sep = str_to_chars(", ");
            extend_chars(out, &sep);
        }
        push_dec(out, n);
        let sp = str_to_chars(" ");
        extend_chars(out, &sp);
        let nm = str_to_chars(name);
        extend_chars(out, &nm);
        assert(out@ =~= append_part(old(out)@, n as nat, name@));
    }
}

/// Renders `seconds` as `"<days> days, <hh>:<mm>:<ss>"`, the hour, minute
/// and second fields zero-padded to two digits.
pub fn shorthand_displacement(seconds: u64) -> (r: String)
    ensures
        r@ == shorthand_spec(seconds as nat),
{
    let days = seconds / 86400;
    let rem1 = seconds % 86400;
    let hours = rem1 / 3600;
    let rem2 = rem1 % 3600;
    let minutes = rem2 / 60;
    let secs = rem2 % 60;
    let mut out: Vec<char> = Vec::new();
    push_dec(&mut out, days);
    let seg = str_to_chars(" days, ");
    extend_chars(&mut out, &seg);
    push_pad2(&mut out, hours);
    let colon1 = str_to_chars(":");
    extend_chars(&mut out, &colon1);
    push_pad2(&mut out, minutes);
    let colon2 = str_to_chars(":");
    extend_chars(&mut out, &colon2);
    push_pad2(&mut out, secs);
    assert(out@ =~= shorthand_spec(seconds as nat));
    chars_to_string(&out)
}

/// Renders `seconds` as the list of its nonzero day, hour, minute and second
/// counts, each named, joined by `", "`; the empty string when `seconds` is 0.
pub fn longhand_displacement(seconds: u64) -> (r: String)
    ensures
        r@ == longhand_spec(seconds as nat),
{
    let days = seconds / 86400;
    let rem1 = seconds % 86400;
    let hours = rem1 / 3600;
    let rem2 = rem1 % 3600;
    let minutes = rem2 / 60;
    let secs = rem2 % 60;
    let mut out: Vec<char> = Vec::new();
    push_part(&mut out, days, "days");
    push_part(&mut out, hours, "hours");
    push_part(&mut out, minutes, "minutes");
    push_part(&mut out, secs, "seconds");
    chars_to_string(&out)
}

} // verus!
