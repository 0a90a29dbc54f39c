//! How `{:?}` writes a string, which error messages quote values with.

use vstd::prelude::*;

use crate::text::{dec, dec_string, owned};

verus! {

/// What `format!("{:?}", s)` makes of a string.
pub uninterp spec fn debug_quoted(s: Seq<char>) -> Seq<char>;

/// Printable ASCII other than the two characters `{:?}` escapes.
pub open spec fn plain_ascii(s: Seq<char>) -> bool {
    forall|i: int| 0 <= i < s.len() ==> (' ' <= #[trigger] s[i] && s[i] <= '~' && s[i] != '"'
        && s[i] != '\\')
}

/// `<str as Debug>::fmt`, through `format!("{:?}", ..)`.
///
/// What it returns is named by `debug_quoted`, a function of the text alone.
/// Its documentation escapes through `char::escape_debug`, which leaves
/// printable ASCII other than `"` and `\\` as it is, so such a string comes back
/// between two double quotes and otherwise unchanged; what the escapes of other
/// characters look like is not stated here.
#[verifier::external_body]
pub(crate) fn debug_str(s: &str) -> (r: String)
    ensures
        r@ == debug_quoted(s@),
        plain_ascii(s@) ==> r@ == "\""@ + s@ + "\""@,
{
    format!("{:?}", s)
}

/// What `format!("{:?}", c)` makes of a character.
pub uninterp spec fn debug_char_spec(c: char) -> Seq<char>;

/// `<char as Debug>::fmt`, through `format!("{:?}", ..)`.
///
/// What it returns is named by `debug_char_spec`, a function of the character
/// alone. Printable ASCII other than `'` and `\\` is written between two single
/// quotes as it is; the escapes of other characters are not stated here.
#[verifier::external_body]
pub(crate) fn debug_char(c: char) -> (r: String)
    ensures
        r@ == debug_char_spec(c),
        (' ' <= c && c <= '~' && c != '\'' && c != '\\') ==> r@ == "'"@ + seq![c] + "'"@,
{
    format!("{:?}", c)
}

/// How `{}` writes a signed number.
pub open spec fn int_dec(x: int) -> Seq<char> {
    if x < 0 {
        "-"@ + dec((-x) as nat)
    } else {
        dec(x as nat)
    }
}

/// `to_string` of an `i32`.
pub fn i32_string(x: i32) -> (r: String)
    ensures
        r@ == int_dec(x as int),
{
    if x < 0 {
        let m: u64 = (0i64 - (x as i64)) as u64;
        let mut r = owned("-");
        r.append(dec_string(m).as_str());
        r
    } else {
        dec_string(x as u64)
    }
}

/// How `{:?}` writes an `Option<i32>`.
pub open spec fn debug_opt_i32_spec(o: Option<i32>) -> Seq<char> {
    match o {
        Some(x) => "Some("@ + int_dec(x as int) + ")"@,
        None => "None"@,
    }
}

pub fn debug_opt_i32(o: Option<i32>) -> (r: String)
    ensures
        r@ == debug_opt_i32_spec(o),
{
    match o {
        Some(x) => {
            let mut r = owned("Some(");
            r.append(i32_string(x).as_str());
            r.append(")");
            r
        },
        None => owned("None"),
    }
}

/// A duration in milliseconds as `{:.0}` writes its seconds: to the nearest
/// whole second, a half going to the even neighbour.
pub open spec fn round_secs_value(ms: u64) -> nat {
    let q = (ms / 1000) as nat;
    let r = ms % 1000;
    if r > 500 || (r == 500 && q % 2 == 1) {
        q + 1
    } else {
        q
    }
}

pub open spec fn round_secs_spec(ms: u64) -> Seq<char> {
    dec(round_secs_value(ms))
}

pub fn round_secs(ms: u64) -> (r: String)
    ensures
        r@ == round_secs_spec(ms),
{
    let q = ms / 1000;
    let rem = ms % 1000;
    if rem > 500 || (rem == 500 && q % 2 == 1) {
        dec_string(q + 1)
    } else {
        dec_string(q)
    }
}

/// The binary unit a size is written in, and how many bytes one of it is: the
/// largest of KiB, MiB, GiB and TiB that the size reaches, bytes below one KiB.
pub open spec fn bytes_unit(bytes: nat) -> (nat, Seq<char>) {
    if bytes >= 1099511627776 {
        (1099511627776, "TiB"@)
    } else if bytes >= 1073741824 {
        (1073741824, "GiB"@)
    } else if bytes >= 1048576 {
        (1048576, "MiB"@)
    } else if bytes >= 1024 {
        (1024, "KiB"@)
    } else {
        (1, "B"@)
    }
}

/// A size in tenths of its unit, a half rounded up.
pub open spec fn bytes_tenths(bytes: nat) -> nat {
    let d = bytes_unit(bytes).0;
    (bytes * 20 + d) / (2 * d)
}

/// A size as a person reads it: whole bytes below one KiB, and one decimal
/// place in the largest binary unit it reaches above that.
pub open spec fn format_bytes_spec(bytes: nat) -> Seq<char> {
    if bytes < 1024 {
        dec(bytes) + " B"@
    } else {
        let t = bytes_tenths(bytes);
        dec(t / 10) + "."@ + dec(t % 10) + " "@ + bytes_unit(bytes).1
    }
}

pub fn format_bytes(bytes: u64) -> (r: String)
    ensures
        r@ == format_bytes_spec(bytes as nat),
{
    if bytes < 1024 {
        let mut r = dec_string(bytes);
        r.append(" B");
        return r;
    }
    let (d, unit): (u128, &str) = if bytes >= 1099511627776 {
        (1099511627776, "TiB")
    } else if bytes >= 1073741824 {
        (1073741824, "GiB")
    } else if bytes >= 1048576 {
        (1048576, "MiB")
    } else {
        (1024, "KiB")
    };
    assert(d == bytes_unit(bytes as nat).0 && unit@ == bytes_unit(bytes as nat).1);
    let t: u128 = (bytes as u128 * 20 + d) / (2 * d);
    assert(t == bytes_tenths(bytes as nat));
    assert(t <= bytes as u128) by (nonlinear_arith)
        requires
            d >= 1024,
            bytes as u128 >= d,
            t == (bytes as u128 * 20 + d) / (2 * d),
    {
        assert(2 * d * (bytes as u128) >= 2048 * (bytes as u128));
        assert(bytes as u128 * 20 + d <= 2 * d * (bytes as u128));
        assert((2 * d * (bytes as u128)) / (2 * d) == bytes as u128);
    }
    let mut r = dec_string((t / 10) as u64);
    r.append(".");
    let frac = dec_string((t % 10) as u64);
    r.append(frac.as_str());
    r.append(" ");
    r.append(unit);
    r
}

} // verus!
