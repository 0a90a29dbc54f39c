//! The guest console's resolution, as far as both providers share it.

use vstd::prelude::*;

use crate::text::{chars_of, parse_uint, parse_uint_spec, split_once2, split_once2_spec, trim_bounds, trim_spec};

verus! {

/// Overrides the guest console's resolution, as `WxH`. Read for both providers.
pub const RESOLUTION_ENV: &'static str = "SUNLIT_EARTH_VM_RESOLUTION";

/// The smallest and largest width or height a resolution may have.
pub const RESOLUTION_MIN: u32 = 640;
pub const RESOLUTION_MAX: u32 = 7680;

pub open spec fn plausible(v: nat) -> bool {
    RESOLUTION_MIN <= v <= RESOLUTION_MAX
}

/// A `WxH` resolution: two numbers around an `x` or an `X`, each inside the
/// bounds, surrounding whitespace ignored.
pub open spec fn parse_resolution_spec(s: Seq<char>) -> Option<(u32, u32)> {
    match split_once2_spec(trim_spec(s), 'x', 'X') {
        Some((w, h)) => match (
            parse_uint_spec(trim_spec(w), 0xffff_ffff),
            parse_uint_spec(trim_spec(h), 0xffff_ffff),
        ) {
            (Some(x), Some(y)) => if plausible(x) && plausible(y) {
                Some((x as u32, y as u32))
            } else {
                None
            },
            _ => None,
        },
        None => None,
    }
}

/// Parse a `WxH` resolution, rejecting anything that is not one.
pub fn parse_resolution(value: &str) -> (r: Option<(u32, u32)>)
    ensures
        r == parse_resolution_spec(value@),
{
    let v = chars_of(value);
    assert(v@.subrange(0, v.len() as int) == v@);
    let (lo, hi) = trim_bounds(&v, 0, v.len());
    let at = match split_once2(&v, lo, hi, 'x', 'X') {
        Some(at) => at,
        None => return None,
    };
    let (wl, wh) = trim_bounds(&v, lo, at);
    let (hl, hh) = trim_bounds(&v, at + 1, hi);
    let width = parse_uint(&v, wl, wh, 0xffff_ffff);
    let height = parse_uint(&v, hl, hh, 0xffff_ffff);
    match (width, height) {
        (Some(w), Some(h)) => {
            if RESOLUTION_MIN as u64 <= w && w <= RESOLUTION_MAX as u64 && RESOLUTION_MIN as u64
                <= h && h <= RESOLUTION_MAX as u64 {
                Some((w as u32, h as u32))
            } else {
                None
            }
        },
        _ => None,
    }
}

} // verus!
