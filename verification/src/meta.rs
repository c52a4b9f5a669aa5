//! Build information shown in the help overlay and by `--version`.
use vstd::prelude::*;

use crate::numfmt::{i64_chars, signed_decimal};
use crate::text::{owned, push_chars, push_str};

verus! {

/// The release this build is.
pub const VERSION: &'static str = "1.0.2";

/// The project's home page.
pub const GITHUB_URL: &'static str = "https://github.com/bencetotht/prm";

pub fn version() -> (r: &'static str)
    ensures
        r@ == VERSION@,
{
    VERSION
}

pub open spec fn copyright_spec(year: int) -> Seq<char> {
    "Copyright (c) "@ + signed_decimal(year) + " Bence Toth"@
}

/// The copyright line for a year.
pub fn copyright_line_for(year: i32) -> (r: String)
    ensures
        r@ == copyright_spec(year as int),
{
    let mut s = owned("Copyright (c) ");
    let d = i64_chars(year as i64);
    push_chars(&mut s, d.as_slice());
    push_str(&mut s, " Bence Toth");
    s
}

/// The copyright line for the current year.
pub fn copyright_line() -> (r: String)
    ensures
        exists|year: i32| r@ == copyright_spec(year as int),
{
    let year = crate::clock::current_year();
    copyright_line_for(year)
}

} // verus!
