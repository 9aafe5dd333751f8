//! MS-DOS packed time and date fields.

use vstd::prelude::*;

verus! {

/// Hour of a packed time: bits 11 to 15.
pub open spec fn dos_hour(n: u16) -> int {
    n as int / 2048
}

/// Minute of a packed time: bits 5 to 10.
pub open spec fn dos_minute(n: u16) -> int {
    (n as int / 32) % 64
}

/// Second of a packed time: twice bits 0 to 4.
pub open spec fn dos_second(n: u16) -> int {
    2 * (n as int % 32)
}

/// Year of a packed date: 1980 plus bits 9 to 15.
pub open spec fn dos_year(n: u16) -> int {
    1980 + n as int / 512
}

/// Month of a packed date: bits 5 to 8, as stored.
pub open spec fn dos_month(n: u16) -> int {
    (n as int / 32) % 16
}

/// Day of a packed date: bits 0 to 4, as stored.
pub open spec fn dos_day(n: u16) -> int {
    n as int % 32
}

/// Splits a packed time into `(hour, minute, second)` and hands the raw value back beside it.
pub fn mod_time(n: u16) -> (r: ((u8, u8, u8), u16))
    ensures
        r.0.0 == dos_hour(n),
        r.0.1 == dos_minute(n),
        r.0.2 == dos_second(n),
        r.1 == n,
{
    let hh: u16 = n >> 11;
    let mm: u16 = (n >> 5) & 0x3f;
    let ss: u16 = n & 0x1f;
    assert(hh == n / 2048 && hh < 32) by (bit_vector)
        requires
            hh == n >> 11,
    ;
    assert(mm == (n / 32) % 64 && mm < 64) by (bit_vector)
        requires
            mm == (n >> 5) & 0x3f,
    ;
    assert(ss == n % 32 && ss < 32) by (bit_vector)
        requires
            ss == n & 0x1f,
    ;
    let h: u8 = hh as u8;
    let m: u8 = mm as u8;
    let s: u8 = 2 * (ss as u8);
    ((h, m, s), n)
}

/// Splits a packed date into `(year, month, day)` and hands the raw value back beside it.
/// Month and day are passed through as stored, whatever their range.
pub fn mod_date(n: u16) -> (r: ((u16, u8, u8), u16))
    ensures
        r.0.0 == dos_year(n),
        r.0.1 == dos_month(n),
        r.0.2 == dos_day(n),
        r.1 == n,
{
    let yy: u16 = n >> 9;
    let mm: u16 = (n >> 5) & 0x0f;
    let dd: u16 = n & 0x1f;
    assert(yy == n / 512 && yy < 128) by (bit_vector)
        requires
            yy == n >> 9,
    ;
    assert(mm == (n / 32) % 16 && mm < 16) by (bit_vector)
        requires
            mm == (n >> 5) & 0x0f,
    ;
    assert(dd == n % 32 && dd < 32) by (bit_vector)
        requires
            dd == n & 0x1f,
    ;
    let y: u16 = yy + 1980;
    let m: u8 = mm as u8;
    let d: u8 = dd as u8;
    ((y, m, d), n)
}

} // verus!
