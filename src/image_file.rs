//! Naming and checking of the file a clipboard image is saved to.
use chrono::{Datelike, Timelike};
use vstd::prelude::*;

verus! {

/// A path whose extension the host is asked about, to learn whether it
/// accepts WebP images.
pub const WEBP_PROBE_PATH: &'static str = "z:/test.webp";

/// A local date and time at second resolution.
#[derive(Clone, Copy, Debug, PartialEq, Eq, Structural)]
pub struct LocalTime {
    pub year: i32,
    pub month: u32,
    pub day: u32,
    pub hour: u32,
    pub minute: u32,
    pub second: u32,
}

impl LocalTime {
    pub open spec fn wf(&self) -> bool {
        &&& 1 <= self.month <= 12
        &&& 1 <= self.day <= 31
        &&& self.hour < 24
        &&& self.minute < 60
        &&& self.second < 60
    }
}

/// Relies on chrono::Local::now, read through chrono's `Datelike` and
/// `Timelike` accessors, whose documentation gives the ranges: month 1 to 12,
/// day 1 to 31, hour 0 to 23, minute and second 0 to 59.
#[verifier::external_body]
fn local_now() -> (r: LocalTime)
    ensures
        r.wf(),
{
    let now = chrono::Local::now();
    LocalTime {
        year: now.year(),
        month: now.month(),
        day: now.day(),
        hour: now.hour(),
        minute: now.minute(),
        second: now.second(),
    }
}

pub open spec fn digit_char(d: int) -> char {
    if d == 0 {
        '0'
    } else if d == 1 {
        '1'
    } else if d == 2 {
        '2'
    } else if d == 3 {
        '3'
    } else if d == 4 {
        '4'
    } else if d == 5 {
        '5'
    } else if d == 6 {
        '6'
    } else if d == 7 {
        '7'
    } else if d == 8 {
        '8'
    } else {
        '9'
    }
}

/// `n` written with two decimal digits.
pub open spec fn pad2(n: int) -> Seq<char> {
    seq![digit_char(n / 10), digit_char(n % 10)]
}

/// `n` written with four decimal digits.
pub open spec fn pad4(n: int) -> Seq<char> {
    seq![
        digit_char(n / 1000),
        digit_char((n / 100) % 10),
        digit_char((n / 10) % 10),
        digit_char(n % 10),
    ]
}

/// `YYYYMMDD_HHMMSS`.
pub open spec fn timestamp_text(t: LocalTime) -> Seq<char> {
    pad4(t.year as int) + pad2(t.month as int) + pad2(t.day as int) + seq!['_'] + pad2(
        t.hour as int,
    ) + pad2(t.minute as int) + pad2(t.second as int)
}

pub open spec fn extension_text(webp: bool) -> Seq<char> {
    if webp {
        seq!['w', 'e', 'b', 'p']
    } else {
        seq!['p', 'n', 'g']
    }
}

/// `clipboard_YYYYMMDD_HHMMSS.webp` or `clipboard_YYYYMMDD_HHMMSS.png`.
pub open spec fn file_name_text(t: LocalTime, webp: bool) -> Seq<char> {
    seq!['c', 'l', 'i', 'p', 'b', 'o', 'a', 'r', 'd', '_'] + timestamp_text(t) + seq!['.']
        + extension_text(webp)
}

fn digit_str(d: u32) -> (r: &'static str)
    requires
        d < 10,
    ensures
        r@ == seq![digit_char(d as int)],
{
    proof {
        reveal_strlit("0");
        reveal_strlit("1");
        reveal_strlit("2");
        reveal_strlit("3");
        reveal_strlit("4");
        reveal_strlit("5");
        reveal_strlit("6");
        reveal_strlit("7");
        reveal_strlit("8");
        reveal_strlit("9");
    }
    if d == 0 {
        "0"
    } else if d == 1 {
        "1"
    } else if d == 2 {
        "2"
    } else if d == 3 {
        "3"
    } else if d == 4 {
        "4"
    } else if d == 5 {
        "5"
    } else if d == 6 {
        "6"
    } else if d == 7 {
        "7"
    } else if d == 8 {
        "8"
    } else {
        "9"
    }
}

fn push_pad2(s: &mut String, n: u32)
    requires
        n < 100,
    ensures
        final(s)@ == old(s)@ + pad2(n as int),
{
    s.append(digit_str(n / 10));
    s.append(digit_str(n % 10));
}

fn push_pad4(s: &mut String, n: u32)
    requires
        n < 10000,
    ensures
        final(s)@ == old(s)@ + pad4(n as int),
{
    s.append(digit_str(n / 1000));
    s.append(digit_str((n / 100) % 10));
    s.append(digit_str((n / 10) % 10));
    s.append(digit_str(n % 10));
}

/// The name of the file an image pasted at `t` is saved under, with the
/// WebP extension where the host accepts WebP and PNG otherwise. `None`
/// where the year does not have four digits.
pub fn image_file_name(t: &LocalTime, supports_webp: bool) -> (r: Option<String>)
    requires
        t.wf(),
    ensures
        0 <= t.year <= 9999 ==> (r matches Some(s) && s@ == file_name_text(*t, supports_webp)),
        !(0 <= t.year <= 9999) ==> r is None,
{
    if t.year < 0 || t.year > 9999 {
        return None;
    }
    proof {
        reveal_strlit("clipboard_");
        reveal_strlit("_");
        reveal_strlit(".");
        reveal_strlit("webp");
        reveal_strlit("png");
    }
    let mut s = String::from_str("clipboard_");
    push_pad4(&mut s, t.year as u32);
    push_pad2(&mut s, t.month);
    push_pad2(&mut s, t.day);
    s.append("_");
    push_pad2(&mut s, t.hour);
    push_pad2(&mut s, t.minute);
    push_pad2(&mut s, t.second);
    s.append(".");
    if supports_webp {
        s.append("webp");
    } else {
        s.append("png");
    }
    assert(s@ =~= file_name_text(*t, supports_webp));
    Some(s)
}

/// The name for an image pasted now: [`image_file_name`] of the local time.
pub fn image_file_name_now(supports_webp: bool) -> (r: Option<String>)
    ensures
        r matches Some(s) ==> exists|t: LocalTime|
            t.wf() && 0 <= t.year <= 9999 && s@ == file_name_text(t, supports_webp),
{
    let t = local_now();
    image_file_name(&t, supports_webp)
}

/// Whether `len` bytes are exactly the RGBA pixels of a `width` by `height`
/// image, four bytes each.
pub fn rgba_len_matches(width: u32, height: u32, len: usize) -> (r: bool)
    ensures
        r == (len as int == width as int * height as int * 4),
{
    assert(0 <= width as int * height as int <= u32::MAX as int * u32::MAX as int)
        by (nonlinear_arith)
        requires
            width <= u32::MAX,
            height <= u32::MAX,
    ;
    let pixels: u64 = width as u64 * height as u64;
    if pixels > u64::MAX / 4 {
        return false;
    }
    pixels * 4 == len as u64
}

} // verus!
