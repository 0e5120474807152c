use vstd::prelude::*;

verus! {

/// The RFC 3339 text that chrono writes for the UTC instant `secs` seconds and
/// `nanos` nanoseconds after the Unix epoch.
pub uninterp spec fn rfc3339_text(secs: i64, nanos: u32) -> Seq<char>;

/// Whether chrono's `DateTime::<Utc>::from_timestamp` accepts the instant:
/// its date lies between -262143-01-01 and 262142-12-31, and its nanosecond part
/// is under one second, or under two seconds on a second that ends a minute
/// (a leap second).
pub open spec fn timestamp_accepted(secs: i64, nanos: u32) -> bool {
    &&& -8_334_601_228_800 <= secs <= 8_210_266_876_799
    &&& (nanos < 1_000_000_000 || (nanos < 2_000_000_000 && secs % 60 == 59))
}

/// The character of a decimal digit.
pub open spec fn digit_char(d: int) -> char {
    (d + 48) as char
}

/// The last `width` decimal digits of `v`, with leading zeros.
pub open spec fn decimal(v: int, width: nat) -> Seq<char>
    decreases width,
{
    if width == 0 {
        Seq::empty()
    } else {
        decimal(v / 10, (width - 1) as nat).push(digit_char(v % 10))
    }
}

/// Whether `y` is a leap year of the proleptic Gregorian calendar.
pub open spec fn is_leap_year(y: int) -> bool {
    y % 4 == 0 && (y % 100 != 0 || y % 400 == 0)
}

/// The number of days in month `m` of year `y`.
pub open spec fn days_in_month(y: int, m: int) -> int {
    if m == 2 {
        if is_leap_year(y) { 29 } else { 28 }
    } else if m == 4 || m == 6 || m == 9 || m == 11 {
        30
    } else {
        31
    }
}

/// Whether year `y` (0 to 9999), month `m` and day `d` name a day of the calendar.
pub open spec fn is_date(y: int, m: int, d: int) -> bool {
    0 <= y <= 9999 && 1 <= m <= 12 && 1 <= d <= days_in_month(y, m)
}

/// The number of days from 0000-01-01 to the first day of year `y` (for `y >= 0`).
pub open spec fn days_before_year(y: int) -> int {
    365 * y + (y + 3) / 4 - (y + 99) / 100 + (y + 399) / 400
}

/// The number of days from the first day of year `y` to the first day of month `m`.
pub open spec fn days_before_month(y: int, m: int) -> int {
    let common: int = if m == 1 {
        0
    } else if m == 2 {
        31
    } else if m == 3 {
        59
    } else if m == 4 {
        90
    } else if m == 5 {
        120
    } else if m == 6 {
        151
    } else if m == 7 {
        181
    } else if m == 8 {
        212
    } else if m == 9 {
        243
    } else if m == 10 {
        273
    } else if m == 11 {
        304
    } else {
        334
    };
    if m > 2 && is_leap_year(y) { common + 1 } else { common }
}

/// The number of the day `y`-`m`-`d` counted from 1970-01-01 (day 0).
pub open spec fn epoch_day(y: int, m: int, d: int) -> int {
    days_before_year(y) + days_before_month(y, m) + d - 1 - days_before_year(1970)
}

/// Whether the instant falls in a year from 0 to 9999, which RFC 3339 writes
/// with four digits.
pub open spec fn four_digit_year(secs: int) -> bool {
    -62_167_219_200 <= secs <= 253_402_300_799
}

/// The fraction of a second as written: nothing for a whole second, else a
/// point and three, six or nine digits, the fewest that hold it exactly.
pub open spec fn fraction_text(n: int) -> Seq<char> {
    if n == 0 {
        Seq::empty()
    } else if n % 1_000_000 == 0 {
        seq!['.'] + decimal(n / 1_000_000, 3)
    } else if n % 1_000 == 0 {
        seq!['.'] + decimal(n / 1_000, 6)
    } else {
        seq!['.'] + decimal(n, 9)
    }
}

/// The time of day `HH:MM:SS` and its fraction for the instant `secs`
/// seconds and `nanos` nanoseconds after the epoch; a nanosecond part of a
/// second or more is a leap second, written as second 60.
pub open spec fn time_of_day_text(secs: int, nanos: int) -> Seq<char> {
    let leap = nanos >= 1_000_000_000;
    let n = if leap { nanos - 1_000_000_000 } else { nanos };
    let ss = secs % 60 + if leap { 1int } else { 0int };
    decimal((secs % 86_400) / 3_600, 2) + seq![':'] + decimal((secs % 3_600) / 60, 2) + seq![':']
        + decimal(ss, 2) + fraction_text(n)
}

/// The RFC 3339 text of the date `y`-`m`-`d` at the time of day of the
/// instant, in UTC, with the offset written as `+00:00`.
pub open spec fn utc_text(y: int, m: int, d: int, secs: int, nanos: int) -> Seq<char> {
    decimal(y, 4) + seq!['-'] + decimal(m, 2) + seq!['-'] + decimal(d, 2) + seq!['T'] + time_of_day_text(
        secs,
        nanos,
    ) + seq!['+', '0', '0', ':', '0', '0']
}

/// `t` is the RFC 3339 text, in UTC, of the instant `secs` seconds and `nanos`
/// nanoseconds after the epoch: its date is the calendar day `secs / 86400`
/// days after 1970-01-01, its time of day that of the instant.
pub open spec fn is_utc_rfc3339(t: Seq<char>, secs: int, nanos: int) -> bool {
    exists|y: int, m: int, d: int|
        #![trigger epoch_day(y, m, d)]
        is_date(y, m, d) && epoch_day(y, m, d) == secs / 86_400 && t == utc_text(y, m, d, secs, nanos)
}

/// Ten to the power `w`.
pub open spec fn pow10(w: nat) -> int
    decreases w,
{
    if w == 0 {
        1
    } else {
        10 * pow10((w - 1) as nat)
    }
}

/// The number that a run of decimal digits denotes.
pub open spec fn read_decimal(s: Seq<char>) -> int
    decreases s.len(),
{
    if s.len() == 0 {
        0
    } else {
        read_decimal(s.drop_last()) * 10 + (s.last() as int - 48)
    }
}

proof fn lemma_decimal_len(v: int, w: nat)
    ensures
        decimal(v, w).len() == w,
    decreases w,
{
    if w > 0 {
        lemma_decimal_len(v / 10, (w - 1) as nat);
    }
}

proof fn lemma_read_decimal(v: int, w: nat)
    requires
        0 <= v < pow10(w),
    ensures
        read_decimal(decimal(v, w)) == v,
    decreases w,
{
    if w > 0 {
        let p = pow10((w - 1) as nat);
        assert(v / 10 < p) by (nonlinear_arith)
            requires
                0 <= v < 10 * p,
        ;
        lemma_read_decimal(v / 10, (w - 1) as nat);
        let dc = decimal(v, w);
        assert(dc.drop_last() == decimal(v / 10, (w - 1) as nat));
        assert(dc.last() == digit_char(v % 10));
        assert(digit_char(v % 10) as int == v % 10 + 48);
    }
}

/// Reading the RFC 3339 text of an instant back gives the instant: its date
/// fields name the calendar day `secs / 86400` days after 1970-01-01; its hour,
/// minute and second fields are those of the instant (second 60 on a leap
/// second); the offset is `+00:00`; and the fields put together give `secs`
/// again.
pub proof fn lemma_rfc3339_fields(t: Seq<char>, secs: int, nanos: int)
    requires
        is_utc_rfc3339(t, secs, nanos),
        0 <= nanos < 2_000_000_000,
    ensures
        t.len() >= 25,
        t[4] == '-' && t[7] == '-' && t[10] == 'T' && t[13] == ':' && t[16] == ':',
        t.subrange(t.len() - 6, t.len() as int) == seq!['+', '0', '0', ':', '0', '0'],
        is_date(read_decimal(t.subrange(0, 4)), read_decimal(t.subrange(5, 7)), read_decimal(t.subrange(8, 10))),
        epoch_day(read_decimal(t.subrange(0, 4)), read_decimal(t.subrange(5, 7)), read_decimal(t.subrange(8, 10)))
            == secs / 86_400,
        read_decimal(t.subrange(11, 13)) == (secs % 86_400) / 3_600,
        read_decimal(t.subrange(14, 16)) == (secs % 3_600) / 60,
        read_decimal(t.subrange(17, 19)) == secs % 60 + if nanos >= 1_000_000_000 { 1int } else { 0int },
        epoch_day(read_decimal(t.subrange(0, 4)), read_decimal(t.subrange(5, 7)), read_decimal(t.subrange(8, 10)))
            * 86_400 + read_decimal(t.subrange(11, 13)) * 3_600 + read_decimal(t.subrange(14, 16)) * 60
            + read_decimal(t.subrange(17, 19)) - (if nanos >= 1_000_000_000 { 1int } else { 0int }) == secs,
{
    let (y, m, d) = choose|y: int, m: int, d: int|
        #![trigger epoch_day(y, m, d)]
        is_date(y, m, d) && epoch_day(y, m, d) == secs / 86_400 && t == utc_text(y, m, d, secs, nanos);
    let leap = nanos >= 1_000_000_000;
    let n = if leap { nanos - 1_000_000_000 } else { nanos };
    let hh = (secs % 86_400) / 3_600;
    let mm = (secs % 3_600) / 60;
    let ss = secs % 60 + if leap { 1int } else { 0int };
    let dy = decimal(y, 4);
    let dm = decimal(m, 2);
    let dd = decimal(d, 2);
    let dh = decimal(hh, 2);
    let dmi = decimal(mm, 2);
    let ds = decimal(ss, 2);
    let fr = fraction_text(n);
    let off = seq!['+', '0', '0', ':', '0', '0'];
    lemma_decimal_len(y, 4);
    lemma_decimal_len(m, 2);
    lemma_decimal_len(d, 2);
    lemma_decimal_len(hh, 2);
    lemma_decimal_len(mm, 2);
    lemma_decimal_len(ss, 2);
    let head = dy + seq!['-'] + dm + seq!['-'] + dd + seq!['T'] + dh + seq![':'] + dmi + seq![':'] + ds;
    assert(time_of_day_text(secs, nanos) == dh + seq![':'] + dmi + seq![':'] + ds + fr);
    assert(t =~= head + fr + off);
    assert(head.len() == 19);
    assert(t.subrange(0, 4) =~= dy);
    assert(t.subrange(5, 7) =~= dm);
    assert(t.subrange(8, 10) =~= dd);
    assert(t.subrange(11, 13) =~= dh);
    assert(t.subrange(14, 16) =~= dmi);
    assert(t.subrange(17, 19) =~= ds);
    assert(t.subrange(t.len() - 6, t.len() as int) =~= off);
    assert(t[4] == head[4] && t[7] == head[7] && t[10] == head[10] && t[13] == head[13] && t[16] == head[16]);
    assert(pow10(4) == 10000) by {
        reveal_with_fuel(pow10, 5);
    }
    assert(pow10(2) == 100) by {
        reveal_with_fuel(pow10, 3);
    }
    lemma_read_decimal(y, 4);
    lemma_read_decimal(m, 2);
    lemma_read_decimal(d, 2);
    assert(0 <= secs % 86_400 < 86_400);
    lemma_read_decimal(hh, 2);
    assert(0 <= secs % 3_600 < 3_600);
    lemma_read_decimal(mm, 2);
    lemma_read_decimal(ss, 2);
    vstd::arithmetic::div_mod::lemma_mod_mod(secs, 3_600, 24);
    vstd::arithmetic::div_mod::lemma_mod_mod(secs, 60, 60);
    vstd::arithmetic::div_mod::lemma_mod_mod(secs, 60, 1_440);
    let sod = secs % 86_400;
    assert(sod % 3_600 == secs % 3_600);
    assert(sod % 60 == secs % 60);
    assert(secs == (secs / 86_400) * 86_400 + sod);
    assert(sod == (sod / 3_600) * 3_600 + (sod % 3_600) / 60 * 60 + sod % 60);
}

/// Calls chrono's `DateTime::<Utc>::from_timestamp(secs, nanos)` and, on
/// `Some`, `DateTime::to_rfc3339` on the result.
/// Claimed of chrono: the instant is accepted exactly when `timestamp_accepted`
/// holds, and the text is then `rfc3339_text(secs, nanos)`, a function of the
/// two numbers alone; for an instant in a year from 0 to 9999 that text is
/// `YYYY-MM-DDTHH:MM:SS`, the fraction of the second if any, and `+00:00`, as
/// `is_utc_rfc3339` spells out.
#[verifier::external_body]
pub(crate) fn format_rfc3339(secs: i64, nanos: u32) -> (text: Option<String>)
    ensures
        text is Some <==> timestamp_accepted(secs, nanos),
        text matches Some(t) ==> t@ == rfc3339_text(secs, nanos),
        four_digit_year(secs as int) ==> (text matches Some(t) ==> is_utc_rfc3339(t@, secs as int, nanos as int)),
{
    match chrono::DateTime::<chrono::Utc>::from_timestamp(secs, nanos) {
        Some(t) => Some(t.to_rfc3339()),
        None => None,
    }
}

} // verus!
