//! Rendering the ledger as tabular report rows.
//!
//! The report is CSV-like: one header row, then one row per recorded batch,
//! with the stable column order hour, destination, susceptible, exposed,
//! infected, recovered. Rendering is a pure function of the ledger, so the
//! same ledger always reproduces the same rows.

use vstd::prelude::*;
use crate::counter::CountsByRegion;

verus! {

/// The decimal digit character for `d`, which must be below ten.
pub open spec fn digit_char(d: int) -> char {
    if d == 0 {
        '0'
    } else if d == 1 {
        '1'
    } else if d == 2 {
        '2'
    } else if d == 3 {
        '3'
    } else if d == 4 {
        '4'
    } else if d == 5 {
        '5'
    } else if d == 6 {
        '6'
    } else if d == 7 {
        '7'
    } else if d == 8 {
        '8'
    } else {
        '9'
    }
}

/// The decimal digits of the non-negative `n`, most significant first, with
/// no leading zeros (a single `'0'` for zero).
pub open spec fn dec_digits(n: nat) -> Seq<char>
    decreases n,
{
    if n < 10 {
        seq![digit_char(n as int)]
    } else {
        dec_digits(n / 10).push(digit_char((n % 10) as int))
    }
}

/// The decimal rendering of `n`: its digits, preceded by `'-'` if negative.
pub open spec fn dec_int(n: int) -> Seq<char> {
    if n < 0 {
        seq!['-'] + dec_digits((-n) as nat)
    } else {
        dec_digits(n as nat)
    }
}

/// The report row for one record: its six fields in the stable column order,
/// separated by commas.
pub open spec fn csv_line(rec: CountsByRegion) -> Seq<char> {
    dec_int(rec.hr as int) + seq![','] + rec.destination@ + seq![','] + dec_int(
        rec.susceptible as int,
    ) + seq![','] + dec_int(rec.exposed as int) + seq![','] + dec_int(rec.infected as int)
        + seq![','] + dec_int(rec.recovered as int)
}

/// The header row naming the six columns in their stable order.
pub open spec fn header_line() -> Seq<char> {
    "hour,destination,susceptible,exposed,infected,recovered"@
}

/// The one-character string for digit `d`.
fn digit_str(d: u32) -> (s: &'static str)
    requires
        d < 10,
    ensures
        s@ =~= seq![digit_char(d as int)],
{
    proof {
        reveal_strlit("0");
        reveal_strlit("1");
        reveal_strlit("2");
        reveal_strlit("3");
        reveal_strlit("4");
        reveal_strlit("5");
        reveal_strlit("6");
        reveal_strlit("7");
        reveal_strlit("8");
        reveal_strlit("9");
    }
    match d {
        0 => "0",
        1 => "1",
        2 => "2",
        3 => "3",
        4 => "4",
        5 => "5",
        6 => "6",
        7 => "7",
        8 => "8",
        _ => "9",
    }
}

/// Renders `n` in decimal, most significant digit first.
fn u32_to_string(n: u32) -> (s: String)
    ensures
        s@ == dec_digits(n as nat),
    decreases n,
{
    if n < 10 {
        String::from_str(digit_str(n))
    } else {
        let mut s = u32_to_string(n / 10);
        s.append(digit_str(n % 10));
        proof {
            assert(s@ =~= dec_digits((n / 10) as nat).push(digit_char((n % 10) as int)));
        }
        s
    }
}

/// Renders a signed hour or count in decimal, with a leading minus sign when
/// negative.
pub fn i32_to_string(v: i32) -> (s: String)
    ensures
        s@ == dec_int(v as int),
{
    if v >= 0 {
        u32_to_string(v as u32)
    } else {
        let wide: i64 = v as i64;
        let mag64: i64 = -wide;
        let mag: u32 = mag64 as u32;
        proof {
            reveal_strlit("-");
        }
        let mut s = String::from_str("-");
        let digits = u32_to_string(mag);
        s.append(digits.as_str());
        proof {
            assert(s@ =~= seq!['-'] + dec_digits((-(v as int)) as nat));
        }
        s
    }
}

/// Renders one record as its report row.
pub fn csv_line_of(rec: &CountsByRegion) -> (s: String)
    ensures
        s@ == csv_line(*rec),
{
    proof {
        reveal_strlit(",");
    }
    let mut s = i32_to_string(rec.hr);
    s.append(",");
    s.append(rec.destination.as_str());
    s.append(",");
    let f = i32_to_string(rec.susceptible);
    s.append(f.as_str());
    s.append(",");
    let f = i32_to_string(rec.exposed);
    s.append(f.as_str());
    s.append(",");
    let f = i32_to_string(rec.infected);
    s.append(f.as_str());
    s.append(",");
    let f = i32_to_string(rec.recovered);
    s.append(f.as_str());
    proof {
        assert(s@ =~= csv_line(*rec));
    }
    s
}

/// The header row as a string.
pub fn header_row() -> (s: String)
    ensures
        s@ == header_line(),
{
    String::from_str("hour,destination,susceptible,exposed,infected,recovered")
}

/// Renders a ledger as report rows: the header, then one row per record, in
/// ledger order. Given the same ledger contents, the output rows are always
/// the same.
pub fn render_report(records: &Vec<CountsByRegion>) -> (rows: Vec<String>)
    ensures
        rows@.len() == records@.len() + 1,
        rows@[0]@ == header_line(),
        forall|i: int| 0 <= i < records@.len() ==> (#[trigger] rows@[i + 1])@ == csv_line(
            records@[i],
        ),
{
    let mut rows: Vec<String> = Vec::new();
    rows.push(header_row());
    let n = records.len();
    for i in 0..n
        invariant
            n == records@.len(),
            rows@.len() == i + 1,
            rows@[0]@ == header_line(),
            forall|k: int| 0 <= k < i ==> (#[trigger] rows@[k + 1])@ == csv_line(records@[k]),
    {
        rows.push(csv_line_of(&records[i]));
    }
    rows
}

} // verus!
