//! The CSV logging sink's exact bytes.
//!
//! Every write the sink ever makes is computed here, character by character:
//! the fixed header, the one data line per poll — timestamp as a decimal
//! integer, each reading rounded from thousandths to a two-decimal fixed
//! notation — and the decision whether a write must begin with the header.
//! The host only puts the finished text at the end of the file.

use vstd::prelude::*;

use vstd::math::abs;

use crate::telemetry::{AmperageData, PIN_COUNT};

verus! {

/// The decimal digit character for `d` (0 through 9).
pub open spec fn digit_char(d: int) -> char {
    if d == 0 {
        '0'
    } else if d == 1 {
        '1'
    } else if d == 2 {
        '2'
    } else if d == 3 {
        '3'
    } else if d == 4 {
        '4'
    } else if d == 5 {
        '5'
    } else if d == 6 {
        '6'
    } else if d == 7 {
        '7'
    } else if d == 8 {
        '8'
    } else {
        '9'
    }
}

/// The usual decimal notation of `n`: no sign, no leading zero except for
/// zero itself.
pub open spec fn spec_u64_str(n: nat) -> Seq<char>
    decreases n,
{
    if n < 10 {
        seq![digit_char(n as int)]
    } else {
        spec_u64_str(n / 10).push(digit_char((n % 10) as int))
    }
}

/// Appends the digit character for `d`.
fn push_digit(s: &mut String, d: u64)
    requires
        d < 10,
    ensures
        final(s)@ == old(s)@.push(digit_char(d as int)),
{
    if d == 0 {
        s.append("0");
        proof {
            reveal_strlit("0");
            assert(s@ =~= old(s)@.push(digit_char(d as int)));
        }
    } else if d == 1 {
        s.append("1");
        proof {
            reveal_strlit("1");
            assert(s@ =~= old(s)@.push(digit_char(d as int)));
        }
    } else if d == 2 {
        s.append("2");
        proof {
            reveal_strlit("2");
            assert(s@ =~= old(s)@.push(digit_char(d as int)));
        }
    } else if d == 3 {
        s.append("3");
        proof {
            reveal_strlit("3");
            assert(s@ =~= old(s)@.push(digit_char(d as int)));
        }
    } else if d == 4 {
        s.append("4");
        proof {
            reveal_strlit("4");
            assert(s@ =~= old(s)@.push(digit_char(d as int)));
        }
    } else if d == 5 {
        s.append("5");
        proof {
            reveal_strlit("5");
            assert(s@ =~= old(s)@.push(digit_char(d as int)));
        }
    } else if d == 6 {
        s.append("6");
        proof {
            reveal_strlit("6");
            assert(s@ =~= old(s)@.push(digit_char(d as int)));
        }
    } else if d == 7 {
        s.append("7");
        proof {
            reveal_strlit("7");
            assert(s@ =~= old(s)@.push(digit_char(d as int)));
        }
    } else if d == 8 {
        s.append("8");
        proof {
            reveal_strlit("8");
            assert(s@ =~= old(s)@.push(digit_char(d as int)));
        }
    } else {
        s.append("9");
        proof {
            reveal_strlit("9");
            assert(s@ =~= old(s)@.push(digit_char(d as int)));
        }
    }
}

/// Appends the decimal notation of `n`.
fn push_u64(s: &mut String, n: u64)
    ensures
        final(s)@ == old(s)@ + spec_u64_str(n as nat),
    decreases n,
{
    if n < 10 {
        push_digit(s, n);
        proof {
            assert(s@ =~= old(s)@ + spec_u64_str(n as nat));
        }
    } else {
        proof {
            assert(n / 10 < n && n % 10 < 10) by (nonlinear_arith)
                requires
                    n >= 10,
            ;
        }
        push_u64(s, n / 10);
        push_digit(s, n % 10);
        proof {
            assert(s@ =~= old(s)@ + spec_u64_str(n as nat));
        }
    }
}

/// The numeric value of the digit character `ch` (0 for any non-digit).
pub open spec fn digit_val(ch: char) -> int {
    if ch == '0' {
        0
    } else if ch == '1' {
        1
    } else if ch == '2' {
        2
    } else if ch == '3' {
        3
    } else if ch == '4' {
        4
    } else if ch == '5' {
        5
    } else if ch == '6' {
        6
    } else if ch == '7' {
        7
    } else if ch == '8' {
        8
    } else if ch == '9' {
        9
    } else {
        0
    }
}

/// The number a sequence of digit characters denotes in base ten.
pub open spec fn seq_digits_value(s: Seq<char>) -> int
    decreases s.len(),
{
    if s.len() == 0 {
        0
    } else {
        seq_digits_value(s.drop_last()) * 10 + digit_val(s.last())
    }
}

/// The decimal notation is faithful: the digit string written for `n`
/// denotes exactly `n`, so a reader of the log recovers the timestamp
/// unchanged.
pub proof fn lemma_u64_str_denotes(n: nat)
    ensures
        seq_digits_value(spec_u64_str(n)) == n,
    decreases n,
{
    if n < 10 {
        assert(spec_u64_str(n) == seq![digit_char(n as int)]);
        assert(seq![digit_char(n as int)].drop_last() =~= Seq::<char>::empty());
        assert(seq_digits_value(Seq::<char>::empty()) == 0);
        assert(seq![digit_char(n as int)].last() == digit_char(n as int));
    } else {
        lemma_u64_str_denotes(n / 10);
        assert(spec_u64_str(n).drop_last() =~= spec_u64_str(n / 10));
        assert(spec_u64_str(n).last() == digit_char((n % 10) as int));
    }
}

/// A reading in thousandths of an ampere, rounded to hundredths: half a
/// hundredth rounds away from zero.
pub open spec fn spec_cents(v: int) -> int {
    (abs(v) as int + 5) / 10
}

/// The fixed two-decimal notation of a reading given in thousandths of an
/// ampere: an optional minus sign, the whole amperes, a point, and exactly
/// two fractional digits.
pub open spec fn spec_reading_str(v: int) -> Seq<char> {
    let c = spec_cents(v);
    (if v < 0 {
        seq!['-']
    } else {
        Seq::<char>::empty()
    }) + spec_u64_str((c / 100) as nat) + seq!['.'] + seq![
        digit_char((c % 100) / 10),
        digit_char((c % 100) % 10),
    ]
}

/// Appends the two-decimal notation of a reading in thousandths.
fn push_reading(s: &mut String, v: i64)
    ensures
        final(s)@ == old(s)@ + spec_reading_str(v as int),
{
    let neg = v < 0;
    let a: u64 = if v < 0 {
        ((-(v + 1)) as u64) + 1
    } else {
        v as u64
    };
    proof {
        assert(a == abs(v as int));
    }
    let cents: u64 = (a + 5) / 10;
    proof {
        assert(cents == spec_cents(v as int));
        assert(cents % 100 < 100 && (cents % 100) / 10 < 10 && (cents % 100) % 10 < 10)
            by (nonlinear_arith);
    }
    if neg {
        s.append("-");
    }
    push_u64(s, cents / 100);
    s.append(".");
    push_digit(s, (cents % 100) / 10);
    push_digit(s, (cents % 100) % 10);
    proof {
        reveal_strlit("-");
        reveal_strlit(".");
        assert(s@ =~= old(s)@ + spec_reading_str(v as int));
    }
}

/// The one data line a poll adds to the log: the timestamp in decimal, then
/// the six readings in two-decimal notation, comma-separated and
/// newline-terminated.
pub open spec fn spec_data_line(timestamp: u64, readings: Seq<i64>) -> Seq<char>
    recommends
        readings.len() == PIN_COUNT,
{
    spec_u64_str(timestamp as nat) + seq![','] + spec_reading_str(readings[0] as int) + seq![',']
        + spec_reading_str(readings[1] as int) + seq![','] + spec_reading_str(readings[2] as int)
        + seq![','] + spec_reading_str(readings[3] as int) + seq![','] + spec_reading_str(
        readings[4] as int,
    ) + seq![','] + spec_reading_str(readings[5] as int) + seq!['\n']
}

/// Renders the record's data line, exactly as [`spec_data_line`] states it.
pub fn csv_data_line(amp_data: &AmperageData) -> (s: String)
    requires
        amp_data.wf(),
    ensures
        s@ == spec_data_line(amp_data.timestamp, amp_data.pin_value_buffer@),
{
    let mut s = String::new();
    push_u64(&mut s, amp_data.timestamp);
    s.append(",");
    push_reading(&mut s, amp_data.pin_value_buffer[0]);
    s.append(",");
    push_reading(&mut s, amp_data.pin_value_buffer[1]);
    s.append(",");
    push_reading(&mut s, amp_data.pin_value_buffer[2]);
    s.append(",");
    push_reading(&mut s, amp_data.pin_value_buffer[3]);
    s.append(",");
    push_reading(&mut s, amp_data.pin_value_buffer[4]);
    s.append(",");
    push_reading(&mut s, amp_data.pin_value_buffer[5]);
    s.append("\n");
    proof {
        reveal_strlit(",");
        reveal_strlit("\n");
        assert(s@ =~= spec_data_line(amp_data.timestamp, amp_data.pin_value_buffer@));
    }
    s
}

/// The fixed header line, written exactly once per log file.
pub open spec fn spec_header() -> Seq<char> {
    "timestamp,pin1,pin2,pin3,pin4,pin5,pin6\n"@
}

/// Renders the fixed header line.
pub fn csv_header() -> (s: String)
    ensures
        s@ == spec_header(),
{
    String::from_str("timestamp,pin1,pin2,pin3,pin4,pin5,pin6\n")
}

/// One write the sink will make: the exact text, and whether it is to be
/// appended after existing content (`append`) or to become the whole file.
pub struct LogWrite {
    pub content: String,
    pub append: bool,
}

/// Whether a file in the given state must get the header first:
/// `existing_len` is the file's byte length, or `None` when the file does
/// not exist or its length could not be read.
pub open spec fn needs_header(existing_len: Option<u64>) -> bool {
    match existing_len {
        Option::Some(l) => l == 0,
        Option::None => true,
    }
}

/// Plans the sink write for one record against a log file whose state the
/// host read off the filesystem just now.
///
/// A file that is absent or empty gets the fixed header immediately
/// followed by the one data line as its entire new contents; a file with
/// content gets exactly the one data line appended, and never a second
/// header.
pub fn log_amp_data(existing_len: Option<u64>, amp_data: &AmperageData) -> (w: LogWrite)
    requires
        amp_data.wf(),
    ensures
        w.append == !needs_header(existing_len),
        needs_header(existing_len) ==> w.content@ == spec_header() + spec_data_line(
            amp_data.timestamp,
            amp_data.pin_value_buffer@,
        ),
        !needs_header(existing_len) ==> w.content@ == spec_data_line(
            amp_data.timestamp,
            amp_data.pin_value_buffer@,
        ),
{
    let line = csv_data_line(amp_data);
    let fresh = match existing_len {
        Option::Some(l) => l == 0,
        Option::None => true,
    };
    if fresh {
        let mut content = csv_header();
        content.append(line.as_str());
        LogWrite { content, append: false }
    } else {
        LogWrite { content: line, append: true }
    }
}

/// Number of newline characters in `s`.
pub open spec fn newline_count(s: Seq<char>) -> nat
    decreases s.len(),
{
    if s.len() == 0 {
        0
    } else {
        newline_count(s.drop_last()) + (if s.last() == '\n' {
            1nat
        } else {
            0nat
        })
    }
}

proof fn lemma_newline_count_empty()
    ensures
        newline_count(Seq::<char>::empty()) == 0,
{
}

proof fn lemma_newline_count_singleton(ch: char)
    ensures
        newline_count(seq![ch]) == (if ch == '\n' {
            1nat
        } else {
            0nat
        }),
{
    assert(seq![ch].drop_last() =~= Seq::<char>::empty());
    lemma_newline_count_empty();
    assert(seq![ch].last() == ch);
}

proof fn lemma_newline_count_add(a: Seq<char>, b: Seq<char>)
    ensures
        newline_count(a + b) == newline_count(a) + newline_count(b),
    decreases b.len(),
{
    if b.len() == 0 {
        assert(a + b =~= a);
    } else {
        lemma_newline_count_add(a, b.drop_last());
        assert((a + b).drop_last() =~= a + b.drop_last());
    }
}

proof fn lemma_u64_str_no_newline(n: nat)
    ensures
        newline_count(spec_u64_str(n)) == 0,
    decreases n,
{
    if n < 10 {
        lemma_newline_count_singleton(digit_char(n as int));
        assert(spec_u64_str(n) == seq![digit_char(n as int)]);
    } else {
        lemma_u64_str_no_newline(n / 10);
        assert(spec_u64_str(n).drop_last() =~= spec_u64_str(n / 10));
        assert(spec_u64_str(n).last() == digit_char((n % 10) as int));
    }
}

proof fn lemma_reading_str_no_newline(v: int)
    ensures
        newline_count(spec_reading_str(v)) == 0,
{
    let c = spec_cents(v);
    let sign = if v < 0 {
        seq!['-']
    } else {
        Seq::<char>::empty()
    };
    let whole = spec_u64_str((c / 100) as nat);
    let frac = seq![digit_char((c % 100) / 10), digit_char((c % 100) % 10)];
    lemma_u64_str_no_newline((c / 100) as nat);
    lemma_newline_count_empty();
    lemma_newline_count_singleton('-');
    assert(newline_count(sign) == 0);
    lemma_newline_count_singleton('.');
    lemma_newline_count_singleton(digit_char((c % 100) / 10));
    assert(frac.drop_last() =~= seq![digit_char((c % 100) / 10)]);
    assert(frac.last() == digit_char((c % 100) % 10));
    assert(newline_count(frac) == 0);
    lemma_newline_count_add(sign, whole);
    lemma_newline_count_add(sign + whole, seq!['.']);
    lemma_newline_count_add(sign + whole + seq!['.'], frac);
    assert(spec_reading_str(v) =~= sign + whole + seq!['.'] + frac);
}

/// The data line for any record is exactly one newline-terminated line: it
/// ends with the newline that closes it and holds no other.
pub proof fn lemma_data_line_single_line(timestamp: u64, readings: Seq<i64>)
    requires
        readings.len() == PIN_COUNT,
    ensures
        newline_count(spec_data_line(timestamp, readings)) == 1,
        spec_data_line(timestamp, readings).last() == '\n',
{
    let t = spec_u64_str(timestamp as nat);
    let r0 = spec_reading_str(readings[0] as int);
    let r1 = spec_reading_str(readings[1] as int);
    let r2 = spec_reading_str(readings[2] as int);
    let r3 = spec_reading_str(readings[3] as int);
    let r4 = spec_reading_str(readings[4] as int);
    let r5 = spec_reading_str(readings[5] as int);
    let c = seq![','];
    lemma_u64_str_no_newline(timestamp as nat);
    lemma_reading_str_no_newline(readings[0] as int);
    lemma_reading_str_no_newline(readings[1] as int);
    lemma_reading_str_no_newline(readings[2] as int);
    lemma_reading_str_no_newline(readings[3] as int);
    lemma_reading_str_no_newline(readings[4] as int);
    lemma_reading_str_no_newline(readings[5] as int);
    lemma_newline_count_singleton(',');
    lemma_newline_count_singleton('\n');
    let body = t + c + r0 + c + r1 + c + r2 + c + r3 + c + r4 + c + r5;
    lemma_newline_count_add(t, c);
    lemma_newline_count_add(t + c, r0);
    lemma_newline_count_add(t + c + r0, c);
    lemma_newline_count_add(t + c + r0 + c, r1);
    lemma_newline_count_add(t + c + r0 + c + r1, c);
    lemma_newline_count_add(t + c + r0 + c + r1 + c, r2);
    lemma_newline_count_add(t + c + r0 + c + r1 + c + r2, c);
    lemma_newline_count_add(t + c + r0 + c + r1 + c + r2 + c, r3);
    lemma_newline_count_add(t + c + r0 + c + r1 + c + r2 + c + r3, c);
    lemma_newline_count_add(t + c + r0 + c + r1 + c + r2 + c + r3 + c, r4);
    lemma_newline_count_add(t + c + r0 + c + r1 + c + r2 + c + r3 + c + r4, c);
    lemma_newline_count_add(t + c + r0 + c + r1 + c + r2 + c + r3 + c + r4 + c, r5);
    lemma_newline_count_add(body, seq!['\n']);
    assert(spec_data_line(timestamp, readings) =~= body + seq!['\n']);
    assert((body + seq!['\n']).last() == '\n');
}

/// The fixed header is itself exactly one newline-terminated line.
#[verifier::rlimit(100)]
pub proof fn lemma_header_single_line()
    ensures
        newline_count(spec_header()) == 1,
        spec_header().last() == '\n',
{
    reveal_strlit("timestamp,pin1,pin2,pin3,pin4,pin5,pin6\n");
    reveal_with_fuel(newline_count, 45);
    assert(newline_count(spec_header()) == 1);
    assert(spec_header().last() == '\n');
}

/// What one poll leaves in the log, whatever state the file was in: a fresh
/// or empty file's write is exactly two newline-terminated lines — the
/// header, then the data line — and a write to a file with content is
/// exactly the one data line, with no second header.
pub proof fn lemma_write_line_counts(timestamp: u64, readings: Seq<i64>)
    requires
        readings.len() == PIN_COUNT,
    ensures
        newline_count(spec_header() + spec_data_line(timestamp, readings)) == 2,
        newline_count(spec_data_line(timestamp, readings)) == 1,
        (spec_header() + spec_data_line(timestamp, readings)).last() == '\n',
{
    lemma_header_single_line();
    lemma_data_line_single_line(timestamp, readings);
    lemma_newline_count_add(spec_header(), spec_data_line(timestamp, readings));
}

} // verus!
