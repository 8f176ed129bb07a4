use vstd::prelude::*;

use crate::traffic::{Traffic, TrafficState};

verus! {

/// The character of decimal digit `d` (below ten).
pub open spec fn digit_char(d: nat) -> char {
    if d == 0 {
        '0'
    } else if d == 1 {
        '1'
    } else if d == 2 {
        '2'
    } else if d == 3 {
        '3'
    } else if d == 4 {
        '4'
    } else if d == 5 {
        '5'
    } else if d == 6 {
        '6'
    } else if d == 7 {
        '7'
    } else if d == 8 {
        '8'
    } else {
        '9'
    }
}

/// `n` in decimal, without leading zeros.
pub open spec fn decimal(n: nat) -> Seq<char>
    decreases n,
{
    if n < 10 {
        seq![digit_char(n)]
    } else {
        decimal(n / 10).push(digit_char(n % 10))
    }
}

/// `n` in decimal, with a leading minus sign when negative.
pub open spec fn signed_decimal(n: int) -> Seq<char> {
    if n < 0 {
        seq!['-'] + decimal((-n) as nat)
    } else {
        decimal(n as nat)
    }
}

/// `us` microseconds as seconds, rounded to the nearest hundredth (halves
/// up), with two decimal places.
pub open spec fn seconds_text(us: nat) -> Seq<char> {
    let c = (us + 5000) / 10000;
    decimal(c / 100) + seq!['.', digit_char((c % 100) / 10), digit_char(c % 10)]
}

/// The safety rating for `close_calls` near misses.
pub open spec fn rating_text(close_calls: u64) -> Seq<char> {
    if close_calls == 0 {
        "✓ EXCELLENT (No close calls)"@
    } else if close_calls < 5 {
        "⚠ GOOD (Few close calls)"@
    } else {
        "✗ NEEDS IMPROVEMENT (Many close calls)"@
    }
}

/// The report when no vehicle has passed yet.
pub open spec fn no_data_text() -> Seq<char> {
    "=== SMART ROAD STATISTICS ===\n\nCars passed: 0\nGive ways: 0\nClose calls: 0\n\nVelocity Stats:\n• Max velocity: N/A\n• Min velocity: N/A\n\nTime Stats:\n• Max time: N/A\n• Min time: N/A\n\nStatus: No data collected yet"@
}

/// The statistics report of state `s`.
pub open spec fn report_text(s: TrafficState) -> Seq<char> {
    if s.cars_passed == 0 {
        no_data_text()
    } else {
        let min_velocity = if s.min_velocity == i32::MAX {
            "N/A"@
        } else {
            signed_decimal(s.min_velocity as int) + "px/s"@
        };
        "=== SMART ROAD STATISTICS ===\n\nTraffic Summary:\n• Cars passed: "@ + decimal(s.cars_passed as nat)
            + "\n• Give ways: "@ + decimal(s.give_ways as nat) + "\n• Close calls: "@ + decimal(
            s.close_calls as nat,
        ) + "\n\nVelocity Stats:\n• Max velocity: "@ + signed_decimal(s.max_velocity as int)
            + "px/s\n• Min velocity: "@ + min_velocity + "\n\nTime Stats:\n• Max time: "@
            + seconds_text(s.max_time as nat) + "s\n• Min time: "@ + seconds_text(s.min_time as nat)
            + "s\n\nSafety Rating: "@ + rating_text(s.close_calls)
    }
}

/// The one-character text of digit `d`.
fn digit_str(d: u64) -> (r: &'static str)
    requires
        d < 10,
    ensures
        r@ == seq![digit_char(d as nat)],
{
    proof {
        reveal_strlit("0");
        reveal_strlit("1");
        reveal_strlit("2");
        reveal_strlit("3");
        reveal_strlit("4");
        reveal_strlit("5");
        reveal_strlit("6");
        reveal_strlit("7");
        reveal_strlit("8");
        reveal_strlit("9");
    }
    match d {
        0 => "0",
        1 => "1",
        2 => "2",
        3 => "3",
        4 => "4",
        5 => "5",
        6 => "6",
        7 => "7",
        8 => "8",
        _ => "9",
    }
}

/// Appends `n` in decimal to `s`.
pub fn push_decimal(s: &mut String, n: u64)
    ensures
        final(s)@ == old(s)@ + decimal(n as nat),
    decreases n,
{
    if n >= 10 {
        push_decimal(s, n / 10);
    }
    s.append(digit_str(n % 10));
    proof {
        if n >= 10 {
            assert(decimal(n as nat) == decimal((n / 10) as nat).push(digit_char((n % 10) as nat)));
        }
    }
}

/// Appends `n` in decimal to `s`, with a minus sign when negative.
pub fn push_signed_decimal(s: &mut String, n: i32)
    ensures
        final(s)@ == old(s)@ + signed_decimal(n as int),
{
    if n < 0 {
        s.append("-");
        proof {
            reveal_strlit("-");
        }
        let m = -(n as i64);
        push_decimal(s, m as u64);
    } else {
        push_decimal(s, n as u64);
    }
}

/// Appends `us` microseconds as seconds with two decimal places, rounded to
/// the nearest hundredth.
pub fn push_seconds(s: &mut String, us: u64)
    ensures
        final(s)@ == old(s)@ + seconds_text(us as nat),
{
    let c = us / 10000 + if us % 10000 >= 5000 {
        1
    } else {
        0
    };
    assert(c == (us + 5000) / 10000);
    push_decimal(s, c / 100);
    s.append(".");
    proof {
        reveal_strlit(".");
    }
    s.append(digit_str((c % 100) / 10));
    s.append(digit_str(c % 10));
}

/// The safety rating for `close_calls` near misses: excellent with none,
/// good with one to four, needs improvement with five or more.
pub fn safety_rating(close_calls: u64) -> (r: &'static str)
    ensures
        r@ == rating_text(close_calls),
{
    if close_calls == 0 {
        "✓ EXCELLENT (No close calls)"
    } else if close_calls < 5 {
        "⚠ GOOD (Few close calls)"
    } else {
        "✗ NEEDS IMPROVEMENT (Many close calls)"
    }
}

impl Traffic {
    /// The statistics report: counters, speed extremes and transit-time
    /// extremes with a safety rating, or a fixed "no data" report while no
    /// vehicle has passed.
    pub fn format(&self) -> (r: String)
        ensures
            r@ == report_text(self@),
    {
        if self.cars_passed == 0 {
            return String::from_str(
                "=== SMART ROAD STATISTICS ===\n\nCars passed: 0\nGive ways: 0\nClose calls: 0\n\nVelocity Stats:\n• Max velocity: N/A\n• Min velocity: N/A\n\nTime Stats:\n• Max time: N/A\n• Min time: N/A\n\nStatus: No data collected yet",
            );
        }
        let mut r = String::from_str("=== SMART ROAD STATISTICS ===\n\nTraffic Summary:\n• Cars passed: ");
        push_decimal(&mut r, self.cars_passed);
        r.append("\n• Give ways: ");
        push_decimal(&mut r, self.give_ways);
        r.append("\n• Close calls: ");
        push_decimal(&mut r, self.close_calls);
        r.append("\n\nVelocity Stats:\n• Max velocity: ");
        push_signed_decimal(&mut r, self.max_velocity);
        r.append("px/s\n• Min velocity: ");
        if self.min_velocity == i32::MAX {
            r.append("N/A");
        } else {
            push_signed_decimal(&mut r, self.min_velocity);
            r.append("px/s");
        }
        r.append("\n\nTime Stats:\n• Max time: ");
        push_seconds(&mut r, self.max_time);
        r.append("s\n• Min time: ");
        push_seconds(&mut r, self.min_time);
        r.append("s\n\nSafety Rating: ");
        r.append(safety_rating(self.close_calls));
        r
    }
}

} // verus!
