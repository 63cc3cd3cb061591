use vstd::prelude::*;

verus! {

/// The decimal digit character for a value below ten.
pub open spec fn spec_dec_digit(d: nat) -> char
    recommends
        d < 10,
{
    if d == 0 {
        '0'
    } else if d == 1 {
        '1'
    } else if d == 2 {
        '2'
    } else if d == 3 {
        '3'
    } else if d == 4 {
        '4'
    } else if d == 5 {
        '5'
    } else if d == 6 {
        '6'
    } else if d == 7 {
        '7'
    } else if d == 8 {
        '8'
    } else {
        '9'
    }
}

/// The ordinary decimal rendering of a natural number, without leading zeros
/// (a single `'0'` for zero itself).
pub open spec fn spec_dec(n: nat) -> Seq<char>
    decreases n,
{
    if n < 10 {
        seq![spec_dec_digit(n)]
    } else {
        spec_dec(n / 10).push(spec_dec_digit(n % 10))
    }
}

/// The decimal rendering of `n`, zero-padded on the left to at least two
/// digits; values of three or more digits keep all their digits.
pub open spec fn spec_pad2(n: nat) -> Seq<char> {
    if n < 10 {
        seq!['0'] + spec_dec(n)
    } else {
        spec_dec(n)
    }
}

/// The decimal rendering of `n`, zero-padded on the left to at least four
/// digits.
pub open spec fn spec_pad4(n: nat) -> Seq<char> {
    if n < 10 {
        seq!['0', '0', '0'] + spec_dec(n)
    } else if n < 100 {
        seq!['0', '0'] + spec_dec(n)
    } else if n < 1000 {
        seq!['0'] + spec_dec(n)
    } else {
        spec_dec(n)
    }
}

/// A whole number of seconds rendered as `mm:ss`: minutes and seconds each
/// zero-padded to at least two digits, and the minutes field growing beyond
/// two digits when the duration calls for it (it is not capped at 59).
pub open spec fn spec_mm_ss(total_secs: nat) -> Seq<char> {
    spec_pad2(total_secs / 60) + seq![':'] + spec_pad2(total_secs % 60)
}

/// A signed year rendered with at least four digits and a leading `'-'` when
/// negative.
pub open spec fn spec_year(y: int) -> Seq<char> {
    if y < 0 {
        seq!['-'] + spec_pad4((-y) as nat)
    } else {
        spec_pad4(y as nat)
    }
}

/// A calendar date-time rendered as `YYYY-MM-DD HH:MM:SS`.
pub open spec fn spec_datetime(y: int, mo: nat, d: nat, h: nat, mi: nat, s: nat) -> Seq<char> {
    spec_year(y) + seq!['-'] + spec_pad2(mo) + seq!['-'] + spec_pad2(d) + seq![' '] + spec_pad2(h)
        + seq![':'] + spec_pad2(mi) + seq![':'] + spec_pad2(s)
}

/// The one-character string for a decimal digit.
fn digit_str(d: u64) -> (r: &'static str)
    requires
        d < 10,
    ensures
        r@ == seq![spec_dec_digit(d as nat)],
{
    proof {
        reveal_strlit("0");
        reveal_strlit("1");
        reveal_strlit("2");
        reveal_strlit("3");
        reveal_strlit("4");
        reveal_strlit("5");
        reveal_strlit("6");
        reveal_strlit("7");
        reveal_strlit("8");
        reveal_strlit("9");
    }
    let r: &'static str = if d == 0 {
        "0"
    } else if d == 1 {
        "1"
    } else if d == 2 {
        "2"
    } else if d == 3 {
        "3"
    } else if d == 4 {
        "4"
    } else if d == 5 {
        "5"
    } else if d == 6 {
        "6"
    } else if d == 7 {
        "7"
    } else if d == 8 {
        "8"
    } else {
        "9"
    };
    proof {
        assert(r@ =~= seq![spec_dec_digit(d as nat)]);
    }
    r
}

/// Appends the decimal rendering of `n` to `s`.
fn push_dec(s: &mut String, n: u64)
    ensures
        final(s)@ == old(s)@ + spec_dec(n as nat),
    decreases n,
{
    if n >= 10 {
        push_dec(s, n / 10);
    }
    let d = digit_str(n % 10);
    s.append(d);
    proof {
        assert(s@ =~= old(s)@ + spec_dec(n as nat));
    }
}

/// Appends the decimal rendering of `n`, zero-padded to at least two digits.
fn push_pad2(s: &mut String, n: u64)
    ensures
        final(s)@ == old(s)@ + spec_pad2(n as nat),
{
    if n < 10 {
        proof {
            reveal_strlit("0");
        }
        s.append("0");
        proof {
            assert(s@ =~= old(s)@ + seq!['0']);
        }
    }
    push_dec(s, n);
    proof {
        assert(s@ =~= old(s)@ + spec_pad2(n as nat));
    }
}

/// Appends the decimal rendering of `n`, zero-padded to at least four digits.
fn push_pad4(s: &mut String, n: u64)
    ensures
        final(s)@ == old(s)@ + spec_pad4(n as nat),
{
    proof {
        reveal_strlit("0");
        reveal_strlit("00");
        reveal_strlit("000");
    }
    if n < 10 {
        s.append("000");
        proof {
            assert(s@ =~= old(s)@ + seq!['0', '0', '0']);
        }
    } else if n < 100 {
        s.append("00");
        proof {
            assert(s@ =~= old(s)@ + seq!['0', '0']);
        }
    } else if n < 1000 {
        s.append("0");
        proof {
            assert(s@ =~= old(s)@ + seq!['0']);
        }
    }
    push_dec(s, n);
    proof {
        assert(s@ =~= old(s)@ + spec_pad4(n as nat));
    }
}

/// Formats a whole number of seconds as zero-padded `mm:ss`; the minutes
/// field is not capped at 59 and grows beyond two digits when needed.
pub fn format_mm_ss(total_secs: u64) -> (r: String)
    ensures
        r@ == spec_mm_ss(total_secs as nat),
{
    let mut s = String::new();
    push_pad2(&mut s, total_secs / 60);
    proof {
        reveal_strlit(":");
    }
    s.append(":");
    proof {
        assert(s@ =~= spec_pad2(total_secs as nat / 60) + seq![':']);
    }
    push_pad2(&mut s, total_secs % 60);
    proof {
        assert(s@ =~= spec_mm_ss(total_secs as nat));
    }
    s
}

/// Formats a calendar date-time as `YYYY-MM-DD HH:MM:SS`, with the year
/// zero-padded to at least four digits and signed when negative, and every
/// other field zero-padded to two digits.
pub fn format_datetime(year: i32, month: u8, day: u8, hour: u8, minute: u8, second: u8) -> (r:
    String)
    ensures
        r@ == spec_datetime(
            year as int,
            month as nat,
            day as nat,
            hour as nat,
            minute as nat,
            second as nat,
        ),
{
    let mut s = String::new();
    proof {
        reveal_strlit("-");
        reveal_strlit(" ");
        reveal_strlit(":");
    }
    if year < 0 {
        s.append("-");
        proof {
            assert(s@ =~= seq!['-']);
        }
        let mag: u64 = (-(year as i64)) as u64;
        push_pad4(&mut s, mag);
    } else {
        push_pad4(&mut s, year as u64);
    }
    proof {
        assert(s@ =~= spec_year(year as int));
    }
    s.append("-");
    push_pad2(&mut s, month as u64);
    s.append("-");
    push_pad2(&mut s, day as u64);
    s.append(" ");
    push_pad2(&mut s, hour as u64);
    s.append(":");
    push_pad2(&mut s, minute as u64);
    s.append(":");
    push_pad2(&mut s, second as u64);
    proof {
        assert(s@ =~= spec_datetime(
            year as int,
            month as nat,
            day as nat,
            hour as nat,
            minute as nat,
            second as nat,
        ));
    }
    s
}

} // verus!
