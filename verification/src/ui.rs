//! Pure display computations: human-readable speed text and the grid shape
//! used to tile one chart per port. Drawing itself happens outside the core;
//! these functions only decide what it shows.

use vstd::prelude::*;
use vstd::string::StringExecFns;

verus! {

pub open spec fn spec_digit_char(d: nat) -> char {
    if d == 0 {
        '0'
    } else if d == 1 {
        '1'
    } else if d == 2 {
        '2'
    } else if d == 3 {
        '3'
    } else if d == 4 {
        '4'
    } else if d == 5 {
        '5'
    } else if d == 6 {
        '6'
    } else if d == 7 {
        '7'
    } else if d == 8 {
        '8'
    } else {
        '9'
    }
}

/// The usual decimal notation of `n`, most significant digit first.
pub open spec fn spec_decimal(n: nat) -> Seq<char>
    decreases n,
{
    if n < 10 {
        seq![spec_digit_char(n)]
    } else {
        spec_decimal(n / 10).push(spec_digit_char(n % 10))
    }
}

/// A quantity of tenths written with one decimal place: "12.5".
pub open spec fn spec_tenths(tenths: nat) -> Seq<char> {
    spec_decimal(tenths / 10) + seq!['.', spec_digit_char(tenths % 10)]
}

/// Human-readable speed: bytes below 1 KiB/s, otherwise the KiB/MiB/GiB
/// value truncated to one decimal place. Thresholds are powers of 1024.
pub open spec fn spec_speed_text(bps: u64) -> Seq<char> {
    if bps < 1024 {
        spec_decimal(bps as nat) + " B/s"@
    } else if bps * 10 / 1024int < 10240 {
        spec_tenths((bps * 10 / 1024int) as nat) + " KB/s"@
    } else if bps * 10 / (1024int * 1024) < 10240 {
        spec_tenths((bps * 10 / (1024int * 1024)) as nat) + " MB/s"@
    } else {
        spec_tenths((bps * 10 / (1024int * 1024 * 1024)) as nat) + " GB/s"@
    }
}

fn digit_str(d: u64) -> (r: &'static str)
    requires
        d < 10,
    ensures
        r@ == seq![spec_digit_char(d as nat)],
{
    if d == 0 {
        proof {
            reveal_strlit("0");
        }
        "0"
    } else if d == 1 {
        proof {
            reveal_strlit("1");
        }
        "1"
    } else if d == 2 {
        proof {
            reveal_strlit("2");
        }
        "2"
    } else if d == 3 {
        proof {
            reveal_strlit("3");
        }
        "3"
    } else if d == 4 {
        proof {
            reveal_strlit("4");
        }
        "4"
    } else if d == 5 {
        proof {
            reveal_strlit("5");
        }
        "5"
    } else if d == 6 {
        proof {
            reveal_strlit("6");
        }
        "6"
    } else if d == 7 {
        proof {
            reveal_strlit("7");
        }
        "7"
    } else if d == 8 {
        proof {
            reveal_strlit("8");
        }
        "8"
    } else {
        proof {
            reveal_strlit("9");
        }
        "9"
    }
}

/// Write `n` in decimal.
pub fn u64_to_decimal(n: u64) -> (s: String)
    ensures
        s@ == spec_decimal(n as nat),
    decreases n,
{
    if n < 10 {
        String::from_str(digit_str(n))
    } else {
        let mut s = u64_to_decimal(n / 10);
        s.append(digit_str(n % 10));
        proof {
            assert(s@ =~= spec_decimal((n / 10) as nat).push(spec_digit_char((n % 10) as nat)));
        }
        s
    }
}

/// Write a quantity of tenths with one decimal place.
fn tenths_to_string(tenths: u64) -> (s: String)
    ensures
        s@ == spec_tenths(tenths as nat),
{
    let mut s = u64_to_decimal(tenths / 10);
    s.append(".");
    s.append(digit_str(tenths % 10));
    proof {
        reveal_strlit(".");
        assert(s@ =~= spec_tenths(tenths as nat));
    }
    s
}

/// Format a rate in bytes per second for display.
pub fn format_speed(bytes_per_sec: u64) -> (s: String)
    ensures
        s@ == spec_speed_text(bytes_per_sec),
{
    if bytes_per_sec < 1024 {
        let mut s = u64_to_decimal(bytes_per_sec);
        s.append(" B/s");
        s
    } else {
        let scaled: u128 = (bytes_per_sec as u128) * 10;
        let kb_tenths: u64 = (scaled / 1024) as u64;
        if kb_tenths < 10240 {
            let mut s = tenths_to_string(kb_tenths);
            s.append(" KB/s");
            s
        } else {
            let mb_tenths: u64 = (scaled / (1024 * 1024)) as u64;
            if mb_tenths < 10240 {
                let mut s = tenths_to_string(mb_tenths);
                s.append(" MB/s");
                s
            } else {
                let gb_tenths: u64 = (scaled / (1024 * 1024 * 1024)) as u64;
                let mut s = tenths_to_string(gb_tenths);
                s.append(" GB/s");
                s
            }
        }
    }
}

/// How many columns the chart grid uses for `count` charts: one chart fills
/// the screen, up to four sit in two columns, more in three.
pub open spec fn spec_grid_cols(count: usize) -> usize {
    if count == 1 {
        1usize
    } else if count <= 4 {
        2usize
    } else {
        3usize
    }
}

/// The (columns, rows) shape of the chart grid: enough rows that every chart
/// has a cell, and no row would be entirely empty.
pub fn grid_dims(count: usize) -> (r: (usize, usize))
    ensures
        count == 0 ==> r == (0usize, 0usize),
        count > 0 ==> r.0 == spec_grid_cols(count),
        count > 0 ==> r.0 * r.1 >= count,
        count > 0 ==> r.0 * (r.1 - 1) < count,
{
    if count == 0 {
        return (0, 0);
    }
    let cols: usize = if count == 1 {
        1
    } else if count <= 4 {
        2
    } else {
        3
    };
    let rows: usize = if count % cols == 0 {
        count / cols
    } else {
        count / cols + 1
    };
    proof {
        let n = count as int;
        let c = cols as int;
        vstd::arithmetic::div_mod::lemma_fundamental_div_mod(n, c);
        assert(c * (n / c) == n - n % c);
        if count % cols == 0 {
            assert(c * (rows - 1) == n - c) by (nonlinear_arith)
                requires
                    c * (rows as int) == n,
            ;
        } else {
            assert(c * (rows as int) == n - n % c + c) by (nonlinear_arith)
                requires
                    c * (rows - 1) == n - n % c,
            ;
        }
    }
    (cols, rows)
}

} // verus!
