use vstd::prelude::*;

verus! {

/// The character of the decimal digit `d`.
pub open spec fn digit_char(d: nat) -> char {
    (48 + d) as char
}

/// The decimal digits of `n`, most significant first, without leading zeros.
pub open spec fn decimal(n: nat) -> Seq<char>
    decreases n,
{
    if n < 10 {
        seq![digit_char(n)]
    } else {
        decimal(n / 10).push(digit_char(n % 10))
    }
}

/// The text that stands for a missing file or line.
pub open spec fn unknown_text() -> Seq<char> {
    "<Unknown>"@
}

/// The line part of a log line: a colon and the line number, or a colon and
/// the text for an unknown line.
pub open spec fn line_text(line: Option<u32>) -> Seq<char> {
    match line {
        Some(n) => ":"@ + decimal(n as nat),
        None => ":"@ + unknown_text(),
    }
}

/// The text of an optional file name.
pub open spec fn file_view(file: Option<&str>) -> Option<Seq<char>> {
    match file {
        Some(f) => Some(f@),
        None => None,
    }
}

/// One log line: `[timestamp] [level] target (file:line): message`.
pub open spec fn log_line(
    timestamp: Seq<char>,
    level: Seq<char>,
    target: Seq<char>,
    file: Option<Seq<char>>,
    line: Option<u32>,
    message: Seq<char>,
) -> Seq<char> {
    "["@ + timestamp + "] ["@ + level + "] "@ + target + " ("@ + (match file {
        Some(f) => f,
        None => unknown_text(),
    }) + line_text(line) + "): "@ + message
}

/// The one-character text of the decimal digit `d`.
fn digit_text(d: u32) -> (r: &'static str)
    requires
        d < 10,
    ensures
        r@ == seq![digit_char(d as nat)],
{
    match d {
        0 => {
            proof {
                reveal_strlit("0");
            }
            "0"
        },
        1 => {
            proof {
                reveal_strlit("1");
            }
            "1"
        },
        2 => {
            proof {
                reveal_strlit("2");
            }
            "2"
        },
        3 => {
            proof {
                reveal_strlit("3");
            }
            "3"
        },
        4 => {
            proof {
                reveal_strlit("4");
            }
            "4"
        },
        5 => {
            proof {
                reveal_strlit("5");
            }
            "5"
        },
        6 => {
            proof {
                reveal_strlit("6");
            }
            "6"
        },
        7 => {
            proof {
                reveal_strlit("7");
            }
            "7"
        },
        8 => {
            proof {
                reveal_strlit("8");
            }
            "8"
        },
        _ => {
            proof {
                reveal_strlit("9");
            }
            "9"
        },
    }
}

/// The value of a decimal digit character.
pub open spec fn digit_value(c: char) -> int {
    (c as int) - 48
}

/// The number a string of decimal digits denotes, most significant first.
pub open spec fn digits_value(s: Seq<char>) -> int
    decreases s.len(),
{
    if s.len() == 0 {
        0
    } else {
        digits_value(s.drop_last()) * 10 + digit_value(s.last())
    }
}

/// Ten to the power `k`.
pub open spec fn pow10(k: nat) -> nat
    decreases k,
{
    if k == 0 {
        1
    } else {
        10 * pow10((k - 1) as nat)
    }
}

/// The digits of `n` are its standard decimal notation: decimal digits only,
/// no leading zero, as many as `n` has (`10^(len-1) <= n < 10^len`, or the
/// single digit of zero), and read back they give `n`.
pub proof fn lemma_decimal_is_notation(n: nat)
    ensures
        decimal(n).len() >= 1,
        forall|i: int| 0 <= i < decimal(n).len() ==> '0' <= #[trigger] decimal(n)[i] <= '9',
        digits_value(decimal(n)) == n,
        n < pow10(decimal(n).len()),
        decimal(n).len() > 1 ==> pow10((decimal(n).len() - 1) as nat) <= n,
        decimal(n).len() > 1 ==> decimal(n)[0] != '0',
    decreases n,
{
    if n < 10 {
        assert(decimal(n) == seq![digit_char(n)]);
        assert(pow10(1) == 10) by {
            assert(pow10(0) == 1);
        }
        assert(seq![digit_char(n)].drop_last() =~= Seq::<char>::empty());
        assert(digit_char(n) as int == 48 + n);
        assert(digits_value(decimal(n)) == digits_value(Seq::<char>::empty()) * 10 + digit_value(digit_char(n)));
    } else {
        let q = n / 10;
        lemma_decimal_is_notation(q);
        let d = decimal(q);
        let full = d.push(digit_char(n % 10));
        assert(decimal(n) == full);
        assert(full.drop_last() =~= d);
        assert(digit_char(n % 10) as int == 48 + n % 10);
        assert(full.last() == digit_char(n % 10));
        assert(digits_value(full) == digits_value(d) * 10 + digit_value(digit_char(n % 10)));
        assert(full[0] == d[0]);
        assert forall|i: int| 0 <= i < full.len() implies '0' <= #[trigger] full[i] <= '9' by {
            if i < d.len() {
                assert(full[i] == d[i]);
            }
        }
        assert(pow10(full.len()) == 10 * pow10(d.len()));
        assert(pow10((full.len() - 1) as nat) == pow10(d.len()));
        if d.len() > 1 {
            assert(pow10(d.len()) == 10 * pow10((d.len() - 1) as nat));
        } else {
            assert(pow10(1) == 10) by {
                assert(pow10(0) == 1);
            }
        }
    }
}

/// Appends the decimal digits of `n`.
fn push_decimal(s: &mut String, n: u32)
    ensures
        final(s)@ == old(s)@ + decimal(n as nat),
    decreases n,
{
    if n >= 10 {
        push_decimal(s, n / 10);
    }
    s.append(digit_text(n % 10));
}

/// Formats one log line from its parts.
pub fn format_log_line(
    timestamp: &str,
    level: &str,
    target: &str,
    file: Option<&str>,
    line: Option<u32>,
    message: &str,
) -> (r: String)
    ensures
        r@ == log_line(
            timestamp@,
            level@,
            target@,
            file_view(file),
            line,
            message@,
        ),
{
    let mut s = String::from_str("[");
    s.append(timestamp);
    s.append("] [");
    s.append(level);
    s.append("] ");
    s.append(target);
    s.append(" (");
    match file {
        Some(f) => s.append(f),
        None => s.append("<Unknown>"),
    }
    s.append(":");
    match line {
        Some(n) => push_decimal(&mut s, n),
        None => s.append("<Unknown>"),
    }
    s.append("): ");
    s.append(message);
    assert(s@ =~= log_line(
        timestamp@,
        level@,
        target@,
        file_view(file),
        line,
        message@,
    ));
    s
}

} // verus!
