use vstd::prelude::*;
use vstd::string::*;

verus! {

/// Whether a character is a decimal digit.
pub open spec fn is_digit(c: char) -> bool {
    '0' <= c <= '9'
}

/// Whether a text consists of decimal digits only.
pub open spec fn all_digits(s: Seq<char>) -> bool {
    forall|i: int| 0 <= i < s.len() ==> is_digit(#[trigger] s[i])
}

/// The number that a text of decimal digits writes.
pub open spec fn digits_value(s: Seq<char>) -> nat
    decreases s.len(),
{
    if s.len() == 0 {
        0
    } else {
        digits_value(s.drop_last()) * 10 + ((s.last() as u32 - 48) as nat)
    }
}

/// The task identifier that a text writes: the text is a non-empty run of
/// decimal digits whose value fits in 64 bits.
pub open spec fn task_id_of(s: Seq<char>) -> Option<u64> {
    if s.len() > 0 && all_digits(s) && digits_value(s) <= u64::MAX {
        Some(digits_value(s) as u64)
    } else {
        None
    }
}

/// A text of digits is worth at least as much as any of its prefixes.
proof fn lemma_prefix_value(s: Seq<char>, i: int)
    requires
        0 <= i <= s.len(),
    ensures
        digits_value(s.take(i)) <= digits_value(s),
    decreases s.len(),
{
    if i == s.len() {
        assert(s.take(i) =~= s);
    } else {
        lemma_prefix_value(s.drop_last(), i);
        assert(s.drop_last().take(i) =~= s.take(i));
    }
}

/// Reads a task identifier written in decimal.
pub fn parse_task_id(text: &str) -> (r: Option<u64>)
    ensures
        r == task_id_of(text@),
{
    broadcast use is_ascii_spec_bytes;

    if !text.is_ascii() {
        proof {
            if all_digits(text@) {
                assert(vstd::utf8::is_ascii_chars(text@));
            }
        }
        return None;
    }
    let bytes = text.as_bytes();
    let n: usize = bytes.len();
    proof {
        is_ascii_spec_bytes(text);
        assert(bytes@.len() == text@.len());
    }
    if n == 0 {
        return None;
    }
    let mut acc: u128 = 0;
    let mut i: usize = 0;
    while i < n
        invariant
            n == text@.len(),
            is_ascii(text),
            bytes@ == text.spec_bytes(),
            i <= n,
            all_digits(text@.take(i as int)),
            acc == digits_value(text@.take(i as int)),
            acc <= u64::MAX,
        decreases n - i,
    {
        let b: u8 = bytes[i];
        proof {
            is_ascii_spec_bytes(text);
            assert(b == text@[i as int] as u8);
            assert(text@.take(i + 1).drop_last() =~= text@.take(i as int));
            assert(text@.take(i + 1).last() == text@[i as int]);
        }
        if b < 48 || b > 57 {
            assert(!is_digit(text@[i as int]));
            return None;
        }
        acc = acc * 10 + ((b - 48) as u128);
        i += 1;
        if acc > u64::MAX as u128 {
            proof {
                lemma_prefix_value(text@, i as int);
            }
            return None;
        }
        proof {
            assert forall|j: int| 0 <= j < i implies is_digit(#[trigger] text@.take(i as int)[j]) by {
                if j < i - 1 {
                    assert(text@.take(i as int)[j] == text@.take(i - 1)[j]);
                }
            }
        }
    }
    proof {
        assert(text@.take(i as int) =~= text@);
    }
    Some(acc as u64)
}

/// The character that writes a digit.
pub open spec fn digit_char(d: nat) -> char {
    if d == 0 {
        '0'
    } else if d == 1 {
        '1'
    } else if d == 2 {
        '2'
    } else if d == 3 {
        '3'
    } else if d == 4 {
        '4'
    } else if d == 5 {
        '5'
    } else if d == 6 {
        '6'
    } else if d == 7 {
        '7'
    } else if d == 8 {
        '8'
    } else {
        '9'
    }
}

/// A number written in decimal, without leading zeros.
pub open spec fn decimal_text(n: nat) -> Seq<char>
    decreases n,
{
    if n < 10 {
        seq![digit_char(n)]
    } else {
        decimal_text(n / 10).push(digit_char(n % 10))
    }
}

/// Writing a number in decimal and reading it back gives the number.
pub proof fn lemma_decimal_round_trip(n: nat)
    ensures
        decimal_text(n).len() > 0,
        all_digits(decimal_text(n)),
        digits_value(decimal_text(n)) == n,
        n <= u64::MAX ==> task_id_of(decimal_text(n)) == Some(n as u64),
    decreases n,
{
    let text = decimal_text(n);
    if n < 10 {
        assert(text.drop_last() =~= Seq::<char>::empty());
        assert(text.last() == digit_char(n));
        assert(digits_value(text.drop_last()) == 0);
    } else {
        lemma_decimal_round_trip(n / 10);
        assert(text.drop_last() =~= decimal_text(n / 10));
        assert(text.last() == digit_char(n % 10));
        assert forall|i: int| 0 <= i < text.len() implies is_digit(#[trigger] text[i]) by {
            if i < text.len() - 1 {
                assert(text[i] == decimal_text(n / 10)[i]);
            }
        }
    }
}

/// The text of one digit.
fn digit_str(d: u64) -> (r: &'static str)
    requires
        d < 10,
    ensures
        r@ == seq![digit_char(d as nat)],
{
    if d == 0 {
        proof {
            reveal_strlit("0");
        }
        let text = "0";
        assert(text@ =~= seq![digit_char(d as nat)]);
        text
    } else if d == 1 {
        proof {
            reveal_strlit("1");
        }
        let text = "1";
        assert(text@ =~= seq![digit_char(d as nat)]);
        text
    } else if d == 2 {
        proof {
            reveal_strlit("2");
        }
        let text = "2";
        assert(text@ =~= seq![digit_char(d as nat)]);
        text
    } else if d == 3 {
        proof {
            reveal_strlit("3");
        }
        let text = "3";
        assert(text@ =~= seq![digit_char(d as nat)]);
        text
    } else if d == 4 {
        proof {
            reveal_strlit("4");
        }
        let text = "4";
        assert(text@ =~= seq![digit_char(d as nat)]);
        text
    } else if d == 5 {
        proof {
            reveal_strlit("5");
        }
        let text = "5";
        assert(text@ =~= seq![digit_char(d as nat)]);
        text
    } else if d == 6 {
        proof {
            reveal_strlit("6");
        }
        let text = "6";
        assert(text@ =~= seq![digit_char(d as nat)]);
        text
    } else if d == 7 {
        proof {
            reveal_strlit("7");
        }
        let text = "7";
        assert(text@ =~= seq![digit_char(d as nat)]);
        text
    } else if d == 8 {
        proof {
            reveal_strlit("8");
        }
        let text = "8";
        assert(text@ =~= seq![digit_char(d as nat)]);
        text
    } else {
        proof {
            reveal_strlit("9");
        }
        let text = "9";
        assert(text@ =~= seq![digit_char(d as nat)]);
        text
    }
}

/// Appends a number in decimal to a text.
pub fn write_decimal(n: u64, out: &mut String)
    ensures
        final(out)@ == old(out)@ + decimal_text(n as nat),
    decreases n,
{
    if n >= 10 {
        write_decimal(n / 10, out);
    }
    out.append(digit_str(n % 10));
    proof {
        assert(out@ =~= old(out)@ + decimal_text(n as nat));
    }
}

/// Writes a task identifier in decimal, as the service expects it; reading
/// the text back gives the identifier.
pub fn format_task_id(id: u64) -> (r: String)
    ensures
        r@ == decimal_text(id as nat),
        task_id_of(r@) == Some(id),
{
    let mut out = String::new();
    write_decimal(id, &mut out);
    proof {
        lemma_decimal_round_trip(id as nat);
        assert(out@ =~= decimal_text(id as nat));
    }
    out
}

} // verus!
