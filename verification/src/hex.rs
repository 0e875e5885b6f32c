use vstd::prelude::*;

verus! {

/// The lower-case hexadecimal digit for a value below sixteen.
pub open spec fn hex_digit(n: nat) -> u8 {
    if n < 10 {
        (0x30 + n) as u8
    } else {
        (0x61 + n - 10) as u8
    }
}

/// `value` in lower-case hexadecimal, padded with zeros on the left to at
/// least `width` digits; never empty.
pub open spec fn hex_text(value: nat, width: nat) -> Seq<u8>
    decreases value, width,
{
    if value < 16 && width <= 1 {
        seq![hex_digit(value)]
    } else if value < 16 {
        seq![0x30u8] + hex_text(value, (width - 1) as nat)
    } else {
        hex_text(
            value / 16,
            if width == 0 {
                0
            } else {
                (width - 1) as nat
            },
        ).push(hex_digit(value % 16))
    }
}

/// How many hexadecimal digits `value` takes.
pub open spec fn hex_digits(value: nat) -> nat
    decreases value,
{
    if value < 16 {
        1
    } else {
        1 + hex_digits(value / 16)
    }
}

/// The text of a number is as long as the number needs, and no shorter than
/// the width asked for.
pub proof fn lemma_hex_text_len(value: nat, width: nat)
    ensures
        hex_text(value, width).len() == if width > hex_digits(value) {
            width
        } else {
            hex_digits(value)
        },
    decreases value, width,
{
    if value < 16 && width <= 1 {
    } else if value < 16 {
        lemma_hex_text_len(value, (width - 1) as nat);
    } else {
        lemma_hex_text_len(
            value / 16,
            if width == 0 {
                0
            } else {
                (width - 1) as nat
            },
        );
    }
}

/// A 64-bit number takes at most sixteen digits.
pub proof fn lemma_hex_digits_u64(value: u64)
    ensures
        hex_digits(value as nat) <= 16,
{
    reveal_with_fuel(hex_digits, 17);
}

/// Appends `hex_text(value, width)` to `out`.
pub fn push_hex(out: &mut Vec<u8>, value: u64, width: usize)
    ensures
        final(out)@ == old(out)@ + hex_text(value as nat, width as nat),
    decreases value, width,
{
    if value < 16 && width <= 1 {
        out.push(digit_char(value as u8));
        assert(out@ =~= old(out)@ + hex_text(value as nat, width as nat));
    } else if value < 16 {
        out.push(0x30);
        push_hex(out, value, width - 1);
        assert(out@ =~= old(out)@ + hex_text(value as nat, width as nat));
    } else {
        let rest_width: usize = if width == 0 {
            0
        } else {
            width - 1
        };
        push_hex(out, value / 16, rest_width);
        out.push(digit_char((value % 16) as u8));
        assert(out@ =~= old(out)@ + hex_text(value as nat, width as nat));
    }
}

fn digit_char(n: u8) -> (c: u8)
    requires
        n < 16,
    ensures
        c == hex_digit(n as nat),
{
    if n < 10 {
        0x30 + n
    } else {
        0x61 + (n - 10)
    }
}

/// The value of a hexadecimal digit in either case, or nothing for any other byte.
pub open spec fn hex_digit_value(b: u8) -> Option<nat> {
    if 0x30 <= b <= 0x39 {
        Some((b - 0x30) as nat)
    } else if 0x61 <= b <= 0x66 {
        Some((b - 0x61 + 10) as nat)
    } else if 0x41 <= b <= 0x46 {
        Some((b - 0x41 + 10) as nat)
    } else {
        None
    }
}

pub open spec fn all_hex(s: Seq<u8>) -> bool {
    forall|i: int| 0 <= i < s.len() ==> (#[trigger] hex_digit_value(s[i])) is Some
}

/// The number that a run of hexadecimal digits denotes, first digit highest.
pub open spec fn hex_value(s: Seq<u8>) -> nat
    decreases s.len(),
{
    if s.len() == 0 {
        0
    } else {
        let last = match hex_digit_value(s.last()) {
            Some(d) => d,
            None => 0,
        };
        hex_value(s.drop_last()) * 16 + last
    }
}

/// The number that `s` spells: an optional `+`, then at least one
/// hexadecimal digit and nothing else.
pub open spec fn hex_number(s: Seq<u8>) -> Option<nat> {
    let digits = if s.len() > 0 && s[0] == 0x2b {
        s.drop_first()
    } else {
        s
    };
    if digits.len() > 0 && all_hex(digits) {
        Some(hex_value(digits))
    } else {
        None
    }
}

proof fn lemma_hex_value_prefix(s: Seq<u8>, i: int)
    requires
        0 <= i <= s.len(),
    ensures
        hex_value(s.subrange(0, i)) <= hex_value(s),
    decreases s.len(),
{
    if i == s.len() {
        assert(s.subrange(0, i) =~= s);
    } else {
        lemma_hex_value_prefix(s.drop_last(), i);
        assert(s.drop_last().subrange(0, i) =~= s.subrange(0, i));
    }
}

fn digit_value(b: u8) -> (r: Option<usize>)
    ensures
        r is Some <==> hex_digit_value(b) is Some,
        r is Some ==> r->Some_0 == hex_digit_value(b)->Some_0 && r->Some_0 < 16,
{
    if 0x30 <= b && b <= 0x39 {
        Some((b - 0x30) as usize)
    } else if 0x61 <= b && b <= 0x66 {
        Some((b - 0x61 + 10) as usize)
    } else if 0x41 <= b && b <= 0x46 {
        Some((b - 0x41 + 10) as usize)
    } else {
        None
    }
}

/// Reads a hexadecimal number. Succeeds exactly where `text` spells a number
/// that fits the machine word.
pub fn parse_hex(text: &[u8]) -> (r: Option<usize>)
    ensures
        r is Some <==> hex_number(text@) is Some && hex_number(text@)->Some_0 <= usize::MAX,
        r is Some ==> r->Some_0 == hex_number(text@)->Some_0,
{
    let start: usize = if text.len() > 0 && text[0] == 0x2b {
        1
    } else {
        0
    };
    let ghost digits = text@.subrange(start as int, text@.len() as int);
    assert(digits =~= if text@.len() > 0 && text@[0] == 0x2b {
        text@.drop_first()
    } else {
        text@
    });
    if text.len() == start {
        return None;
    }
    let mut value: usize = 0;
    let mut i: usize = start;
    while i < text.len()
        invariant
            start <= i <= text@.len(),
            digits == text@.subrange(start as int, text@.len() as int),
            digits == if text@.len() > 0 && text@[0] == 0x2b {
                text@.drop_first()
            } else {
                text@
            },
            all_hex(digits.subrange(0, i - start)),
            value == hex_value(digits.subrange(0, i - start)),
        decreases text@.len() - i,
    {
        let ghost before = digits.subrange(0, i - start);
        let ghost after = digits.subrange(0, i - start + 1);
        assert(after.drop_last() =~= before);
        assert(after.last() == text@[i as int]);
        assert(digits[i - start] == text@[i as int]);
        let d: usize = match digit_value(text[i]) {
            Some(d) => d,
            None => {
                assert(hex_digit_value(digits[i - start]) is None);
                return None;
            },
        };
        proof {
            lemma_hex_value_prefix(digits, i - start + 1);
            assert(hex_value(after) == value * 16 + d);
        }
        let shifted: usize = match value.checked_mul(16) {
            Some(v) => v,
            None => {
                return None;
            },
        };
        value = match shifted.checked_add(d) {
            Some(v) => v,
            None => {
                return None;
            },
        };
        assert forall|j: int| 0 <= j < after.len() implies (#[trigger] hex_digit_value(
            after[j],
        )) is Some by {
            if j < before.len() {
                assert(after[j] == before[j]);
            }
        }
        i += 1;
    }
    assert(digits.subrange(0, i - start) =~= digits);
    Some(value)
}

} // verus!
