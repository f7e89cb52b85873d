//! Diagnostic text: numbers rendered into messages, and what the rendered
//! message says character by character.

use vstd::prelude::*;

verus! {


/// The lower-case digit that stands for `d`.
pub open spec fn digit(d: nat) -> char
    recommends
        d < 16,
{
    if d < 10 {
        (48 + d) as char
    } else {
        (87 + d) as char
    }
}

/// `n` written in `base`, most significant digit first, without leading zeros.
pub open spec fn digits(n: nat, base: nat) -> Seq<char>
    decreases n,
{
    if base < 2 || n < base {
        seq![digit(n)]
    } else {
        proof {
            assert(n / base < n) by (nonlinear_arith)
                requires
                    base >= 2,
                    n >= base,
            ;
        }
        digits(n / base, base).push(digit(n % base))
    }
}

/// `n` in decimal.
pub open spec fn decimal(n: int) -> Seq<char> {
    digits(n as nat, 10)
}

/// `n` in hexadecimal, with its `0x` prefix.
pub open spec fn hex(n: int) -> Seq<char> {
    "0x"@ + digits(n as nat, 16)
}

/// The one-character string of a digit.
fn digit_str(d: u64) -> (s: &'static str)
    requires
        d < 16,
    ensures
        s@ == seq![digit(d as nat)],
{
    proof {
        reveal_strlit("0");
        reveal_strlit("1");
        reveal_strlit("2");
        reveal_strlit("3");
        reveal_strlit("4");
        reveal_strlit("5");
        reveal_strlit("6");
        reveal_strlit("7");
        reveal_strlit("8");
        reveal_strlit("9");
        reveal_strlit("a");
        reveal_strlit("b");
        reveal_strlit("c");
        reveal_strlit("d");
        reveal_strlit("e");
        reveal_strlit("f");
    }
    match d {
        0 => "0",
        1 => "1",
        2 => "2",
        3 => "3",
        4 => "4",
        5 => "5",
        6 => "6",
        7 => "7",
        8 => "8",
        9 => "9",
        10 => "a",
        11 => "b",
        12 => "c",
        13 => "d",
        14 => "e",
        _ => "f",
    }
}

/// Writes `n` in `base` at the end of `out`.
fn append_digits(out: &mut String, n: u64, base: u64)
    requires
        2 <= base <= 16,
    ensures
        final(out)@ == old(out)@ + digits(n as nat, base as nat),
    decreases n,
{
    if n < base {
        out.append(digit_str(n));
    } else {
        assert(n / base < n) by (nonlinear_arith)
            requires
                base >= 2,
                n >= base,
        ;
        append_digits(out, n / base, base);
        out.append(digit_str(n % base));
    }
}

/// Writes `n` in decimal at the end of `out`.
pub fn append_decimal(out: &mut String, n: u64)
    ensures
        final(out)@ == old(out)@ + decimal(n as int),
{
    append_digits(out, n, 10);
}

/// Writes `n` in hexadecimal, with its `0x` prefix, at the end of `out`.
pub fn append_hex(out: &mut String, n: u64)
    ensures
        final(out)@ == old(out)@ + hex(n as int),
{
    out.append("0x");
    append_digits(out, n, 16);
}

/// Reading written digits back, most significant first, gives the number.
proof fn digits_read_back(n: nat, base: nat, read: spec_fn(int, char) -> int)
    requires
        2 <= base <= 16,
        forall|value: int, d: nat|
            d < base ==> #[trigger] read(value, digit(d)) == base * value + d,
    ensures
        digits(n, base).fold_left(0int, read) == n,
        digits(n, base).len() > 0,
        digits(n, base).len() > 1 ==> digits(n, base)[0] != '0',
        n > 0 ==> digits(n, base)[0] != '0',
        forall|i: int|
            0 <= i < digits(n, base).len() ==> exists|d: nat|
                d < base && #[trigger] digits(n, base)[i] == #[trigger] digit(d),
    decreases n,
{
    reveal_with_fuel(Seq::fold_left, 2);
    if n < base {
        assert(digits(n, base).drop_last() =~= Seq::empty());
        assert(digits(n, base)[0] == digit(n));
    } else {
        assert(n / base < n && n / base > 0) by (nonlinear_arith)
            requires
                base >= 2,
                n >= base,
        ;
        assert(n % base < base) by (nonlinear_arith)
            requires
                base >= 2,
        ;
        let higher = digits(n / base, base);
        digits_read_back(n / base, base, read);
        assert(digits(n, base).drop_last() =~= higher);
        vstd::arithmetic::div_mod::lemma_fundamental_div_mod(n as int, base as int);
        assert forall|i: int| 0 <= i < digits(n, base).len() implies exists|d: nat|
            d < base && #[trigger] digits(n, base)[i] == #[trigger] digit(d) by {
            if i < higher.len() {
                assert(digits(n, base)[i] == higher[i]);
            } else {
                assert(digits(n, base)[i] == digit(n % base));
            }
        }
    }
}

/// A number in decimal reads back as itself: it is written in the digits `0` to
/// `9`, the most significant first, and without leading zeros.
pub proof fn decimal_reads_back(n: nat)
    ensures
        decimal(n as int).fold_left(
            0int,
            |value: int, c: char| 10 * value + (c as int - '0' as int),
        ) == n,
        forall|i: int|
            0 <= i < decimal(n as int).len() ==> '0' as int <= #[trigger] decimal(n as int)[i] as int
                <= '9' as int,
        decimal(n as int).len() > 0,
        decimal(n as int).len() > 1 ==> decimal(n as int)[0] != '0',
{
    digits_read_back(n, 10, |value: int, c: char| 10 * value + (c as int - '0' as int));
}

/// A number in hexadecimal reads back as itself: behind `0x` it is written in
/// the digits `0` to `9` and `a` to `f`, the most significant first, and without
/// leading zeros.
pub proof fn hexadecimal_reads_back(n: nat)
    ensures
        hex(n as int).len() > 2,
        hex(n as int)[0] == '0',
        hex(n as int)[1] == 'x',
        hex(n as int).skip(2).fold_left(
            0int,
            |value: int, c: char|
                16 * value + if c as int <= '9' as int {
                    c as int - '0' as int
                } else {
                    c as int - 'a' as int + 10
                },
        ) == n,
        forall|i: int|
            2 <= i < hex(n as int).len() ==> {
                ||| '0' as int <= #[trigger] hex(n as int)[i] as int <= '9' as int
                ||| 'a' as int <= hex(n as int)[i] as int <= 'f' as int
            },
        hex(n as int).len() > 3 ==> hex(n as int)[2] != '0',
{
    reveal_strlit("0x");
    digits_read_back(
        n,
        16,
        |value: int, c: char|
            16 * value + if c as int <= '9' as int {
                c as int - '0' as int
            } else {
                c as int - 'a' as int + 10
            },
    );
    assert(hex(n as int).skip(2) =~= digits(n, 16));
    assert forall|i: int| 2 <= i < hex(n as int).len() implies {
        ||| '0' as int <= #[trigger] hex(n as int)[i] as int <= '9' as int
        ||| 'a' as int <= hex(n as int)[i] as int <= 'f' as int
    } by {
        assert(hex(n as int)[i] == digits(n, 16)[i - 2]);
    }
}

} // verus!
