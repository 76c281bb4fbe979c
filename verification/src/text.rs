//! The lines that the commands print.

use vstd::prelude::*;
#[allow(unused_imports)]
use vstd::string::StringExecFns;
#[allow(unused_imports)]
use vstd::arithmetic::div_mod::{lemma_basic_div, lemma_div_denominator};
#[allow(unused_imports)]
use vstd::arithmetic::power::{lemma_pow_increases, lemma_pow_positive, pow};
use crate::account::H256;
use crate::fixed::FixedU128;
#[allow(unused_imports)]
use crate::fixed::ACCURACY;

verus! {

/// The decimal digit for a number below ten.
pub open spec fn digit(n: int) -> char {
    (48 + n) as char
}

/// A number in decimal, without leading zeros.
pub open spec fn decimal(n: nat) -> Seq<char>
    decreases n,
{
    if n < 10 {
        seq![digit(n as int)]
    } else {
        decimal(n / 10).push(digit((n % 10) as int))
    }
}

/// The digit for a number below ten, as text.
fn digit_text(n: u128) -> (res: &'static str)
    requires
        n < 10,
    ensures
        res@ == seq![digit(n as int)],
{
    proof {
        reveal_strlit("0");
        reveal_strlit("1");
        reveal_strlit("2");
        reveal_strlit("3");
        reveal_strlit("4");
        reveal_strlit("5");
        reveal_strlit("6");
        reveal_strlit("7");
        reveal_strlit("8");
        reveal_strlit("9");
    }
    if n == 0 {
        "0"
    } else if n == 1 {
        "1"
    } else if n == 2 {
        "2"
    } else if n == 3 {
        "3"
    } else if n == 4 {
        "4"
    } else if n == 5 {
        "5"
    } else if n == 6 {
        "6"
    } else if n == 7 {
        "7"
    } else if n == 8 {
        "8"
    } else {
        "9"
    }
}

/// Appends a number in decimal.
fn append_decimal(line: &mut String, n: u128)
    ensures
        final(line)@ == old(line)@ + decimal(n as nat),
    decreases n,
{
    if n < 10 {
        line.append(digit_text(n));
    } else {
        append_decimal(line, n / 10);
        line.append(digit_text(n % 10));
        assert(decimal(n as nat) == decimal((n / 10) as nat).push(digit((n % 10) as int)));
        assert(line@ =~= old(line)@ + decimal(n as nat));
    }
}

/// The lower-case hexadecimal digit for a number below sixteen.
pub open spec fn hex_digit(n: int) -> char {
    if n < 10 {
        (48 + n) as char
    } else {
        (87 + n) as char
    }
}

/// Bytes in hexadecimal: two digits for each byte, the high one first.
pub open spec fn hex_text(bytes: Seq<u8>) -> Seq<char> {
    Seq::new(
        2 * bytes.len(),
        |i: int|
            hex_digit(
                if i % 2 == 0 {
                    bytes[i / 2] as int / 16
                } else {
                    bytes[i / 2] as int % 16
                },
            ),
    )
}

/// Calls `hex::encode`.
///
/// Claimed of it: each byte becomes its two lower-case hexadecimal digits, in order.
#[verifier::external_body]
fn hex_encode(bytes: &[u8]) -> (res: String)
    ensures
        res@ == hex_text(bytes@),
{
    hex::encode(bytes)
}

/// Digits with zeros in front, up to `width` characters.
pub open spec fn padded(digits: Seq<char>, width: nat) -> Seq<char> {
    if digits.len() < width {
        Seq::new((width - digits.len()) as nat, |i: int| '0') + digits
    } else {
        digits
    }
}

/// A fixed-point number as it is printed: the whole part, and the fractional units padded to
/// `width` digits.
pub open spec fn fixed_text(number: FixedU128, width: nat) -> Seq<char> {
    "FixedU128("@ + decimal((number.inner / ACCURACY) as nat) + "."@ + padded(
        decimal((number.inner % ACCURACY) as nat),
        width,
    ) + ")"@
}

/// Calls the `Debug` formatting of `sp_arithmetic::FixedU128`.
///
/// Claimed of it: the text holds the whole part, and the fractional units zero-padded to eighteen
/// digits. The crate takes that number of digits as the decimal logarithm of the accuracy, computed
/// in floating point: the accuracy and its logarithm are both exact there, and the claim rests on
/// the machine giving that exact value.
#[verifier::external_body]
fn fixed_debug(number: &FixedU128) -> (res: String)
    ensures
        res@ == fixed_text(*number, 18),
{
    format!("{:?}", sp_arithmetic::FixedU128::from_inner(number.inner))
}

/// Something that a command prints, on a line of its own.
#[derive(Debug, PartialEq, Eq)]
pub enum Output {
    /// The exchange rate, when it was last set, and how old it may become.
    ExchangeRate { rate: FixedU128, time: u64, delay: u64 },
    /// The estimated Bitcoin transaction fees.
    BtcTxFees { fast: u32, half: u32, hour: u32 },
    /// The time on the chain.
    Time { time: u64 },
    /// The identifier of a request.
    Id { id: H256 },
    /// The identifier of a Bitcoin transaction, in the form that Bitcoin uses.
    Txid { txid: String },
}

/// The line for an exchange rate whose own text is `rate`.
pub open spec fn exchange_rate_text(rate: Seq<char>, time: u64, delay: u64) -> Seq<char> {
    "Exchange Rate BTC/DOT: "@ + rate + ", Last Update: "@ + decimal(time as nat) + ", Delay: "@
        + decimal(delay as nat)
}

/// The line for estimated transaction fees.
pub open spec fn btc_tx_fees_text(fast: u32, half: u32, hour: u32) -> Seq<char> {
    "Fees per byte: fast="@ + decimal(fast as nat) + " half="@ + decimal(half as nat) + " hour="@
        + decimal(hour as nat)
}

/// Whether `line` is what is printed for `output`.
pub open spec fn prints(output: Output, line: Seq<char>) -> bool {
    match output {
        Output::ExchangeRate { rate, time, delay } => line == exchange_rate_text(
            fixed_text(rate, 18),
            time,
            delay,
        ),
        Output::BtcTxFees { fast, half, hour } => line == btc_tx_fees_text(fast, half, hour),
        Output::Time { time } => line == decimal(time as nat),
        Output::Id { id } => line == hex_text(id.bytes@),
        Output::Txid { txid } => line == txid@,
    }
}

/// Writes the line for an exchange rate whose own text is `rate`.
pub fn exchange_rate_line(rate: &str, time: u64, delay: u64) -> (res: String)
    ensures
        res@ == exchange_rate_text(rate@, time, delay),
        res@ == "Exchange Rate BTC/DOT: "@ + rate@ + ", Last Update: "@ + decimal(time as nat)
            + ", Delay: "@ + decimal(delay as nat),
{
    let mut line = "Exchange Rate BTC/DOT: ".to_string();
    line.append(rate);
    line.append(", Last Update: ");
    append_decimal(&mut line, time as u128);
    line.append(", Delay: ");
    append_decimal(&mut line, delay as u128);
    line
}

/// Writes the line for estimated transaction fees.
pub fn btc_tx_fees_line(fast: u32, half: u32, hour: u32) -> (res: String)
    ensures
        res@ == btc_tx_fees_text(fast, half, hour),
        res@ == "Fees per byte: fast="@ + decimal(fast as nat) + " half="@ + decimal(half as nat)
            + " hour="@ + decimal(hour as nat),
{
    let mut line = "Fees per byte: fast=".to_string();
    append_decimal(&mut line, fast as u128);
    line.append(" half=");
    append_decimal(&mut line, half as u128);
    line.append(" hour=");
    append_decimal(&mut line, hour as u128);
    line
}

impl Output {
    /// Writes the line to print.
    pub fn line(&self) -> (res: String)
        ensures
            prints(*self, res@),
            *self matches Output::ExchangeRate { rate, time, delay } ==> res@
                == "Exchange Rate BTC/DOT: "@ + ("FixedU128("@ + decimal(
                (rate.inner / ACCURACY) as nat,
            ) + "."@ + padded(decimal((rate.inner % ACCURACY) as nat), 18) + ")"@)
                + ", Last Update: "@ + decimal(time as nat) + ", Delay: "@ + decimal(delay as nat),
            *self matches Output::BtcTxFees { fast, half, hour } ==> res@ == "Fees per byte: fast="@
                + decimal(fast as nat) + " half="@ + decimal(half as nat) + " hour="@ + decimal(
                hour as nat,
            ),
            *self matches Output::Time { time } ==> res@ == decimal(time as nat),
            *self matches Output::Id { id } ==> res@ == hex_text(id.bytes@),
            *self matches Output::Txid { txid } ==> res@ == txid@,
    {
        match self {
            Output::ExchangeRate { rate, time, delay } => {
                let text = fixed_debug(rate);
                exchange_rate_line(text.as_str(), *time, *delay)
            },
            Output::BtcTxFees { fast, half, hour } => btc_tx_fees_line(*fast, *half, *hour),
            Output::Time { time } => {
                let mut line = String::new();
                append_decimal(&mut line, *time as u128);
                assert(line@ =~= decimal(*time as nat));
                line
            },
            Output::Id { id } => hex_encode(id.bytes.as_slice()),
            Output::Txid { txid } => txid.clone(),
        }
    }
}

/// The number that decimal digits stand for.
pub open spec fn decimal_value(digits: Seq<char>) -> int
    decreases digits.len(),
{
    if digits.len() == 0 {
        0
    } else {
        10 * decimal_value(digits.drop_last()) + (digits.last() as int - 48)
    }
}

/// A printed number reads back as itself, and has no leading zero unless it is zero.
pub proof fn law_decimal_reads_back(n: nat)
    ensures
        decimal(n).len() > 0,
        decimal_value(decimal(n)) == n,
        decimal(n)[0] == '0' <==> n == 0,
    decreases n,
{
    if n < 10 {
        assert(decimal(n).drop_last() =~= Seq::empty());
        assert(decimal_value(Seq::empty()) == 0);
    } else {
        law_decimal_reads_back(n / 10);
        assert(decimal(n).drop_last() =~= decimal(n / 10));
    }
}

/// The digit for `10^i` in a printed number is that digit of the number, and there are exactly as
/// many digits as the number needs.
pub proof fn law_decimal_digits(n: nat, i: int)
    requires
        0 <= i < decimal(n).len(),
    ensures
        decimal(n)[decimal(n).len() - 1 - i] as int == 48 + (n as int / pow(10, i as nat)) % 10,
        n < pow(10, decimal(n).len()),
        decimal(n).len() > 1 ==> pow(10, (decimal(n).len() - 1) as nat) <= n,
    decreases n,
{
    reveal(pow);
    assert(pow(10, 0) == 1);
    if n < 10 {
        assert(pow(10, 1) == 10 * pow(10, 0));
    } else {
        let m = n / 10;
        law_decimal_reads_back(m);
        let k = decimal(m).len();
        law_decimal_digits(m, if i > 0 { i - 1 } else { 0 });
        assert(decimal(n).len() == k + 1);
        assert(pow(10, k + 1) == 10 * pow(10, k));
        assert(pow(10, k) == 10 * pow(10, (k - 1) as nat));
        if k == 1 {
            assert(pow(10, (k - 1) as nat) == 1);
        }
        if i > 0 {
            let p = pow(10, (i - 1) as nat);
            assert(pow(10, i as nat) == 10 * p);
            lemma_pow_positive(10, (i - 1) as nat);
            lemma_div_denominator(n as int, 10, p);
            assert(decimal(n)[k - i] == decimal(m)[k - 1 - (i - 1)]);
        }
    }
}

/// Leading zeros do not change the number that digits stand for.
proof fn lemma_padding_keeps_value(zeros: nat, digits: Seq<char>)
    ensures
        decimal_value(Seq::new(zeros, |i: int| '0') + digits) == decimal_value(digits),
    decreases zeros + digits.len(),
{
    let all = Seq::new(zeros, |i: int| '0') + digits;
    if digits.len() > 0 {
        assert(all.drop_last() =~= Seq::new(zeros, |i: int| '0') + digits.drop_last());
        lemma_padding_keeps_value(zeros, digits.drop_last());
    } else if zeros > 0 {
        let fewer = (zeros - 1) as nat;
        assert(all.drop_last() =~= Seq::new(fewer, |i: int| '0') + digits);
        lemma_padding_keeps_value(fewer, digits);
    }
}

/// A printed fixed-point number has eighteen digits after the point, and reads back as itself: the
/// digits before and after the point stand for all of its units.
pub proof fn law_fixed_number_reads_back(number: FixedU128)
    ensures
        ({
            let whole = decimal((number.inner / ACCURACY) as nat);
            let fraction = padded(decimal((number.inner % ACCURACY) as nat), 18);
            &&& fixed_text(number, 18) == "FixedU128("@ + whole + "."@ + fraction + ")"@
            &&& fraction.len() == 18
            &&& decimal_value(whole) * pow(10, 18) + decimal_value(fraction) == number.inner
        }),
{
    reveal_with_fuel(pow, 19);
    let units = (number.inner % ACCURACY) as nat;
    let digits = decimal(units);
    law_decimal_reads_back((number.inner / ACCURACY) as nat);
    law_decimal_reads_back(units);
    if digits.len() > 18 {
        law_decimal_digits(units, 0);
        lemma_pow_increases(10, 18, (digits.len() - 1) as nat);
        assert(false);
    }
    lemma_padding_keeps_value((18 - digits.len()) as nat, digits);
    assert(number.inner == (number.inner / ACCURACY) * ACCURACY + number.inner % ACCURACY);
}

/// The digit at each place after the point is that digit of the number of units.
pub proof fn law_fraction_digits(number: FixedU128, i: int)
    requires
        0 <= i < 18,
    ensures
        padded(decimal((number.inner % ACCURACY) as nat), 18).len() == 18,
        padded(decimal((number.inner % ACCURACY) as nat), 18)[17 - i] as int == 48 + ((number.inner
            % ACCURACY) as int / pow(10, i as nat)) % 10,
{
    law_fixed_number_reads_back(number);
    let units = (number.inner % ACCURACY) as nat;
    let digits = decimal(units);
    if i < digits.len() {
        law_decimal_digits(units, i);
        assert(digits.len() <= 18);
        assert(padded(digits, 18)[17 - i] == digits[digits.len() - 1 - i]);
    } else {
        law_decimal_reads_back(units);
        law_decimal_digits(units, 0);
        lemma_pow_increases(10, digits.len(), i as nat);
        lemma_basic_div(units as int, pow(10, i as nat));
    }
}

/// Each byte of an identifier is printed as its two hexadecimal digits, the high one first, with
/// letters in lower case.
pub proof fn law_hex_digits(bytes: Seq<u8>, i: int)
    requires
        0 <= i < bytes.len(),
    ensures
        hex_text(bytes).len() == 2 * bytes.len(),
        hex_text(bytes)[2 * i] as int == (if bytes[i] / 16 < 10 {
            48 + bytes[i] / 16
        } else {
            87 + bytes[i] / 16
        }),
        hex_text(bytes)[2 * i + 1] as int == (if bytes[i] % 16 < 10 {
            48 + bytes[i] % 16
        } else {
            87 + bytes[i] % 16
        }),
{
    assert((2 * i) / 2 == i && (2 * i + 1) / 2 == i);
}

/// An identifier is printed with two digits for each byte, and no two identifiers are printed
/// alike.
pub proof fn law_hex_is_injective(a: Seq<u8>, b: Seq<u8>)
    ensures
        hex_text(a).len() == 2 * a.len(),
        hex_text(a) == hex_text(b) ==> a == b,
{
    if hex_text(a) == hex_text(b) {
        assert(hex_text(b).len() == 2 * b.len());
        assert forall|i: int| 0 <= i < a.len() implies a[i] == b[i] by {
            let (x, y) = (a[i] as int, b[i] as int);
            assert((2 * i) / 2 == i && (2 * i + 1) / 2 == i);
            assert(hex_text(a)[2 * i] == hex_digit(x / 16));
            assert(hex_text(b)[2 * i] == hex_digit(y / 16));
            assert(hex_text(a)[2 * i + 1] == hex_digit(x % 16));
            assert(hex_text(b)[2 * i + 1] == hex_digit(y % 16));
        }
        assert(a =~= b);
    }
}

/// What is printed holds the values of the output in their places, each after its own label.
pub proof fn law_lines_hold_their_values(output: Output, line: Seq<char>)
    requires
        prints(output, line),
    ensures
        output matches Output::ExchangeRate { rate, time, delay } ==> line
            == "Exchange Rate BTC/DOT: "@ + ("FixedU128("@ + decimal((rate.inner / ACCURACY) as nat)
            + "."@ + padded(decimal((rate.inner % ACCURACY) as nat), 18) + ")"@)
            + ", Last Update: "@ + decimal(time as nat) + ", Delay: "@ + decimal(delay as nat),
        output matches Output::BtcTxFees { fast, half, hour } ==> line == "Fees per byte: fast="@
            + decimal(fast as nat) + " half="@ + decimal(half as nat) + " hour="@ + decimal(
            hour as nat,
        ),
        output matches Output::Time { time } ==> decimal_value(line) == time,
        output matches Output::Id { id } ==> line.len() == 64 && line == hex_text(id.bytes@),
        output matches Output::Txid { txid } ==> line == txid@,
{
    if let Output::Time { time } = output {
        law_decimal_reads_back(time as nat);
    }
}

} // verus!
