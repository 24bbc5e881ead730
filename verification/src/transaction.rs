//! The transfer that is signed, and the one text that stands for it.
//!
//! A signature holds for one exact text only, so the text is fixed here: a
//! JSON object on one line, without spaces, its members in the order of their
//! names (`amount`, `from`, `sign`, `to`). The amount is written in decimal
//! digits. In a string, `"` and `\` are written with a `\` before them,
//! the control characters U+0008, U+0009, U+000A, U+000C and U+000D as `\b`,
//! `\t`, `\n`, `\f` and `\r`, every other character below U+0020 as `\u00`
//! and two lower-case hexadecimal digits, and every other character as
//! itself.

use crate::error::WalletError;
use crate::hexcode::hex_digit;
use vstd::prelude::*;

verus! {

/// A transfer of an amount from one party to another.
#[derive(Debug, PartialEq, Eq)]
pub struct Transaction {
    /// The sender.
    pub from: String,
    /// The recipient, as the sender wrote it.
    pub to: String,
    /// The amount.
    pub amount: u32,
}

/// A transfer and the signature on its text.
#[derive(Debug, PartialEq, Eq)]
pub struct SignedTransaction {
    /// The sender.
    pub from: String,
    /// The recipient, as the sender wrote it.
    pub to: String,
    /// The amount.
    pub amount: u32,
    /// The signature on the text of the transfer, in hexadecimal.
    pub sign: String,
}

impl Clone for Transaction {
    fn clone(&self) -> (copy: Self)
        ensures
            copy.from@ == self.from@,
            copy.to@ == self.to@,
            copy.amount == self.amount,
    {
        Transaction { from: self.from.clone(), to: self.to.clone(), amount: self.amount }
    }
}

impl Clone for SignedTransaction {
    fn clone(&self) -> (copy: Self)
        ensures
            copy.from@ == self.from@,
            copy.to@ == self.to@,
            copy.amount == self.amount,
            copy.sign@ == self.sign@,
    {
        SignedTransaction {
            from: self.from.clone(),
            to: self.to.clone(),
            amount: self.amount,
            sign: self.sign.clone(),
        }
    }
}

/// The character of a decimal digit.
pub open spec fn digit(value: int) -> char {
    ((value + 48) as u8) as char
}

/// A number in decimal digits, without leading zeros.
pub open spec fn decimal(n: nat) -> Seq<char>
    decreases n,
{
    if n < 10 {
        seq![digit(n as int)]
    } else {
        decimal(n / 10).push(digit((n % 10) as int))
    }
}

/// How one character stands inside a string.
pub open spec fn escape(c: char) -> Seq<char> {
    if c == '"' {
        seq!['\\', '"']
    } else if c == '\\' {
        seq!['\\', '\\']
    } else if c == '\u{8}' {
        seq!['\\', 'b']
    } else if c == '\t' {
        seq!['\\', 't']
    } else if c == '\n' {
        seq!['\\', 'n']
    } else if c == '\u{c}' {
        seq!['\\', 'f']
    } else if c == '\r' {
        seq!['\\', 'r']
    } else if (c as u32) < 32 {
        seq!['\\', 'u', '0', '0', hex_digit(c as int / 16), hex_digit(c as int % 16)]
    } else {
        seq![c]
    }
}

/// How a text stands inside a string: each character escaped, in order.
pub open spec fn escaped(text: Seq<char>) -> Seq<char>
    decreases text.len(),
{
    if text.len() == 0 {
        Seq::empty()
    } else {
        escaped(text.drop_last()) + escape(text.last())
    }
}

/// A text as a string, between its quotes.
pub open spec fn quoted(text: Seq<char>) -> Seq<char> {
    seq!['"'] + escaped(text) + seq!['"']
}

/// The text of a transfer that is signed.
pub open spec fn canonical_text(from: Seq<char>, to: Seq<char>, amount: u32) -> Seq<char> {
    "{\"amount\":"@ + decimal(amount as nat) + ",\"from\":"@ + quoted(from) + ",\"to\":"@ + quoted(
        to,
    ) + "}"@
}

/// The text of a signed transfer that is shown.
pub open spec fn signed_text(from: Seq<char>, to: Seq<char>, amount: u32, sign: Seq<char>) -> Seq<
    char,
> {
    "{\"amount\":"@ + decimal(amount as nat) + ",\"from\":"@ + quoted(from) + ",\"sign\":"@
        + quoted(sign) + ",\"to\":"@ + quoted(to) + "}"@
}

/// `serde_json::Value::String`, printed: the text between quotes, each
/// character written as the module's head describes.
#[verifier::external_body]
fn json_string(text: &str) -> (json: String)
    ensures
        json@ == quoted(text@),
{
    serde_json::Value::String(text.to_owned()).to_string()
}

/// `serde_json::Value::Number`, printed: the number in decimal digits,
/// without leading zeros.
#[verifier::external_body]
fn json_number(value: u32) -> (json: String)
    ensures
        json@ == decimal(value as nat),
{
    serde_json::Value::Number(value.into()).to_string()
}

/// Whether a character is a decimal digit.
pub open spec fn is_digit(c: char) -> bool {
    '0' <= c && c <= '9'
}

/// Whether a text holds decimal digits only.
pub open spec fn all_digits(text: Seq<char>) -> bool {
    forall|i: int| 0 <= i < text.len() ==> is_digit(#[trigger] text[i])
}

/// The number that a run of decimal digits stands for.
pub open spec fn digits_value(text: Seq<char>) -> nat
    decreases text.len(),
{
    if text.len() == 0 {
        0
    } else {
        (digits_value(text.drop_last()) * 10 + (text.last() as int - 48)) as nat
    }
}

/// A text without the `+` that may stand before a number.
pub open spec fn unsigned_part(text: Seq<char>) -> Seq<char> {
    if text.len() > 0 && text[0] == '+' {
        text.skip(1)
    } else {
        text
    }
}

/// The amount that a reply stands for: at least one decimal digit, with
/// nothing around the digits but a `+` that may stand before them, and a
/// value that an amount can hold. Any other reply stands for none: an empty
/// one, one with a `-`, a space, a letter or a decimal point, and one that is
/// too large.
pub open spec fn amount_of(text: Seq<char>) -> Option<u32> {
    let digits = unsigned_part(text);
    if digits.len() > 0 && all_digits(digits) && digits_value(digits) <= u32::MAX {
        Some(digits_value(digits) as u32)
    } else {
        None
    }
}

/// Digits to the right never make a number smaller.
pub proof fn lemma_digits_value_grows(text: Seq<char>, k: int)
    requires
        all_digits(text),
        0 <= k <= text.len(),
    ensures
        digits_value(text.take(k)) <= digits_value(text),
    decreases text.len() - k,
{
    if k < text.len() {
        lemma_digits_value_grows(text, k + 1);
        assert(text.take(k + 1).drop_last() =~= text.take(k));
        assert(is_digit(text[k]));
        assert(text.take(k + 1).last() == text[k]);
    } else {
        assert(text.take(k) =~= text);
    }
}

fn chars_of(text: &str) -> (chars: Vec<char>)
    ensures
        chars@ == text@,
{
    let mut chars: Vec<char> = Vec::new();
    for c in it: text.chars()
        invariant
            it.seq() == text@,
            chars@ == text@.take(it.index()),
    {
        assert(text@.take(it.index() + 1) =~= text@.take(it.index()).push(c));
        chars.push(c);
    }
    assert(text@.take(text@.len() as int) =~= text@);
    chars
}

/// Reads a reply as an amount; `InvalidInput` where it stands for none.
pub fn parse_amount(text: &str) -> (amount: Result<u32, WalletError>)
    ensures
        match amount {
            Ok(n) => amount_of(text@) == Some(n),
            Err(e) => e == WalletError::InvalidInput && amount_of(text@) is None,
        },
{
    let chars = chars_of(text);
    let n = chars.len();
    let start: usize = if n > 0 && chars[0] == '+' {
        1
    } else {
        0
    };
    let ghost digits = unsigned_part(text@);
    assert(digits =~= chars@.skip(start as int));
    if start == n {
        return Err(WalletError::InvalidInput);
    }
    let mut value: u32 = 0;
    let mut i: usize = start;
    while i < n
        invariant
            start <= i <= n,
            n == chars.len(),
            digits == chars@.skip(start as int),
            digits == unsigned_part(text@),
            all_digits(digits.take(i - start)),
            value == digits_value(digits.take(i - start)),
        decreases n - i,
    {
        let c = chars[i];
        assert(digits[i - start] == c);
        if !('0' <= c && c <= '9') {
            assert(!is_digit(digits[i - start]));
            return Err(WalletError::InvalidInput);
        }
        let d: u32 = (c as u32) - 48;
        proof {
            let longer = digits.take(i - start + 1);
            assert(longer.drop_last() =~= digits.take(i - start));
            assert(longer.last() == c);
            assert(digits_value(longer) == value * 10 + d);
            assert forall|j: int| 0 <= j < longer.len() implies is_digit(#[trigger] longer[j]) by {
                if j < i - start {
                    assert(digits.take(i - start)[j] == longer[j]);
                }
            }
        }
        if value > (u32::MAX - d) / 10 {
            proof {
                if all_digits(digits) {
                    lemma_digits_value_grows(digits, i - start + 1);
                }
            }
            return Err(WalletError::InvalidInput);
        }
        value = value * 10 + d;
        i += 1;
    }
    assert(digits.take(n - start) =~= digits);
    Ok(value)
}

impl Transaction {
    /// The text that is signed.
    pub fn canonical(&self) -> (text: String)
        ensures
            text@ == canonical_text(self.from@, self.to@, self.amount),
    {
        let mut out = String::from_str("{\"amount\":");
        out.append(json_number(self.amount).as_str());
        out.append(",\"from\":");
        out.append(json_string(self.from.as_str()).as_str());
        out.append(",\"to\":");
        out.append(json_string(self.to.as_str()).as_str());
        out.append("}");
        out
    }

    /// The transfer with a signature on it.
    pub fn with_signature(self, sign: String) -> (signed: SignedTransaction)
        ensures
            signed.from@ == self.from@,
            signed.to@ == self.to@,
            signed.amount == self.amount,
            signed.sign@ == sign@,
    {
        SignedTransaction { from: self.from, to: self.to, amount: self.amount, sign }
    }
}

impl SignedTransaction {
    /// The text that is shown.
    pub fn text(&self) -> (text: String)
        ensures
            text@ == signed_text(self.from@, self.to@, self.amount, self.sign@),
    {
        let mut out = String::from_str("{\"amount\":");
        out.append(json_number(self.amount).as_str());
        out.append(",\"from\":");
        out.append(json_string(self.from.as_str()).as_str());
        out.append(",\"sign\":");
        out.append(json_string(self.sign.as_str()).as_str());
        out.append(",\"to\":");
        out.append(json_string(self.to.as_str()).as_str());
        out.append("}");
        out
    }
}

} // verus!
