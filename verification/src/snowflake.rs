//! Snowflake identifiers: 64-bit values that name a user, a bot or a server,
//! sent over the wire as base-10 text.

use crate::error::ErrorKind;
use crate::private::Sealed;
use crate::user::{User, Voter};
use vstd::prelude::*;
use vstd::std_specs::iter::IteratorSpec;
use vstd::string::StringExecFns;

verus! {

/// Whether `c` is one of the ten ASCII digits.
pub open spec fn is_digit(c: char) -> bool {
    '0' <= c <= '9'
}

/// The number a digit stands for.
pub open spec fn digit_value(c: char) -> nat {
    (c as u32 - '0' as u32) as nat
}

/// Whether every character of `s` is an ASCII digit.
pub open spec fn all_digits(s: Seq<char>) -> bool {
    forall|i: int| 0 <= i < s.len() ==> is_digit(#[trigger] s[i])
}

/// Whether `s` is a non-empty run of ASCII digits.
pub open spec fn is_decimal(s: Seq<char>) -> bool {
    s.len() > 0 && all_digits(s)
}

/// The number that the digits of `s` write in base 10, most significant first.
pub open spec fn decimal_value(s: Seq<char>) -> nat
    decreases s.len(),
{
    if s.len() == 0 {
        0
    } else {
        decimal_value(s.drop_last()) * 10 + digit_value(s.last())
    }
}

/// The identifier that `s` denotes: its base-10 value when `s` is a non-empty
/// run of digits whose value fits in 64 bits, and nothing otherwise.
pub open spec fn snowflake_of(s: Seq<char>) -> Option<u64> {
    if is_decimal(s) && decimal_value(s) <= u64::MAX {
        Some(decimal_value(s) as u64)
    } else {
        None
    }
}

/// The digit that stands for `d`, for `d` below ten.
pub open spec fn digit_char(d: nat) -> char {
    (d + '0' as u32) as u8 as char
}

/// The base-10 text of `n`: its digits, most significant first, with no sign
/// and no leading zero.
pub open spec fn decimal_text(n: nat) -> Seq<char>
    decreases n,
{
    if n < 10 {
        seq![digit_char(n)]
    } else {
        decimal_text(n / 10).push(digit_char(n % 10))
    }
}

/// A longer run of digits never writes a smaller number than its prefix.
pub proof fn lemma_decimal_value_prefix(s: Seq<char>, n: int)
    requires
        0 <= n <= s.len(),
    ensures
        decimal_value(s.subrange(0, n)) <= decimal_value(s),
    decreases s.len() - n,
{
    if n == s.len() {
        assert(s.subrange(0, n) =~= s);
    } else {
        lemma_decimal_value_prefix(s, n + 1);
        let longer = s.subrange(0, n + 1);
        assert(longer.drop_last() =~= s.subrange(0, n));
    }
}

/// Decodes one identifier from its wire text.
///
/// Succeeds exactly on a non-empty run of ASCII digits whose value fits in 64
/// bits; a sign, a blank, or any other character fails the decode.
pub fn deserialize(text: &str) -> (id: Result<u64, ErrorKind>)
    ensures
        match id {
            Ok(v) => snowflake_of(text@) == Some(v),
            Err(e) => e == ErrorKind::InvalidIdentifier && snowflake_of(text@) is None,
        },
{
    broadcast use vstd::string::group_string_axioms;

    let mut chars = text.chars();
    let mut value: u64 = 0;
    let mut any = false;
    let ghost mut n: int = 0;
    loop
        invariant
            0 <= n <= text@.len(),
            chars.obeys_prophetic_iter_laws(),
            chars.remaining() == text@.subrange(n, text@.len() as int),
            all_digits(text@.subrange(0, n)),
            value == decimal_value(text@.subrange(0, n)),
            any == (n > 0),
        decreases text@.len() - n,
    {
        let ghost before = text@.subrange(0, n);
        match chars.next() {
            None => {
                assert(text@.subrange(0, n) =~= text@);
                return if any {
                    Ok(value)
                } else {
                    Err(ErrorKind::InvalidIdentifier)
                };
            },
            Some(c) => {
                assert(c == text@[n]);
                if c < '0' || c > '9' {
                    return Err(ErrorKind::InvalidIdentifier);
                }
                let digit: u64 = (c as u32 - '0' as u32) as u64;
                proof {
                    let after = text@.subrange(0, n + 1);
                    assert(after.drop_last() =~= before);
                    assert(after.last() == c);
                    lemma_decimal_value_prefix(text@, n + 1);
                }
                let scaled = match value.checked_mul(10) {
                    Some(x) => x,
                    None => {
                        return Err(ErrorKind::InvalidIdentifier);
                    },
                };
                value = match scaled.checked_add(digit) {
                    Some(x) => x,
                    None => {
                        return Err(ErrorKind::InvalidIdentifier);
                    },
                };
                any = true;
                proof {
                    n = n + 1;
                }
            },
        }
    }
}

/// Decodes a list of identifiers leniently.
///
/// Each element is decoded on its own; the ones that are not identifiers are
/// dropped, and the others keep the order they came in.
pub fn deserialize_vec(items: &Vec<String>) -> (ids: Vec<u64>)
    ensures
        ids@ == items.deep_view().filter_map(|s: Seq<char>| snowflake_of(s)),
{
    let ghost decode = |s: Seq<char>| snowflake_of(s);
    let mut ids: Vec<u64> = Vec::new();
    let mut i: usize = 0;
    while i < items.len()
        invariant
            0 <= i <= items.len(),
            decode == |s: Seq<char>| snowflake_of(s),
            ids@ == items.deep_view().take(i as int).filter_map(decode),
        decreases items.len() - i,
    {
        let item = deserialize(items[i].as_str());
        proof {
            let texts = items.deep_view();
            assert(texts[i as int] == items[i as int]@);
            texts.lemma_filter_map_take_succ(decode, i as int);
        }
        if let Ok(id) = item {
            ids.push(id);
        }
        i += 1;
    }
    proof {
        let texts = items.deep_view();
        assert(texts.take(i as int) =~= texts);
    }
    ids
}

/// The text of one digit.
fn digit_text(d: u64) -> (text: &'static str)
    requires
        d < 10,
    ensures
        text@ == seq![digit_char(d as nat)],
{
    let text = if d == 0 {
        "0"
    } else if d == 1 {
        "1"
    } else if d == 2 {
        "2"
    } else if d == 3 {
        "3"
    } else if d == 4 {
        "4"
    } else if d == 5 {
        "5"
    } else if d == 6 {
        "6"
    } else if d == 7 {
        "7"
    } else if d == 8 {
        "8"
    } else {
        "9"
    };
    proof {
        reveal_strlit("0");
        reveal_strlit("1");
        reveal_strlit("2");
        reveal_strlit("3");
        reveal_strlit("4");
        reveal_strlit("5");
        reveal_strlit("6");
        reveal_strlit("7");
        reveal_strlit("8");
        reveal_strlit("9");
        assert(text@ =~= seq![digit_char(d as nat)]);
    }
    text
}

/// Appends the base-10 text of `id` to `out`.
pub fn write_decimal(out: &mut String, id: u64)
    ensures
        final(out)@ == old(out)@ + decimal_text(id as nat),
    decreases id,
{
    if id >= 10 {
        write_decimal(out, id / 10);
    }
    out.append(digit_text(id % 10));
    proof {
        let head = old(out)@;
        if id >= 10 {
            assert(head + decimal_text((id / 10) as nat) + seq![digit_char((id % 10) as nat)]
                =~= head + decimal_text(id as nat));
        }
    }
}

/// Writes an identifier as the wire carries it: in base 10.
pub fn serialize(id: u64) -> (text: String)
    ensures
        text@ == decimal_text(id as nat),
{
    let mut text = String::new();
    write_decimal(&mut text, id);
    assert(Seq::<char>::empty() + decimal_text(id as nat) =~= decimal_text(id as nat));
    text
}

/// The text of a number is a run of digits that writes that number.
pub proof fn lemma_decimal_text_value(n: nat)
    ensures
        is_decimal(decimal_text(n)),
        decimal_value(decimal_text(n)) == n,
    decreases n,
{
    if n < 10 {
        let s = decimal_text(n);
        assert(s.drop_last() =~= Seq::<char>::empty());
        assert(decimal_value(s.drop_last()) == 0);
    } else {
        lemma_decimal_text_value(n / 10);
        let s = decimal_text(n);
        assert(s.drop_last() =~= decimal_text(n / 10));
    }
}

/// Round trip: writing an identifier and decoding the text gives it back.
pub proof fn lemma_round_trip(id: u64)
    ensures
        snowflake_of(decimal_text(id as nat)) == Some(id),
{
    lemma_decimal_text_value(id as nat);
}

/// Only digits decode: a text that is empty, or holds anything but the ten
/// ASCII digits, or writes a number above the largest 64-bit value, denotes
/// no identifier, and every other text denotes the number it writes.
pub proof fn lemma_rejects_all_else(s: Seq<char>)
    ensures
        snowflake_of(s) is None <==> (s.len() == 0 || (exists|i: int|
            0 <= i < s.len() && !is_digit(s[i])) || decimal_value(s) > u64::MAX),
        snowflake_of(s) matches Some(id) ==> id == decimal_value(s),
{
}

/// Writing a list of identifiers and decoding the texts leniently gives the
/// list back: nothing is dropped and nothing changes place.
pub proof fn lemma_lenient_round_trip(ids: Seq<u64>)
    ensures
        ids.map_values(|id: u64| decimal_text(id as nat)).filter_map(
            |s: Seq<char>| snowflake_of(s),
        ) == ids,
    decreases ids.len(),
{
    let write = |id: u64| decimal_text(id as nat);
    let read = |s: Seq<char>| snowflake_of(s);
    let texts = ids.map_values(write);
    if ids.len() == 0 {
        assert(texts.filter_map(read) =~= ids);
    } else {
        lemma_lenient_round_trip(ids.drop_last());
        lemma_round_trip(ids.last());
        assert(texts.drop_last() =~= ids.drop_last().map_values(write));
        assert(texts.last() == decimal_text(ids.last() as nat));
        assert(ids.drop_last() + seq![ids.last()] =~= ids);
    }
}

/// What the cast of a signed integer to 64 unsigned bits gives: the value
/// itself where it is not negative, and the value plus 2^64 where it is.
pub proof fn lemma_cast_of_signed(x: i64)
    ensures
        x >= 0 ==> (x as u64) == x,
        x < 0 ==> (x as u64) == x + 0x1_0000_0000_0000_0000,
{
    assert(x >= 0 ==> (x as u64) == x);
    assert(x < 0 ==> (x as u64) as int == x as int + 0x1_0000_0000_0000_0000) by (bit_vector);
}

/// What the cast of a wide integer to 64 unsigned bits gives: its low 64
/// bits, which is the value itself where that fits.
pub proof fn lemma_cast_of_wide(x: u128)
    ensures
        (x as u64) == x % 0x1_0000_0000_0000_0000,
        x <= u64::MAX ==> (x as u64) == x,
{
    assert((x as u64) as u128 == x % 0x1_0000_0000_0000_0000u128) by (bit_vector);
}

/// Anything that can be read as a snowflake: an integer, a text, or a record
/// that carries an identifier.
pub trait SnowflakeLike: Sealed {
    /// The identifier this value stands for, if it stands for one.
    spec fn snowflake(&self) -> Option<u64>;

    /// Reads the value as an identifier.
    ///
    /// An integer is cast to 64 unsigned bits: a value outside that range is
    /// truncated, not refused. A text is decoded as [`deserialize`] does and
    /// fails where that fails. A record gives the identifier it holds.
    fn as_snowflake(&self) -> (id: Result<u64, ErrorKind>)
        ensures
            match id {
                Ok(v) => self.snowflake() == Some(v),
                Err(e) => e == ErrorKind::InvalidIdentifier && self.snowflake() is None,
            },
    ;
}

impl Sealed for i64 {

}

impl SnowflakeLike for i64 {
    open spec fn snowflake(&self) -> Option<u64> {
        Some(*self as u64)
    }

    fn as_snowflake(&self) -> (id: Result<u64, ErrorKind>) {
        Ok(#[verifier::truncate] (*self as u64))
    }
}

impl Sealed for u64 {

}

impl SnowflakeLike for u64 {
    open spec fn snowflake(&self) -> Option<u64> {
        Some(*self)
    }

    fn as_snowflake(&self) -> (id: Result<u64, ErrorKind>) {
        Ok(*self)
    }
}

impl Sealed for i128 {

}

impl SnowflakeLike for i128 {
    open spec fn snowflake(&self) -> Option<u64> {
        Some(*self as u64)
    }

    fn as_snowflake(&self) -> (id: Result<u64, ErrorKind>) {
        Ok(#[verifier::truncate] (*self as u64))
    }
}

impl Sealed for u128 {

}

impl SnowflakeLike for u128 {
    open spec fn snowflake(&self) -> Option<u64> {
        Some(*self as u64)
    }

    fn as_snowflake(&self) -> (id: Result<u64, ErrorKind>) {
        Ok(#[verifier::truncate] (*self as u64))
    }
}

impl Sealed for isize {

}

impl SnowflakeLike for isize {
    open spec fn snowflake(&self) -> Option<u64> {
        Some(*self as u64)
    }

    fn as_snowflake(&self) -> (id: Result<u64, ErrorKind>) {
        Ok(#[verifier::truncate] (*self as u64))
    }
}

impl Sealed for usize {

}

impl SnowflakeLike for usize {
    open spec fn snowflake(&self) -> Option<u64> {
        Some(*self as u64)
    }

    fn as_snowflake(&self) -> (id: Result<u64, ErrorKind>) {
        Ok(*self as u64)
    }
}

impl Sealed for &str {

}

impl SnowflakeLike for &str {
    open spec fn snowflake(&self) -> Option<u64> {
        snowflake_of(self@)
    }

    fn as_snowflake(&self) -> (id: Result<u64, ErrorKind>) {
        deserialize(*self)
    }
}

impl Sealed for &String {

}

impl SnowflakeLike for &String {
    open spec fn snowflake(&self) -> Option<u64> {
        snowflake_of(self@)
    }

    fn as_snowflake(&self) -> (id: Result<u64, ErrorKind>) {
        deserialize(self.as_str())
    }
}

impl Sealed for User {

}

impl SnowflakeLike for User {
    open spec fn snowflake(&self) -> Option<u64> {
        Some(self.id)
    }

    fn as_snowflake(&self) -> (id: Result<u64, ErrorKind>) {
        Ok(self.id)
    }
}

impl Sealed for &User {

}

impl SnowflakeLike for &User {
    open spec fn snowflake(&self) -> Option<u64> {
        Some(self.id)
    }

    fn as_snowflake(&self) -> (id: Result<u64, ErrorKind>) {
        Ok(self.id)
    }
}

impl Sealed for Voter {

}

impl SnowflakeLike for Voter {
    open spec fn snowflake(&self) -> Option<u64> {
        Some(self.id)
    }

    fn as_snowflake(&self) -> (id: Result<u64, ErrorKind>) {
        Ok(self.id)
    }
}

impl Sealed for &Voter {

}

impl SnowflakeLike for &Voter {
    open spec fn snowflake(&self) -> Option<u64> {
        Some(self.id)
    }

    fn as_snowflake(&self) -> (id: Result<u64, ErrorKind>) {
        Ok(self.id)
    }
}

} // verus!
