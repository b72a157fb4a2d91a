//! The attributes of the fan curve device: their names, and the decimal
//! numbers they hold. Names and values are bytes, as the platform gives
//! them.

use vstd::prelude::*;

verus! {

/// The fans that can have a curve.
#[derive(Debug, Clone, Copy, PartialEq, Eq, Hash, Structural)]
pub enum FanCurvePU {
    CPU,
    GPU,
    MID,
}

impl FanCurvePU {
    /// The digit that stands for the fan in attribute names: `1`, `2`, `3`.
    pub open spec fn spec_digit(self) -> u8 {
        match self {
            FanCurvePU::CPU => 0x31,
            FanCurvePU::GPU => 0x32,
            FanCurvePU::MID => 0x33,
        }
    }

    pub fn digit(&self) -> (d: u8)
        ensures
            d == self.spec_digit(),
    {
        match self {
            FanCurvePU::CPU => 0x31,
            FanCurvePU::GPU => 0x32,
            FanCurvePU::MID => 0x33,
        }
    }
}

impl Default for FanCurvePU {
    fn default() -> (fan: Self)
        ensures
            fan == FanCurvePU::CPU,
    {
        FanCurvePU::CPU
    }
}

/// One attribute of a device: its name and what it holds, or is to hold.
#[derive(Debug, PartialEq, Eq)]
pub struct Attribute {
    pub name: Vec<u8>,
    pub value: Vec<u8>,
}

impl Clone for Attribute {
    fn clone(&self) -> (copy: Self)
        ensures
            copy.name@ == self.name@,
            copy.value@ == self.value@,
    {
        Attribute { name: self.name.clone(), value: self.value.clone() }
    }
}

/// `pwm`
pub open spec fn spec_pwm() -> Seq<u8> {
    seq![0x70u8, 0x77u8, 0x6du8]
}

/// `_enable`
pub open spec fn spec_enable_suffix() -> Seq<u8> {
    seq![0x5fu8, 0x65u8, 0x6eu8, 0x61u8, 0x62u8, 0x6cu8, 0x65u8]
}

/// `_auto_point`
pub open spec fn spec_auto_point() -> Seq<u8> {
    seq![0x5fu8, 0x61u8, 0x75u8, 0x74u8, 0x6fu8, 0x5fu8, 0x70u8, 0x6fu8, 0x69u8, 0x6eu8, 0x74u8]
}

/// `_pwm`
pub open spec fn spec_pwm_suffix() -> Seq<u8> {
    seq![0x5fu8, 0x70u8, 0x77u8, 0x6du8]
}

/// `_temp`
pub open spec fn spec_temp_suffix() -> Seq<u8> {
    seq![0x5fu8, 0x74u8, 0x65u8, 0x6du8, 0x70u8]
}

/// The name of the attribute that switches a fan's curve on or off:
/// `pwm`, the fan's digit, `_enable`.
pub open spec fn spec_enable_name(fan: FanCurvePU) -> Seq<u8> {
    spec_pwm().push(fan.spec_digit()) + spec_enable_suffix()
}

/// The name of the attribute of point `index`, counted from 0, of a fan's
/// curve: `pwm`, the fan's digit, `_auto_point`, the point's number counted
/// from 1, and `suffix`.
pub open spec fn spec_point_name(fan: FanCurvePU, index: int, suffix: Seq<u8>) -> Seq<u8> {
    (spec_pwm().push(fan.spec_digit()) + spec_auto_point()).push((0x31 + index) as u8) + suffix
}

fn push_all(out: &mut Vec<u8>, part: &[u8])
    ensures
        final(out)@ == old(out)@ + part@,
{
    let mut i: usize = 0;
    while i < part.len()
        invariant
            i <= part@.len(),
            out@ == old(out)@ + part@.take(i as int),
        decreases part@.len() - i,
    {
        out.push(part[i]);
        i += 1;
        assert(out@ =~= old(out)@ + part@.take(i as int));
    }
    assert(part@.take(i as int) =~= part@);
}

/// The name of the attribute that switches the curve of `fan` on or off.
pub fn enable_name(fan: FanCurvePU) -> (name: Vec<u8>)
    ensures
        name@ == spec_enable_name(fan),
{
    let pwm: [u8; 3] = [0x70, 0x77, 0x6d];
    let suffix: [u8; 7] = [0x5f, 0x65, 0x6e, 0x61, 0x62, 0x6c, 0x65];
    assert(pwm@ =~= spec_pwm());
    assert(suffix@ =~= spec_enable_suffix());
    let mut name: Vec<u8> = Vec::new();
    push_all(&mut name, pwm.as_slice());
    name.push(fan.digit());
    push_all(&mut name, suffix.as_slice());
    assert(name@ =~= spec_enable_name(fan));
    name
}

fn point_name(fan: FanCurvePU, index: usize, suffix: &[u8]) -> (name: Vec<u8>)
    requires
        index < 8,
    ensures
        name@ == spec_point_name(fan, index as int, suffix@),
{
    let pwm: [u8; 3] = [0x70, 0x77, 0x6d];
    let auto_point: [u8; 11] = [0x5f, 0x61, 0x75, 0x74, 0x6f, 0x5f, 0x70, 0x6f, 0x69, 0x6e, 0x74];
    assert(pwm@ =~= spec_pwm());
    assert(auto_point@ =~= spec_auto_point());
    let mut name: Vec<u8> = Vec::new();
    push_all(&mut name, pwm.as_slice());
    name.push(fan.digit());
    push_all(&mut name, auto_point.as_slice());
    name.push(0x31 + index as u8);
    push_all(&mut name, suffix);
    assert(name@ =~= spec_point_name(fan, index as int, suffix@));
    name
}

/// The name of the attribute that holds the fan power of point `index`,
/// counted from 0, of the curve of `fan`.
pub(crate) fn pwm_str(fan: FanCurvePU, index: usize) -> (name: Vec<u8>)
    requires
        index < 8,
    ensures
        name@ == spec_point_name(fan, index as int, spec_pwm_suffix()),
{
    let suffix: [u8; 4] = [0x5f, 0x70, 0x77, 0x6d];
    assert(suffix@ =~= spec_pwm_suffix());
    point_name(fan, index, suffix.as_slice())
}

/// The name of the attribute that holds the temperature of point `index`,
/// counted from 0, of the curve of `fan`.
pub(crate) fn temp_str(fan: FanCurvePU, index: usize) -> (name: Vec<u8>)
    requires
        index < 8,
    ensures
        name@ == spec_point_name(fan, index as int, spec_temp_suffix()),
{
    let suffix: [u8; 5] = [0x5f, 0x74, 0x65, 0x6d, 0x70];
    assert(suffix@ =~= spec_temp_suffix());
    point_name(fan, index, suffix.as_slice())
}

/// Whether `needle` occurs in `hay` as a run of neighbouring bytes.
pub open spec fn spec_contains(hay: Seq<u8>, needle: Seq<u8>) -> bool {
    exists|at: int| spec_occurs_at(hay, needle, at)
}

/// Whether `needle` occurs in `hay` from position `at` on.
pub open spec fn spec_occurs_at(hay: Seq<u8>, needle: Seq<u8>, at: int) -> bool {
    0 <= at && at + needle.len() <= hay.len() && hay.subrange(at, at + needle.len()) == needle
}

fn occurs_at(hay: &[u8], needle: &[u8], at: usize) -> (found: bool)
    requires
        at + needle@.len() <= hay@.len() <= usize::MAX,
    ensures
        found == spec_occurs_at(hay@, needle@, at as int),
{
    let mut k: usize = 0;
    while k < needle.len()
        invariant
            k <= needle@.len(),
            at + needle@.len() <= hay@.len() <= usize::MAX,
            forall|j: int| 0 <= j < k ==> hay@[at + j] == needle@[j],
        decreases needle@.len() - k,
    {
        if hay[at + k] != needle[k] {
            assert(hay@.subrange(at as int, at + needle@.len())[k as int] != needle@[k as int]);
            return false;
        }
        k += 1;
    }
    assert(hay@.subrange(at as int, at + needle@.len()) =~= needle@);
    true
}

/// Whether `needle` occurs in `hay` as a run of neighbouring bytes.
pub fn contains(hay: &[u8], needle: &[u8]) -> (found: bool)
    ensures
        found == spec_contains(hay@, needle@),
{
    if needle.len() > hay.len() {
        return false;
    }
    let last = hay.len() - needle.len();
    let mut at: usize = 0;
    while at < last
        invariant
            at <= last,
            last == hay@.len() - needle@.len(),
            hay@.len() <= usize::MAX,
            forall|j: int| 0 <= j < at ==> !spec_occurs_at(hay@, needle@, j),
        decreases last - at,
    {
        if occurs_at(hay, needle, at) {
            return true;
        }
        at += 1;
    }
    occurs_at(hay, needle, last)
}

/// Whether two runs of bytes are the same.
pub fn bytes_eq(a: &[u8], b: &[u8]) -> (same: bool)
    ensures
        same == (a@ == b@),
{
    if a.len() != b.len() {
        return false;
    }
    let same = occurs_at(a, b, 0);
    assert(a@.subrange(0, b@.len() as int) =~= a@);
    same
}

/// A number below 256 in decimal digits, without leading zeroes.
pub open spec fn spec_decimal(value: u8) -> Seq<u8> {
    if value < 10 {
        seq![(0x30 + value) as u8]
    } else if value < 100 {
        seq![(0x30 + value / 10) as u8, (0x30 + value % 10) as u8]
    } else {
        seq![(0x30 + value / 100) as u8, (0x30 + (value / 10) % 10) as u8, (0x30 + value % 10) as u8]
    }
}

/// Whether every byte is a decimal digit.
pub open spec fn spec_all_digits(text: Seq<u8>) -> bool {
    forall|i: int| 0 <= i < text.len() ==> 0x30 <= #[trigger] text[i] <= 0x39
}

/// The number that a run of decimal digits stands for.
pub open spec fn spec_digits_value(digits: Seq<u8>) -> int
    decreases digits.len(),
{
    if digits.len() == 0 {
        0
    } else {
        spec_digits_value(digits.drop_last()) * 10 + (digits.last() - 0x30)
    }
}

/// The digits of a decimal number in text: the text without a plus sign at
/// its start.
pub open spec fn spec_unsigned(text: Seq<u8>) -> Seq<u8> {
    if text.len() > 0 && text[0] == 0x2b {
        text.subrange(1, text.len() as int)
    } else {
        text
    }
}

/// The number below 256 that a text stands for: an optional plus sign and
/// then one decimal digit or more.
pub open spec fn spec_parse_decimal(text: Seq<u8>) -> Option<u8> {
    let digits = spec_unsigned(text);
    if digits.len() == 0 || !spec_all_digits(digits) || spec_digits_value(digits) > 255 {
        None
    } else {
        Some(spec_digits_value(digits) as u8)
    }
}

/// Writes a number in decimal digits.
pub fn format_decimal(value: u8) -> (text: Vec<u8>)
    ensures
        text@ == spec_decimal(value),
{
    let mut text: Vec<u8> = Vec::new();
    if value >= 100 {
        text.push(0x30 + value / 100);
    }
    if value >= 10 {
        text.push(0x30 + (value / 10) % 10);
    }
    text.push(0x30 + value % 10);
    assert(text@ =~= spec_decimal(value));
    text
}

/// A run of digits stands for at least as much as any of its beginnings.
proof fn lemma_digits_value_grows(digits: Seq<u8>, upto: int)
    requires
        spec_all_digits(digits),
        0 <= upto <= digits.len(),
    ensures
        0 <= spec_digits_value(digits.take(upto)) <= spec_digits_value(digits),
    decreases digits.len() - upto,
{
    lemma_digits_value_nonnegative(digits.take(upto));
    if upto < digits.len() {
        lemma_digits_value_grows(digits, upto + 1);
        assert(digits.take(upto + 1).drop_last() =~= digits.take(upto));
    } else {
        assert(digits.take(upto) =~= digits);
    }
}

proof fn lemma_digits_value_nonnegative(digits: Seq<u8>)
    requires
        spec_all_digits(digits),
    ensures
        0 <= spec_digits_value(digits),
    decreases digits.len(),
{
    if digits.len() > 0 {
        lemma_digits_value_nonnegative(digits.drop_last());
    }
}

/// Reads a number below 256 from decimal digits, with or without a plus
/// sign before them.
pub fn parse_decimal(text: &[u8]) -> (value: Option<u8>)
    ensures
        value == spec_parse_decimal(text@),
{
    let start: usize = if text.len() > 0 && text[0] == 0x2b {
        1
    } else {
        0
    };
    let ghost digits = spec_unsigned(text@);
    assert(digits =~= text@.subrange(start as int, text@.len() as int));
    if start == text.len() {
        return None;
    }
    let mut acc: u32 = 0;
    let mut i: usize = start;
    while i < text.len()
        invariant
            start <= i <= text@.len(),
            digits == text@.subrange(start as int, text@.len() as int),
            digits == spec_unsigned(text@),
            spec_all_digits(digits.take(i - start)),
            acc == spec_digits_value(digits.take(i - start)),
            acc <= 255,
        decreases text@.len() - i,
    {
        let b = text[i];
        let ghost at: int = i - start;
        assert(digits[at] == b);
        if b < 0x30 || b > 0x39 {
            assert(!spec_all_digits(digits));
            return None;
        }
        proof {
            assert(digits.take(i + 1 - start).drop_last() =~= digits.take(i - start));
            assert(digits.take(i + 1 - start).last() == b);
            assert forall|k: int| 0 <= k < i + 1 - start implies 0x30 <= #[trigger] digits.take(
                i + 1 - start,
            )[k] <= 0x39 by {
                if k < i - start {
                    assert(digits.take(i - start)[k] == digits.take(i + 1 - start)[k]);
                }
            }
        }
        acc = acc * 10 + (b - 0x30) as u32;
        i += 1;
        assert(acc == spec_digits_value(digits.take(i - start)));
        if acc > 255 {
            proof {
                if spec_all_digits(digits) {
                    lemma_digits_value_grows(digits, i - start);
                }
            }
            return None;
        }
    }
    assert(digits.take(i - start) =~= digits);
    Some(acc as u8)
}

/// A number written in decimal digits is read back as itself.
pub proof fn lemma_decimal_round_trip(value: u8)
    ensures
        spec_parse_decimal(spec_decimal(value)) == Some(value),
{
    let text = spec_decimal(value);
    assert(text[0] != 0x2b);
    assert(spec_unsigned(text) == text);
    assert(spec_all_digits(text));
    if value < 10 {
        assert(text.drop_last() =~= Seq::<u8>::empty());
        assert(spec_digits_value(text) == value) by {
            reveal_with_fuel(spec_digits_value, 2);
        }
    } else if value < 100 {
        let one = seq![(0x30 + value / 10) as u8];
        assert(text.drop_last() =~= one);
        assert(one.drop_last() =~= Seq::<u8>::empty());
        assert(spec_digits_value(one) == value / 10) by {
            reveal_with_fuel(spec_digits_value, 2);
        }
        assert(spec_digits_value(text) == value);
    } else {
        let two = seq![(0x30 + value / 100) as u8, (0x30 + (value / 10) % 10) as u8];
        let one = seq![(0x30 + value / 100) as u8];
        assert(text.drop_last() =~= two);
        assert(two.drop_last() =~= one);
        assert(one.drop_last() =~= Seq::<u8>::empty());
        assert(spec_digits_value(one) == value / 100) by {
            reveal_with_fuel(spec_digits_value, 2);
        }
        assert(spec_digits_value(two) == (value / 100) * 10 + (value / 10) % 10);
        assert(spec_digits_value(text) == value);
    }
}

} // verus!
