//! Decimal numbers and `;`-separated fields, as escape sequences carry them.

use vstd::prelude::*;

verus! {

/// Whether `b` is an ASCII digit.
pub open spec fn is_digit(b: u8) -> bool {
    0x30 <= b <= 0x39
}

/// Whether every byte of `s` is an ASCII digit.
pub open spec fn all_digits(s: Seq<u8>) -> bool {
    forall|i: int| 0 <= i < s.len() ==> is_digit(#[trigger] s[i])
}

/// The number that the digits of `s` write in base ten.
pub open spec fn decimal_value(s: Seq<u8>) -> nat
    decreases s.len(),
{
    if s.len() == 0 {
        0
    } else {
        decimal_value(s.drop_last()) * 10 + (s.last() - 0x30) as nat
    }
}

/// The digits of a field: the field without one leading `+`.
pub open spec fn unsigned_digits(s: Seq<u8>) -> Seq<u8> {
    if s.len() > 0 && s[0] == 0x2b {
        s.skip(1)
    } else {
        s
    }
}

/// The number that the field `s` writes, if it writes one that is at most
/// `max`: an optional `+`, then one or more digits.
pub open spec fn parse_number(s: Seq<u8>, max: nat) -> Option<nat> {
    let d = unsigned_digits(s);
    if d.len() > 0 && all_digits(d) && decimal_value(d) <= max {
        Some(decimal_value(d))
    } else {
        None
    }
}

/// The fields of `s`, which `;` separates. There is always at least one.
pub open spec fn split_fields(s: Seq<u8>) -> Seq<Seq<u8>>
    decreases s.len(),
{
    if s.len() == 0 {
        seq![Seq::<u8>::empty()]
    } else {
        let before = split_fields(s.drop_last());
        if s.last() == 0x3b {
            before.push(Seq::<u8>::empty())
        } else {
            before.update(before.len() - 1, before.last().push(s.last()))
        }
    }
}

/// The numbers that the first `count` of `fields` write, if each writes one
/// that is at most `max`.
pub open spec fn parse_fields(fields: Seq<Seq<u8>>, count: int, max: nat) -> Option<Seq<nat>> {
    if 0 <= count <= fields.len() && forall|i: int|
        0 <= i < count ==> (#[trigger] parse_number(fields[i], max)) is Some {
        Some(Seq::new(count as nat, |i: int| parse_number(fields[i], max).unwrap()))
    } else {
        None
    }
}

/// The bytes of each of `fields`.
pub open spec fn field_bytes(fields: Seq<Vec<u8>>) -> Seq<Seq<u8>> {
    Seq::new(fields.len(), |i: int| fields[i]@)
}

proof fn lemma_decimal_value_grows(s: Seq<u8>, i: int)
    requires
        0 <= i <= s.len(),
        all_digits(s),
    ensures
        decimal_value(s.take(i)) <= decimal_value(s),
    decreases s.len() - i,
{
    if i < s.len() {
        lemma_decimal_value_grows(s, i + 1);
        assert(s.take(i + 1).drop_last() =~= s.take(i));
    } else {
        assert(s.take(i) =~= s);
    }
}

/// Reads the field `s` as a number of at most `max`.
pub fn read_number(s: &Vec<u8>, max: u32) -> (r: Option<u32>)
    requires
        max <= 0x0fff_ffff,
    ensures
        r.is_some() == parse_number(s@, max as nat).is_some(),
        r matches Some(v) ==> parse_number(s@, max as nat) == Some(v as nat),
{
    let start: usize = if s.len() > 0 && s[0] == 0x2b {
        1
    } else {
        0
    };
    let ghost d = unsigned_digits(s@);
    if start >= s.len() {
        return None;
    }
    let mut acc: u32 = 0;
    let mut i: usize = start;
    while i < s.len()
        invariant
            start <= i <= s.len(),
            d == s@.skip(start as int),
            d == unsigned_digits(s@),
            max <= 0x0fff_ffff,
            acc <= max,
            all_digits(d.take(i - start)),
            acc == decimal_value(d.take(i - start)),
        decreases s.len() - i,
    {
        let b = s[i];
        let ghost k = i - start;
        if b < 0x30 || b > 0x39 {
            assert(!is_digit(d[k]));
            return None;
        }
        proof {
            assert(d.take(k + 1).drop_last() =~= d.take(k));
            assert forall|j: int| 0 <= j < d.take(k + 1).len() implies is_digit(
                #[trigger] d.take(k + 1)[j],
            ) by {}
        }
        acc = acc * 10 + (b - 0x30) as u32;
        i = i + 1;
        if acc > max {
            proof {
                if all_digits(d) {
                    lemma_decimal_value_grows(d, k + 1);
                }
            }
            return None;
        }
    }
    assert(d.take(i - start) =~= d);
    Some(acc)
}

/// Splits `s` at each `;`.
pub fn split(s: &Vec<u8>) -> (fields: Vec<Vec<u8>>)
    ensures
        field_bytes(fields@) == split_fields(s@),
{
    let mut fields: Vec<Vec<u8>> = Vec::new();
    let mut cur: Vec<u8> = Vec::new();
    let mut i: usize = 0;
    while i < s.len()
        invariant
            i <= s.len(),
            split_fields(s@.take(i as int)).len() == fields@.len() + 1,
            forall|k: int|
                0 <= k < fields@.len() ==> (#[trigger] fields@[k])@ == split_fields(
                    s@.take(i as int),
                )[k],
            cur@ == split_fields(s@.take(i as int)).last(),
        decreases s.len() - i,
    {
        let b = s[i];
        proof {
            assert(s@.take(i + 1).drop_last() =~= s@.take(i as int));
        }
        if b == 0x3b {
            fields.push(cur);
            cur = Vec::new();
        } else {
            cur.push(b);
        }
        i = i + 1;
    }
    assert(s@.take(i as int) =~= s@);
    fields.push(cur);
    fields
}

/// Reads the first `count` of `fields` as numbers of at most `max`.
pub fn read_fields(fields: &Vec<Vec<u8>>, count: usize, max: u32) -> (r: Option<Vec<u32>>)
    requires
        max <= 0x0fff_ffff,
    ensures
        r.is_some() == parse_fields(field_bytes(fields@), count as int, max as nat).is_some(),
        r matches Some(v) ==> v@.len() == count && forall|i: int|
            0 <= i < count ==> (#[trigger] v@[i]) as nat == parse_fields(
                field_bytes(fields@),
                count as int,
                max as nat,
            ).unwrap()[i],
{
    let ghost fs = field_bytes(fields@);
    if count > fields.len() {
        return None;
    }
    let mut out: Vec<u32> = Vec::new();
    let mut i: usize = 0;
    while i < count
        invariant
            i <= count <= fields.len(),
            fs == field_bytes(fields@),
            max <= 0x0fff_ffff,
            out@.len() == i,
            forall|k: int| 0 <= k < i ==> (#[trigger] parse_number(fs[k], max as nat)) is Some,
            forall|k: int|
                0 <= k < i ==> (#[trigger] out@[k]) as nat == parse_number(
                    fs[k],
                    max as nat,
                ).unwrap(),
        decreases count - i,
    {
        assert(fs[i as int] == fields@[i as int]@);
        match read_number(&fields[i], max) {
            Some(v) => {
                out.push(v);
            },
            None => {
                return None;
            },
        }
        i = i + 1;
    }
    Some(out)
}

/// The digits that write `n` in base ten, without leading zeros.
pub open spec fn decimal_digits(n: nat) -> Seq<u8>
    decreases n,
{
    if n < 10 {
        seq![(0x30 + n) as u8]
    } else {
        decimal_digits(n / 10).push((0x30 + n % 10) as u8)
    }
}

/// Appends the digits of `n` to `out`.
pub fn push_decimal(out: &mut Vec<u8>, n: u32)
    ensures
        final(out)@ == old(out)@ + decimal_digits(n as nat),
    decreases n,
{
    if n < 10 {
        out.push(0x30 + n as u8);
    } else {
        push_decimal(out, n / 10);
        out.push(0x30 + (n % 10) as u8);
    }
}

/// What is written as a number reads back as that number.
pub proof fn lemma_decimal_round_trip(n: nat, max: nat)
    requires
        n <= max,
    ensures
        parse_number(decimal_digits(n), max) == Some(n),
    decreases n,
{
    lemma_decimal_digits(n);
}

proof fn lemma_decimal_digits(n: nat)
    ensures
        decimal_digits(n).len() > 0,
        all_digits(decimal_digits(n)),
        decimal_value(decimal_digits(n)) == n,
    decreases n,
{
    let d = decimal_digits(n);
    if n < 10 {
        assert(decimal_value(d.drop_last()) == 0);
    } else {
        lemma_decimal_digits(n / 10);
        assert(d.drop_last() =~= decimal_digits(n / 10));
    }
}

} // verus!
