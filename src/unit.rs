//! Binary units of bytes, and amounts of bytes shown in one of them.
use vstd::prelude::*;

use crate::text::{decimal, digit_char, digit_str, push_decimal};

verus! {

/// A binary scale for byte counts.
#[derive(PartialEq, Eq, Structural, Debug, Clone, Copy)]
pub enum Unit {
    Byte,
    Kilo,
    Mega,
    Giga,
    Tera,
}

/// The number of bytes in one of each unit.
pub enum UnitValue {
    Byte,
    Kilo,
    Mega,
    Giga,
    Tera,
}

/// Bytes in one kibibyte.
pub const KIBI: u64 = 1024;

/// `1024` to the power `k`.
pub open spec fn pow1024(k: nat) -> nat
    decreases k,
{
    if k == 0 {
        1
    } else {
        1024 * pow1024((k - 1) as nat)
    }
}

/// The units from smallest to largest.
pub open spec fn unit_at(i: nat) -> Unit {
    if i == 0 {
        Unit::Byte
    } else if i == 1 {
        Unit::Kilo
    } else if i == 2 {
        Unit::Mega
    } else if i == 3 {
        Unit::Giga
    } else {
        Unit::Tera
    }
}

/// The unit chosen for `b` bytes: the largest one of which `b` holds more
/// than one, capped at `Tera`; `Byte` when `b` is at most 1.
pub open spec fn auto_unit(b: nat) -> Unit {
    if b > pow1024(4) {
        Unit::Tera
    } else if b > pow1024(3) {
        Unit::Giga
    } else if b > pow1024(2) {
        Unit::Mega
    } else if b > pow1024(1) {
        Unit::Kilo
    } else {
        Unit::Byte
    }
}

/// `10 * b / m` rounded to the nearest whole number, ties to the even one.
pub open spec fn rounded_tenths(b: nat, m: nat) -> nat
    recommends
        m > 0,
{
    let q = (10 * b) / m;
    let r = (10 * b) % m;
    if 2 * r > m || (2 * r == m && q % 2 == 1) {
        q + 1
    } else {
        q
    }
}

/// `b` bytes written in unit `u` with one decimal digit, then a space,
/// the unit's prefix and `B`: `195.4 KiB`.
pub open spec fn amount_text(b: nat, u: Unit) -> Seq<char> {
    let t = rounded_tenths(b, u.multiplier());
    decimal(t / 10) + seq!['.', digit_char(t % 10), ' '] + u.prefix() + seq!['B']
}

proof fn lemma_pow1024_values()
    ensures
        pow1024(0) == 1,
        pow1024(1) == 1024,
        pow1024(2) == 1048576,
        pow1024(3) == 1073741824,
        pow1024(4) == 1099511627776,
        pow1024(5) == 1125899906842624,
{
    reveal_with_fuel(pow1024, 6);
}

impl UnitValue {
    pub open spec fn spec_value(self) -> nat {
        match self {
            UnitValue::Byte => 1,
            UnitValue::Kilo => 1024,
            UnitValue::Mega => 1048576,
            UnitValue::Giga => 1073741824,
            UnitValue::Tera => 1099511627776,
        }
    }

    /// The number of bytes.
    pub fn value(&self) -> (r: u64)
        ensures
            r == self.spec_value(),
    {
        match self {
            UnitValue::Byte => 1,
            UnitValue::Kilo => 1024,
            UnitValue::Mega => 1048576,
            UnitValue::Giga => 1073741824,
            UnitValue::Tera => 1099511627776,
        }
    }
}

impl Unit {
    /// Position of the unit on the scale, `Byte` being 0.
    pub open spec fn index(self) -> nat {
        match self {
            Unit::Byte => 0,
            Unit::Kilo => 1,
            Unit::Mega => 2,
            Unit::Giga => 3,
            Unit::Tera => 4,
        }
    }

    /// Bytes in one of this unit: `1024` to the power of its position.
    pub open spec fn multiplier(self) -> nat {
        pow1024(self.index())
    }

    /// The prefix written before `B`.
    pub open spec fn prefix(self) -> Seq<char> {
        match self {
            Unit::Byte => seq![],
            Unit::Kilo => seq!['K', 'i'],
            Unit::Mega => seq!['M', 'i'],
            Unit::Giga => seq!['G', 'i'],
            Unit::Tera => seq!['T', 'i'],
        }
    }

    /// The multiplier of this unit as a `UnitValue`.
    pub fn unit_value(&self) -> (r: UnitValue)
        ensures
            r.spec_value() == self.multiplier(),
    {
        proof {
            lemma_pow1024_values();
        }
        match self {
            Unit::Byte => UnitValue::Byte,
            Unit::Kilo => UnitValue::Kilo,
            Unit::Mega => UnitValue::Mega,
            Unit::Giga => UnitValue::Giga,
            Unit::Tera => UnitValue::Tera,
        }
    }

    /// Bytes in one of this unit.
    pub fn to_value(&self) -> (r: u64)
        ensures
            r == self.multiplier(),
    {
        self.unit_value().value()
    }

    /// The prefix written before `B`: empty for bytes, `Ki`, `Mi`, `Gi`, `Ti` otherwise.
    pub fn to_string(&self) -> (r: String)
        ensures
            r@ == self.prefix(),
    {
        let s: &str = match self {
            Unit::Byte => {
                proof {
                    reveal_strlit("");
                }
                ""
            },
            Unit::Kilo => {
                proof {
                    reveal_strlit("Ki");
                }
                "Ki"
            },
            Unit::Mega => {
                proof {
                    reveal_strlit("Mi");
                }
                "Mi"
            },
            Unit::Giga => {
                proof {
                    reveal_strlit("Gi");
                }
                "Gi"
            },
            Unit::Tera => {
                proof {
                    reveal_strlit("Ti");
                }
                "Ti"
            },
        };
        String::from_str(s)
    }

    /// The unit at position `i` of the scale.
    pub fn at_scale(i: usize) -> (r: Unit)
        requires
            i < 5,
        ensures
            r == unit_at(i as nat),
            r.index() == i,
    {
        match i {
            0 => Unit::Byte,
            1 => Unit::Kilo,
            2 => Unit::Mega,
            3 => Unit::Giga,
            _ => Unit::Tera,
        }
    }
}

/// A number of bytes together with the unit it is shown in.
pub struct Amount {
    pub bytes: u64,
    pub unit: Unit,
}

impl Amount {
    /// The text of this amount.
    pub open spec fn text(self) -> Seq<char> {
        amount_text(self.bytes as nat, self.unit)
    }

    /// `bytes` shown in `unit`.
    pub fn new(bytes: u64, unit: Unit) -> (r: Amount)
        ensures
            r.bytes == bytes,
            r.unit == unit,
    {
        Amount { bytes, unit }
    }

    /// `bytes` shown in the largest unit of which it holds more than one
    /// (at most `Tera`), or in `Byte` when it is at most 1.
    pub fn auto_detect(bytes: u64) -> (r: Amount)
        ensures
            r.bytes == bytes,
            r.unit == auto_unit(bytes as nat),
    {
        proof {
            lemma_pow1024_values();
        }
        let mut scale: u64 = 1;
        let mut counter: usize = 0;
        while bytes > scale && counter < 5
            invariant
                counter <= 5,
                scale == pow1024(counter as nat),
                forall|j: nat| j < counter ==> bytes > pow1024(j),
            decreases 5 - counter,
        {
            proof {
                lemma_pow1024_values();
                assert(pow1024(counter as nat + 1) == 1024 * pow1024(counter as nat));
            }
            scale = scale * KIBI;
            counter = counter + 1;
        }
        let index: usize = if counter == 0 {
            0
        } else {
            counter - 1
        };
        proof {
            assert(counter == 5 || bytes <= pow1024(counter as nat));
            if counter >= 1 {
                assert(bytes > pow1024((counter - 1) as nat));
            }
        }
        Self::new(bytes, Unit::at_scale(index))
    }

    /// Ten times the amount in its unit, rounded to a whole number (ties to even).
    pub fn quantity_tenths(&self) -> (r: u128)
        ensures
            r == rounded_tenths(self.bytes as nat, self.unit.multiplier()),
    {
        proof {
            lemma_pow1024_values();
        }
        let m = self.unit.to_value() as u128;
        let n = 10 * (self.bytes as u128);
        let q = n / m;
        let rem = n % m;
        if 2 * rem > m || (2 * rem == m && q % 2 == 1) {
            q + 1
        } else {
            q
        }
    }

    /// The amount with one decimal digit, a space, the unit's prefix and `B`.
    pub fn to_string(&self) -> (r: String)
        ensures
            r@ == self.text(),
    {
        let t = self.quantity_tenths();
        let mut s = String::new();
        push_decimal(&mut s, t / 10);
        s.append(".");
        s.append(digit_str(t % 10));
        s.append(" ");
        let prefix = self.unit.to_string();
        s.append(prefix.as_str());
        s.append("B");
        proof {
            reveal_strlit(".");
            reveal_strlit(" ");
            reveal_strlit("B");
            assert(s@ =~= self.text());
        }
        s
    }
}

/// Auto-detection picks the unit at position `k` for every count above
/// `1024^k` and at most `1024^(k+1)`, where `k` is below 4.
pub proof fn lemma_auto_unit_band(b: nat, k: nat)
    requires
        k < 4,
        pow1024(k) < b,
        b <= pow1024(k + 1),
    ensures
        auto_unit(b) == unit_at(k),
        auto_unit(b).index() == k,
{
    lemma_pow1024_values();
}

/// Every amount ends in a space, its unit's prefix from the table
/// `Byte: "", Kilo: "Ki", Mega: "Mi", Giga: "Gi", Tera: "Ti"`, and `B`;
/// so an amount in bytes has nothing between the space and `B`.
pub proof fn lemma_amount_suffix(b: nat, u: Unit)
    ensures
        ({
            let s = amount_text(b, u);
            let p: Seq<char> = match u {
                Unit::Byte => seq![],
                Unit::Kilo => seq!['K', 'i'],
                Unit::Mega => seq!['M', 'i'],
                Unit::Giga => seq!['G', 'i'],
                Unit::Tera => seq!['T', 'i'],
            };
            &&& s.len() >= p.len() + 2
            &&& s.subrange(s.len() - p.len() - 2, s.len() as int) == seq![' '] + p + seq!['B']
        }),
        amount_text(b, Unit::Byte).subrange(
            amount_text(b, Unit::Byte).len() - 2,
            amount_text(b, Unit::Byte).len() as int,
        ) == seq![' ', 'B'],
{
    let t = rounded_tenths(b, u.multiplier());
    let head = decimal(t / 10) + seq!['.', digit_char(t % 10)];
    let s = amount_text(b, u);
    assert(s =~= head + (seq![' '] + u.prefix() + seq!['B']));
    assert(s.subrange(s.len() - u.prefix().len() - 2, s.len() as int) =~= seq![' '] + u.prefix()
        + seq!['B']);
    let tb = rounded_tenths(b, Unit::Byte.multiplier());
    let sb = amount_text(b, Unit::Byte);
    assert(sb =~= decimal(tb / 10) + seq!['.', digit_char(tb % 10)] + seq![' ', 'B']);
    assert(sb.subrange(sb.len() - 2, sb.len() as int) =~= seq![' ', 'B']);
}

} // verus!
