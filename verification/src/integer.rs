//! The notation-aware TOML integer value type.

use vstd::prelude::*;

verus! {

use crate::render::digits;
use crate::render::push_digits;

/// Preferred letter case of the alphabetic digits in the rendering of a
/// hexadecimal integer, as seen in contracts.
pub enum HexCase {
    /// Alphabetic digits render uppercase.
    Uppercase,
    /// Alphabetic digits render lowercase.
    Lowercase,
    /// No case chosen yet; renders uppercase until a caller normalizes it.
    Unspecified,
}

impl HexCase {
    /// Whether this case tag calls for uppercase digits:
    /// `Unspecified` defaults to uppercase.
    pub open spec fn renders_upper(self) -> bool {
        !(self is Lowercase)
    }
}

/// Abstract view of an [`Integer`]: the notation, the numeric value, and,
/// for hexadecimal notation, the letter case.
pub enum IntegerView {
    /// Decimal notation; any 64-bit signed value.
    Decimal { value: int },
    /// Hexadecimal notation; the value is nonnegative.
    Hexadecimal { value: int, case: HexCase },
    /// Octal notation; the value is nonnegative.
    Octal { value: int },
    /// Binary notation; the value is nonnegative.
    Binary { value: int },
}

impl IntegerView {
    /// The numeric value, regardless of notation.
    pub open spec fn value(self) -> int {
        match self {
            IntegerView::Decimal { value } => value,
            IntegerView::Hexadecimal { value, .. } => value,
            IntegerView::Octal { value } => value,
            IntegerView::Binary { value } => value,
        }
    }

    /// Every value fits in a 64-bit signed integer, and non-decimal
    /// notations hold only nonnegative values. Constructors establish
    /// this and the type is immutable, so it holds of every instance.
    pub open spec fn wf(self) -> bool {
        match self {
            IntegerView::Decimal { value } => i64::MIN <= value <= i64::MAX,
            IntegerView::Hexadecimal { value, .. } => 0 <= value <= i64::MAX,
            IntegerView::Octal { value } => 0 <= value <= i64::MAX,
            IntegerView::Binary { value } => 0 <= value <= i64::MAX,
        }
    }

    /// The canonical text form: minimal unpadded digits, a leading `-`
    /// only for negative decimal values, and a `0x`/`0o`/`0b` prefix for
    /// the non-decimal notations.
    pub open spec fn render(self) -> Seq<char> {
        match self {
            IntegerView::Decimal { value } => if value < 0 {
                seq!['-'] + digits((-value) as nat, 10, false)
            } else {
                digits(value as nat, 10, false)
            },
            IntegerView::Hexadecimal { value, case } => seq!['0', 'x'] + digits(
                value as nat,
                16,
                case.renders_upper(),
            ),
            IntegerView::Octal { value } => seq!['0', 'o'] + digits(value as nat, 8, false),
            IntegerView::Binary { value } => seq!['0', 'b'] + digits(value as nat, 2, false),
        }
    }
}

#[derive(Debug, Clone, PartialEq, Eq, Copy, Structural)]
enum IntegerRepr {
    /// Decimal integer. Can be positive or negative.
    Decimal(i64),
    /// Hexadecimal integer. Always nonnegative.
    Hexadecimal(i64, HexadecimalCase),
    /// Octal integer. Always nonnegative.
    Octal(i64),
    /// Binary integer. Always nonnegative.
    Binary(i64),
}

/// Describes the preferred case of alphabets in the default raw
/// representation of a hexadecimal integer.
#[derive(Debug, Clone, PartialEq, Eq, Copy, Structural)]
enum HexadecimalCase {
    /// Uppercase hexadecimal integers.
    Uppercase,
    /// Lowercase hexadecimal integers.
    Lowercase,
    /// Reserved for integers parsed from TOML strings.
    Unspecified,
}

/// Type representing a TOML integer: a 64-bit signed value tagged with
/// the notation it renders in.
#[derive(Debug, Clone, PartialEq, Eq, Copy, Structural)]
pub struct Integer(IntegerRepr);

impl View for Integer {
    type V = IntegerView;

    closed spec fn view(&self) -> IntegerView {
        match self.0 {
            IntegerRepr::Decimal(v) => IntegerView::Decimal { value: v as int },
            IntegerRepr::Hexadecimal(v, c) => IntegerView::Hexadecimal {
                value: v as int,
                case: match c {
                    HexadecimalCase::Uppercase => HexCase::Uppercase,
                    HexadecimalCase::Lowercase => HexCase::Lowercase,
                    HexadecimalCase::Unspecified => HexCase::Unspecified,
                },
            },
            IntegerRepr::Octal(v) => IntegerView::Octal { value: v as int },
            IntegerRepr::Binary(v) => IntegerView::Binary { value: v as int },
        }
    }
}

impl Integer {
    #[verifier::type_invariant]
    spec fn inv(self) -> bool {
        self@.wf()
    }

    /// Create a new `Integer` as decimal notation.
    pub fn new(value: i64) -> (r: Self)
        ensures
            r@ == (IntegerView::Decimal { value: value as int }),
    {
        Self(IntegerRepr::Decimal(value))
    }

    /// Attempts to create a new `Integer` as hexadecimal notation in uppercase.
    /// Fails if `value` is negative.
    pub fn new_hex_upper(value: i64) -> (r: Result<Self, IntegerError>)
        ensures
            value >= 0 <==> r is Ok,
            r is Ok ==> r->Ok_0@ == (IntegerView::Hexadecimal {
                value: value as int,
                case: HexCase::Uppercase,
            }),
    {
        if value >= 0 {
            Ok(Self(IntegerRepr::Hexadecimal(value, HexadecimalCase::Uppercase)))
        } else {
            Err(IntegerError {})
        }
    }

    /// Attempts to create a new `Integer` as hexadecimal notation in lowercase.
    /// Fails if `value` is negative.
    pub fn new_hex_lower(value: i64) -> (r: Result<Self, IntegerError>)
        ensures
            value >= 0 <==> r is Ok,
            r is Ok ==> r->Ok_0@ == (IntegerView::Hexadecimal {
                value: value as int,
                case: HexCase::Lowercase,
            }),
    {
        if value >= 0 {
            Ok(Self(IntegerRepr::Hexadecimal(value, HexadecimalCase::Lowercase)))
        } else {
            Err(IntegerError {})
        }
    }

    /// Attempts to create a new `Integer` as hexadecimal notation with
    /// unspecified case, intended for values freshly parsed from TOML
    /// text whose case has not yet been normalized.
    /// Fails if `value` is negative.
    pub fn new_hex_unspecified(value: i64) -> (r: Result<Self, IntegerError>)
        ensures
            value >= 0 <==> r is Ok,
            r is Ok ==> r->Ok_0@ == (IntegerView::Hexadecimal {
                value: value as int,
                case: HexCase::Unspecified,
            }),
    {
        if value >= 0 {
            Ok(Self(IntegerRepr::Hexadecimal(value, HexadecimalCase::Unspecified)))
        } else {
            Err(IntegerError {})
        }
    }

    /// Attempts to create a new `Integer` as octal notation.
    /// Fails if `value` is negative.
    pub fn new_oct(value: i64) -> (r: Result<Self, IntegerError>)
        ensures
            value >= 0 <==> r is Ok,
            r is Ok ==> r->Ok_0@ == (IntegerView::Octal { value: value as int }),
    {
        if value >= 0 {
            Ok(Self(IntegerRepr::Octal(value)))
        } else {
            Err(IntegerError {})
        }
    }

    /// Attempts to create a new `Integer` as binary notation.
    /// Fails if `value` is negative.
    pub fn new_bin(value: i64) -> (r: Result<Self, IntegerError>)
        ensures
            value >= 0 <==> r is Ok,
            r is Ok ==> r->Ok_0@ == (IntegerView::Binary { value: value as int }),
    {
        if value >= 0 {
            Ok(Self(IntegerRepr::Binary(value)))
        } else {
            Err(IntegerError {})
        }
    }

    /// Returns the value of the integer.
    pub fn value(&self) -> (r: i64)
        ensures
            r as int == self@.value(),
    {
        match self.0 {
            IntegerRepr::Decimal(value) => value,
            IntegerRepr::Hexadecimal(value, ..) => value,
            IntegerRepr::Octal(value) => value,
            IntegerRepr::Binary(value) => value,
        }
    }

    /// Creates a string representation using the current notation.
    pub fn to_string(&self) -> (r: String)
        ensures
            r@ == self@.render(),
    {
        proof {
            use_type_invariant(self);
        }
        let mut s = String::new();
        match self.0 {
            IntegerRepr::Decimal(v) => {
                if v < 0 {
                    s.append("-");
                    let m: u64 = if v == i64::MIN {
                        9223372036854775808
                    } else {
                        (-v) as u64
                    };
                    push_digits(&mut s, m, 10, false);
                    proof {
                        reveal_strlit("-");
                        assert(s@ =~= self@.render());
                    }
                } else {
                    push_digits(&mut s, v as u64, 10, false);
                }
            },
            IntegerRepr::Hexadecimal(v, case) => {
                s.append("0x");
                let upper = match case {
                    HexadecimalCase::Uppercase => true,
                    HexadecimalCase::Lowercase => false,
                    HexadecimalCase::Unspecified => true,
                };
                push_digits(&mut s, v as u64, 16, upper);
                proof {
                    reveal_strlit("0x");
                    assert(s@ =~= self@.render());
                }
            },
            IntegerRepr::Octal(v) => {
                s.append("0o");
                push_digits(&mut s, v as u64, 8, false);
                proof {
                    reveal_strlit("0o");
                    assert(s@ =~= self@.render());
                }
            },
            IntegerRepr::Binary(v) => {
                s.append("0b");
                push_digits(&mut s, v as u64, 2, false);
                proof {
                    reveal_strlit("0b");
                    assert(s@ =~= self@.render());
                }
            },
        }
        s
    }

    /// Returns true if this integer is decimal.
    pub fn is_dec(&self) -> (r: bool)
        ensures
            r == self@ is Decimal,
    {
        match self.0 {
            IntegerRepr::Decimal(..) => true,
            _ => false,
        }
    }

    /// Returns true if this integer is hexadecimal.
    pub fn is_hex(&self) -> (r: bool)
        ensures
            r == self@ is Hexadecimal,
    {
        match self.0 {
            IntegerRepr::Hexadecimal(..) => true,
            _ => false,
        }
    }

    /// Returns true if this integer is octal.
    pub fn is_oct(&self) -> (r: bool)
        ensures
            r == self@ is Octal,
    {
        match self.0 {
            IntegerRepr::Octal(..) => true,
            _ => false,
        }
    }

    /// Returns true if this integer is binary.
    pub fn is_bin(&self) -> (r: bool)
        ensures
            r == self@ is Binary,
    {
        match self.0 {
            IntegerRepr::Binary(..) => true,
            _ => false,
        }
    }
}

/// Equality compares the full representation: two integers are equal
/// exactly when they agree on notation, numeric value and, for
/// hexadecimal notation, letter case. In particular, two integers
/// holding the same number under different notations, or under
/// different hexadecimal cases, are not equal.
pub proof fn lemma_eq_is_full_representation(a: Integer, b: Integer)
    ensures
        (a == b) <==> (a@ == b@),
{
}

/// Exactly one of the four notation predicates (decimal, hexadecimal,
/// octal, binary) holds of any instance.
pub proof fn lemma_notation_exclusive(i: Integer)
    ensures
        (if i@ is Decimal { 1int } else { 0 }) + (if i@ is Hexadecimal { 1int } else { 0 }) + (
        if i@ is Octal {
            1int
        } else {
            0
        }) + (if i@ is Binary { 1int } else { 0 }) == 1,
{
}

/// Round trip: whatever the notation, the numeric value a constructor
/// was given is the value the view reports, with no truncation or sign
/// change.
pub proof fn lemma_value_round_trip(v: int, case: HexCase)
    ensures
        (IntegerView::Decimal { value: v }).value() == v,
        (IntegerView::Hexadecimal { value: v, case }).value() == v,
        (IntegerView::Octal { value: v }).value() == v,
        (IntegerView::Binary { value: v }).value() == v,
{
}

impl core::convert::From<Integer> for i64 {
    fn from(i: Integer) -> (r: i64) {
        proof {
            use_type_invariant(&i);
        }
        i.value()
    }
}

impl vstd::std_specs::convert::FromSpecImpl<Integer> for i64 {
    open spec fn obeys_from_spec() -> bool {
        true
    }

    open spec fn from_spec(i: Integer) -> i64 {
        i@.value() as i64
    }
}

impl<'a> core::convert::From<&'a Integer> for i64 {
    fn from(i: &'a Integer) -> (r: i64) {
        proof {
            use_type_invariant(i);
        }
        i.value()
    }
}

impl<'a> vstd::std_specs::convert::FromSpecImpl<&'a Integer> for i64 {
    open spec fn obeys_from_spec() -> bool {
        true
    }

    open spec fn from_spec(i: &'a Integer) -> i64 {
        i@.value() as i64
    }
}

/// Error returned when creating an invalid `Integer`.
#[derive(Debug, Clone)]
#[non_exhaustive]
pub struct IntegerError {}

impl IntegerError {
    /// The human-readable message of this error.
    pub fn message(&self) -> (r: &'static str)
        ensures
            r@ == "invalid integer"@,
    {
        "invalid integer"
    }
}

} // verus!
