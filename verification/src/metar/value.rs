//! Measured quantities: a value, which may be exact, a bound, a range or
//! variable, and the unit it is given in.

use crate::error::DecodeError;
use crate::number::{lemma_number_scale_round_trip, Number};
use crate::text::{
    chars_of, count_digits, decimal, digit_run, find, find_char, is_word1, is_word2, is_word3,
    lemma_pow10_monotonic, read_decimal, word1, word2, word3,
};
use vstd::prelude::*;
use vstd::slice::slice_subrange;

verus! {

/// What a token stands for, or `error` if it stands for nothing.
pub open spec fn token_result<T>(meaning: Option<T>, error: DecodeError) -> Result<
    T,
    DecodeError,
> {
    match meaning {
        Some(t) => Ok(t),
        None => Err(error),
    }
}

/// Unit of a physical quantity.
#[derive(Clone, Copy, Debug, PartialEq, Eq, Structural)]
pub enum Unit {
    /// True degree, `degT`.
    DegreeTrue,
    /// Knot, `kt`.
    Knot,
    /// Metre per second, `m/s`.
    MetrePerSecond,
    /// Kilometre, `km`.
    KiloMetre,
    /// Metre, `m`.
    Metre,
    /// Statute mile, `mi`.
    StatuteMile,
    /// Foot, `ft`.
    Foot,
    /// Degree Celsius, `degC`.
    DegreeCelsius,
    /// Hectopascal, `hPa`.
    HectoPascal,
    /// Inch of mercury, `inHg`.
    InchOfMercury,
}

impl Unit {
    /// The unit that a report's unit token names.
    pub open spec fn of_token(s: Seq<char>) -> Option<Unit> {
        if word2(s, 'K', 'T') {
            Some(Unit::Knot)
        } else if word3(s, 'M', 'P', 'S') {
            Some(Unit::MetrePerSecond)
        } else if word2(s, 'K', 'M') {
            Some(Unit::KiloMetre)
        } else if word2(s, 'S', 'M') {
            Some(Unit::StatuteMile)
        } else if word2(s, 'F', 'T') {
            Some(Unit::Foot)
        } else if word1(s, 'Q') {
            Some(Unit::HectoPascal)
        } else if word1(s, 'A') {
            Some(Unit::InchOfMercury)
        } else {
            None
        }
    }

    pub fn from_chars(token: &[char]) -> (r: Result<Unit, DecodeError>)
        ensures
            r == token_result(Unit::of_token(token@), DecodeError::InvalidUnit),
    {
        if is_word2(token, 'K', 'T') {
            Ok(Unit::Knot)
        } else if is_word3(token, 'M', 'P', 'S') {
            Ok(Unit::MetrePerSecond)
        } else if is_word2(token, 'K', 'M') {
            Ok(Unit::KiloMetre)
        } else if is_word2(token, 'S', 'M') {
            Ok(Unit::StatuteMile)
        } else if is_word2(token, 'F', 'T') {
            Ok(Unit::Foot)
        } else if is_word1(token, 'Q') {
            Ok(Unit::HectoPascal)
        } else if is_word1(token, 'A') {
            Ok(Unit::InchOfMercury)
        } else {
            Err(DecodeError::InvalidUnit)
        }
    }

    /// Reads one of the unit tokens `KT`, `MPS`, `KM`, `SM`, `FT`, `Q`, `A`.
    pub fn from_str(s: &str) -> (r: Result<Unit, DecodeError>)
        ensures
            r == token_result(Unit::of_token(s@), DecodeError::InvalidUnit),
    {
        let token = chars_of(s);
        Unit::from_chars(token.as_slice())
    }
}

/// No two unit tokens name the same unit.
pub proof fn lemma_unit_tokens_distinct(a: Seq<char>, b: Seq<char>)
    requires
        Unit::of_token(a) is Some,
        Unit::of_token(a) == Unit::of_token(b),
    ensures
        a == b,
{
    assert(a =~= b);
}

/// The whole number that a token of one to nine digits spells.
pub open spec fn uint_of(s: Seq<char>) -> Option<int> {
    if 1 <= s.len() <= 9 && digit_run(s, 0) == s.len() {
        Some(decimal(s, 0, s.len()))
    } else {
        None
    }
}

/// The number that a token `a/b` spells.
pub open spec fn fraction_of(s: Seq<char>) -> Option<Number> {
    let k = find_char(s, '/', 0);
    if k < s.len() {
        match (uint_of(s.subrange(0, k)), uint_of(s.subrange(k + 1, s.len() as int))) {
            (Some(a), Some(b)) => if b > 0 {
                Some(Number { numerator: a as i64, denominator: b as i64 })
            } else {
                None
            },
            _ => None,
        }
    } else {
        None
    }
}

/// The number that a token spells: `n`, `a/b` or `n a/b`.
pub open spec fn number_of(s: Seq<char>) -> Option<Number> {
    let blank = find_char(s, ' ', 0);
    if blank < s.len() {
        match (uint_of(s.subrange(0, blank)), fraction_of(s.subrange(blank + 1, s.len() as int))) {
            (Some(n), Some(f)) => Some(
                Number {
                    numerator: (n * f.denominator + f.numerator) as i64,
                    denominator: f.denominator,
                },
            ),
            _ => None,
        }
    } else if find_char(s, '/', 0) < s.len() {
        fraction_of(s)
    } else {
        match uint_of(s) {
            Some(n) => Some(Number::of_int(n)),
            None => None,
        }
    }
}

/// Reads a whole number of one to nine digits.
pub fn parse_uint(token: &[char]) -> (r: Option<u32>)
    ensures
        r is Some <==> uint_of(token@) is Some,
        r is Some ==> r->0 == uint_of(token@)->0 && r->0 < 1_000_000_000,
{
    let n = token.len();
    if 1 <= n && n <= 9 && count_digits(token, 0, 10) == n {
        proof {
            lemma_pow10_monotonic(n as nat, 9);
        }
        Some(read_decimal(token, 0, n))
    } else {
        None
    }
}

/// Reads a fraction `a/b` with a denominator other than zero.
pub fn parse_fraction(token: &[char]) -> (r: Option<Number>)
    ensures
        r == fraction_of(token@),
        r is Some ==> 0 <= r->0.numerator < 1_000_000_000 && 0 < r->0.denominator
            < 1_000_000_000,
{
    let k = find(token, '/', 0);
    if k < token.len() {
        let a = parse_uint(slice_subrange(token, 0, k));
        let b = parse_uint(slice_subrange(token, k + 1, token.len()));
        match (a, b) {
            (Some(a), Some(b)) => {
                if b > 0 {
                    Some(Number { numerator: a as i64, denominator: b as i64 })
                } else {
                    None
                }
            },
            _ => None,
        }
    } else {
        None
    }
}

/// Reads a number: `n`, `a/b` or `n a/b`.
pub fn parse_value(token: &[char]) -> (r: Result<Number, DecodeError>)
    ensures
        r == token_result(number_of(token@), DecodeError::InvalidNumber),
        r is Ok ==> r->Ok_0.wf() && r->Ok_0.numerator >= 0,
{
    let blank = find(token, ' ', 0);
    if blank < token.len() {
        let n = parse_uint(slice_subrange(token, 0, blank));
        let f = parse_fraction(slice_subrange(token, blank + 1, token.len()));
        match (n, f) {
            (Some(n), Some(f)) => {
                assert(0 <= n * f.denominator <= 1_000_000_000 * 1_000_000_000)
                    by (nonlinear_arith)
                    requires
                        0 <= n < 1_000_000_000,
                        0 < f.denominator < 1_000_000_000,
                ;
                Ok(
                    Number {
                        numerator: (n as i64) * f.denominator + f.numerator,
                        denominator: f.denominator,
                    },
                )
            },
            _ => Err(DecodeError::InvalidNumber),
        }
    } else if find(token, '/', 0) < token.len() {
        match parse_fraction(token) {
            Some(f) => Ok(f),
            None => Err(DecodeError::InvalidNumber),
        }
    } else {
        match parse_uint(token) {
            Some(n) => Ok(Number::from_integer(n as i64)),
            None => Err(DecodeError::InvalidNumber),
        }
    }
}

/// One end of a range of values.
#[derive(Clone, Copy, Debug, PartialEq, Eq, Structural)]
pub enum ValueInRange {
    /// Above the number.
    Above(Number),
    /// Below the number.
    Below(Number),
    /// The number itself.
    Exact(Number),
}

impl ValueInRange {
    /// The number that the value carries.
    pub open spec fn payload(self) -> Number {
        match self {
            ValueInRange::Above(x) => x,
            ValueInRange::Below(x) => x,
            ValueInRange::Exact(x) => x,
        }
    }

    /// The same kind of value around another number.
    pub open spec fn with_payload(self, x: Number) -> ValueInRange {
        match self {
            ValueInRange::Above(_) => ValueInRange::Above(x),
            ValueInRange::Below(_) => ValueInRange::Below(x),
            ValueInRange::Exact(_) => ValueInRange::Exact(x),
        }
    }

    pub open spec fn wf(self) -> bool {
        self.payload().wf()
    }

    pub open spec fn can_scale(self, k: int) -> bool {
        self.payload().can_scale(k)
    }

    /// The value that a token `P<n>`, `M<n>` or `<n>` spells.
    pub open spec fn of_token(s: Seq<char>) -> Option<ValueInRange> {
        if s.len() > 0 && s[0] == 'P' {
            match number_of(s.subrange(1, s.len() as int)) {
                Some(x) => Some(ValueInRange::Above(x)),
                None => None,
            }
        } else if s.len() > 0 && s[0] == 'M' {
            match number_of(s.subrange(1, s.len() as int)) {
                Some(x) => Some(ValueInRange::Below(x)),
                None => None,
            }
        } else {
            match number_of(s) {
                Some(x) => Some(ValueInRange::Exact(x)),
                None => None,
            }
        }
    }

    pub fn from_chars(token: &[char]) -> (r: Result<ValueInRange, DecodeError>)
        ensures
            r == token_result(ValueInRange::of_token(token@), DecodeError::InvalidNumber),
            r is Ok ==> r->Ok_0.wf(),
    {
        if token.len() > 0 && token[0] == 'P' {
            match parse_value(slice_subrange(token, 1, token.len())) {
                Ok(x) => Ok(ValueInRange::Above(x)),
                Err(e) => Err(e),
            }
        } else if token.len() > 0 && token[0] == 'M' {
            match parse_value(slice_subrange(token, 1, token.len())) {
                Ok(x) => Ok(ValueInRange::Below(x)),
                Err(e) => Err(e),
            }
        } else {
            match parse_value(token) {
                Ok(x) => Ok(ValueInRange::Exact(x)),
                Err(e) => Err(e),
            }
        }
    }

    /// Reads a token `P<n>`, `M<n>` or `<n>`, where `<n>` is a whole number, a
    /// fraction `a/b` or a mixed number `n a/b`.
    pub fn from_str(s: &str) -> (r: Result<ValueInRange, DecodeError>)
        ensures
            r == token_result(ValueInRange::of_token(s@), DecodeError::InvalidNumber),
    {
        let token = chars_of(s);
        ValueInRange::from_chars(token.as_slice())
    }

    /// The value `k` times as large.
    pub fn mul(self, rhs: u32) -> (r: ValueInRange)
        requires
            self.can_scale(rhs as int),
        ensures
            r == self.with_payload(self.payload().times(rhs as int)),
    {
        match self {
            ValueInRange::Above(x) => ValueInRange::Above(x.mul(rhs)),
            ValueInRange::Below(x) => ValueInRange::Below(x.mul(rhs)),
            ValueInRange::Exact(x) => ValueInRange::Exact(x.mul(rhs)),
        }
    }

    /// The value divided by `k`.
    pub fn div(self, rhs: u32) -> (r: ValueInRange)
        requires
            self.wf(),
            rhs > 0,
            self.can_scale(rhs as int),
        ensures
            r == self.with_payload(self.payload().over(rhs as int)),
    {
        match self {
            ValueInRange::Above(x) => ValueInRange::Above(x.div(rhs)),
            ValueInRange::Below(x) => ValueInRange::Below(x.div(rhs)),
            ValueInRange::Exact(x) => ValueInRange::Exact(x.div(rhs)),
        }
    }
}

/// A value as a report gives it.
#[derive(Clone, Copy, Debug, PartialEq, Eq, Structural)]
pub enum Value {
    /// Variable, with no number.
    Variable,
    /// Above the number.
    Above(Number),
    /// Below the number.
    Below(Number),
    /// Between two values.
    Range(ValueInRange, ValueInRange),
    /// The number itself.
    Exact(Number),
}

impl Value {
    pub open spec fn wf(self) -> bool {
        match self {
            Value::Variable => true,
            Value::Above(x) => x.wf(),
            Value::Below(x) => x.wf(),
            Value::Range(a, b) => a.wf() && b.wf(),
            Value::Exact(x) => x.wf(),
        }
    }

    pub open spec fn can_scale(self, k: int) -> bool {
        match self {
            Value::Variable => true,
            Value::Above(x) => x.can_scale(k),
            Value::Below(x) => x.can_scale(k),
            Value::Range(a, b) => a.can_scale(k) && b.can_scale(k),
            Value::Exact(x) => x.can_scale(k),
        }
    }

    /// The value `k` times as large: the same variant, each number in it
    /// multiplied.
    pub open spec fn times(self, k: int) -> Value {
        match self {
            Value::Variable => Value::Variable,
            Value::Above(x) => Value::Above(x.times(k)),
            Value::Below(x) => Value::Below(x.times(k)),
            Value::Range(a, b) => Value::Range(
                a.with_payload(a.payload().times(k)),
                b.with_payload(b.payload().times(k)),
            ),
            Value::Exact(x) => Value::Exact(x.times(k)),
        }
    }

    /// The value divided by `k`: the same variant, each number in it divided.
    pub open spec fn over(self, k: int) -> Value {
        match self {
            Value::Variable => Value::Variable,
            Value::Above(x) => Value::Above(x.over(k)),
            Value::Below(x) => Value::Below(x.over(k)),
            Value::Range(a, b) => Value::Range(
                a.with_payload(a.payload().over(k)),
                b.with_payload(b.payload().over(k)),
            ),
            Value::Exact(x) => Value::Exact(x.over(k)),
        }
    }

    /// Whether both are the same variant around numbers of the same value.
    pub open spec fn same_value(self, other: Value) -> bool {
        match (self, other) {
            (Value::Variable, Value::Variable) => true,
            (Value::Above(x), Value::Above(y)) => x.same_value(y),
            (Value::Below(x), Value::Below(y)) => x.same_value(y),
            (Value::Exact(x), Value::Exact(y)) => x.same_value(y),
            (Value::Range(a, b), Value::Range(c, d)) => {
                &&& a.with_payload(c.payload()) == c
                &&& b.with_payload(d.payload()) == d
                &&& a.payload().same_value(c.payload())
                &&& b.payload().same_value(d.payload())
            },
            _ => false,
        }
    }

    /// The value that a token spells: `VRB`, `<a>V<b>`, `P<n>`, `M<n>` or `<n>`.
    pub open spec fn of_token(s: Seq<char>) -> Option<Value> {
        let v = find_char(s, 'V', 0);
        if word3(s, 'V', 'R', 'B') {
            Some(Value::Variable)
        } else if v < s.len() {
            match (
                ValueInRange::of_token(s.subrange(0, v)),
                ValueInRange::of_token(s.subrange(v + 1, s.len() as int)),
            ) {
                (Some(a), Some(b)) => Some(Value::Range(a, b)),
                _ => None,
            }
        } else {
            match ValueInRange::of_token(s) {
                Some(ValueInRange::Above(x)) => Some(Value::Above(x)),
                Some(ValueInRange::Below(x)) => Some(Value::Below(x)),
                Some(ValueInRange::Exact(x)) => Some(Value::Exact(x)),
                None => None,
            }
        }
    }

    pub fn from_chars(token: &[char]) -> (r: Result<Value, DecodeError>)
        ensures
            r == token_result(Value::of_token(token@), DecodeError::InvalidNumber),
            r is Ok ==> r->Ok_0.wf(),
    {
        let v = find(token, 'V', 0);
        if is_word3(token, 'V', 'R', 'B') {
            Ok(Value::Variable)
        } else if v < token.len() {
            let a = ValueInRange::from_chars(slice_subrange(token, 0, v));
            let b = ValueInRange::from_chars(slice_subrange(token, v + 1, token.len()));
            match (a, b) {
                (Ok(a), Ok(b)) => Ok(Value::Range(a, b)),
                _ => Err(DecodeError::InvalidNumber),
            }
        } else {
            match ValueInRange::from_chars(token) {
                Ok(ValueInRange::Above(x)) => Ok(Value::Above(x)),
                Ok(ValueInRange::Below(x)) => Ok(Value::Below(x)),
                Ok(ValueInRange::Exact(x)) => Ok(Value::Exact(x)),
                Err(e) => Err(e),
            }
        }
    }

    /// Reads a token `VRB`, `<a>V<b>`, `P<n>`, `M<n>` or `<n>`, where `<n>` is a
    /// whole number, a fraction `a/b` or a mixed number `n a/b`, and `<a>`, `<b>`
    /// are `<n>` with or without `P` or `M` in front.
    pub fn from_str(s: &str) -> (r: Result<Value, DecodeError>)
        ensures
            r == token_result(Value::of_token(s@), DecodeError::InvalidNumber),
    {
        let token = chars_of(s);
        Value::from_chars(token.as_slice())
    }

    /// The value `rhs` times as large.
    pub fn mul(self, rhs: u32) -> (r: Value)
        requires
            self.can_scale(rhs as int),
        ensures
            r == self.times(rhs as int),
    {
        match self {
            Value::Variable => Value::Variable,
            Value::Above(x) => Value::Above(x.mul(rhs)),
            Value::Below(x) => Value::Below(x.mul(rhs)),
            Value::Range(a, b) => Value::Range(a.mul(rhs), b.mul(rhs)),
            Value::Exact(x) => Value::Exact(x.mul(rhs)),
        }
    }

    /// The value divided by `rhs`.
    pub fn div(self, rhs: u32) -> (r: Value)
        requires
            self.wf(),
            rhs > 0,
            self.can_scale(rhs as int),
        ensures
            r == self.over(rhs as int),
    {
        match self {
            Value::Variable => Value::Variable,
            Value::Above(x) => Value::Above(x.div(rhs)),
            Value::Below(x) => Value::Below(x.div(rhs)),
            Value::Range(a, b) => Value::Range(a.div(rhs), b.div(rhs)),
            Value::Exact(x) => Value::Exact(x.div(rhs)),
        }
    }
}

/// Scaling a value by `k` and back, in either order, keeps its variant and
/// the value of every number in it.
pub proof fn lemma_scale_round_trip(v: Value, k: int)
    requires
        v.wf(),
        k > 0,
        v.can_scale(k),
    ensures
        v.times(k).over(k).same_value(v),
        v.over(k).times(k).same_value(v),
{
    match v {
        Value::Variable => {},
        Value::Above(x) => lemma_number_scale_round_trip(x, k),
        Value::Below(x) => lemma_number_scale_round_trip(x, k),
        Value::Exact(x) => lemma_number_scale_round_trip(x, k),
        Value::Range(a, b) => {
            lemma_number_scale_round_trip(a.payload(), k);
            lemma_number_scale_round_trip(b.payload(), k);
        },
    }
}

/// Physical quantity: a value and its unit.
#[derive(Clone, Copy, Debug, PartialEq, Eq, Structural)]
pub struct Quantity {
    pub value: Value,
    pub units: Unit,
}

impl Quantity {
    pub open spec fn wf(self) -> bool {
        self.value.wf()
    }

    /// The quantity of `value`, if there is one.
    pub open spec fn of(value: Option<Value>, units: Unit) -> Option<Quantity> {
        match value {
            Some(v) => Some(Quantity { value: v, units }),
            None => None,
        }
    }

    /// The exact whole number `n` of `units`.
    pub open spec fn exact(n: int, units: Unit) -> Quantity {
        Quantity { value: Value::Exact(Number::of_int(n)), units }
    }

    pub fn new(value: Value, units: Unit) -> (q: Quantity)
        ensures
            q == (Quantity { value, units }),
    {
        Quantity { value, units }
    }

    pub fn new_opt(value: Option<Value>, units: Unit) -> (q: Option<Quantity>)
        ensures
            q == Quantity::of(value, units),
    {
        match value {
            Some(v) => Some(Quantity { value: v, units }),
            None => None,
        }
    }
}

} // verus!
