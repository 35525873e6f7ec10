//! Validation of ordered numeric values: sign, range and comparison checks.

use vstd::prelude::*;

use crate::decimal::decimal_int;
use crate::decimal::decimal_string;
use crate::decimal::negative_decimal_string;
use crate::error::ArgumentError;
use crate::error::ArgumentResult;

verus! {

/// Validation operations for ordered numeric values.
///
/// Every check consumes the value by copy and hands it back unchanged on
/// success, so calls can be chained. The conditions are stated over the
/// type's strict order [`lt_spec`](NumericArgument::lt_spec) and its zero
/// value [`zero_spec`](NumericArgument::zero_spec); each implementation
/// proves that the order is a strict total order, which is what makes an
/// inverted range (`min > max`) empty for every value. Failure messages are
/// pinned exactly, with values rendered through
/// [`text_spec`](NumericArgument::text_spec).
pub trait NumericArgument: Sized + Copy {
    /// The strict order on values of this type.
    spec fn lt_spec(self, other: Self) -> bool;

    /// The type's zero value, against which the sign checks compare.
    spec fn zero_spec() -> Self;

    /// The textual form of the value, as it appears in error messages.
    spec fn text_spec(self) -> Seq<char>;

    /// The order is irreflexive, transitive and total.
    proof fn lemma_strict_total_order(a: Self, b: Self, c: Self)
        ensures
            !a.lt_spec(a),
            a.lt_spec(b) && b.lt_spec(c) ==> a.lt_spec(c),
            a != b ==> a.lt_spec(b) || b.lt_spec(a),
    ;

    /// Decides the strict order.
    fn lt(self, other: Self) -> (r: bool)
        ensures
            r == self.lt_spec(other),
    ;

    /// Decides equality.
    fn eq_val(self, other: Self) -> (r: bool)
        ensures
            r == (self == other),
    ;

    /// The type's zero value.
    fn zero() -> (r: Self)
        ensures
            r == Self::zero_spec(),
    ;

    /// Renders the value for error messages.
    fn text(self) -> (r: String)
        ensures
            r@ == self.text_spec(),
    ;


    /// Requires the value to be zero; returns it unchanged when it is.
    fn require_zero(self, name: &str) -> (r: ArgumentResult<Self>)
        ensures
            r is Ok <==> self == Self::zero_spec(),
            r matches Ok(v) ==> v == self,
            r matches Err(e) ==> e@ == "Parameter '"@ + name@ + "' must be zero but was: "@ + self.text_spec(),
    {
        if !self.eq_val(Self::zero()) {
            let mut m = String::new();
            m.append("Parameter '");
            m.append(name);
            m.append("' must be zero but was: ");
            m.append(self.text().as_str());
            proof {
                assert(m@ =~= "Parameter '"@ + name@ + "' must be zero but was: "@ + self.text_spec());
            }
            return Err(ArgumentError::new(m.as_str()));
        }
        Ok(self)
    }

    /// Requires the value to be non-zero; returns it unchanged when it is.
    fn require_non_zero(self, name: &str) -> (r: ArgumentResult<Self>)
        ensures
            r is Ok <==> self != Self::zero_spec(),
            r matches Ok(v) ==> v == self,
            r matches Err(e) ==> e@ == "Parameter '"@ + name@ + "' cannot be zero"@,
    {
        if self.eq_val(Self::zero()) {
            let mut m = String::new();
            m.append("Parameter '");
            m.append(name);
            m.append("' cannot be zero");
            proof {
                assert(m@ =~= "Parameter '"@ + name@ + "' cannot be zero"@);
            }
            return Err(ArgumentError::new(m.as_str()));
        }
        Ok(self)
    }

    /// Requires the value to be strictly greater than zero.
    fn require_positive(self, name: &str) -> (r: ArgumentResult<Self>)
        ensures
            r is Ok <==> Self::zero_spec().lt_spec(self),
            r matches Ok(v) ==> v == self,
            r matches Err(e) ==> e@ == "Parameter '"@ + name@ + "' must be positive but was: "@ + self.text_spec(),
    {
        if !Self::zero().lt(self) {
            let mut m = String::new();
            m.append("Parameter '");
            m.append(name);
            m.append("' must be positive but was: ");
            m.append(self.text().as_str());
            proof {
                assert(m@ =~= "Parameter '"@ + name@ + "' must be positive but was: "@ + self.text_spec());
            }
            return Err(ArgumentError::new(m.as_str()));
        }
        Ok(self)
    }

    /// Requires the value not to be less than zero.
    fn require_non_negative(self, name: &str) -> (r: ArgumentResult<Self>)
        ensures
            r is Ok <==> !self.lt_spec(Self::zero_spec()),
            r matches Ok(v) ==> v == self,
            r matches Err(e) ==> e@ == "Parameter '"@ + name@ + "' must be non-negative but was: "@ + self.text_spec(),
    {
        if self.lt(Self::zero()) {
            let mut m = String::new();
            m.append("Parameter '");
            m.append(name);
            m.append("' must be non-negative but was: ");
            m.append(self.text().as_str());
            proof {
                assert(m@ =~= "Parameter '"@ + name@ + "' must be non-negative but was: "@ + self.text_spec());
            }
            return Err(ArgumentError::new(m.as_str()));
        }
        Ok(self)
    }

    /// Requires the value to be strictly less than zero.
    fn require_negative(self, name: &str) -> (r: ArgumentResult<Self>)
        ensures
            r is Ok <==> self.lt_spec(Self::zero_spec()),
            r matches Ok(v) ==> v == self,
            r matches Err(e) ==> e@ == "Parameter '"@ + name@ + "' must be negative but was: "@ + self.text_spec(),
    {
        if !self.lt(Self::zero()) {
            let mut m = String::new();
            m.append("Parameter '");
            m.append(name);
            m.append("' must be negative but was: ");
            m.append(self.text().as_str());
            proof {
                assert(m@ =~= "Parameter '"@ + name@ + "' must be negative but was: "@ + self.text_spec());
            }
            return Err(ArgumentError::new(m.as_str()));
        }
        Ok(self)
    }

    /// Requires the value not to be greater than zero.
    fn require_non_positive(self, name: &str) -> (r: ArgumentResult<Self>)
        ensures
            r is Ok <==> !Self::zero_spec().lt_spec(self),
            r matches Ok(v) ==> v == self,
            r matches Err(e) ==> e@ == "Parameter '"@ + name@ + "' must be non-positive but was: "@ + self.text_spec(),
    {
        if Self::zero().lt(self) {
            let mut m = String::new();
            m.append("Parameter '");
            m.append(name);
            m.append("' must be non-positive but was: ");
            m.append(self.text().as_str());
            proof {
                assert(m@ =~= "Parameter '"@ + name@ + "' must be non-positive but was: "@ + self.text_spec());
            }
            return Err(ArgumentError::new(m.as_str()));
        }
        Ok(self)
    }

    /// Requires the value to lie in the closed interval `[min, max]`.
    fn require_in_closed_range(self, name: &str, min: Self, max: Self) -> (r: ArgumentResult<Self>)
        ensures
            r is Ok <==> !self.lt_spec(min) && !max.lt_spec(self),
            r matches Ok(v) ==> v == self,
            r matches Err(e) ==> e@ == "Parameter '"@ + name@ + "' must be in range ["@ + min.text_spec() + ", "@ + max.text_spec() + "] but was: "@ + self.text_spec(),
    {
        if self.lt(min) || max.lt(self) {
            let mut m = String::new();
            m.append("Parameter '");
            m.append(name);
            m.append("' must be in range [");
            m.append(min.text().as_str());
            m.append(", ");
            m.append(max.text().as_str());
            m.append("] but was: ");
            m.append(self.text().as_str());
            proof {
                assert(m@ =~= "Parameter '"@ + name@ + "' must be in range ["@ + min.text_spec() + ", "@ + max.text_spec() + "] but was: "@ + self.text_spec());
            }
            return Err(ArgumentError::new(m.as_str()));
        }
        Ok(self)
    }

    /// Requires the value to lie in the open interval `(min, max)`.
    fn require_in_open_range(self, name: &str, min: Self, max: Self) -> (r: ArgumentResult<Self>)
        ensures
            r is Ok <==> min.lt_spec(self) && self.lt_spec(max),
            r matches Ok(v) ==> v == self,
            r matches Err(e) ==> e@ == "Parameter '"@ + name@ + "' must be in range ("@ + min.text_spec() + ", "@ + max.text_spec() + ") but was: "@ + self.text_spec(),
    {
        if !min.lt(self) || !self.lt(max) {
            let mut m = String::new();
            m.append("Parameter '");
            m.append(name);
            m.append("' must be in range (");
            m.append(min.text().as_str());
            m.append(", ");
            m.append(max.text().as_str());
            m.append(") but was: ");
            m.append(self.text().as_str());
            proof {
                assert(m@ =~= "Parameter '"@ + name@ + "' must be in range ("@ + min.text_spec() + ", "@ + max.text_spec() + ") but was: "@ + self.text_spec());
            }
            return Err(ArgumentError::new(m.as_str()));
        }
        Ok(self)
    }

    /// Requires the value to lie in the left-open interval `(min, max]`.
    fn require_in_left_open_range(self, name: &str, min: Self, max: Self) -> (r: ArgumentResult<Self>)
        ensures
            r is Ok <==> min.lt_spec(self) && !max.lt_spec(self),
            r matches Ok(v) ==> v == self,
            r matches Err(e) ==> e@ == "Parameter '"@ + name@ + "' must be in range ("@ + min.text_spec() + ", "@ + max.text_spec() + "] but was: "@ + self.text_spec(),
    {
        if !min.lt(self) || max.lt(self) {
            let mut m = String::new();
            m.append("Parameter '");
            m.append(name);
            m.append("' must be in range (");
            m.append(min.text().as_str());
            m.append(", ");
            m.append(max.text().as_str());
            m.append("] but was: ");
            m.append(self.text().as_str());
            proof {
                assert(m@ =~= "Parameter '"@ + name@ + "' must be in range ("@ + min.text_spec() + ", "@ + max.text_spec() + "] but was: "@ + self.text_spec());
            }
            return Err(ArgumentError::new(m.as_str()));
        }
        Ok(self)
    }

    /// Requires the value to lie in the right-open interval `[min, max)`.
    fn require_in_right_open_range(self, name: &str, min: Self, max: Self) -> (r: ArgumentResult<Self>)
        ensures
            r is Ok <==> !self.lt_spec(min) && self.lt_spec(max),
            r matches Ok(v) ==> v == self,
            r matches Err(e) ==> e@ == "Parameter '"@ + name@ + "' must be in range ["@ + min.text_spec() + ", "@ + max.text_spec() + ") but was: "@ + self.text_spec(),
    {
        if self.lt(min) || !self.lt(max) {
            let mut m = String::new();
            m.append("Parameter '");
            m.append(name);
            m.append("' must be in range [");
            m.append(min.text().as_str());
            m.append(", ");
            m.append(max.text().as_str());
            m.append(") but was: ");
            m.append(self.text().as_str());
            proof {
                assert(m@ =~= "Parameter '"@ + name@ + "' must be in range ["@ + min.text_spec() + ", "@ + max.text_spec() + ") but was: "@ + self.text_spec());
            }
            return Err(ArgumentError::new(m.as_str()));
        }
        Ok(self)
    }

    /// Requires the value to be strictly less than `max`.
    fn require_less(self, name: &str, max: Self) -> (r: ArgumentResult<Self>)
        ensures
            r is Ok <==> self.lt_spec(max),
            r matches Ok(v) ==> v == self,
            r matches Err(e) ==> e@ == "Parameter '"@ + name@ + "' must be less than "@ + max.text_spec() + " but was: "@ + self.text_spec(),
    {
        if !self.lt(max) {
            let mut m = String::new();
            m.append("Parameter '");
            m.append(name);
            m.append("' must be less than ");
            m.append(max.text().as_str());
            m.append(" but was: ");
            m.append(self.text().as_str());
            proof {
                assert(m@ =~= "Parameter '"@ + name@ + "' must be less than "@ + max.text_spec() + " but was: "@ + self.text_spec());
            }
            return Err(ArgumentError::new(m.as_str()));
        }
        Ok(self)
    }

    /// Requires the value not to be greater than `max`.
    fn require_less_equal(self, name: &str, max: Self) -> (r: ArgumentResult<Self>)
        ensures
            r is Ok <==> !max.lt_spec(self),
            r matches Ok(v) ==> v == self,
            r matches Err(e) ==> e@ == "Parameter '"@ + name@ + "' must be less than or equal to "@ + max.text_spec() + " but was: "@ + self.text_spec(),
    {
        if max.lt(self) {
            let mut m = String::new();
            m.append("Parameter '");
            m.append(name);
            m.append("' must be less than or equal to ");
            m.append(max.text().as_str());
            m.append(" but was: ");
            m.append(self.text().as_str());
            proof {
                assert(m@ =~= "Parameter '"@ + name@ + "' must be less than or equal to "@ + max.text_spec() + " but was: "@ + self.text_spec());
            }
            return Err(ArgumentError::new(m.as_str()));
        }
        Ok(self)
    }

    /// Requires the value to be strictly greater than `min`.
    fn require_greater(self, name: &str, min: Self) -> (r: ArgumentResult<Self>)
        ensures
            r is Ok <==> min.lt_spec(self),
            r matches Ok(v) ==> v == self,
            r matches Err(e) ==> e@ == "Parameter '"@ + name@ + "' must be greater than "@ + min.text_spec() + " but was: "@ + self.text_spec(),
    {
        if !min.lt(self) {
            let mut m = String::new();
            m.append("Parameter '");
            m.append(name);
            m.append("' must be greater than ");
            m.append(min.text().as_str());
            m.append(" but was: ");
            m.append(self.text().as_str());
            proof {
                assert(m@ =~= "Parameter '"@ + name@ + "' must be greater than "@ + min.text_spec() + " but was: "@ + self.text_spec());
            }
            return Err(ArgumentError::new(m.as_str()));
        }
        Ok(self)
    }

    /// Requires the value not to be less than `min`.
    fn require_greater_equal(self, name: &str, min: Self) -> (r: ArgumentResult<Self>)
        ensures
            r is Ok <==> !self.lt_spec(min),
            r matches Ok(v) ==> v == self,
            r matches Err(e) ==> e@ == "Parameter '"@ + name@ + "' must be greater than or equal to "@ + min.text_spec() + " but was: "@ + self.text_spec(),
    {
        if self.lt(min) {
            let mut m = String::new();
            m.append("Parameter '");
            m.append(name);
            m.append("' must be greater than or equal to ");
            m.append(min.text().as_str());
            m.append(" but was: ");
            m.append(self.text().as_str());
            proof {
                assert(m@ =~= "Parameter '"@ + name@ + "' must be greater than or equal to "@ + min.text_spec() + " but was: "@ + self.text_spec());
            }
            return Err(ArgumentError::new(m.as_str()));
        }
        Ok(self)
    }
}


impl NumericArgument for i8 {
    open spec fn lt_spec(self, other: i8) -> bool {
        self < other
    }

    open spec fn zero_spec() -> i8 {
        0
    }

    open spec fn text_spec(self) -> Seq<char> {
        decimal_int(self as int)
    }

    proof fn lemma_strict_total_order(a: i8, b: i8, c: i8) {
    }

    fn lt(self, other: i8) -> bool {
        self < other
    }

    fn eq_val(self, other: i8) -> bool {
        self == other
    }

    fn zero() -> i8 {
        0
    }

    fn text(self) -> (r: String) {
        if self >= 0 {
            decimal_string(self as u128)
        } else {
            let flipped: i8 = -(self + 1);
            let magnitude: u128 = (flipped as u128) + 1;
            proof {
                assert(magnitude as nat == (-(self as int)) as nat);
            }
            negative_decimal_string(magnitude)
        }
    }
}

impl NumericArgument for i16 {
    open spec fn lt_spec(self, other: i16) -> bool {
        self < other
    }

    open spec fn zero_spec() -> i16 {
        0
    }

    open spec fn text_spec(self) -> Seq<char> {
        decimal_int(self as int)
    }

    proof fn lemma_strict_total_order(a: i16, b: i16, c: i16) {
    }

    fn lt(self, other: i16) -> bool {
        self < other
    }

    fn eq_val(self, other: i16) -> bool {
        self == other
    }

    fn zero() -> i16 {
        0
    }

    fn text(self) -> (r: String) {
        if self >= 0 {
            decimal_string(self as u128)
        } else {
            let flipped: i16 = -(self + 1);
            let magnitude: u128 = (flipped as u128) + 1;
            proof {
                assert(magnitude as nat == (-(self as int)) as nat);
            }
            negative_decimal_string(magnitude)
        }
    }
}

impl NumericArgument for i32 {
    open spec fn lt_spec(self, other: i32) -> bool {
        self < other
    }

    open spec fn zero_spec() -> i32 {
        0
    }

    open spec fn text_spec(self) -> Seq<char> {
        decimal_int(self as int)
    }

    proof fn lemma_strict_total_order(a: i32, b: i32, c: i32) {
    }

    fn lt(self, other: i32) -> bool {
        self < other
    }

    fn eq_val(self, other: i32) -> bool {
        self == other
    }

    fn zero() -> i32 {
        0
    }

    fn text(self) -> (r: String) {
        if self >= 0 {
            decimal_string(self as u128)
        } else {
            let flipped: i32 = -(self + 1);
            let magnitude: u128 = (flipped as u128) + 1;
            proof {
                assert(magnitude as nat == (-(self as int)) as nat);
            }
            negative_decimal_string(magnitude)
        }
    }
}

impl NumericArgument for i64 {
    open spec fn lt_spec(self, other: i64) -> bool {
        self < other
    }

    open spec fn zero_spec() -> i64 {
        0
    }

    open spec fn text_spec(self) -> Seq<char> {
        decimal_int(self as int)
    }

    proof fn lemma_strict_total_order(a: i64, b: i64, c: i64) {
    }

    fn lt(self, other: i64) -> bool {
        self < other
    }

    fn eq_val(self, other: i64) -> bool {
        self == other
    }

    fn zero() -> i64 {
        0
    }

    fn text(self) -> (r: String) {
        if self >= 0 {
            decimal_string(self as u128)
        } else {
            let flipped: i64 = -(self + 1);
            let magnitude: u128 = (flipped as u128) + 1;
            proof {
                assert(magnitude as nat == (-(self as int)) as nat);
            }
            negative_decimal_string(magnitude)
        }
    }
}

impl NumericArgument for i128 {
    open spec fn lt_spec(self, other: i128) -> bool {
        self < other
    }

    open spec fn zero_spec() -> i128 {
        0
    }

    open spec fn text_spec(self) -> Seq<char> {
        decimal_int(self as int)
    }

    proof fn lemma_strict_total_order(a: i128, b: i128, c: i128) {
    }

    fn lt(self, other: i128) -> bool {
        self < other
    }

    fn eq_val(self, other: i128) -> bool {
        self == other
    }

    fn zero() -> i128 {
        0
    }

    fn text(self) -> (r: String) {
        if self >= 0 {
            decimal_string(self as u128)
        } else {
            let flipped: i128 = -(self + 1);
            let magnitude: u128 = (flipped as u128) + 1;
            proof {
                assert(magnitude as nat == (-(self as int)) as nat);
            }
            negative_decimal_string(magnitude)
        }
    }
}

impl NumericArgument for isize {
    open spec fn lt_spec(self, other: isize) -> bool {
        self < other
    }

    open spec fn zero_spec() -> isize {
        0
    }

    open spec fn text_spec(self) -> Seq<char> {
        decimal_int(self as int)
    }

    proof fn lemma_strict_total_order(a: isize, b: isize, c: isize) {
    }

    fn lt(self, other: isize) -> bool {
        self < other
    }

    fn eq_val(self, other: isize) -> bool {
        self == other
    }

    fn zero() -> isize {
        0
    }

    fn text(self) -> (r: String) {
        if self >= 0 {
            decimal_string(self as u128)
        } else {
            let flipped: isize = -(self + 1);
            let magnitude: u128 = (flipped as u128) + 1;
            proof {
                assert(magnitude as nat == (-(self as int)) as nat);
            }
            negative_decimal_string(magnitude)
        }
    }
}

impl NumericArgument for u8 {
    open spec fn lt_spec(self, other: u8) -> bool {
        self < other
    }

    open spec fn zero_spec() -> u8 {
        0
    }

    open spec fn text_spec(self) -> Seq<char> {
        decimal_int(self as int)
    }

    proof fn lemma_strict_total_order(a: u8, b: u8, c: u8) {
    }

    fn lt(self, other: u8) -> bool {
        self < other
    }

    fn eq_val(self, other: u8) -> bool {
        self == other
    }

    fn zero() -> u8 {
        0
    }

    fn text(self) -> (r: String) {
        decimal_string(self as u128)
    }
}

impl NumericArgument for u16 {
    open spec fn lt_spec(self, other: u16) -> bool {
        self < other
    }

    open spec fn zero_spec() -> u16 {
        0
    }

    open spec fn text_spec(self) -> Seq<char> {
        decimal_int(self as int)
    }

    proof fn lemma_strict_total_order(a: u16, b: u16, c: u16) {
    }

    fn lt(self, other: u16) -> bool {
        self < other
    }

    fn eq_val(self, other: u16) -> bool {
        self == other
    }

    fn zero() -> u16 {
        0
    }

    fn text(self) -> (r: String) {
        decimal_string(self as u128)
    }
}

impl NumericArgument for u32 {
    open spec fn lt_spec(self, other: u32) -> bool {
        self < other
    }

    open spec fn zero_spec() -> u32 {
        0
    }

    open spec fn text_spec(self) -> Seq<char> {
        decimal_int(self as int)
    }

    proof fn lemma_strict_total_order(a: u32, b: u32, c: u32) {
    }

    fn lt(self, other: u32) -> bool {
        self < other
    }

    fn eq_val(self, other: u32) -> bool {
        self == other
    }

    fn zero() -> u32 {
        0
    }

    fn text(self) -> (r: String) {
        decimal_string(self as u128)
    }
}

impl NumericArgument for u64 {
    open spec fn lt_spec(self, other: u64) -> bool {
        self < other
    }

    open spec fn zero_spec() -> u64 {
        0
    }

    open spec fn text_spec(self) -> Seq<char> {
        decimal_int(self as int)
    }

    proof fn lemma_strict_total_order(a: u64, b: u64, c: u64) {
    }

    fn lt(self, other: u64) -> bool {
        self < other
    }

    fn eq_val(self, other: u64) -> bool {
        self == other
    }

    fn zero() -> u64 {
        0
    }

    fn text(self) -> (r: String) {
        decimal_string(self as u128)
    }
}

impl NumericArgument for u128 {
    open spec fn lt_spec(self, other: u128) -> bool {
        self < other
    }

    open spec fn zero_spec() -> u128 {
        0
    }

    open spec fn text_spec(self) -> Seq<char> {
        decimal_int(self as int)
    }

    proof fn lemma_strict_total_order(a: u128, b: u128, c: u128) {
    }

    fn lt(self, other: u128) -> bool {
        self < other
    }

    fn eq_val(self, other: u128) -> bool {
        self == other
    }

    fn zero() -> u128 {
        0
    }

    fn text(self) -> (r: String) {
        decimal_string(self as u128)
    }
}

impl NumericArgument for usize {
    open spec fn lt_spec(self, other: usize) -> bool {
        self < other
    }

    open spec fn zero_spec() -> usize {
        0
    }

    open spec fn text_spec(self) -> Seq<char> {
        decimal_int(self as int)
    }

    proof fn lemma_strict_total_order(a: usize, b: usize, c: usize) {
    }

    fn lt(self, other: usize) -> bool {
        self < other
    }

    fn eq_val(self, other: usize) -> bool {
        self == other
    }

    fn zero() -> usize {
        0
    }

    fn text(self) -> (r: String) {
        decimal_string(self as u128)
    }
}

/// An inverted range is empty: when `max` lies strictly below `min`, no
/// value satisfies the success condition of any of the four interval checks
/// (closed, open, left-open, right-open).
pub proof fn lemma_inverted_range_is_empty<T: NumericArgument>(x: T, min: T, max: T)
    requires
        max.lt_spec(min),
    ensures
        !(!x.lt_spec(min) && !max.lt_spec(x)),
        !(min.lt_spec(x) && x.lt_spec(max)),
        !(min.lt_spec(x) && !max.lt_spec(x)),
        !(!x.lt_spec(min) && x.lt_spec(max)),
{
    T::lemma_strict_total_order(max, min, x);
    T::lemma_strict_total_order(x, max, min);
    T::lemma_strict_total_order(min, x, max);
    T::lemma_strict_total_order(min, max, min);
    T::lemma_strict_total_order(x, min, min);
}

/// Requires the two named values to be equal.
pub fn require_equal<T: NumericArgument>(
    name1: &str,
    value1: T,
    name2: &str,
    value2: T,
) -> (r: ArgumentResult<()>)
    ensures
        r is Ok <==> value1 == value2,
        r matches Err(e) ==> e@ == "Parameter '"@ + name1@ + "' ("@ + value1.text_spec()
            + ") must equal parameter '"@ + name2@ + "' ("@ + value2.text_spec() + ")"@,
{
    if !value1.eq_val(value2) {
        let mut m = String::new();
        m.append("Parameter '");
        m.append(name1);
        m.append("' (");
        m.append(value1.text().as_str());
        m.append(") must equal parameter '");
        m.append(name2);
        m.append("' (");
        m.append(value2.text().as_str());
        m.append(")");
        proof {
            assert(m@ =~= "Parameter '"@ + name1@ + "' ("@ + value1.text_spec()
                + ") must equal parameter '"@ + name2@ + "' ("@ + value2.text_spec() + ")"@);
        }
        return Err(ArgumentError::new(m.as_str()));
    }
    Ok(())
}

/// Requires the two named values to differ.
pub fn require_not_equal<T: NumericArgument>(
    name1: &str,
    value1: T,
    name2: &str,
    value2: T,
) -> (r: ArgumentResult<()>)
    ensures
        r is Ok <==> value1 != value2,
        r matches Err(e) ==> e@ == "Parameters '"@ + name1@ + "' and '"@ + name2@
            + "' cannot be equal (both are: "@ + value1.text_spec() + ")"@,
{
    if value1.eq_val(value2) {
        let mut m = String::new();
        m.append("Parameters '");
        m.append(name1);
        m.append("' and '");
        m.append(name2);
        m.append("' cannot be equal (both are: ");
        m.append(value1.text().as_str());
        m.append(")");
        proof {
            assert(m@ =~= "Parameters '"@ + name1@ + "' and '"@ + name2@
                + "' cannot be equal (both are: "@ + value1.text_spec() + ")"@);
        }
        return Err(ArgumentError::new(m.as_str()));
    }
    Ok(())
}

} // verus!
