//! Validation of optional values: presence and conditional content checks.

use vstd::prelude::*;

use crate::error::ArgumentError;
use crate::error::ArgumentResult;

verus! {

/// Validation operations for optional values.
///
/// A present value can be unwrapped, tested against a predicate, or handed
/// to a validator; an absent value either fails (`require_non_null`) or
/// passes trivially (`validate_if_present`).
pub trait OptionArgument<T>: Sized {
    /// The optional value being validated.
    spec fn value(&self) -> Option<T>;

    /// Unwraps a present value; fails when the value is absent.
    fn require_non_null(self, name: &str) -> (r: ArgumentResult<T>)
        ensures
            self.value() matches Some(v) ==> r matches Ok(rv) && rv == v,
            self.value() is None ==> (r matches Err(e) && e@ == "Parameter '"@ + name@
                + "' cannot be null"@),
    ;

    /// Unwraps a present value that satisfies `predicate`; fails when the
    /// value is absent or when the predicate rejects it.
    fn require_non_null_and<F: FnOnce(&T) -> bool>(
        self,
        name: &str,
        predicate: F,
        error_msg: &str,
    ) -> (r: ArgumentResult<T>)
        requires
            self.value() matches Some(v) ==> call_requires(predicate, (&v,)),
        ensures
            self.value() is None ==> (r matches Err(e) && e@ == "Parameter '"@ + name@
                + "' cannot be null"@),
            r matches Ok(rv) ==> self.value() matches Some(v) && rv == v && call_ensures(
                predicate,
                (&v,),
                true,
            ),
            self.value() matches Some(v) ==> (r matches Err(e) ==> call_ensures(
                predicate,
                (&v,),
                false,
            ) && e@ == "Parameter '"@ + name@ + "' "@ + error_msg@),
    ;

    /// Applies `validator` to a present value by reference, keeping the
    /// original optional on success and propagating the validator's error
    /// untouched on failure; an absent value passes trivially.
    fn validate_if_present<F: FnOnce(&T) -> ArgumentResult<T>>(self, name: &str, validator: F) -> (r:
        ArgumentResult<Option<T>>)
        requires
            self.value() matches Some(v) ==> call_requires(validator, (&v,)),
        ensures
            self.value() is None ==> (r matches Ok(o) && o is None),
            r matches Ok(o) ==> o == self.value(),
            self.value() matches Some(v) ==> (r is Ok ==> exists|t: T|
                call_ensures(validator, (&v,), Ok(t))),
            r matches Err(e) ==> self.value() matches Some(v) && call_ensures(
                validator,
                (&v,),
                Err(e),
            ),
    ;
}

impl<T> OptionArgument<T> for Option<T> {
    open spec fn value(&self) -> Option<T> {
        *self
    }

    fn require_non_null(self, name: &str) -> (r: ArgumentResult<T>) {
        match self {
            Some(value) => Ok(value),
            None => {
                let mut m = String::new();
                m.append("Parameter '");
                m.append(name);
                m.append("' cannot be null");
                proof {
                    assert(m@ =~= "Parameter '"@ + name@ + "' cannot be null"@);
                }
                Err(ArgumentError::new(m.as_str()))
            },
        }
    }

    fn require_non_null_and<F: FnOnce(&T) -> bool>(
        self,
        name: &str,
        predicate: F,
        error_msg: &str,
    ) -> (r: ArgumentResult<T>) {
        match self {
            Some(value) => {
                if predicate(&value) {
                    Ok(value)
                } else {
                    let mut m = String::new();
                    m.append("Parameter '");
                    m.append(name);
                    m.append("' ");
                    m.append(error_msg);
                    proof {
                        assert(m@ =~= "Parameter '"@ + name@ + "' "@ + error_msg@);
                    }
                    Err(ArgumentError::new(m.as_str()))
                }
            },
            None => {
                let mut m = String::new();
                m.append("Parameter '");
                m.append(name);
                m.append("' cannot be null");
                proof {
                    assert(m@ =~= "Parameter '"@ + name@ + "' cannot be null"@);
                }
                Err(ArgumentError::new(m.as_str()))
            },
        }
    }

    fn validate_if_present<F: FnOnce(&T) -> ArgumentResult<T>>(
        self,
        _name: &str,
        validator: F,
    ) -> (r: ArgumentResult<Option<T>>) {
        match self {
            None => Ok(None),
            Some(value) => match validator(&value) {
                Ok(_) => Ok(Some(value)),
                Err(e) => Err(e),
            },
        }
    }
}

/// Requires an optional value to be absent or to satisfy `predicate`.
///
/// An absent value passes trivially; a present value is returned inside the
/// original optional when the predicate accepts it.
pub fn require_null_or<T, F: FnOnce(&T) -> bool>(
    name: &str,
    value: Option<T>,
    predicate: F,
    error_msg: &str,
) -> (r: ArgumentResult<Option<T>>)
    requires
        value matches Some(v) ==> call_requires(predicate, (&v,)),
    ensures
        value is None ==> (r matches Ok(o) && o is None),
        r matches Ok(o) ==> o == value,
        value matches Some(v) ==> (r is Ok ==> call_ensures(predicate, (&v,), true)),
        r matches Err(e) ==> value matches Some(v) && call_ensures(predicate, (&v,), false) && e@
            == "Parameter '"@ + name@ + "' "@ + error_msg@,
{
    match value {
        None => Ok(None),
        Some(v) => {
            if !predicate(&v) {
                let mut m = String::new();
                m.append("Parameter '");
                m.append(name);
                m.append("' ");
                m.append(error_msg);
                proof {
                    assert(m@ =~= "Parameter '"@ + name@ + "' "@ + error_msg@);
                }
                return Err(ArgumentError::new(m.as_str()));
            }
            Ok(Some(v))
        },
    }
}

} // verus!
