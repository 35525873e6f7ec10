//! Validation of sized collections: emptiness, length and element presence.

use vstd::prelude::*;
use vstd::slice::slice_index_get;

use crate::decimal::decimal_digits;
use crate::decimal::decimal_string;
use crate::error::ArgumentError;
use crate::error::ArgumentResult;

verus! {

/// Validation operations for sized collections, offered uniformly on slices
/// and on `Vec`.
///
/// Each check returns a reference to the original collection on success, so
/// calls can be chained. Lengths count elements, unlike the string checks,
/// which count bytes. Failure messages are pinned exactly, with lengths
/// rendered through [`crate::decimal_digits`].
pub trait CollectionArgument {
    /// The number of elements the collection holds.
    spec fn element_count(&self) -> nat;

    /// Requires the collection to hold at least one element.
    fn require_non_empty(&self, name: &str) -> (r: ArgumentResult<&Self>)
        ensures
            r is Ok <==> self.element_count() > 0,
            r matches Ok(v) ==> v == self,
            r matches Err(e) ==> e@ == "Collection '"@ + name@ + "' cannot be empty"@,
    ;

    /// Requires the element count to equal `length`.
    fn require_length_be(&self, name: &str, length: usize) -> (r: ArgumentResult<&Self>)
        ensures
            r is Ok <==> self.element_count() == length,
            r matches Ok(v) ==> v == self,
            r matches Err(e) ==> e@ == "Collection '"@ + name@ + "' length must be "@
                + decimal_digits(length as nat) + " but was "@ + decimal_digits(
                self.element_count(),
            ),
    ;

    /// Requires the element count to be at least `min_length`.
    fn require_length_at_least(&self, name: &str, min_length: usize) -> (r: ArgumentResult<
        &Self,
    >)
        ensures
            r is Ok <==> min_length <= self.element_count(),
            r matches Ok(v) ==> v == self,
            r matches Err(e) ==> e@ == "Collection '"@ + name@ + "' length must be at least "@
                + decimal_digits(min_length as nat) + " but was "@ + decimal_digits(
                self.element_count(),
            ),
    ;

    /// Requires the element count to be at most `max_length`.
    fn require_length_at_most(&self, name: &str, max_length: usize) -> (r: ArgumentResult<&Self>)
        ensures
            r is Ok <==> self.element_count() <= max_length,
            r matches Ok(v) ==> v == self,
            r matches Err(e) ==> e@ == "Collection '"@ + name@ + "' length must be at most "@
                + decimal_digits(max_length as nat) + " but was "@ + decimal_digits(
                self.element_count(),
            ),
    ;

    /// Requires the element count to lie in `[min_length, max_length]`.
    fn require_length_in_range(&self, name: &str, min_length: usize, max_length: usize) -> (r:
        ArgumentResult<&Self>)
        ensures
            r is Ok <==> min_length <= self.element_count() && self.element_count()
                <= max_length,
            r matches Ok(v) ==> v == self,
            r matches Err(e) ==> e@ == "Collection '"@ + name@ + "' length must be in range ["@
                + decimal_digits(min_length as nat) + ", "@ + decimal_digits(max_length as nat)
                + "] but was "@ + decimal_digits(self.element_count()),
    ;
}

impl<T> CollectionArgument for [T] {
    open spec fn element_count(&self) -> nat {
        self@.len()
    }

    fn require_non_empty(&self, name: &str) -> (r: ArgumentResult<&[T]>) {
        if self.is_empty() {
            let mut m = String::new();
            m.append("Collection '");
            m.append(name);
            m.append("' cannot be empty");
            proof {
                assert(m@ =~= "Collection '"@ + name@ + "' cannot be empty"@);
            }
            return Err(ArgumentError::new(m.as_str()));
        }
        Ok(self)
    }

    fn require_length_be(&self, name: &str, length: usize) -> (r: ArgumentResult<&[T]>) {
        let actual_length = self.len();
        if actual_length != length {
            let mut m = String::new();
            m.append("Collection '");
            m.append(name);
            m.append("' length must be ");
            m.append(decimal_string(length as u128).as_str());
            m.append(" but was ");
            m.append(decimal_string(actual_length as u128).as_str());
            proof {
                assert(m@ =~= "Collection '"@ + name@ + "' length must be "@ + decimal_digits(
                    length as nat,
                ) + " but was "@ + decimal_digits(self.element_count()));
            }
            return Err(ArgumentError::new(m.as_str()));
        }
        Ok(self)
    }

    fn require_length_at_least(&self, name: &str, min_length: usize) -> (r: ArgumentResult<
        &[T],
    >) {
        let actual_length = self.len();
        if actual_length < min_length {
            let mut m = String::new();
            m.append("Collection '");
            m.append(name);
            m.append("' length must be at least ");
            m.append(decimal_string(min_length as u128).as_str());
            m.append(" but was ");
            m.append(decimal_string(actual_length as u128).as_str());
            proof {
                assert(m@ =~= "Collection '"@ + name@ + "' length must be at least "@
                    + decimal_digits(min_length as nat) + " but was "@ + decimal_digits(
                    self.element_count(),
                ));
            }
            return Err(ArgumentError::new(m.as_str()));
        }
        Ok(self)
    }

    fn require_length_at_most(&self, name: &str, max_length: usize) -> (r: ArgumentResult<&[T]>) {
        let actual_length = self.len();
        if actual_length > max_length {
            let mut m = String::new();
            m.append("Collection '");
            m.append(name);
            m.append("' length must be at most ");
            m.append(decimal_string(max_length as u128).as_str());
            m.append(" but was ");
            m.append(decimal_string(actual_length as u128).as_str());
            proof {
                assert(m@ =~= "Collection '"@ + name@ + "' length must be at most "@
                    + decimal_digits(max_length as nat) + " but was "@ + decimal_digits(
                    self.element_count(),
                ));
            }
            return Err(ArgumentError::new(m.as_str()));
        }
        Ok(self)
    }

    fn require_length_in_range(&self, name: &str, min_length: usize, max_length: usize) -> (r:
        ArgumentResult<&[T]>) {
        let actual_length = self.len();
        if actual_length < min_length || actual_length > max_length {
            let mut m = String::new();
            m.append("Collection '");
            m.append(name);
            m.append("' length must be in range [");
            m.append(decimal_string(min_length as u128).as_str());
            m.append(", ");
            m.append(decimal_string(max_length as u128).as_str());
            m.append("] but was ");
            m.append(decimal_string(actual_length as u128).as_str());
            proof {
                assert(m@ =~= "Collection '"@ + name@ + "' length must be in range ["@
                    + decimal_digits(min_length as nat) + ", "@ + decimal_digits(
                    max_length as nat,
                ) + "] but was "@ + decimal_digits(self.element_count()));
            }
            return Err(ArgumentError::new(m.as_str()));
        }
        Ok(self)
    }
}

impl<T> CollectionArgument for Vec<T> {
    open spec fn element_count(&self) -> nat {
        self@.len()
    }

    fn require_non_empty(&self, name: &str) -> (r: ArgumentResult<&Vec<T>>) {
        match self.as_slice().require_non_empty(name) {
            Ok(_) => Ok(self),
            Err(e) => Err(e),
        }
    }

    fn require_length_be(&self, name: &str, length: usize) -> (r: ArgumentResult<&Vec<T>>) {
        match self.as_slice().require_length_be(name, length) {
            Ok(_) => Ok(self),
            Err(e) => Err(e),
        }
    }

    fn require_length_at_least(&self, name: &str, min_length: usize) -> (r: ArgumentResult<
        &Vec<T>,
    >) {
        match self.as_slice().require_length_at_least(name, min_length) {
            Ok(_) => Ok(self),
            Err(e) => Err(e),
        }
    }

    fn require_length_at_most(&self, name: &str, max_length: usize) -> (r: ArgumentResult<
        &Vec<T>,
    >) {
        match self.as_slice().require_length_at_most(name, max_length) {
            Ok(_) => Ok(self),
            Err(e) => Err(e),
        }
    }

    fn require_length_in_range(&self, name: &str, min_length: usize, max_length: usize) -> (r:
        ArgumentResult<&Vec<T>>) {
        match self.as_slice().require_length_in_range(name, min_length, max_length) {
            Ok(_) => Ok(self),
            Err(e) => Err(e),
        }
    }
}

/// A length range with `min > max` admits no length: the corresponding
/// [`CollectionArgument::require_length_in_range`] and
/// [`crate::StringArgument::require_length_in_range`] checks then fail for
/// every collection and every string.
pub proof fn lemma_inverted_length_range_is_empty(length: int, min: int, max: int)
    requires
        max < min,
    ensures
        !(min <= length && length <= max),
{
}

/// Requires every element of a collection of optional values to be present.
///
/// Succeeds exactly when no element is `None` (so it succeeds on an empty
/// collection); fails with the error naming the zero-based index of the
/// first absent element.
pub fn require_element_non_null<T>(name: &str, collection: &[Option<T>]) -> (r: ArgumentResult<
    (),
>)
    ensures
        r is Ok <==> forall|i: int|
            0 <= i < collection@.len() ==> (#[trigger] collection@[i]) is Some,
        r matches Err(e) ==> exists|i: int|
            #![auto]
            0 <= i < collection@.len() && collection@[i] is None && (forall|j: int|
                0 <= j < i ==> collection@[j] is Some) && e@ == "Collection '"@ + name@
                + "': element at index "@ + decimal_digits(i as nat) + " cannot be null"@,
{
    let n = collection.len();
    let mut index: usize = 0;
    while index < n
        invariant
            index <= n,
            n == collection@.len(),
            forall|i: int| 0 <= i < index ==> (#[trigger] collection@[i]) is Some,
        decreases n - index,
    {
        if slice_index_get(collection, index).is_none() {
            let mut m = String::new();
            m.append("Collection '");
            m.append(name);
            m.append("': element at index ");
            m.append(decimal_string(index as u128).as_str());
            m.append(" cannot be null");
            proof {
                assert(m@ =~= "Collection '"@ + name@ + "': element at index "@ + decimal_digits(
                    index as nat,
                ) + " cannot be null"@);
            }
            return Err(ArgumentError::new(m.as_str()));
        }
        index += 1;
    }
    Ok(())
}

} // verus!
