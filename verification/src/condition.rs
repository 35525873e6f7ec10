//! General boolean condition and index bound checks.

use vstd::prelude::*;

use crate::decimal::decimal_digits;
use crate::decimal::decimal_string;
use crate::error::ArgumentError;
use crate::error::ArgumentResult;

verus! {

/// Checks that an argument condition holds.
///
/// Succeeds exactly when `condition` is true; fails with a generic message
/// otherwise.
pub fn check_argument(condition: bool) -> (r: ArgumentResult<()>)
    ensures
        r is Ok <==> condition,
        r matches Err(e) ==> e@ == "Argument condition not satisfied"@,
{
    if !condition {
        return Err(ArgumentError::new("Argument condition not satisfied"));
    }
    Ok(())
}

/// Checks that an argument condition holds, failing with the given message.
pub fn check_argument_with_message(condition: bool, message: &str) -> (r: ArgumentResult<()>)
    ensures
        r is Ok <==> condition,
        r matches Err(e) ==> e@ == message@,
{
    if !condition {
        return Err(ArgumentError::new(message));
    }
    Ok(())
}

/// Checks that an argument condition holds, failing with a message the caller
/// has already formatted.
pub fn check_argument_fmt(condition: bool, message: String) -> (r: ArgumentResult<()>)
    ensures
        r is Ok <==> condition,
        r matches Err(e) ==> e@ == message@,
{
    if !condition {
        return Err(ArgumentError::new(message.as_str()));
    }
    Ok(())
}

/// Checks that a state condition holds.
///
/// Same behaviour as [`check_argument`]; the name signals that the failed
/// condition is about an object's or the system's state, not about an input.
pub fn check_state(condition: bool) -> (r: ArgumentResult<()>)
    ensures
        r is Ok <==> condition,
        r matches Err(e) ==> e@ == "State condition not satisfied"@,
{
    if !condition {
        return Err(ArgumentError::new("State condition not satisfied"));
    }
    Ok(())
}

/// Checks that a state condition holds, failing with the given message.
pub fn check_state_with_message(condition: bool, message: &str) -> (r: ArgumentResult<()>)
    ensures
        r is Ok <==> condition,
        r matches Err(e) ==> e@ == message@,
{
    if !condition {
        return Err(ArgumentError::new(message));
    }
    Ok(())
}

/// Checks that the sub-range starting at `offset` with the given `length`
/// lies within a buffer of size `total_length`.
///
/// Succeeds exactly when `offset <= total_length` and
/// `length <= total_length - offset`; the comparison never underflows. Each
/// of the two failure conditions produces the error naming the offending
/// values.
pub fn check_bounds(offset: usize, length: usize, total_length: usize) -> (r: ArgumentResult<()>)
    ensures
        r is Ok <==> offset <= total_length && length <= total_length - offset,
        offset > total_length ==> (r matches Err(e) && e@ == "Offset "@ + decimal_digits(
            offset as nat,
        ) + " exceeds total length "@ + decimal_digits(total_length as nat)),
        offset <= total_length && length > total_length - offset ==> (r matches Err(e) && e@
            == "Length "@ + decimal_digits(length as nat) + " starting from offset "@
            + decimal_digits(offset as nat) + " exceeds total length "@ + decimal_digits(
            total_length as nat,
        )),
{
    if offset > total_length {
        let mut m = String::new();
        m.append("Offset ");
        m.append(decimal_string(offset as u128).as_str());
        m.append(" exceeds total length ");
        m.append(decimal_string(total_length as u128).as_str());
        proof {
            assert(m@ =~= "Offset "@ + decimal_digits(offset as nat)
                + " exceeds total length "@ + decimal_digits(total_length as nat));
        }
        return Err(ArgumentError::new(m.as_str()));
    }

    if length > total_length - offset {
        let mut m = String::new();
        m.append("Length ");
        m.append(decimal_string(length as u128).as_str());
        m.append(" starting from offset ");
        m.append(decimal_string(offset as u128).as_str());
        m.append(" exceeds total length ");
        m.append(decimal_string(total_length as u128).as_str());
        proof {
            assert(m@ =~= "Length "@ + decimal_digits(length as nat) + " starting from offset "@
                + decimal_digits(offset as nat) + " exceeds total length "@ + decimal_digits(
                total_length as nat,
            ));
        }
        return Err(ArgumentError::new(m.as_str()));
    }

    Ok(())
}

/// Checks that `index` can read an existing element of a collection of the
/// given `size`, i.e. lies in `[0, size)`.
///
/// Returns the index unchanged on success; fails with the error naming the
/// index and the valid range.
pub fn check_element_index(index: usize, size: usize) -> (r: ArgumentResult<usize>)
    ensures
        r is Ok <==> index < size,
        r matches Ok(i) ==> i == index,
        r matches Err(e) ==> e@ == "Index "@ + decimal_digits(index as nat)
            + " out of range [0, "@ + decimal_digits(size as nat) + ")"@,
{
    if index >= size {
        let mut m = String::new();
        m.append("Index ");
        m.append(decimal_string(index as u128).as_str());
        m.append(" out of range [0, ");
        m.append(decimal_string(size as u128).as_str());
        m.append(")");
        proof {
            assert(m@ =~= "Index "@ + decimal_digits(index as nat) + " out of range [0, "@
                + decimal_digits(size as nat) + ")"@);
        }
        return Err(ArgumentError::new(m.as_str()));
    }
    Ok(index)
}

/// Checks that `index` is a valid insertion position for a collection of the
/// given `size`, i.e. lies in `[0, size]`.
///
/// Returns the index unchanged on success; fails with the error naming the
/// index and the valid range.
pub fn check_position_index(index: usize, size: usize) -> (r: ArgumentResult<usize>)
    ensures
        r is Ok <==> index <= size,
        r matches Ok(i) ==> i == index,
        r matches Err(e) ==> e@ == "Position index "@ + decimal_digits(index as nat)
            + " out of range [0, "@ + decimal_digits(size as nat) + "]"@,
{
    if index > size {
        let mut m = String::new();
        m.append("Position index ");
        m.append(decimal_string(index as u128).as_str());
        m.append(" out of range [0, ");
        m.append(decimal_string(size as u128).as_str());
        m.append("]");
        proof {
            assert(m@ =~= "Position index "@ + decimal_digits(index as nat)
                + " out of range [0, "@ + decimal_digits(size as nat) + "]"@);
        }
        return Err(ArgumentError::new(m.as_str()));
    }
    Ok(index)
}

/// Checks that `start..end` is a valid position range for a collection of the
/// given `size`.
///
/// Succeeds exactly when `start <= end` and `end <= size`; an inverted pair
/// of indexes is reported before an end index out of range.
pub fn check_position_indexes(start: usize, end: usize, size: usize) -> (r: ArgumentResult<()>)
    ensures
        r is Ok <==> start <= end && end <= size,
        start > end ==> (r matches Err(e) && e@ == "Start index "@ + decimal_digits(start as nat)
            + " is greater than end index "@ + decimal_digits(end as nat)),
        start <= end && end > size ==> (r matches Err(e) && e@ == "End index "@ + decimal_digits(
            end as nat,
        ) + " out of range [0, "@ + decimal_digits(size as nat) + "]"@),
{
    if start > end {
        let mut m = String::new();
        m.append("Start index ");
        m.append(decimal_string(start as u128).as_str());
        m.append(" is greater than end index ");
        m.append(decimal_string(end as u128).as_str());
        proof {
            assert(m@ =~= "Start index "@ + decimal_digits(start as nat)
                + " is greater than end index "@ + decimal_digits(end as nat));
        }
        return Err(ArgumentError::new(m.as_str()));
    }

    if end > size {
        let mut m = String::new();
        m.append("End index ");
        m.append(decimal_string(end as u128).as_str());
        m.append(" out of range [0, ");
        m.append(decimal_string(size as u128).as_str());
        m.append("]");
        proof {
            assert(m@ =~= "End index "@ + decimal_digits(end as nat) + " out of range [0, "@
                + decimal_digits(size as nat) + "]"@);
        }
        return Err(ArgumentError::new(m.as_str()));
    }

    Ok(())
}

} // verus!
