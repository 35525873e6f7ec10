//! Fluent argument and state validation helpers, together with two small
//! generic record containers (`Pair` and `Triple`).
//!
//! Every check inspects a caller-supplied value against a constraint and
//! returns either the value or an [`ArgumentError`] carrying a descriptive
//! message; the conditions under which each check succeeds are stated in its
//! contract and verified.

mod collection;
mod condition;
mod data_type;
mod decimal;
mod error;
mod numeric;
mod option;
mod pair;
mod string;
mod triple;

pub use collection::lemma_inverted_length_range_is_empty;
pub use collection::require_element_non_null;
pub use collection::CollectionArgument;
pub use condition::check_argument;
pub use condition::check_argument_fmt;
pub use condition::check_argument_with_message;
pub use condition::check_bounds;
pub use condition::check_element_index;
pub use condition::check_position_index;
pub use condition::check_position_indexes;
pub use condition::check_state;
pub use condition::check_state_with_message;
pub use data_type::DataType;
pub use data_type::DataTypeOf;
pub use decimal::decimal_digits;
pub use decimal::decimal_int;
pub use decimal::spec_digit;
pub use error::ArgumentError;
pub use error::ArgumentResult;
pub use numeric::lemma_inverted_range_is_empty;
pub use numeric::require_equal;
pub use numeric::require_not_equal;
pub use numeric::NumericArgument;
pub use option::require_null_or;
pub use option::OptionArgument;
pub use pair::lemma_pair_swap_involutive;
pub use pair::lemma_pair_tuple_round_trip;
pub use pair::Pair;
pub use string::is_blank;
pub use string::is_whitespace_char;
pub use string::regex_match;
pub use string::regex_source_spec;
pub use string::StringArgument;
pub use triple::lemma_triple_map_all_fields;
pub use triple::lemma_triple_tuple_round_trip;
pub use triple::Triple;
