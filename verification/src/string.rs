//! Validation of text: blankness, byte length and pattern matching.
//!
//! Lengths are measured in encoded UTF-8 bytes, not in characters, so a
//! multi-byte character counts as several units; the contracts state this
//! through [`encode_utf8`].

use vstd::prelude::*;
use vstd::string::StrSliceExecFns;
use vstd::string::StringSliceAdditionalSpecFns;
use vstd::utf8::encode_utf8;

use regex::Regex;

use crate::decimal::decimal_digits;
use crate::decimal::decimal_string;
use crate::error::ArgumentError;
use crate::error::ArgumentResult;

verus! {

/// Declares regex::Regex, a compiled regular expression, so that it can
/// stand in signatures; its values are opaque here.
#[verifier::external_type_specification]
#[verifier::external_body]
pub struct ExRegex(Regex);

/// Whether `c` counts as whitespace: the Unicode `White_Space` property,
/// which holds of exactly these twenty-five code points.
pub open spec fn is_whitespace_char(c: char) -> bool {
    let n = c as u32;
    (0x9 <= n && n <= 0xD) || n == 0x20 || n == 0x85 || n == 0xA0 || n == 0x1680 || (0x2000 <= n
        && n <= 0x200A) || n == 0x2028 || n == 0x2029 || n == 0x202F || n == 0x205F || n == 0x3000
}

/// Relies on char::is_whitespace: true exactly for the characters with the
/// Unicode White_Space property, the set written out in
/// [`is_whitespace_char`].
#[verifier::external_body]
fn char_is_whitespace(c: char) -> (r: bool)
    ensures
        r == is_whitespace_char(c),
{
    c.is_whitespace()
}

/// A string is blank when every character in it is whitespace; the empty
/// string is blank.
pub open spec fn is_blank(s: Seq<char>) -> bool {
    forall|i: int| 0 <= i < s.len() ==> is_whitespace_char(#[trigger] s[i])
}

/// Whether `text` contains a match of the compiled pattern, as
/// `Regex::is_match` decides it.
pub uninterp spec fn regex_match(pattern: Regex, text: Seq<char>) -> bool;

/// Relies on regex::Regex::is_match: whether the haystack contains a match
/// of the compiled pattern anywhere (partial, not anchored); the result is a
/// function of the regex and the text alone.
#[verifier::external_body]
fn regex_is_match(pattern: &Regex, text: &str) -> (r: bool)
    ensures
        r == regex_match(*pattern, text@),
{
    pattern.is_match(text)
}

/// The pattern source the regex was compiled from, as `Regex::as_str`
/// returns it.
pub uninterp spec fn regex_source_spec(pattern: Regex) -> Seq<char>;

/// Relies on regex::Regex::as_str: the pattern source the regex was compiled
/// from, a function of the regex alone. Used to quote the pattern in error
/// messages.
#[verifier::external_body]
fn regex_source(pattern: &Regex) -> (r: &str)
    ensures
        r@ == regex_source_spec(*pattern),
{
    pattern.as_str()
}

/// Validation operations for text, offered uniformly on borrowed (`str`) and
/// owned (`String`) storage.
///
/// Each check returns a reference to the original string on success, so
/// calls can be chained without transferring ownership.
pub trait StringArgument {
    /// The characters of the text.
    spec fn text_view(&self) -> Seq<char>;

    /// The length of the text in encoded UTF-8 bytes.
    spec fn byte_length(&self) -> usize;

    /// Requires the text to contain at least one non-whitespace character.
    fn require_non_blank(&self, name: &str) -> (r: ArgumentResult<&Self>)
        ensures
            r is Ok <==> !is_blank(self.text_view()),
            r matches Ok(v) ==> v == self,
            r matches Err(e) ==> e@ == "Parameter '"@ + name@
                + "' cannot be empty or contain only whitespace characters"@,
    ;

    /// Requires the byte length to equal `length`.
    fn require_length_be(&self, name: &str, length: usize) -> (r: ArgumentResult<&Self>)
        ensures
            r is Ok <==> self.byte_length() == length,
            r matches Ok(v) ==> v == self,
            r matches Err(e) ==> e@ == "Parameter '"@ + name@ + "' length must be "@
                + decimal_digits(length as nat) + " but was "@ + decimal_digits(
                self.byte_length() as nat,
            ),
    ;

    /// Requires the byte length to be at least `min_length`.
    fn require_length_at_least(&self, name: &str, min_length: usize) -> (r: ArgumentResult<
        &Self,
    >)
        ensures
            r is Ok <==> min_length <= self.byte_length(),
            r matches Ok(v) ==> v == self,
            r matches Err(e) ==> e@ == "Parameter '"@ + name@ + "' length must be at least "@
                + decimal_digits(min_length as nat) + " but was "@ + decimal_digits(
                self.byte_length() as nat,
            ),
    ;

    /// Requires the byte length to be at most `max_length`.
    fn require_length_at_most(&self, name: &str, max_length: usize) -> (r: ArgumentResult<&Self>)
        ensures
            r is Ok <==> self.byte_length() <= max_length,
            r matches Ok(v) ==> v == self,
            r matches Err(e) ==> e@ == "Parameter '"@ + name@ + "' length must be at most "@
                + decimal_digits(max_length as nat) + " but was "@ + decimal_digits(
                self.byte_length() as nat,
            ),
    ;

    /// Requires the byte length to lie in `[min_length, max_length]`.
    fn require_length_in_range(&self, name: &str, min_length: usize, max_length: usize) -> (r:
        ArgumentResult<&Self>)
        ensures
            r is Ok <==> min_length <= self.byte_length() && self.byte_length() <= max_length,
            r matches Ok(v) ==> v == self,
            r matches Err(e) ==> e@ == "Parameter '"@ + name@ + "' length must be in range ["@
                + decimal_digits(min_length as nat) + ", "@ + decimal_digits(max_length as nat)
                + "] but was "@ + decimal_digits(self.byte_length() as nat),
    ;

    /// Requires the text to contain a match of `pattern`.
    fn require_match(&self, name: &str, pattern: &Regex) -> (r: ArgumentResult<&Self>)
        ensures
            r is Ok <==> regex_match(*pattern, self.text_view()),
            r matches Ok(v) ==> v == self,
            r matches Err(e) ==> e@ == "Parameter '"@ + name@ + "' must match pattern '"@
                + regex_source_spec(*pattern) + "'"@,
    ;

    /// Requires the text to contain no match of `pattern`.
    fn require_not_match(&self, name: &str, pattern: &Regex) -> (r: ArgumentResult<&Self>)
        ensures
            r is Ok <==> !regex_match(*pattern, self.text_view()),
            r matches Ok(v) ==> v == self,
            r matches Err(e) ==> e@ == "Parameter '"@ + name@ + "' cannot match pattern '"@
                + regex_source_spec(*pattern) + "'"@,
    ;
}

impl StringArgument for str {
    open spec fn text_view(&self) -> Seq<char> {
        self@
    }

    open spec fn byte_length(&self) -> usize {
        self.spec_bytes().len() as usize
    }

    fn require_non_blank(&self, name: &str) -> (r: ArgumentResult<&str>) {
        let n = self.unicode_len();
        let mut i: usize = 0;
        while i < n
            invariant
                i <= n,
                n == self@.len(),
                forall|j: int| 0 <= j < i ==> is_whitespace_char(#[trigger] self@[j]),
            decreases n - i,
        {
            if !char_is_whitespace(self.get_char(i)) {
                return Ok(self);
            }
            i += 1;
        }
        let mut m = String::new();
        m.append("Parameter '");
        m.append(name);
        m.append("' cannot be empty or contain only whitespace characters");
        proof {
            assert(m@ =~= "Parameter '"@ + name@
                + "' cannot be empty or contain only whitespace characters"@);
        }
        Err(ArgumentError::new(m.as_str()))
    }

    fn require_length_be(&self, name: &str, length: usize) -> (r: ArgumentResult<&str>) {
        let actual_length = self.len();
        if actual_length != length {
            let mut m = String::new();
            m.append("Parameter '");
            m.append(name);
            m.append("' length must be ");
            m.append(decimal_string(length as u128).as_str());
            m.append(" but was ");
            m.append(decimal_string(actual_length as u128).as_str());
            proof {
                assert(m@ =~= "Parameter '"@ + name@ + "' length must be "@ + decimal_digits(
                    length as nat,
                ) + " but was "@ + decimal_digits(self.byte_length() as nat));
            }
            return Err(ArgumentError::new(m.as_str()));
        }
        Ok(self)
    }

    fn require_length_at_least(&self, name: &str, min_length: usize) -> (r: ArgumentResult<
        &str,
    >) {
        let actual_length = self.len();
        if actual_length < min_length {
            let mut m = String::new();
            m.append("Parameter '");
            m.append(name);
            m.append("' length must be at least ");
            m.append(decimal_string(min_length as u128).as_str());
            m.append(" but was ");
            m.append(decimal_string(actual_length as u128).as_str());
            proof {
                assert(m@ =~= "Parameter '"@ + name@ + "' length must be at least "@
                    + decimal_digits(min_length as nat) + " but was "@ + decimal_digits(
                    self.byte_length() as nat,
                ));
            }
            return Err(ArgumentError::new(m.as_str()));
        }
        Ok(self)
    }

    fn require_length_at_most(&self, name: &str, max_length: usize) -> (r: ArgumentResult<&str>) {
        let actual_length = self.len();
        if actual_length > max_length {
            let mut m = String::new();
            m.append("Parameter '");
            m.append(name);
            m.append("' length must be at most ");
            m.append(decimal_string(max_length as u128).as_str());
            m.append(" but was ");
            m.append(decimal_string(actual_length as u128).as_str());
            proof {
                assert(m@ =~= "Parameter '"@ + name@ + "' length must be at most "@
                    + decimal_digits(max_length as nat) + " but was "@ + decimal_digits(
                    self.byte_length() as nat,
                ));
            }
            return Err(ArgumentError::new(m.as_str()));
        }
        Ok(self)
    }

    fn require_length_in_range(&self, name: &str, min_length: usize, max_length: usize) -> (r:
        ArgumentResult<&str>) {
        let actual_length = self.len();
        if actual_length < min_length || actual_length > max_length {
            let mut m = String::new();
            m.append("Parameter '");
            m.append(name);
            m.append("' length must be in range [");
            m.append(decimal_string(min_length as u128).as_str());
            m.append(", ");
            m.append(decimal_string(max_length as u128).as_str());
            m.append("] but was ");
            m.append(decimal_string(actual_length as u128).as_str());
            proof {
                assert(m@ =~= "Parameter '"@ + name@ + "' length must be in range ["@
                    + decimal_digits(min_length as nat) + ", "@ + decimal_digits(
                    max_length as nat,
                ) + "] but was "@ + decimal_digits(self.byte_length() as nat));
            }
            return Err(ArgumentError::new(m.as_str()));
        }
        Ok(self)
    }

    fn require_match(&self, name: &str, pattern: &Regex) -> (r: ArgumentResult<&str>) {
        if !regex_is_match(pattern, self) {
            let mut m = String::new();
            m.append("Parameter '");
            m.append(name);
            m.append("' must match pattern '");
            m.append(regex_source(pattern));
            m.append("'");
            proof {
                assert(m@ =~= "Parameter '"@ + name@ + "' must match pattern '"@
                    + regex_source_spec(*pattern) + "'"@);
            }
            return Err(ArgumentError::new(m.as_str()));
        }
        Ok(self)
    }

    fn require_not_match(&self, name: &str, pattern: &Regex) -> (r: ArgumentResult<&str>) {
        if regex_is_match(pattern, self) {
            let mut m = String::new();
            m.append("Parameter '");
            m.append(name);
            m.append("' cannot match pattern '");
            m.append(regex_source(pattern));
            m.append("'");
            proof {
                assert(m@ =~= "Parameter '"@ + name@ + "' cannot match pattern '"@
                    + regex_source_spec(*pattern) + "'"@);
            }
            return Err(ArgumentError::new(m.as_str()));
        }
        Ok(self)
    }
}

impl StringArgument for String {
    open spec fn text_view(&self) -> Seq<char> {
        self@
    }

    open spec fn byte_length(&self) -> usize {
        encode_utf8(self@).len() as usize
    }

    fn require_non_blank(&self, name: &str) -> (r: ArgumentResult<&String>) {
        match self.as_str().require_non_blank(name) {
            Ok(_) => Ok(self),
            Err(e) => Err(e),
        }
    }

    fn require_length_be(&self, name: &str, length: usize) -> (r: ArgumentResult<&String>) {
        match self.as_str().require_length_be(name, length) {
            Ok(_) => Ok(self),
            Err(e) => Err(e),
        }
    }

    fn require_length_at_least(&self, name: &str, min_length: usize) -> (r: ArgumentResult<
        &String,
    >) {
        match self.as_str().require_length_at_least(name, min_length) {
            Ok(_) => Ok(self),
            Err(e) => Err(e),
        }
    }

    fn require_length_at_most(&self, name: &str, max_length: usize) -> (r: ArgumentResult<
        &String,
    >) {
        match self.as_str().require_length_at_most(name, max_length) {
            Ok(_) => Ok(self),
            Err(e) => Err(e),
        }
    }

    fn require_length_in_range(&self, name: &str, min_length: usize, max_length: usize) -> (r:
        ArgumentResult<&String>) {
        match self.as_str().require_length_in_range(name, min_length, max_length) {
            Ok(_) => Ok(self),
            Err(e) => Err(e),
        }
    }

    fn require_match(&self, name: &str, pattern: &Regex) -> (r: ArgumentResult<&String>) {
        match self.as_str().require_match(name, pattern) {
            Ok(_) => Ok(self),
            Err(e) => Err(e),
        }
    }

    fn require_not_match(&self, name: &str, pattern: &Regex) -> (r: ArgumentResult<&String>) {
        match self.as_str().require_not_match(name, pattern) {
            Ok(_) => Ok(self),
            Err(e) => Err(e),
        }
    }
}

} // verus!
