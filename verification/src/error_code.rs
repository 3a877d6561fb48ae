//! The error abstraction itself: the capability every conforming error value
//! offers, and `ErrCode`, its reference implementation.
//!
//! A value holds a packed code (three-digit status prefix plus free-form
//! sub-code suffix), a message, and an optional typed result. Every mutator
//! is pure: it returns a new value with one field rewritten and the rest
//! copied across. Rewrites of the packed code validate their input and
//! report a mismatch instead of corrupting the packing.

use crate::packed::digit_char;
use crate::packed::has_status_prefix;
use crate::packed::is_decimal_digit;
use crate::packed::parse_status_prefix;
use crate::packed::prefix_status;
use crate::packed::render_status;
use crate::packed::status_digits;
use crate::packed::valid_status_prefix;
use crate::packed::CodeError;
use crate::packed::INTERNAL_ERROR_STATUS;
use vstd::prelude::*;
use vstd::string::StrSliceExecFns;
use vstd::string::StringExecFns;

verus! {

/// The capability of a packed error value: derive a transport status from
/// the code, read each field, and rewrite one field at a time, purely.
///
/// The three spec functions are the abstract state every contract below
/// speaks of: the packed code, the message, and the optional result.
pub trait ErrorCode<T>: Sized {
    /// The characters of the packed code.
    spec fn code_view(&self) -> Seq<char>;

    /// The characters of the message.
    spec fn message_view(&self) -> Seq<char>;

    /// The optional result payload.
    spec fn result_view(&self) -> Option<T>;

    /// The transport status the packed code carries, or the internal-error
    /// fallback when the prefix is malformed or out of range. Never fails
    /// the caller.
    fn status_code(&self) -> (r: u16)
        ensures
            valid_status_prefix(self.code_view()) ==> r == prefix_status(self.code_view()),
            !valid_status_prefix(self.code_view()) ==> r == INTERNAL_ERROR_STATUS,
    ;

    /// The full packed code: status prefix plus sub-code suffix.
    fn code(&self) -> (r: &str)
        ensures
            r@ == self.code_view(),
    ;

    /// The message text.
    fn message(&self) -> (r: &str)
        ensures
            r@ == self.message_view(),
    ;

    /// A copy of the optional result payload.
    fn result(&self) -> (r: Option<T>)
        ensures
            r == self.result_view(),
    ;

    /// A new value whose code has its first three characters replaced by
    /// the decimal rendering of `status`; message and result are copied
    /// unchanged. Rejects a status whose rendering is not exactly three
    /// digits, and a code too short to have a prefix.
    fn with_status_code(&self, status: usize) -> (r: Result<Self, CodeError>)
        ensures
            match r {
                Ok(e) => {
                    &&& 100 <= status <= 999
                    &&& self.code_view().len() >= 3
                    &&& e.code_view() == status_digits(status as int) + self.code_view().skip(3)
                    &&& e.message_view() == self.message_view()
                    &&& e.result_view() == self.result_view()
                },
                Err(CodeError::StatusNotThreeDigits) => !(100 <= status <= 999),
                Err(CodeError::CodeTooShort) => 100 <= status <= 999 && self.code_view().len()
                    < 3,
                Err(_) => false,
            },
    ;

    /// A new value whose code keeps its first three characters and has
    /// everything after them replaced by `sub_code`; message and result are
    /// copied unchanged. Rejects a sub-code whose length differs from the
    /// suffix it replaces, and a code too short to have a prefix.
    fn with_code(&self, sub_code: &str) -> (r: Result<Self, CodeError>)
        ensures
            match r {
                Ok(e) => {
                    &&& self.code_view().len() >= 3
                    &&& sub_code@.len() == self.code_view().len() - 3
                    &&& e.code_view() == self.code_view().take(3) + sub_code@
                    &&& e.message_view() == self.message_view()
                    &&& e.result_view() == self.result_view()
                },
                Err(CodeError::CodeTooShort) => self.code_view().len() < 3,
                Err(CodeError::SubCodeLengthMismatch) => self.code_view().len() >= 3 && sub_code@.len()
                    != self.code_view().len() - 3,
                Err(_) => false,
            },
    ;

    /// A new value with `message` replaced; code and result are copied
    /// unchanged.
    fn with_message(&self, message: &str) -> (r: Self)
        ensures
            r.code_view() == self.code_view(),
            r.message_view() == message@,
            r.result_view() == self.result_view(),
    ;

    /// A new value with the result set to `Some(value)`; code and message
    /// are copied unchanged.
    fn with_result(&self, value: T) -> (r: Self)
        ensures
            r.code_view() == self.code_view(),
            r.message_view() == self.message_view(),
            r.result_view() == Some(value),
    ;
}

/// The reference implementation: a packed code, a message, and an optional
/// result payload, as plain owned fields.
#[derive(Debug, Clone)]
pub struct ErrCode<T> {
    /// The packed code; well-formed when its first three characters spell
    /// a decimal number in [100, 600).
    pub code: String,
    /// Free-form human-readable text.
    pub message: String,
    /// Optional payload, present only on error paths that carry one.
    pub result: Option<T>,
}

impl<T> ErrCode<T> {
    /// The status the packed code carries, or the error that says exactly
    /// why the prefix is not a valid status.
    pub fn parse_status_code(&self) -> (r: Result<u16, CodeError>)
        ensures
            ({
                let s = self.code@;
                match r {
                    Ok(v) => valid_status_prefix(s) && v == prefix_status(s),
                    Err(CodeError::CodeTooShort) => s.len() < 3,
                    Err(CodeError::PrefixNotNumeric) => s.len() >= 3 && !(is_decimal_digit(s[0])
                        && is_decimal_digit(s[1]) && is_decimal_digit(s[2])),
                    Err(CodeError::StatusTooLow) => has_status_prefix(s) && prefix_status(s)
                        < 100,
                    Err(CodeError::StatusTooHigh) => has_status_prefix(s) && prefix_status(s)
                        >= 600,
                    Err(_) => false,
                }
            }),
    {
        parse_status_prefix(self.code.as_str())
    }

    /// Reconstructs a value from the fields of a received wire body,
    /// rejecting a packed code whose prefix is not a valid status. On
    /// success the reconstructed value holds exactly the given fields.
    pub fn from_parts(code: String, message: String, result: Option<T>) -> (r: Result<
        Self,
        CodeError,
    >)
        ensures
            ({
                let s = code@;
                match r {
                    Ok(e) => {
                        &&& valid_status_prefix(s)
                        &&& e.code@ == s
                        &&& e.message@ == message@
                        &&& e.result == result
                    },
                    Err(CodeError::CodeTooShort) => s.len() < 3,
                    Err(CodeError::PrefixNotNumeric) => s.len() >= 3 && !(is_decimal_digit(s[0])
                        && is_decimal_digit(s[1]) && is_decimal_digit(s[2])),
                    Err(CodeError::StatusTooLow) => has_status_prefix(s) && prefix_status(s)
                        < 100,
                    Err(CodeError::StatusTooHigh) => has_status_prefix(s) && prefix_status(s)
                        >= 600,
                    Err(_) => false,
                }
            }),
    {
        match parse_status_prefix(code.as_str()) {
            Ok(_) => Ok(ErrCode { code, message, result }),
            Err(e) => Err(e),
        }
    }
}

impl<T: Copy> ErrorCode<T> for ErrCode<T> {
    open spec fn code_view(&self) -> Seq<char> {
        self.code@
    }

    open spec fn message_view(&self) -> Seq<char> {
        self.message@
    }

    open spec fn result_view(&self) -> Option<T> {
        self.result
    }

    fn status_code(&self) -> (r: u16) {
        match self.parse_status_code() {
            Ok(v) => v,
            Err(_) => INTERNAL_ERROR_STATUS,
        }
    }

    fn code(&self) -> (r: &str) {
        self.code.as_str()
    }

    fn message(&self) -> (r: &str) {
        self.message.as_str()
    }

    fn result(&self) -> (r: Option<T>) {
        self.result
    }

    fn with_status_code(&self, status: usize) -> (r: Result<Self, CodeError>) {
        if status < 100 || status > 999 {
            return Err(CodeError::StatusNotThreeDigits);
        }
        let n = self.code.as_str().unicode_len();
        if n < 3 {
            return Err(CodeError::CodeTooShort);
        }
        let suffix = self.code.as_str().substring_char(3, n);
        let new_code = render_status(status as u16).concat(suffix);
        proof {
            assert(new_code@ =~= status_digits(status as int) + self.code@.skip(3));
        }
        Ok(ErrCode { code: new_code, message: self.message.clone(), result: self.result })
    }

    fn with_code(&self, sub_code: &str) -> (r: Result<Self, CodeError>) {
        let n = self.code.as_str().unicode_len();
        if n < 3 {
            return Err(CodeError::CodeTooShort);
        }
        let m = sub_code.unicode_len();
        if m != n - 3 {
            return Err(CodeError::SubCodeLengthMismatch);
        }
        let prefix = self.code.as_str().substring_char(0, 3);
        let new_code = String::from_str(prefix).concat(sub_code);
        proof {
            assert(new_code@ =~= self.code@.take(3) + sub_code@);
        }
        Ok(ErrCode { code: new_code, message: self.message.clone(), result: self.result })
    }

    fn with_message(&self, message: &str) -> (r: Self) {
        ErrCode {
            code: self.code.clone(),
            message: String::from_str(message),
            result: self.result,
        }
    }

    fn with_result(&self, value: T) -> (r: Self) {
        ErrCode { code: self.code.clone(), message: self.message.clone(), result: Some(value) }
    }
}

/// The display rendering of an error value: `(code, message)` without a
/// result, `(code, message, result)` with one. The caller supplies the
/// result's own rendering, if any.
pub fn display_text(code: &str, message: &str, result_text: Option<&str>) -> (r: String)
    ensures
        match result_text {
            Some(t) => r@ == "("@ + code@ + ", "@ + message@ + ", "@ + t@ + ")"@,
            None => r@ == "("@ + code@ + ", "@ + message@ + ")"@,
        },
{
    let mut s = String::from_str("(");
    s.append(code);
    s.append(", ");
    s.append(message);
    match result_text {
        Some(t) => {
            s.append(", ");
            s.append(t);
            s.append(")");
            proof {
                assert(s@ =~= "("@ + code@ + ", "@ + message@ + ", "@ + t@ + ")"@);
            }
        },
        None => {
            s.append(")");
            proof {
                assert(s@ =~= "("@ + code@ + ", "@ + message@ + ")"@);
            }
        },
    }
    s
}

} // verus!
