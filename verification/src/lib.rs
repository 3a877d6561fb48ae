//! A structured application error that packs an HTTP-like status into the
//! first three characters of a short textual code, carries a human-readable
//! message, and optionally a typed result payload.

mod error_code;
mod packed;

pub use error_code::display_text;
pub use error_code::ErrCode;
pub use error_code::ErrorCode;
pub use packed::digit_char;
pub use packed::digit_val;
pub use packed::has_status_prefix;
pub use packed::is_decimal_digit;
pub use packed::lemma_digit_char_val;
pub use packed::lemma_rendered_status_roundtrip;
pub use packed::parse_status_prefix;
pub use packed::prefix_status;
pub use packed::render_status;
pub use packed::status_digits;
pub use packed::valid_status_prefix;
pub use packed::CodeError;
pub use packed::INTERNAL_ERROR_STATUS;
