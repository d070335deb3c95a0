//! What the engine needs to know of the transport: which method names it
//! takes, and how a response body becomes text.

use vstd::prelude::*;
use std::str::FromStr;

verus! {

/// The header that every request carries.
pub const CONTENT_TYPE_HEADER: &'static str = "Content-Type";

/// The value of that header.
pub const CONTENT_TYPE_JSON: &'static str = "application/json";

/// Whether `c` may stand in a method name.
pub open spec fn is_method_char(c: char) -> bool {
    ||| ('0' <= c && c <= '9')
    ||| ('A' <= c && c <= 'Z')
    ||| ('a' <= c && c <= 'z')
    ||| c == '!'
    ||| c == '*'
    ||| c == '+'
    ||| c == '-'
    ||| c == '.'
    ||| c == '^'
    ||| c == '_'
    ||| c == '`'
    ||| c == '|'
    ||| c == '~'
}

/// Whether `method` is a method name the transport takes: at least one
/// character, each of them a method character. Case is kept, so lower-case
/// names are taken too.
pub open spec fn is_method_token(method: Seq<char>) -> bool {
    method.len() > 0 && forall|i: int| 0 <= i < method.len() ==> is_method_char(#[trigger] method[i])
}

/// Asks `http::Method::from_str`, reached as `actix_web::http::Method`,
/// whether it takes the name. Claimed: it does exactly for the names that
/// `is_method_token` describes, which is the table of bytes in its source.
#[verifier::external_body]
pub(crate) fn method_accepted(method: &str) -> (r: bool)
    ensures
        r == is_method_token(method@),
{
    actix_web::http::Method::from_str(method).is_ok()
}

/// Calls `String::from_utf8`. Claimed: it succeeds exactly on well-formed
/// UTF-8, and the text is then the decoding of the bytes.
#[verifier::external_body]
pub(crate) fn text_from_utf8(bytes: Vec<u8>) -> (r: Option<String>)
    ensures
        r.is_some() == vstd::utf8::valid_utf8(bytes@),
        r matches Some(text) ==> text@ == vstd::utf8::decode_utf8(bytes@),
{
    String::from_utf8(bytes).ok()
}

} // verus!
