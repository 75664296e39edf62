//! The API's error taxonomy: each variant carries its message, maps to a
//! fixed HTTP status code, and renders to a small JSON object whose exact
//! text — escaping included — is pinned down here.

use vstd::prelude::*;
use vstd::string::StringExecFns;

use crate::text::{chars_of, push_char};

verus! {

/// One API failure, with a human-readable message.
#[derive(Debug)]
pub enum ApiError {
    BadRequest(String),
    NotFound(String),
    InternalServerError(String),
    ExternalServiceError(String),
    ConfigError(String),
}

/// The hex digit characters used in `\u00XX` escapes.
pub open spec fn hex_digit(d: int) -> char {
    if d < 10 {
        ((48 + d) as u8) as char
    } else {
        ((87 + d) as u8) as char
    }
}

/// How one character is written inside a JSON string: quote and backslash
/// get a backslash, the common control characters get their short escapes,
/// the remaining control characters get `\u00XX`, and everything else
/// stands as itself.
pub open spec fn escape_char(c: char) -> Seq<char> {
    if c == '"' {
        seq!['\\', '"']
    } else if c == '\\' {
        seq!['\\', '\\']
    } else if c == '\n' {
        seq!['\\', 'n']
    } else if c == '\r' {
        seq!['\\', 'r']
    } else if c == '\t' {
        seq!['\\', 't']
    } else if c as u32 == 8 {
        seq!['\\', 'b']
    } else if c as u32 == 12 {
        seq!['\\', 'f']
    } else if (c as u32) < 32 {
        seq!['\\', 'u', '0', '0', hex_digit(((c as u32) / 16) as int), hex_digit(
            ((c as u32) % 16) as int,
        )]
    } else {
        seq![c]
    }
}

/// A whole string escaped for JSON.
pub open spec fn json_escape_spec(s: Seq<char>) -> Seq<char>
    decreases s.len(),
{
    if s.len() == 0 {
        Seq::empty()
    } else {
        json_escape_spec(s.drop_last()) + escape_char(s.last())
    }
}

/// Escape a string for embedding in a JSON string literal.
pub fn json_escape(s: &str) -> (r: String)
    ensures
        r@ == json_escape_spec(s@),
{
    let v = chars_of(s);
    let mut out = String::new();
    let mut i: usize = 0;
    while i < v.len()
        invariant
            i <= v@.len(),
            v@ == s@,
            out@ == json_escape_spec(v@.take(i as int)),
        decreases v@.len() - i,
    {
        let c = v[i];
        let u = c as u32;
        if c == '"' {
            out.append("\\\"");
        } else if c == '\\' {
            out.append("\\\\");
        } else if c == '\n' {
            out.append("\\n");
        } else if c == '\r' {
            out.append("\\r");
        } else if c == '\t' {
            out.append("\\t");
        } else if u == 8 {
            out.append("\\b");
        } else if u == 12 {
            out.append("\\f");
        } else if u < 32 {
            out.append("\\u00");
            let hi = u / 16;
            let lo = u % 16;
            let hc = if hi < 10 {
                ((48 + hi) as u8) as char
            } else {
                ((87 + hi) as u8) as char
            };
            let lc = if lo < 10 {
                ((48 + lo) as u8) as char
            } else {
                ((87 + lo) as u8) as char
            };
            push_char(&mut out, hc);
            push_char(&mut out, lc);
        } else {
            push_char(&mut out, c);
        }
        i = i + 1;
        proof {
            reveal_strlit("\\\"");
            reveal_strlit("\\\\");
            reveal_strlit("\\n");
            reveal_strlit("\\r");
            reveal_strlit("\\t");
            reveal_strlit("\\b");
            reveal_strlit("\\f");
            reveal_strlit("\\u00");
            assert(v@.take(i as int).drop_last() =~= v@.take(i - 1));
            assert(v@.take(i as int).last() == v@[i - 1]);
            assert(out@ =~= json_escape_spec(v@.take(i as int)));
        }
    }
    proof {
        assert(v@.take(v@.len() as int) =~= v@);
    }
    out
}

/// The short name of an error kind, as the JSON `error` field shows it.
pub open spec fn spec_error_kind(e: ApiError) -> Seq<char> {
    match e {
        ApiError::BadRequest(_) => "Bad Request"@,
        ApiError::NotFound(_) => "Not Found"@,
        ApiError::InternalServerError(_) => "Internal Server Error"@,
        ApiError::ExternalServiceError(_) => "External Service Error"@,
        ApiError::ConfigError(_) => "Configuration Error"@,
    }
}

/// The full display message of an error: its prefix and its payload.
pub open spec fn spec_error_message(e: ApiError) -> Seq<char> {
    match e {
        ApiError::BadRequest(m) => "Bad request: "@ + m@,
        ApiError::NotFound(m) => "Not found: "@ + m@,
        ApiError::InternalServerError(m) => "Internal server error: "@ + m@,
        ApiError::ExternalServiceError(m) => "External service error: "@ + m@,
        ApiError::ConfigError(m) => "Configuration error: "@ + m@,
    }
}

/// The exact JSON rendering of an error.
pub open spec fn spec_error_json(e: ApiError) -> Seq<char> {
    "{\"error\":\""@ + spec_error_kind(e) + "\",\"message\":\""@ + json_escape_spec(
        spec_error_message(e),
    ) + "\"}"@
}

impl ApiError {
    pub fn bad_request(msg: String) -> (r: ApiError)
        ensures
            r == ApiError::BadRequest(msg),
    {
        ApiError::BadRequest(msg)
    }

    pub fn not_found(msg: String) -> (r: ApiError)
        ensures
            r == ApiError::NotFound(msg),
    {
        ApiError::NotFound(msg)
    }

    pub fn internal_server_error(msg: String) -> (r: ApiError)
        ensures
            r == ApiError::InternalServerError(msg),
    {
        ApiError::InternalServerError(msg)
    }

    pub fn external_service_error(msg: String) -> (r: ApiError)
        ensures
            r == ApiError::ExternalServiceError(msg),
    {
        ApiError::ExternalServiceError(msg)
    }

    pub fn config_error(msg: String) -> (r: ApiError)
        ensures
            r == ApiError::ConfigError(msg),
    {
        ApiError::ConfigError(msg)
    }

    /// The HTTP status code this error answers with.
    pub fn status_code(&self) -> (r: u16)
        ensures
            r == match *self {
                ApiError::BadRequest(_) => 400u16,
                ApiError::NotFound(_) => 404u16,
                ApiError::InternalServerError(_) => 500u16,
                ApiError::ExternalServiceError(_) => 502u16,
                ApiError::ConfigError(_) => 500u16,
            },
    {
        match self {
            ApiError::BadRequest(_) => 400,
            ApiError::NotFound(_) => 404,
            ApiError::InternalServerError(_) => 500,
            ApiError::ExternalServiceError(_) => 502,
            ApiError::ConfigError(_) => 500,
        }
    }

    /// The display message: the variant's prefix followed by its payload.
    pub fn message(&self) -> (r: String)
        ensures
            r@ == spec_error_message(*self),
    {
        let (prefix, payload) = match self {
            ApiError::BadRequest(m) => ("Bad request: ", m),
            ApiError::NotFound(m) => ("Not found: ", m),
            ApiError::InternalServerError(m) => ("Internal server error: ", m),
            ApiError::ExternalServiceError(m) => ("External service error: ", m),
            ApiError::ConfigError(m) => ("Configuration error: ", m),
        };
        let mut out = String::from_str(prefix);
        out.append(payload.as_str());
        out
    }

    /// The JSON object this error answers with: an `error` field naming the
    /// kind and a `message` field carrying the escaped display message.
    pub fn to_json(&self) -> (r: String)
        ensures
            r@ == spec_error_json(*self),
    {
        let kind = match self {
            ApiError::BadRequest(_) => "Bad Request",
            ApiError::NotFound(_) => "Not Found",
            ApiError::InternalServerError(_) => "Internal Server Error",
            ApiError::ExternalServiceError(_) => "External Service Error",
            ApiError::ConfigError(_) => "Configuration Error",
        };
        let msg = self.message();
        let escaped = json_escape(msg.as_str());
        let mut out = String::from_str("{\"error\":\"");
        out.append(kind);
        out.append("\",\"message\":\"");
        out.append(escaped.as_str());
        out.append("\"}");
        proof {
            assert(out@ =~= spec_error_json(*self));
        }
        out
    }
}

} // verus!
