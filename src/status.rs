//! HTTP status codes and their classes.

use vstd::prelude::*;
use vstd::string::StringExecFns;

verus! {

/// An HTTP status code: an integer in the range 100 to 599.
///
/// Equality and ordering go by the numeric value alone.
#[derive(Clone, Copy, Debug, PartialEq, Eq, Structural, Ord, Hash)]
pub struct StatusCode {
    code: u16,
}

/// The class of a status code, given by its first digit.
#[derive(Clone, Copy, Debug, PartialEq, Eq, Structural, PartialOrd, Ord, Hash)]
pub enum StatusClass {
    /// 1xx: request received, continuing process.
    Informational,
    /// 2xx: the action was received, understood and accepted.
    Success,
    /// 3xx: further action must be taken to complete the request.
    Redirection,
    /// 4xx: the request has bad syntax or cannot be fulfilled.
    ClientError,
    /// 5xx: the server failed to fulfil an apparently valid request.
    ServerError,
}

/// The lowest status code.
pub const MIN_CODE: u16 = 100;

/// The highest status code.
pub const MAX_CODE: u16 = 599;

/// Whether `n` lies in the range of status codes.
pub open spec fn is_status_code(n: int) -> bool {
    MIN_CODE <= n <= MAX_CODE
}

/// The class of the code `n`, by its boundaries.
pub open spec fn class_of(n: int) -> StatusClass {
    if n < 200 {
        StatusClass::Informational
    } else if n < 300 {
        StatusClass::Success
    } else if n < 400 {
        StatusClass::Redirection
    } else if n < 500 {
        StatusClass::ClientError
    } else {
        StatusClass::ServerError
    }
}

/// The `x00` representative of a class.
pub open spec fn default_code_of(c: StatusClass) -> int {
    match c {
        StatusClass::Informational => 100,
        StatusClass::Success => 200,
        StatusClass::Redirection => 300,
        StatusClass::ClientError => 400,
        StatusClass::ServerError => 500,
    }
}

/// The registered reason phrase of a code, if it has one.
pub open spec fn reason_of(n: u16) -> Option<&'static str> {
    match n {
        100 => Some("Continue"),
        101 => Some("Switching Protocols"),
        102 => Some("Processing"),
        200 => Some("OK"),
        201 => Some("Created"),
        202 => Some("Accepted"),
        203 => Some("Non-Authoritative Information"),
        204 => Some("No Content"),
        205 => Some("Reset Content"),
        206 => Some("Partial Content"),
        207 => Some("Multi-Status"),
        208 => Some("Already Reported"),
        226 => Some("IM Used"),
        300 => Some("Multiple Choices"),
        301 => Some("Moved Permanently"),
        302 => Some("Found"),
        303 => Some("See Other"),
        304 => Some("Not Modified"),
        305 => Some("Use Proxy"),
        306 => Some("Switch Proxy"),
        307 => Some("Temporary Redirect"),
        308 => Some("Permanent Redirect"),
        400 => Some("Bad Request"),
        401 => Some("Unauthorized"),
        402 => Some("Payment Required"),
        403 => Some("Forbidden"),
        404 => Some("Not Found"),
        405 => Some("Method Not Allowed"),
        406 => Some("Not Acceptable"),
        407 => Some("Proxy Authentication Required"),
        408 => Some("Request Timeout"),
        409 => Some("Conflict"),
        410 => Some("Gone"),
        411 => Some("Length Required"),
        412 => Some("Precondition Failed"),
        413 => Some("Request Entity Too Large"),
        414 => Some("Request-URI Too Long"),
        415 => Some("Unsupported Media Type"),
        416 => Some("Requested Range Not Satisfiable"),
        417 => Some("Expectation Failed"),
        418 => Some("I'm a teapot"),
        419 => Some("Authentication Timeout"),
        422 => Some("Unprocessable Entity"),
        423 => Some("Locked"),
        424 => Some("Failed Dependency"),
        425 => Some("Unordered Collection"),
        426 => Some("Upgrade Required"),
        428 => Some("Precondition Required"),
        429 => Some("Too Many Requests"),
        431 => Some("Request Header Fields Too Large"),
        451 => Some("Unavailable For Legal Reasons"),
        500 => Some("Internal Server Error"),
        501 => Some("Not Implemented"),
        502 => Some("Bad Gateway"),
        503 => Some("Service Unavailable"),
        504 => Some("Gateway Timeout"),
        505 => Some("HTTP Version Not Supported"),
        506 => Some("Variant Also Negotiates"),
        507 => Some("Insufficient Storage"),
        508 => Some("Loop Detected"),
        510 => Some("Not Extended"),
        511 => Some("Network Authentication Required"),
        _ => None,
    }
}

/// The decimal digit character of `d`, for `d` below ten.
pub open spec fn digit_char(d: int) -> char {
    if d == 0 {
        '0'
    } else if d == 1 {
        '1'
    } else if d == 2 {
        '2'
    } else if d == 3 {
        '3'
    } else if d == 4 {
        '4'
    } else if d == 5 {
        '5'
    } else if d == 6 {
        '6'
    } else if d == 7 {
        '7'
    } else if d == 8 {
        '8'
    } else {
        '9'
    }
}

/// The decimal text of a three-digit number.
pub open spec fn three_digits(n: int) -> Seq<char> {
    seq![digit_char(n / 100), digit_char((n / 10) % 10), digit_char(n % 10)]
}

/// The text shown where a code has no registered reason phrase.
pub const UNKNOWN_REASON: &'static str = "<unknown status code>";

/// The text of one decimal digit.
fn digit_text(d: u16) -> (r: &'static str)
    requires
        d < 10,
    ensures
        r@ == seq![digit_char(d as int)],
{
    if d == 0 {
        proof {
            reveal_strlit("0");
        }
        "0"
    } else if d == 1 {
        proof {
            reveal_strlit("1");
        }
        "1"
    } else if d == 2 {
        proof {
            reveal_strlit("2");
        }
        "2"
    } else if d == 3 {
        proof {
            reveal_strlit("3");
        }
        "3"
    } else if d == 4 {
        proof {
            reveal_strlit("4");
        }
        "4"
    } else if d == 5 {
        proof {
            reveal_strlit("5");
        }
        "5"
    } else if d == 6 {
        proof {
            reveal_strlit("6");
        }
        "6"
    } else if d == 7 {
        proof {
            reveal_strlit("7");
        }
        "7"
    } else if d == 8 {
        proof {
            reveal_strlit("8");
        }
        "8"
    } else {
        proof {
            reveal_strlit("9");
        }
        "9"
    }
}

/// The code, a space, then the phrase.
fn render(code: u16, phrase: &str) -> (r: String)
    requires
        100 <= code <= 999,
    ensures
        r@ == three_digits(code as int) + seq![' '] + phrase@,
{
    let mut r = String::from_str(digit_text(code / 100));
    r.append(digit_text((code / 10) % 10));
    r.append(digit_text(code % 10));
    proof {
        reveal_strlit(" ");
    }
    r.append(" ");
    r.append(phrase);
    assert(r@ =~= three_digits(code as int) + seq![' '] + phrase@);
    r
}

impl StatusCode {
    #[verifier::type_invariant]
    spec fn in_range(&self) -> bool {
        is_status_code(self.code as int)
    }

    /// The numeric value of the code.
    pub closed spec fn value(&self) -> int {
        self.code as int
    }

    /// Wraps a numeric value as a status code.
    pub fn from_code(code: u16) -> (r: StatusCode)
        requires
            is_status_code(code as int),
        ensures
            r.value() == code,
    {
        StatusCode { code }
    }

    /// The code from a signed integer: `None` outside 100 to 599.
    pub fn from_i64(n: i64) -> (r: Option<StatusCode>)
        ensures
            r is Some <==> is_status_code(n as int),
            r matches Some(s) ==> s.value() == n,
    {
        if n < MIN_CODE as i64 || n > MAX_CODE as i64 {
            None
        } else {
            Some(StatusCode { code: n as u16 })
        }
    }

    /// The code from an unsigned integer: `None` outside 100 to 599.
    pub fn from_u64(n: u64) -> (r: Option<StatusCode>)
        ensures
            r is Some <==> is_status_code(n as int),
            r matches Some(s) ==> s.value() == n,
    {
        if n < MIN_CODE as u64 || n > MAX_CODE as u64 {
            None
        } else {
            Some(StatusCode { code: n as u16 })
        }
    }

    /// The numeric value of the code.
    pub fn to_u16(&self) -> (r: u16)
        ensures
            r == self.value(),
            is_status_code(r as int),
    {
        proof {
            use_type_invariant(self);
        }
        self.code
    }

    /// The numeric value of the code as a signed integer.
    pub fn to_i64(&self) -> (r: Option<i64>)
        ensures
            r == Some(self.value() as i64),
    {
        Some(self.code as i64)
    }

    /// The numeric value of the code as an unsigned integer.
    pub fn to_u64(&self) -> (r: Option<u64>)
        ensures
            r == Some(self.value() as u64),
    {
        Some(self.code as u64)
    }

    /// The registered reason phrase, or `None` for a code that has none.
    pub fn canonical_reason(&self) -> (r: Option<&'static str>)
        ensures
            r == reason_of(self.value() as u16),
    {
        match self.code {
            100 => Some("Continue"),
            101 => Some("Switching Protocols"),
            102 => Some("Processing"),
            200 => Some("OK"),
            201 => Some("Created"),
            202 => Some("Accepted"),
            203 => Some("Non-Authoritative Information"),
            204 => Some("No Content"),
            205 => Some("Reset Content"),
            206 => Some("Partial Content"),
            207 => Some("Multi-Status"),
            208 => Some("Already Reported"),
            226 => Some("IM Used"),
            300 => Some("Multiple Choices"),
            301 => Some("Moved Permanently"),
            302 => Some("Found"),
            303 => Some("See Other"),
            304 => Some("Not Modified"),
            305 => Some("Use Proxy"),
            306 => Some("Switch Proxy"),
            307 => Some("Temporary Redirect"),
            308 => Some("Permanent Redirect"),
            400 => Some("Bad Request"),
            401 => Some("Unauthorized"),
            402 => Some("Payment Required"),
            403 => Some("Forbidden"),
            404 => Some("Not Found"),
            405 => Some("Method Not Allowed"),
            406 => Some("Not Acceptable"),
            407 => Some("Proxy Authentication Required"),
            408 => Some("Request Timeout"),
            409 => Some("Conflict"),
            410 => Some("Gone"),
            411 => Some("Length Required"),
            412 => Some("Precondition Failed"),
            413 => Some("Request Entity Too Large"),
            414 => Some("Request-URI Too Long"),
            415 => Some("Unsupported Media Type"),
            416 => Some("Requested Range Not Satisfiable"),
            417 => Some("Expectation Failed"),
            418 => Some("I'm a teapot"),
            419 => Some("Authentication Timeout"),
            422 => Some("Unprocessable Entity"),
            423 => Some("Locked"),
            424 => Some("Failed Dependency"),
            425 => Some("Unordered Collection"),
            426 => Some("Upgrade Required"),
            428 => Some("Precondition Required"),
            429 => Some("Too Many Requests"),
            431 => Some("Request Header Fields Too Large"),
            451 => Some("Unavailable For Legal Reasons"),
            500 => Some("Internal Server Error"),
            501 => Some("Not Implemented"),
            502 => Some("Bad Gateway"),
            503 => Some("Service Unavailable"),
            504 => Some("Gateway Timeout"),
            505 => Some("HTTP Version Not Supported"),
            506 => Some("Variant Also Negotiates"),
            507 => Some("Insufficient Storage"),
            508 => Some("Loop Detected"),
            510 => Some("Not Extended"),
            511 => Some("Network Authentication Required"),
            _ => None,
        }
    }

    /// The code followed by its reason phrase, or by a placeholder where it
    /// has none: `"418 I'm a teapot"`, `"123 <unknown status code>"`.
    pub fn to_string(&self) -> (r: String)
        ensures
            r@ == three_digits(self.value()) + seq![' '] + match reason_of(self.value() as u16) {
                Some(p) => p@,
                None => UNKNOWN_REASON@,
            },
    {
        let code = self.to_u16();
        let phrase = match self.canonical_reason() {
            Some(p) => p,
            None => UNKNOWN_REASON,
        };
        render(code, phrase)
    }

    /// The class of the code, by its first digit.
    pub fn class(&self) -> (r: StatusClass)
        ensures
            r == class_of(self.value()),
    {
        let code = self.code;
        if code < 200 {
            StatusClass::Informational
        } else if code < 300 {
            StatusClass::Success
        } else if code < 400 {
            StatusClass::Redirection
        } else if code < 500 {
            StatusClass::ClientError
        } else {
            StatusClass::ServerError
        }
    }

    /// Whether the code is of the redirection class.
    pub fn is_redirection(&self) -> (r: bool)
        ensures
            r == (class_of(self.value()) == StatusClass::Redirection),
    {
        300 <= self.code && self.code < 400
    }
}

/// The order of two codes, by their numeric values.
pub open spec fn order_of(a: int, b: int) -> Option<core::cmp::Ordering> {
    if a < b {
        Some(core::cmp::Ordering::Less)
    } else if a > b {
        Some(core::cmp::Ordering::Greater)
    } else {
        Some(core::cmp::Ordering::Equal)
    }
}

impl PartialOrd for StatusCode {
    fn partial_cmp(&self, other: &StatusCode) -> (r: Option<core::cmp::Ordering>) {
        if self.code < other.code {
            Some(core::cmp::Ordering::Less)
        } else if self.code > other.code {
            Some(core::cmp::Ordering::Greater)
        } else {
            Some(core::cmp::Ordering::Equal)
        }
    }
}

impl vstd::std_specs::cmp::PartialOrdSpecImpl for StatusCode {
    open spec fn obeys_partial_cmp_spec() -> bool {
        true
    }

    open spec fn partial_cmp_spec(&self, other: &StatusCode) -> Option<core::cmp::Ordering> {
        order_of(self.value(), other.value())
    }
}

impl StatusClass {
    /// The `x00` code of the class, the one to treat an unknown code as.
    pub fn default_code(&self) -> (r: StatusCode)
        ensures
            r.value() == default_code_of(*self),
    {
        match self {
            StatusClass::Informational => StatusCode { code: 100 },
            StatusClass::Success => StatusCode { code: 200 },
            StatusClass::Redirection => StatusCode { code: 300 },
            StatusClass::ClientError => StatusCode { code: 400 },
            StatusClass::ServerError => StatusCode { code: 500 },
        }
    }

    /// The `x00` value of the class as a signed integer.
    pub fn to_i64(&self) -> (r: Option<i64>)
        ensures
            r == Some(default_code_of(*self) as i64),
    {
        Some(self.default_code().to_u16() as i64)
    }

    /// The `x00` value of the class as an unsigned integer.
    pub fn to_u64(&self) -> (r: Option<u64>)
        ensures
            r == Some(default_code_of(*self) as u64),
    {
        Some(self.default_code().to_u16() as u64)
    }
}

/// For every code, the default code of its class is one of the `x00` codes,
/// and that default code falls in the same class again.
pub proof fn lemma_default_code_keeps_class(code: StatusCode)
    ensures
        default_code_of(class_of(code.value())) == 100
            || default_code_of(class_of(code.value())) == 200
            || default_code_of(class_of(code.value())) == 300
            || default_code_of(class_of(code.value())) == 400
            || default_code_of(class_of(code.value())) == 500,
        is_status_code(default_code_of(class_of(code.value()))),
        class_of(default_code_of(class_of(code.value()))) == class_of(code.value()),
{
}

/// Every integer outside 100 to 599 is refused by the validating
/// constructors.
pub proof fn lemma_out_of_range_refused(n: int)
    requires
        n < MIN_CODE || n > MAX_CODE,
    ensures
        !is_status_code(n),
{
}

} // verus!
