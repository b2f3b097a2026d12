//! Service configuration from environment values, with defaults.
use vstd::prelude::*;
use vstd::string::*;

verus! {

/// Connection and listening settings of the service.
#[derive(Debug, Clone)]
pub struct Config {
    pub surreal_url: String,
    pub surreal_user: String,
    pub surreal_pass: String,
    pub surreal_ns: String,
    pub port: u16,
}

/// Why a port text is not a port number.
#[derive(Debug, Clone, Copy, PartialEq, Eq, Structural)]
pub enum PortError {
    /// The text is empty.
    Empty,
    /// The text holds something other than decimal digits (after an optional `+`).
    InvalidDigit,
    /// The number exceeds 65535.
    PosOverflow,
}

/// The value of a decimal digit.
pub open spec fn digit_value(c: char) -> nat {
    (c as nat - '0' as nat) as nat
}

pub open spec fn is_digit(c: char) -> bool {
    '0' <= c && c <= '9'
}

/// Reads decimal digits left to right onto `acc`, stopping at the first
/// character that is no digit or that takes the value past 65535.
pub open spec fn scan_port(d: Seq<char>, acc: nat) -> Result<nat, PortError>
    decreases d.len(),
{
    if d.len() == 0 {
        Ok(acc)
    } else if !is_digit(d[0]) {
        Err(PortError::InvalidDigit)
    } else if acc * 10 + digit_value(d[0]) > 65535 {
        Err(PortError::PosOverflow)
    } else {
        scan_port(d.drop_first(), acc * 10 + digit_value(d[0]))
    }
}

/// A port number as unsigned decimal text with an optional leading `+`.
pub open spec fn parse_port_spec(s: Seq<char>) -> Result<nat, PortError> {
    if s.len() == 0 {
        Err(PortError::Empty)
    } else if s.len() > 1 && s[0] == '+' {
        scan_port(s.drop_first(), 0)
    } else {
        scan_port(s, 0)
    }
}

/// Parses a port number.
pub fn parse_port(s: &str) -> (r: Result<u16, PortError>)
    ensures
        match r {
            Ok(p) => parse_port_spec(s@) == Ok::<nat, PortError>(p as nat),
            Err(e) => parse_port_spec(s@) == Err::<nat, PortError>(e),
        },
{
    let n = s.unicode_len();
    if n == 0 {
        return Err(PortError::Empty);
    }
    let mut i: usize = 0;
    if n > 1 && s.get_char(0) == '+' {
        i = 1;
    }
    let ghost d = if n > 1 && s@[0] == '+' { s@.drop_first() } else { s@ };
    let mut acc: u32 = 0;
    while i < n
        invariant
            n == s@.len(),
            n > 0,
            d == if n > 1 && s@[0] == '+' { s@.drop_first() } else { s@ },
            d =~= s@.skip(n - d.len()),
            n - d.len() <= i <= n,
            acc <= 65535,
            parse_port_spec(s@) == scan_port(s@.skip(i as int), acc as nat),
        decreases n - i,
    {
        let c = s.get_char(i);
        assert(s@.skip(i as int)[0] == c);
        if !('0' <= c && c <= '9') {
            return Err(PortError::InvalidDigit);
        }
        let v = (c as u32) - ('0' as u32);
        if acc * 10 + v > 65535 {
            return Err(PortError::PosOverflow);
        }
        assert(s@.skip(i as int).drop_first() =~= s@.skip(i + 1));
        acc = acc * 10 + v;
        i = i + 1;
    }
    assert(s@.skip(n as int) =~= Seq::<char>::empty());
    Ok(acc as u16)
}

impl PortError {
    /// The text that `Display` shows for the error.
    pub fn message(&self) -> (r: &'static str)
        ensures
            r@ == match *self {
                PortError::Empty => "cannot parse integer from empty string"@,
                PortError::InvalidDigit => "invalid digit found in string"@,
                PortError::PosOverflow => "number too large to fit in target type"@,
            },
    {
        match self {
            PortError::Empty => "cannot parse integer from empty string",
            PortError::InvalidDigit => "invalid digit found in string",
            PortError::PosOverflow => "number too large to fit in target type",
        }
    }
}

fn value_or(v: Option<String>, default: &str) -> (r: String)
    ensures
        r@ == match v { Some(s) => s@, None => default@ },
{
    match v {
        Some(s) => s,
        None => String::from_str(default),
    }
}

/// A looked-up value, or its default when it is not set.
pub open spec fn or_default(v: Option<String>, default: Seq<char>) -> Seq<char> {
    match v {
        Some(s) => s@,
        None => default,
    }
}

impl Config {
    /// The configuration from the values of `SURREAL_URL`, `SURREAL_USER`,
    /// `SURREAL_PASS`, `SURREAL_NS` and `APQP_PORT` (absent when unset),
    /// with their defaults; fails only when the port is not a port number.
    pub fn from_values(
        url: Option<String>,
        user: Option<String>,
        pass: Option<String>,
        ns: Option<String>,
        port: Option<String>,
    ) -> (r: Result<Config, PortError>)
        ensures
            match parse_port_spec(or_default(port, "8081"@)) {
                Ok(p) => r matches Ok(c) && {
                    &&& c.surreal_url@ == or_default(url, "ws://localhost:8000"@)
                    &&& c.surreal_user@ == or_default(user, "root"@)
                    &&& c.surreal_pass@ == or_default(pass, "root"@)
                    &&& c.surreal_ns@ == or_default(ns, "opcaq"@)
                    &&& c.port == p
                },
                Err(e) => r == Err::<Config, PortError>(e),
            },
    {
        let surreal_url = value_or(url, "ws://localhost:8000");
        let surreal_user = value_or(user, "root");
        let surreal_pass = value_or(pass, "root");
        let surreal_ns = value_or(ns, "opcaq");
        let port_text = value_or(port, "8081");
        let port = match parse_port(port_text.as_str()) {
            Ok(p) => p,
            Err(e) => return Err(e),
        };
        Ok(Config { surreal_url, surreal_user, surreal_pass, surreal_ns, port })
    }
}

} // verus!
