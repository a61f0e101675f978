//! The configuration of the application, made from the values of its
//! environment.

use vstd::prelude::*;
use vstd::std_specs::iter::IteratorSpec;
use vstd::string::*;

verus! {

/// The address on which the server listens where none is given.
pub open spec fn default_server_address() -> Seq<char> {
    "127.0.0.1:7878"@
}

/// The size of the pool of connections where none is given, or where what
/// is given is not a number.
pub const DEFAULT_MAX_CONNECTIONS: u32 = 16;

/// The configuration of the application.
#[derive(Debug, Clone)]
pub struct Config {
    pub server_address: String,
    pub database_url: String,
    pub max_connections: u32,
}

/// Whether `c` is one of the digits `0` to `9`.
pub open spec fn is_digit(c: char) -> bool {
    '0' <= c <= '9'
}

/// The number that the digits of `s` write in decimal.
pub open spec fn digits_value(s: Seq<char>) -> nat
    decreases s.len(),
{
    if s.len() == 0 {
        0
    } else {
        digits_value(s.drop_last()) * 10 + (s.last() as u32 - '0' as u32) as nat
    }
}

/// `s` without the plus sign that it may start with.
pub open spec fn without_sign(s: Seq<char>) -> Seq<char> {
    if s.len() > 0 && s.first() == '+' {
        s.drop_first()
    } else {
        s
    }
}

/// Whether `s` holds digits and nothing else.
pub open spec fn all_digits(s: Seq<char>) -> bool {
    forall|i: int| 0 <= i < s.len() ==> is_digit(#[trigger] s[i])
}

/// The number that `s` writes: a plus sign or none, then one digit or more
/// and nothing else, and a value that a `u32` holds.
pub open spec fn parsed_u32(s: Seq<char>) -> Option<u32> {
    let digits = without_sign(s);
    if digits.len() > 0 && all_digits(digits) && digits_value(digits) <= u32::MAX {
        Some(digits_value(digits) as u32)
    } else {
        None
    }
}

/// The size of the pool of connections that `text` asks for.
pub open spec fn max_connections_of(text: Option<Seq<char>>) -> u32 {
    match text {
        Some(s) => match parsed_u32(s) {
            Some(n) => n,
            None => DEFAULT_MAX_CONNECTIONS,
        },
        None => DEFAULT_MAX_CONNECTIONS,
    }
}

/// More digits make a number no smaller.
proof fn lemma_digits_value_grows(s: Seq<char>, n: int)
    requires
        0 <= n <= s.len(),
        all_digits(s),
    ensures
        digits_value(s.take(n)) <= digits_value(s),
    decreases s.len() - n,
{
    if n < s.len() {
        assert(s.take(n + 1).drop_last() =~= s.take(n));
        assert(s.take(n + 1).last() == s[n]);
        assert(is_digit(s[n]));
        lemma_digits_value_grows(s, n + 1);
    } else {
        assert(s.take(n) =~= s);
    }
}

/// The number that the digits of `digits` write, where there is a digit,
/// there is nothing but digits, and a `u32` holds the number.
fn parse_digits(digits: &str) -> (number: Option<u32>)
    ensures
        number == if digits@.len() > 0 && all_digits(digits@) && digits_value(digits@)
            <= u32::MAX {
            Some(digits_value(digits@) as u32)
        } else {
            None
        },
{
    let n = digits.unicode_len();
    let mut it = digits.chars();
    let mut i: usize = 0;
    let mut value: u64 = 0;
    proof {
        assert(digits@.take(0) =~= Seq::<char>::empty());
    }
    loop
        invariant
            n == digits@.len(),
            i <= n,
            it.remaining() == digits@.subrange(i as int, n as int),
            all_digits(digits@.take(i as int)),
            value == digits_value(digits@.take(i as int)),
            value <= u32::MAX,
        ensures
            i == n,
        decreases n - i,
    {
        let ghost before = it.remaining();
        match it.next() {
            None => {
                assert(before.len() == 0);
                break ;
            },
            Some(c) => {
                assert(before.len() > 0);
                assert(c == digits@[i as int]);
                assert(it.remaining() == digits@.subrange(i + 1, n as int));
                if !('0' <= c && c <= '9') {
                    assert(!is_digit(digits@[i as int]));
                    return None;
                }
                let digit: u64 = (c as u32 - '0' as u32) as u64;
                proof {
                    let longer = digits@.take(i + 1);
                    assert(longer.drop_last() =~= digits@.take(i as int));
                    assert(longer.last() == c);
                    assert forall|j: int| 0 <= j < longer.len() implies is_digit(
                        #[trigger] longer[j],
                    ) by {
                        if j < i {
                            assert(digits@.take(i as int)[j] == longer[j]);
                        }
                    }
                }
                value = value * 10 + digit;
                if value > u32::MAX as u64 {
                    proof {
                        if all_digits(digits@) {
                            lemma_digits_value_grows(digits@, i + 1);
                        }
                    }
                    return None;
                }
                i = i + 1;
            },
        }
    }
    proof {
        assert(digits@.take(i as int) =~= digits@);
    }
    if n == 0 {
        None
    } else {
        Some(value as u32)
    }
}

/// Reads a number as `u32` is written: a plus sign or none, then digits.
pub fn parse_u32(text: &str) -> (number: Option<u32>)
    ensures
        number == parsed_u32(text@),
{
    let n = text.unicode_len();
    if n > 0 && text.get_char(0) == '+' {
        let digits = text.substring_char(1, n);
        assert(digits@ =~= text@.drop_first());
        parse_digits(digits)
    } else {
        parse_digits(text)
    }
}

impl Config {
    /// The configuration that the three values of the environment give:
    /// the address of the server, which has a default; the address of the
    /// database, which must be given; and the size of the pool of
    /// connections, which has a default that also stands in for a text that
    /// is no number.
    pub fn from_values(
        server_address: Option<String>,
        database_url: Option<String>,
        max_connections: Option<String>,
    ) -> (made: Result<Config, String>)
        ensures
            match database_url {
                None => made matches Err(message) && message@
                    == "DATABASE_URL environment variable is required"@,
                Some(url) => made matches Ok(config) && config.database_url == url
                    && config.server_address@ == (match server_address {
                    Some(address) => address@,
                    None => default_server_address(),
                }) && config.max_connections == max_connections_of(
                    match max_connections {
                        Some(text) => Some(text@),
                        None => None,
                    },
                ),
            },
    {
        let server_address = match server_address {
            Some(address) => address,
            None => String::from_str("127.0.0.1:7878"),
        };
        let database_url = match database_url {
            Some(url) => url,
            None => {
                return Err(String::from_str("DATABASE_URL environment variable is required"));
            },
        };
        let max_connections = match max_connections {
            Some(text) => match parse_u32(text.as_str()) {
                Some(n) => n,
                None => DEFAULT_MAX_CONNECTIONS,
            },
            None => DEFAULT_MAX_CONNECTIONS,
        };
        Ok(Config { server_address, database_url, max_connections })
    }
}

} // verus!
