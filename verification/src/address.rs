//! The address that the agent serves on, as given on the command line.

use vstd::prelude::*;
use vstd::string::*;
use vstd::utf8::*;

verus! {

/// Why the command line gives no address.
#[derive(Debug, Clone, Copy, PartialEq, Eq)]
pub enum AddressError {
    /// More than one argument follows the program's name, or not even the name is there.
    WrongArguments,
    /// The argument has no `:` between host and port.
    MissingPort,
    /// What follows the `:` is no port number.
    InvalidPort,
}

/// The host that the agent serves on when no address is given.
pub open spec fn default_host() -> Seq<char> {
    "127.0.0.1"@
}

/// The port that the agent serves on when no address is given.
pub const DEFAULT_PORT: u16 = 44444;

/// The byte of `:` in UTF-8.
pub const COLON: u8 = 58;

/// The value of a decimal digit.
pub open spec fn digit_value(c: char) -> Option<nat> {
    if '0' <= c && c <= '9' {
        Some((c as u32 - '0' as u32) as nat)
    } else {
        None
    }
}

/// The number that a string of decimal digits writes; the empty string writes zero.
pub open spec fn digits_value(digits: Seq<char>) -> Option<nat>
    decreases digits.len(),
{
    if digits.len() == 0 {
        Some(0)
    } else {
        match (digits_value(digits.drop_last()), digit_value(digits.last())) {
            (Some(value), Some(digit)) => Some(value * 10 + digit),
            _ => None,
        }
    }
}

/// The port that a text writes: at least one decimal digit, after an
/// optional `+`, with a value that fits sixteen bits.
pub open spec fn port_of(text: Seq<char>) -> Option<u16> {
    let digits = if text.len() > 0 && text[0] == '+' {
        text.drop_first()
    } else {
        text
    };
    if digits.len() == 0 {
        None
    } else {
        match digits_value(digits) {
            Some(value) => if value <= u16::MAX {
                Some(value as u16)
            } else {
                None
            },
            None => None,
        }
    }
}

/// Whether `index` is where the first `:` stands in the bytes of a text.
pub open spec fn first_colon_at(bytes: Seq<u8>, index: int) -> bool {
    &&& 0 <= index < bytes.len()
    &&& bytes[index] == COLON
    &&& forall|j: int| 0 <= j < index ==> bytes[j] != COLON
}

/// Whether the bytes of a text hold a `:`.
pub open spec fn has_colon(bytes: Seq<u8>) -> bool {
    exists|index: int| first_colon_at(bytes, index)
}

/// `count` clipped to the length of a text.
pub open spec fn clipped(count: int, text: Seq<char>) -> int {
    if count <= text.len() {
        count
    } else {
        text.len() as int
    }
}

/// Host and port of an address. The host is as many characters from the
/// front as bytes stand before the first `:`; the port is written by the
/// characters after one more.
pub open spec fn address_of(address: Seq<char>) -> Result<(Seq<char>, u16), AddressError> {
    let bytes = encode_utf8(address);
    if has_colon(bytes) {
        let index = choose|index: int| first_colon_at(bytes, index);
        match port_of(address.skip(clipped(index + 1, address))) {
            Some(port) => Ok((address.take(clipped(index, address)), port)),
            None => Err(AddressError::InvalidPort),
        }
    } else {
        Err(AddressError::MissingPort)
    }
}

/// The address that the arguments give. With the program's name alone it is
/// the default; with one argument it is read from that.
pub open spec fn address_of_args(args: Seq<Seq<char>>) -> Result<(Seq<char>, u16), AddressError> {
    if args.len() == 1 {
        Ok((default_host(), DEFAULT_PORT))
    } else if args.len() == 2 {
        address_of(args[1])
    } else {
        Err(AddressError::WrongArguments)
    }
}

/// The view of an address or of the failure to find one.
pub open spec fn address_view(result: Result<(String, u16), AddressError>) -> Result<
    (Seq<char>, u16),
    AddressError,
> {
    match result {
        Ok((host, port)) => Ok((host@, port)),
        Err(error) => Err(error),
    }
}

/// Where a front of a string of digits has no value, the string has none;
/// where the string has a value, each front has one that is no greater.
proof fn lemma_digits_front(digits: Seq<char>, count: int)
    requires
        0 <= count <= digits.len(),
    ensures
        digits_value(digits.take(count)) is None ==> digits_value(digits) is None,
        digits_value(digits) matches Some(value) ==> digits_value(digits.take(count)) matches Some(
            front,
        ) && front <= value,
    decreases digits.len() - count,
{
    if count == digits.len() {
        assert(digits.take(count) == digits);
    } else {
        lemma_digits_front(digits, count + 1);
        assert(digits.take(count + 1).drop_last() == digits.take(count));
    }
}

/// Reads the value of a string of digits, up to sixteen bits.
fn digits_to_port(digits: &str) -> (port: Option<u16>)
    ensures
        port == match digits_value(digits@) {
            Some(value) => if digits@.len() > 0 && value <= u16::MAX {
                Some(value as u16)
            } else {
                None
            },
            None => None,
        },
{
    let len: usize = digits.unicode_len();
    if len == 0 {
        return None;
    }
    let mut value: u32 = 0;
    let mut i: usize = 0;
    while i < len
        invariant
            i <= len,
            len == digits@.len(),
            value <= u16::MAX,
            digits_value(digits@.take(i as int)) == Some(value as nat),
        decreases len - i,
    {
        let c: char = digits.get_char(i);
        proof {
            assert(digits@.take(i + 1).drop_last() == digits@.take(i as int));
            lemma_digits_front(digits@, i + 1);
        }
        if c < '0' || c > '9' {
            return None;
        }
        let digit: u32 = c as u32 - '0' as u32;
        let next: u32 = value * 10 + digit;
        if next > 65535 {
            return None;
        }
        value = next;
        i += 1;
    }
    assert(digits@.take(i as int) == digits@);
    Some(value as u16)
}

/// Reads a port number.
pub fn parse_port(text: &str) -> (port: Option<u16>)
    ensures
        port == port_of(text@),
{
    let len: usize = text.unicode_len();
    if len > 0 && text.get_char(0) == '+' {
        let digits = text.substring_char(1, len);
        digits_to_port(digits)
    } else {
        digits_to_port(text)
    }
}

/// Finds the first `:` among the bytes of a text.
fn find_colon(bytes: &[u8]) -> (found: Option<usize>)
    ensures
        match found {
            Some(index) => first_colon_at(bytes@, index as int),
            None => !has_colon(bytes@),
        },
{
    let mut i: usize = 0;
    while i < bytes.len()
        invariant
            i <= bytes@.len(),
            forall|j: int| 0 <= j < i ==> bytes@[j] != COLON,
        decreases bytes@.len() - i,
    {
        if bytes[i] == COLON {
            return Some(i);
        }
        i += 1;
    }
    None
}

/// Reads host and port from an address of the form `host:port`.
pub fn parse_address(addr: &str) -> (result: Result<(String, u16), AddressError>)
    ensures
        address_view(result) == address_of(addr@),
{
    let index = match find_colon(addr.as_bytes()) {
        Some(index) => index,
        None => {
            return Err(AddressError::MissingPort);
        },
    };
    let len: usize = addr.unicode_len();
    let host_end: usize = if index <= len {
        index
    } else {
        len
    };
    let port_start: usize = if index < len {
        index + 1
    } else {
        len
    };
    let ip = addr.substring_char(0, host_end);
    let port_string = addr.substring_char(port_start, len);
    match parse_port(port_string) {
        Some(port) => Ok((ip.to_owned(), port)),
        None => Err(AddressError::InvalidPort),
    }
}

/// Reads the address to serve on from the command line: `args[0]` is the
/// program's name, and at most one argument may follow it.
pub fn parse_args_get_addr(args: Vec<String>) -> (result: Result<(String, u16), AddressError>)
    ensures
        address_view(result) == address_of_args(args.deep_view()),
{
    if args.len() == 1 {
        Ok(("127.0.0.1".to_string(), DEFAULT_PORT))
    } else if args.len() == 2 {
        parse_address(args[1].as_str())
    } else {
        Err(AddressError::WrongArguments)
    }
}

} // verus!
