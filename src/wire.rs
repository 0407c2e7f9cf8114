//! Wire-level constants and tag codecs of the SOCKS5 protocol.
use vstd::prelude::*;

verus! {

pub const SOCKS_VERSION: u8 = 0x05;

pub const RESERVED: u8 = 0x00;

/// Big-endian value of two bytes.
pub open spec fn be16(hi: u8, lo: u8) -> u16 {
    (hi as int * 256 + lo as int) as u16
}

/// Reads a big-endian `u16` from bytes `i` and `i + 1` of `b`.
pub fn read_be16(b: &[u8], i: usize) -> (r: u16)
    requires
        i + 2 <= b@.len(),
    ensures
        r == be16(b@[i as int], b@[i + 1]),
        r as int == b@[i as int] as int * 256 + b@[i + 1] as int,
{
    let hi: u16 = b[i] as u16;
    let lo: u16 = b[i + 1] as u16;
    hi * 256 + lo
}

/// Authentication methods known to this core.
#[derive(Clone, Copy, Debug, PartialEq, Eq, Structural)]
pub enum AuthMethod {
    /// No authentication.
    NoAuth,
    /// Username / password; recognised, not implemented.
    UserPass,
}

impl AuthMethod {
    pub open spec fn spec_code(self) -> u8 {
        match self {
            AuthMethod::NoAuth => 0x00,
            AuthMethod::UserPass => 0x02,
        }
    }

    /// The method's wire code.
    pub fn code(self) -> (r: u8)
        ensures
            r == self.spec_code(),
    {
        match self {
            AuthMethod::NoAuth => 0x00,
            AuthMethod::UserPass => 0x02,
        }
    }
}

/// Reply codes sent after a request.
#[derive(Clone, Copy, Debug, PartialEq, Eq, Structural)]
pub enum Rep {
    Success,
}

impl Rep {
    pub open spec fn spec_code(self) -> u8 {
        match self {
            Rep::Success => 0x00,
        }
    }

    /// The reply's wire code.
    pub fn code(self) -> (r: u8)
        ensures
            r == self.spec_code(),
    {
        match self {
            Rep::Success => 0x00,
        }
    }
}

/// Errors of the protocol logic.
#[derive(Clone, Copy, Debug, PartialEq, Eq, Structural)]
pub enum Socks5Error {
    /// The address-type tag is not one of IPv4, domain name, IPv6.
    AddressTypeNotSupported,
    /// Fewer bytes were given than the message needs.
    Truncated,
    /// A domain name is not valid UTF-8 text.
    InvalidHostname,
}

/// Address types of a request.
#[derive(Clone, Copy, Debug, PartialEq, Eq, Structural)]
pub enum Atyp {
    V4,
    Domain,
    V6,
}

/// The address type that a wire tag names, if any.
pub open spec fn atyp_of(n: u8) -> Option<Atyp> {
    if n == 0x01 {
        Some(Atyp::V4)
    } else if n == 0x03 {
        Some(Atyp::Domain)
    } else if n == 0x04 {
        Some(Atyp::V6)
    } else {
        None
    }
}

impl Atyp {
    pub open spec fn spec_code(self) -> u8 {
        match self {
            Atyp::V4 => 0x01,
            Atyp::Domain => 0x03,
            Atyp::V6 => 0x04,
        }
    }

    /// Decodes an address-type tag; any other tag is refused.
    pub fn from_u8(n: u8) -> (r: Result<Atyp, Socks5Error>)
        ensures
            atyp_of(n) matches Some(a) ==> r == Ok::<Atyp, Socks5Error>(a),
            atyp_of(n) is None ==> r == Err::<Atyp, Socks5Error>(Socks5Error::AddressTypeNotSupported),
    {
        match n {
            0x01 => Ok(Atyp::V4),
            0x03 => Ok(Atyp::Domain),
            0x04 => Ok(Atyp::V6),
            _ => Err(Socks5Error::AddressTypeNotSupported),
        }
    }

    /// The type's wire tag.
    pub fn code(self) -> (r: u8)
        ensures
            r == self.spec_code(),
            atyp_of(r) == Some(self),
    {
        match self {
            Atyp::V4 => 0x01,
            Atyp::Domain => 0x03,
            Atyp::V6 => 0x04,
        }
    }
}

/// The negotiation reply for a selected method.
pub open spec fn spec_auth_reply(m: AuthMethod) -> Seq<u8> {
    seq![SOCKS_VERSION, m.spec_code()]
}

/// The success reply: version, success, reserved, IPv4, zero address and port.
pub open spec fn spec_success_reply() -> Seq<u8> {
    seq![SOCKS_VERSION, 0x00, RESERVED, 0x01, 0, 0, 0, 0, 0, 0]
}

/// Encodes the negotiation reply.
pub fn auth_reply(m: AuthMethod) -> (r: Vec<u8>)
    ensures
        r@ == spec_auth_reply(m),
{
    let r = vec![SOCKS_VERSION, m.code()];
    assert(r@ =~= spec_auth_reply(m));
    r
}

/// Encodes the success reply; bound address and port are zero-filled.
pub fn success_reply() -> (r: Vec<u8>)
    ensures
        r@ == spec_success_reply(),
{
    let r = vec![SOCKS_VERSION, Rep::Success.code(), RESERVED, Atyp::V4.code(), 0, 0, 0, 0, 0, 0];
    assert(r@ =~= spec_success_reply());
    r
}

} // verus!
