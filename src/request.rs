//! The connection request: framing, parsing, and the target it names.
use vstd::prelude::*;

use crate::wire::{atyp_of, be16, read_be16, Atyp, Socks5Error};

verus! {

/// Where the address field starts: after the header, and after the length
/// byte of a domain name.
pub open spec fn addr_start(a: Atyp) -> int {
    if a == Atyp::Domain {
        5
    } else {
        4
    }
}

/// Length of the address field proper, given the bytes up to its start.
pub open spec fn addr_size(a: Atyp, s: Seq<u8>) -> int {
    match a {
        Atyp::V4 => 4,
        Atyp::V6 => 16,
        Atyp::Domain => s[4] as int,
    }
}

/// Length of the whole request: header, address, two-byte port.
pub open spec fn request_total(a: Atyp, s: Seq<u8>) -> int {
    addr_start(a) + addr_size(a, s) + 2
}

/// How many more bytes the request whose first bytes are `s` needs; zero once
/// it is complete. Known as soon as the header (and a domain's length byte)
/// has arrived; an unknown address type is refused right after the header.
pub open spec fn spec_request_needed(s: Seq<u8>) -> Result<int, Socks5Error> {
    if s.len() < 4 {
        Ok(4 - s.len())
    } else {
        match atyp_of(s[3]) {
            None => Err(Socks5Error::AddressTypeNotSupported),
            Some(a) => if s.len() < addr_start(a) {
                Ok(addr_start(a) - s.len())
            } else if s.len() < request_total(a, s) {
                Ok(request_total(a, s) - s.len())
            } else {
                Ok(0)
            },
        }
    }
}

/// A request whose address-type tag is unknown is refused as soon as its
/// header is in, whatever follows it.
pub proof fn unknown_address_type_refused(s: Seq<u8>)
    requires
        s.len() >= 4,
        atyp_of(s[3]) is None,
    ensures
        spec_request_needed(s) == Err::<int, Socks5Error>(Socks5Error::AddressTypeNotSupported),
        spec_parse(s) == Err::<RequestModel, Socks5Error>(Socks5Error::AddressTypeNotSupported),
{
}

/// What a request says: address type, raw address, port.
pub struct RequestModel {
    pub atyp: Atyp,
    pub addr: Seq<u8>,
    pub port: u16,
}

/// The request that the bytes `s` begin with.
pub open spec fn spec_parse(s: Seq<u8>) -> Result<RequestModel, Socks5Error> {
    match spec_request_needed(s) {
        Err(e) => Err(e),
        Ok(n) => if n > 0 {
            Err(Socks5Error::Truncated)
        } else {
            let a = atyp_of(s[3]).unwrap();
            let t = request_total(a, s);
            Ok(
                RequestModel {
                    atyp: a,
                    addr: s.subrange(addr_start(a), addr_start(a) + addr_size(a, s)),
                    port: be16(s[t - 2], s[t - 1]),
                },
            )
        },
    }
}

/// How many more bytes the request beginning with `buf` needs (zero once it
/// is complete), or the error that its header already shows.
pub fn request_needed(buf: &[u8]) -> (r: Result<usize, Socks5Error>)
    ensures
        match r {
            Ok(n) => spec_request_needed(buf@) == Ok::<int, Socks5Error>(n as int),
            Err(e) => spec_request_needed(buf@) == Err::<int, Socks5Error>(e),
        },
{
    let len = buf.len();
    if len < 4 {
        return Ok(4 - len);
    }
    let atyp = match Atyp::from_u8(buf[3]) {
        Ok(a) => a,
        Err(e) => return Err(e),
    };
    let start: usize = match atyp {
        Atyp::Domain => 5,
        _ => 4,
    };
    if len < start {
        return Ok(start - len);
    }
    let size: usize = match atyp {
        Atyp::V4 => 4,
        Atyp::V6 => 16,
        Atyp::Domain => buf[4] as usize,
    };
    let total = start + size + 2;
    if len < total {
        Ok(total - len)
    } else {
        Ok(0)
    }
}

/// A parsed request.
pub struct Socks5Req {
    pub atyp: Atyp,
    pub addr: Vec<u8>,
    pub port: u16,
}

impl View for Socks5Req {
    type V = RequestModel;

    open spec fn view(&self) -> RequestModel {
        RequestModel { atyp: self.atyp, addr: self.addr@, port: self.port }
    }
}

impl Socks5Req {
    /// The address has the length its type fixes: 4, 16, or at most 255.
    pub open spec fn wf(&self) -> bool {
        match self.atyp {
            Atyp::V4 => self.addr@.len() == 4,
            Atyp::V6 => self.addr@.len() == 16,
            Atyp::Domain => self.addr@.len() <= 255,
        }
    }

    /// Parses the request that `buf` begins with.
    pub fn parse(buf: &[u8]) -> (r: Result<Socks5Req, Socks5Error>)
        ensures
            match r {
                Ok(q) => spec_parse(buf@) == Ok::<RequestModel, Socks5Error>(q@) && q.wf(),
                Err(e) => spec_parse(buf@) == Err::<RequestModel, Socks5Error>(e),
            },
    {
        match request_needed(buf) {
            Err(e) => Err(e),
            Ok(n) => {
                if n > 0 {
                    return Err(Socks5Error::Truncated);
                }
                let atyp = match Atyp::from_u8(buf[3]) {
                    Ok(a) => a,
                    Err(e) => return Err(e),
                };
                let start: usize = match atyp {
                    Atyp::Domain => 5,
                    _ => 4,
                };
                let size: usize = match atyp {
                    Atyp::V4 => 4,
                    Atyp::V6 => 16,
                    Atyp::Domain => buf[4] as usize,
                };
                let mut addr: Vec<u8> = Vec::new();
                let end: usize = start + size;
                let mut i: usize = start;
                while i < end
                    invariant
                        start <= i <= end,
                        end == start + size,
                        end + 2 <= buf@.len(),
                        addr@ == buf@.subrange(start as int, i as int),
                    decreases end - i,
                {
                    addr.push(buf[i]);
                    i += 1;
                    assert(addr@ =~= buf@.subrange(start as int, i as int));
                }
                let port = read_be16(buf, end);
                let q = Socks5Req { atyp, addr, port };
                assert(q@ == spec_parse(buf@)->Ok_0);
                Ok(q)
            },
        }
    }
}

} // verus!
