//! The endpoint that a request asks to reach.
use vstd::prelude::*;
use vstd::utf8::{decode_utf8, valid_utf8};

use crate::request::{spec_parse, spec_request_needed, RequestModel, Socks5Req};
use crate::wire::{be16, read_be16, Atyp, Socks5Error};

verus! {

/// ASCII decimal digits of `n`, most significant first, without leading zeros.
pub open spec fn decimal(n: nat) -> Seq<u8>
    decreases n,
{
    if n < 10 {
        seq![(48 + n) as u8]
    } else {
        decimal(n / 10) + seq![(48 + n % 10) as u8]
    }
}

/// The text `name:port` as bytes, which name resolution is asked for.
pub open spec fn host_port_bytes(name: Seq<u8>, port: u16) -> Seq<u8> {
    name + seq![0x3au8] + decimal(port as nat)
}

/// The eight big-endian 16-bit groups of a 16-byte address.
pub open spec fn groups(addr: Seq<u8>) -> Seq<u16> {
    Seq::new(8, |i: int| be16(addr[2 * i], addr[2 * i + 1]))
}

/// What a target is: an IPv4 address and port, an IPv6 address (as groups)
/// and port, or the `name:port` text to resolve.
pub enum TargetModel {
    V4(Seq<u8>, u16),
    V6(Seq<u16>, u16),
    Host(Seq<char>),
}

/// The target that a request names.
pub open spec fn spec_target(q: RequestModel) -> Result<TargetModel, Socks5Error> {
    match q.atyp {
        Atyp::V4 => Ok(TargetModel::V4(q.addr, q.port)),
        Atyp::V6 => Ok(TargetModel::V6(groups(q.addr), q.port)),
        Atyp::Domain => {
            let b = host_port_bytes(q.addr, q.port);
            if valid_utf8(b) {
                Ok(TargetModel::Host(decode_utf8(b)))
            } else {
                Err(Socks5Error::InvalidHostname)
            }
        },
    }
}

/// An endpoint to dial, or a `name:port` text to resolve first. IPv6 flow
/// information and scope are zero.
#[derive(Debug)]
pub enum Target {
    V4 { octets: [u8; 4], port: u16 },
    V6 { segments: [u16; 8], port: u16 },
    Host(String),
}

impl View for Target {
    type V = TargetModel;

    open spec fn view(&self) -> TargetModel {
        match self {
            Target::V4 { octets, port } => TargetModel::V4(octets@, *port),
            Target::V6 { segments, port } => TargetModel::V6(segments@, *port),
            Target::Host(s) => TargetModel::Host(s@),
        }
    }
}

/// Relies on std's `String::from_utf8`: it succeeds exactly on valid UTF-8,
/// and the text holds the characters that the bytes encode.
#[verifier::external_body]
fn utf8_text(b: Vec<u8>) -> (r: Option<String>)
    ensures
        r is Some <==> valid_utf8(b@),
        r matches Some(s) ==> s@ == decode_utf8(b@),
{
    String::from_utf8(b).ok()
}

/// Appends the ASCII decimal digits of `n` to `out`.
pub fn push_decimal(out: &mut Vec<u8>, n: u16)
    ensures
        final(out)@ == old(out)@ + decimal(n as nat),
    decreases n,
{
    if n >= 10 {
        push_decimal(out, n / 10);
    }
    let d: u8 = (n % 10) as u8;
    out.push(48 + d);
    assert(final(out)@ =~= old(out)@ + decimal(n as nat)) by {
        reveal_with_fuel(decimal, 2);
    }
}

impl Socks5Req {
    /// The target that the request names; a domain name that is not valid
    /// UTF-8 text is refused.
    pub fn target(&self) -> (r: Result<Target, Socks5Error>)
        requires
            self.wf(),
        ensures
            match r {
                Ok(t) => spec_target(self@) == Ok::<TargetModel, Socks5Error>(t@),
                Err(e) => spec_target(self@) == Err::<TargetModel, Socks5Error>(e),
            },
    {
        let a = self.addr.as_slice();
        match self.atyp {
            Atyp::V4 => {
                let octets = [a[0], a[1], a[2], a[3]];
                assert(octets@ =~= self.addr@);
                Ok(Target::V4 { octets, port: self.port })
            },
            Atyp::V6 => {
                let segments = [
                    read_be16(a, 0),
                    read_be16(a, 2),
                    read_be16(a, 4),
                    read_be16(a, 6),
                    read_be16(a, 8),
                    read_be16(a, 10),
                    read_be16(a, 12),
                    read_be16(a, 14),
                ];
                assert(segments@ =~= groups(self.addr@));
                Ok(Target::V6 { segments, port: self.port })
            },
            Atyp::Domain => {
                let mut b: Vec<u8> = Vec::new();
                let mut i: usize = 0;
                while i < a.len()
                    invariant
                        0 <= i <= a@.len(),
                        a@ == self.addr@,
                        b@ == a@.subrange(0, i as int),
                    decreases a@.len() - i,
                {
                    b.push(a[i]);
                    i += 1;
                    assert(b@ =~= a@.subrange(0, i as int));
                }
                b.push(0x3a);
                push_decimal(&mut b, self.port);
                assert(b@ =~= host_port_bytes(self.addr@, self.port));
                match utf8_text(b) {
                    Some(s) => Ok(Target::Host(s)),
                    None => Err(Socks5Error::InvalidHostname),
                }
            },
        }
    }
}

/// An IPv4 request `[5, 1, 0, 1, a, b, c, d, hi, lo]` is complete and names
/// exactly the one endpoint `a.b.c.d` at port `hi * 256 + lo`.
pub proof fn ipv4_request_target(a: u8, b: u8, c: u8, d: u8, hi: u8, lo: u8)
    ensures
        ({
            let s = seq![5u8, 1u8, 0u8, 1u8, a, b, c, d, hi, lo];
            &&& spec_request_needed(s) == Ok::<int, Socks5Error>(0)
            &&& spec_parse(s) is Ok
            &&& spec_target(spec_parse(s)->Ok_0) == Ok::<TargetModel, Socks5Error>(
                TargetModel::V4(seq![a, b, c, d], be16(hi, lo)),
            )
        }),
        be16(hi, lo) as int == hi as int * 256 + lo as int,
{
    let s = seq![5u8, 1u8, 0u8, 1u8, a, b, c, d, hi, lo];
    assert(s.subrange(4, 8) =~= seq![a, b, c, d]);
}

/// An IPv6 request with address bytes `addr` names the address whose eight
/// groups are the big-endian pairs of those bytes, in order.
pub proof fn ipv6_request_target(addr: Seq<u8>, hi: u8, lo: u8)
    requires
        addr.len() == 16,
    ensures
        ({
            let s = seq![5u8, 1u8, 0u8, 4u8] + addr + seq![hi, lo];
            &&& spec_request_needed(s) == Ok::<int, Socks5Error>(0)
            &&& spec_parse(s) is Ok
            &&& spec_target(spec_parse(s)->Ok_0) matches Ok(TargetModel::V6(g, port)) && port
                == be16(hi, lo) && g.len() == 8 && forall|i: int|
                0 <= i < 8 ==> #[trigger] g[i] as int == addr[2 * i] as int * 256 + addr[2 * i
                    + 1] as int
        }),
{
    let s = seq![5u8, 1u8, 0u8, 4u8] + addr + seq![hi, lo];
    assert(s.subrange(4, 20) =~= addr);
    assert(s[20] == hi && s[21] == lo);
}

/// A domain request `[5, 1, 0, 3, n, name.., hi, lo]` carries `name` as its
/// address, and resolution is asked for the text `name:port`; a name that is
/// not valid UTF-8 is refused.
pub proof fn domain_request_target(name: Seq<u8>, hi: u8, lo: u8)
    requires
        name.len() <= 255,
    ensures
        ({
            let s = seq![5u8, 1u8, 0u8, 3u8, name.len() as u8] + name + seq![hi, lo];
            let b = host_port_bytes(name, be16(hi, lo));
            &&& spec_request_needed(s) == Ok::<int, Socks5Error>(0)
            &&& spec_parse(s) matches Ok(q) && q.addr == name && q.port == be16(hi, lo)
            &&& valid_utf8(b) ==> spec_target(spec_parse(s)->Ok_0) == Ok::<
                TargetModel,
                Socks5Error,
            >(TargetModel::Host(decode_utf8(b)))
            &&& !valid_utf8(b) ==> spec_target(spec_parse(s)->Ok_0) == Err::<
                TargetModel,
                Socks5Error,
            >(Socks5Error::InvalidHostname)
        }),
{
    let s = seq![5u8, 1u8, 0u8, 3u8, name.len() as u8] + name + seq![hi, lo];
    let k = name.len() as int;
    assert(s.subrange(5, 5 + k) =~= name);
    assert(s[5 + k] == hi && s[6 + k] == lo);
}

} // verus!
