//! Endpoint configuration for the storage client: host, port and the
//! credential pair, fixed once constructed, plus the derivation of the
//! plain-HTTP endpoint URL the client connects to.

use vstd::prelude::*;
use vstd::string::StringExecFns;

use crate::paths::push_char;

verus! {

/// The decimal digit character for a value below 10.
pub open spec fn dec_digit(d: u8) -> char {
    if d == 0 {
        '0'
    } else if d == 1 {
        '1'
    } else if d == 2 {
        '2'
    } else if d == 3 {
        '3'
    } else if d == 4 {
        '4'
    } else if d == 5 {
        '5'
    } else if d == 6 {
        '6'
    } else if d == 7 {
        '7'
    } else if d == 8 {
        '8'
    } else {
        '9'
    }
}

/// The decimal rendering of a number, most significant digit first, with
/// no leading zeros (a single `'0'` for zero).
pub open spec fn dec_of(n: nat) -> Seq<char>
    decreases n,
{
    if n < 10 {
        seq![dec_digit(n as u8)]
    } else {
        dec_of(n / 10) + seq![dec_digit((n % 10) as u8)]
    }
}

fn dec_digit_char(d: u8) -> (c: char)
    requires
        d < 10,
    ensures
        c == dec_digit(d),
{
    match d {
        0 => '0',
        1 => '1',
        2 => '2',
        3 => '3',
        4 => '4',
        5 => '5',
        6 => '6',
        7 => '7',
        8 => '8',
        _ => '9',
    }
}

/// Render a port number in decimal.
pub fn port_decimal(n: u16) -> (r: String)
    ensures
        r@ == dec_of(n as nat),
    decreases n,
{
    if n < 10 {
        let mut s = String::new();
        push_char(&mut s, dec_digit_char(n as u8));
        proof {
            assert(s@ =~= dec_of(n as nat));
        }
        s
    } else {
        let mut s = port_decimal(n / 10);
        push_char(&mut s, dec_digit_char((n % 10) as u8));
        s
    }
}

/// The plain-HTTP endpoint URL for a host and port:
/// `http://<host>:<port>`, the port in decimal.
pub open spec fn url_of(host: Seq<char>, port: nat) -> Seq<char> {
    "http://"@ + host + seq![':'] + dec_of(port)
}

/// What the storage client is constructed from: where the service is and
/// how to authenticate against it. Immutable once built; the region is
/// fixed by the client itself.
pub struct EndpointConfig {
    pub host: String,
    pub port: u16,
    pub access_key: String,
    pub secret_key: String,
}

impl EndpointConfig {
    /// Bundle the endpoint coordinates and the credential pair.
    pub fn new(host: String, port: u16, access_key: String, secret_key: String) -> (c:
        EndpointConfig)
        ensures
            c.host@ == host@,
            c.port == port,
            c.access_key@ == access_key@,
            c.secret_key@ == secret_key@,
    {
        EndpointConfig { host, port, access_key, secret_key }
    }

    /// The exact URL the client connects to: `http://<host>:<port>`,
    /// without TLS.
    pub fn endpoint_url(&self) -> (r: String)
        ensures
            r@ == url_of(self.host@, self.port as nat),
    {
        let mut r = String::from_str("http://");
        r.append(self.host.as_str());
        push_char(&mut r, ':');
        let p = port_decimal(self.port);
        r.append(p.as_str());
        proof {
            assert(r@ =~= url_of(self.host@, self.port as nat));
        }
        r
    }
}

} // verus!
