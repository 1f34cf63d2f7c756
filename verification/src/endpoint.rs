//! Endpoints: an IPv4 address and port as plain values, with their
//! canonical textual rendering and the two fixed endpoints the demo uses.

use crate::text::dec_digits;
use crate::text::push_char;
use crate::text::push_dec;
use vstd::prelude::*;

verus! {

/// An IPv4 endpoint: four address octets and a port.
#[derive(Clone, Copy, Debug, PartialEq, Eq, Structural)]
pub struct Endpoint {
    pub a: u8,
    pub b: u8,
    pub c: u8,
    pub d: u8,
    pub port: u16,
}

impl Endpoint {
    /// The canonical rendering `a.b.c.d:port`, as printed for a socket
    /// address.
    pub open spec fn render_spec(self) -> Seq<char> {
        dec_digits(self.a as nat) + seq!['.'] + dec_digits(self.b as nat) + seq!['.'] + dec_digits(
            self.c as nat,
        ) + seq!['.'] + dec_digits(self.d as nat) + seq![':'] + dec_digits(self.port as nat)
    }

    pub fn new(a: u8, b: u8, c: u8, d: u8, port: u16) -> (e: Endpoint)
        ensures
            e == (Endpoint { a, b, c, d, port }),
    {
        Endpoint { a, b, c, d, port }
    }

    /// Appends the rendering of this endpoint to `s`.
    pub fn push_render(&self, s: &mut String)
        ensures
            final(s)@ == old(s)@ + self.render_spec(),
    {
        push_dec(s, self.a as u64);
        push_char(s, '.');
        push_dec(s, self.b as u64);
        push_char(s, '.');
        push_dec(s, self.c as u64);
        push_char(s, '.');
        push_dec(s, self.d as u64);
        push_char(s, ':');
        push_dec(s, self.port as u64);
        assert(s@ =~= old(s)@ + self.render_spec());
    }

    /// The rendering of this endpoint as a fresh string.
    pub fn render(&self) -> (r: String)
        ensures
            r@ == self.render_spec(),
    {
        let mut s = String::new();
        self.push_render(&mut s);
        assert(s@ =~= self.render_spec());
        s
    }
}

/// The fixed endpoint the servers bind and the clients address:
/// loopback port 8080.
pub fn server_endpoint() -> (e: Endpoint)
    ensures
        e == (Endpoint { a: 127, b: 0, c: 0, d: 1, port: 8080 }),
{
    Endpoint::new(127, 0, 0, 1, 8080)
}

/// The fixed local endpoint the UDP client binds: loopback port 9090.
pub fn udp_client_endpoint() -> (e: Endpoint)
    ensures
        e == (Endpoint { a: 127, b: 0, c: 0, d: 1, port: 9090 }),
{
    Endpoint::new(127, 0, 0, 1, 9090)
}

} // verus!
