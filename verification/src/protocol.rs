//! The fixed payloads the four routines exchange and the exact text of
//! every line they print.

use crate::endpoint::Endpoint;
use crate::text::dec_digits;
use crate::text::debug_quote;
use crate::text::debug_quoted;
use crate::text::decode_lossy;
use crate::text::lossy_decode;
use crate::text::push_dec;
use vstd::prelude::*;
use vstd::slice::slice_subrange;
use vstd::slice::slice_to_vec;
use vstd::string::StringExecFns;
use vstd::utf8::encode_utf8;

verus! {

/// The text of the message the TCP server writes to each connection.
pub open spec fn server_text() -> Seq<char> {
    "Hello, from server"@
}

/// The text of the datagram the UDP client sends first.
pub open spec fn udp_client_text() -> Seq<char> {
    "Hello, from udp client"@
}

/// The text of the reply datagram the UDP server sends.
pub open spec fn udp_server_text() -> Seq<char> {
    "Hello, from udp server"@
}

/// The banner line both servers print once they are bound. The UDP server
/// names port 8080 as well: both servers bind that port.
pub open spec fn banner_text() -> Seq<char> {
    "Server listening on port 8080"@
}

/// The bytes the TCP server writes to each accepted connection.
pub fn server_message() -> (r: Vec<u8>)
    ensures
        r@ == encode_utf8(server_text()),
{
    slice_to_vec("Hello, from server".as_bytes())
}

/// The bytes of the datagram the UDP client sends first.
pub fn udp_client_message() -> (r: Vec<u8>)
    ensures
        r@ == encode_utf8(udp_client_text()),
{
    slice_to_vec("Hello, from udp client".as_bytes())
}

/// The bytes of the reply datagram the UDP server sends.
pub fn udp_server_message() -> (r: Vec<u8>)
    ensures
        r@ == encode_utf8(udp_server_text()),
{
    slice_to_vec("Hello, from udp server".as_bytes())
}

/// The banner line a server prints after binding.
pub fn server_banner() -> (r: String)
    ensures
        r@ == banner_text(),
{
    String::from_str("Server listening on port 8080")
}

/// The line the TCP client prints: the received bytes decoded lossily as
/// UTF-8 and shown in quoted, escaped form.
pub fn tcp_client_line(buf: &[u8]) -> (r: String)
    ensures
        r@ == "RECEIVED: "@ + debug_quoted(lossy_decode(buf@)),
{
    let mut s = String::from_str("RECEIVED: ");
    let decoded = decode_lossy(buf);
    let quoted = debug_quote(decoded.as_str());
    s.append(quoted.as_str());
    s
}

/// The line printed after a datagram of `len` bytes arrives from `src`.
pub fn recv_line(len: usize, src: &Endpoint) -> (r: String)
    ensures
        r@ == "Received "@ + dec_digits(len as nat) + " bytes from "@ + src.render_spec(),
{
    let mut s = String::from_str("Received ");
    push_dec(&mut s, len as u64);
    s.append(" bytes from ");
    src.push_render(&mut s);
    assert(s@ =~= "Received "@ + dec_digits(len as nat) + " bytes from "@ + src.render_spec());
    s
}

/// The line the UDP client prints for the first `len` bytes of its receive
/// buffer, decoded lossily as UTF-8.
pub fn message_line(buf: &[u8], len: usize) -> (r: String)
    requires
        len <= buf@.len(),
    ensures
        r@ == "MESSAGE: "@ + lossy_decode(buf@.take(len as int)),
{
    let data = slice_subrange(buf, 0, len);
    let mut s = String::from_str("MESSAGE: ");
    let decoded = decode_lossy(data);
    s.append(decoded.as_str());
    assert(buf@.subrange(0, len as int) =~= buf@.take(len as int));
    s
}

/// The line the UDP server prints after sending `sent` bytes back to
/// `dest`.
pub fn sent_line(sent: usize, dest: &Endpoint) -> (r: String)
    ensures
        r@ == "Sent "@ + dec_digits(sent as nat) + " bytes back to "@ + dest.render_spec(),
{
    let mut s = String::from_str("Sent ");
    push_dec(&mut s, sent as u64);
    s.append(" bytes back to ");
    dest.push_render(&mut s);
    assert(s@ =~= "Sent "@ + dec_digits(sent as nat) + " bytes back to "@ + dest.render_spec());
    s
}

/// What the UDP server does with one received datagram: the reply payload
/// and the address it is sent to.
pub struct UdpReply {
    pub payload: Vec<u8>,
    pub dest: Endpoint,
}

/// Decides the UDP server's response to a datagram received from `src`:
/// the fixed reply text, addressed back to exactly the source endpoint.
pub fn udp_server_step(src: &Endpoint) -> (r: UdpReply)
    ensures
        r.payload@ == encode_utf8(udp_server_text()),
        r.dest == *src,
{
    UdpReply { payload: udp_server_message(), dest: *src }
}

} // verus!
