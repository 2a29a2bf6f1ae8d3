use vstd::prelude::*;
use crate::call::Event;
use crate::client::Authority;
use vstd::utf8::encode_utf8;

verus! {

pub open spec fn is_digit(b: u8) -> bool {
    48 <= b <= 57
}

/// The decimal digits of `n`, most significant first.
pub open spec fn decimal(n: nat) -> Seq<u8>
    decreases n,
{
    if n < 10 {
        seq![(48 + n) as u8]
    } else {
        decimal(n / 10).push((48 + n % 10) as u8)
    }
}

/// A host as it stands before a port: an IPv6 literal (a host with a
/// colon) goes in brackets unless it already is.
pub open spec fn host_for_authority(host: Seq<u8>) -> Seq<u8> {
    if host.contains(58u8) && !(host.len() > 0 && host[0] == 91u8) {
        seq![91u8] + host + seq![93u8]
    } else {
        host
    }
}

/// `host:port` as it stands in a tunnel request.
pub open spec fn authority_bytes(host: Seq<u8>, port: u16) -> Seq<u8> {
    host_for_authority(host) + seq![58u8] + decimal(port as nat)
}

/// The header line that carries the proxy credentials, if any.
pub open spec fn auth_line(auth: Option<Seq<u8>>) -> Seq<u8> {
    match auth {
        Some(v) => seq![
            80u8, 114, 111, 120, 121, 45, 65, 117, 116, 104, 111, 114, 105, 122, 97, 116, 105, 111, 110, 58, 32
        ] + v + seq![13u8, 10],
        None => Seq::empty(),
    }
}

/// The request that asks a proxy for a tunnel to `host:port`, with the
/// proxy credentials when given.
pub open spec fn spec_connect_request(host: Seq<u8>, port: u16, auth: Option<Seq<u8>>) -> Seq<u8> {
    seq![67u8, 79, 78, 78, 69, 67, 84, 32]
        + authority_bytes(host, port)
        + seq![32u8, 72, 84, 84, 80, 47, 49, 46, 49, 13, 10, 72, 111, 115, 116, 58, 32]
        + authority_bytes(host, port)
        + seq![13u8, 10]
        + auth_line(auth)
        + seq![13u8, 10]
}

/// Whether the host must be put in brackets.
fn needs_brackets(host: &[u8]) -> (r: bool)
    ensures
        r == (host@.contains(58u8) && !(host@.len() > 0 && host@[0] == 91u8)),
{
    if host.len() > 0 && host[0] == 91 {
        return false;
    }
    let mut i: usize = 0;
    while i < host.len()
        invariant
            i <= host@.len(),
            forall|j: int| 0 <= j < i ==> host@[j] != 58u8,
            !(host@.len() > 0 && host@[0] == 91u8),
        decreases host@.len() - i,
    {
        if host[i] == 58 {
            assert(host@[i as int] == 58u8);
            return true;
        }
        i = i + 1;
    }
    false
}

/// A proxy reply head that starts with a well-formed HTTP/1.x status line:
/// `HTTP/1.0` or `HTTP/1.1`, a space, three digits, then the end of the
/// input, a space or a carriage return.
pub open spec fn status_line_ok(r: Seq<u8>) -> bool {
    &&& r.len() >= 12
    &&& r.subrange(0, 7) == seq![72u8, 84, 84, 80, 47, 49, 46]
    &&& (r[7] == 48 || r[7] == 49)
    &&& r[8] == 32
    &&& is_digit(r[9]) && is_digit(r[10]) && is_digit(r[11])
    &&& (r.len() == 12 || r[12] == 32 || r[12] == 13)
}

/// The status code of a well-formed status line.
pub open spec fn status_code(r: Seq<u8>) -> int {
    (r[9] - 48) * 100 + (r[10] - 48) * 10 + (r[11] - 48)
}

fn push_bytes(out: &mut Vec<u8>, b: &[u8])
    ensures
        final(out)@ == old(out)@ + b@,
{
    let mut i: usize = 0;
    while i < b.len()
        invariant
            i <= b@.len(),
            out@ == old(out)@ + b@.subrange(0, i as int),
        decreases b@.len() - i,
    {
        out.push(b[i]);
        i = i + 1;
        assert(out@ =~= old(out)@ + b@.subrange(0, i as int));
    }
    assert(b@.subrange(0, i as int) =~= b@);
}

fn push_decimal(out: &mut Vec<u8>, n: u16)
    ensures
        final(out)@ == old(out)@ + decimal(n as nat),
    decreases n,
{
    if n < 10 {
        out.push(48 + n as u8);
        assert(out@ =~= old(out)@ + decimal(n as nat));
    } else {
        push_decimal(out, n / 10);
        out.push(48 + (n % 10) as u8);
        assert(out@ =~= old(out)@ + decimal(n as nat));
    }
}

fn push_authority(out: &mut Vec<u8>, target: &Authority)
    ensures
        final(out)@ == old(out)@ + authority_bytes(encode_utf8(target.host@), target.port),
{
    let host = target.host.as_str().as_bytes();
    if needs_brackets(host) {
        out.push(91);
        push_bytes(out, host);
        out.push(93);
    } else {
        push_bytes(out, host);
    }
    out.push(58);
    push_decimal(out, target.port);
    assert(out@ =~= old(out)@ + authority_bytes(encode_utf8(target.host@), target.port));
}

/// The bytes that ask a proxy to open a tunnel to `target`, presenting
/// `proxy_authorization` as the credentials when given.
pub fn connect_request(target: &Authority, proxy_authorization: &Option<Vec<u8>>) -> (r: Vec<u8>)
    ensures
        r@ == spec_connect_request(
            encode_utf8(target.host@),
            target.port,
            match proxy_authorization {
                Some(v) => Some(v@),
                None => None,
            },
        ),
{
    let mut out: Vec<u8> = Vec::new();
    push_bytes(&mut out, &[67u8, 79, 78, 78, 69, 67, 84, 32]);
    push_authority(&mut out, target);
    push_bytes(&mut out, &[32u8, 72, 84, 84, 80, 47, 49, 46, 49, 13, 10, 72, 111, 115, 116, 58, 32]);
    push_authority(&mut out, target);
    push_bytes(&mut out, &[13u8, 10]);
    if let Some(v) = proxy_authorization {
        push_bytes(
            &mut out,
            &[80u8, 114, 111, 120, 121, 45, 65, 117, 116, 104, 111, 114, 105, 122, 97, 116, 105, 111, 110, 58, 32],
        );
        push_bytes(&mut out, v.as_slice());
        push_bytes(&mut out, &[13u8, 10]);
    }
    push_bytes(&mut out, &[13u8, 10]);
    let ghost host = encode_utf8(target.host@);
    let ghost auth = match proxy_authorization {
        Some(v) => Some(v@),
        None => None,
    };
    assert(out@ =~= spec_connect_request(host, target.port, auth));
    out
}

/// Reads the proxy's reply to a tunnel request: its status when the reply
/// starts with a well-formed status line, else a malformed reply.
pub fn tunnel_event(reply: &[u8]) -> (e: Event)
    ensures
        status_line_ok(reply@) ==> e == Event::TunnelStatus(status_code(reply@) as u16),
        !status_line_ok(reply@) ==> e == Event::TunnelMalformed,
{
    if reply.len() < 12 {
        return Event::TunnelMalformed;
    }
    let prefix: [u8; 7] = [72u8, 84, 84, 80, 47, 49, 46];
    assert(prefix@ =~= seq![72u8, 84, 84, 80, 47, 49, 46]);
    let mut i: usize = 0;
    while i < 7
        invariant
            i <= 7,
            prefix@ == seq![72u8, 84, 84, 80, 47, 49, 46],
            reply@.len() >= 12,
            forall|j: int| 0 <= j < i ==> reply@[j] == prefix@[j],
        decreases 7 - i,
    {
        if reply[i] != prefix[i] {
            assert(reply@.subrange(0, 7)[i as int] != seq![72u8, 84, 84, 80, 47, 49, 46][i as int]);
            return Event::TunnelMalformed;
        }
        i = i + 1;
    }
    assert(reply@.subrange(0, 7) =~= seq![72u8, 84, 84, 80, 47, 49, 46]);
    let minor = reply[7];
    let d0 = reply[9];
    let d1 = reply[10];
    let d2 = reply[11];
    let ok_end = reply.len() == 12 || reply[12] == 32 || reply[12] == 13;
    if (minor == 48 || minor == 49) && reply[8] == 32 && 48 <= d0 && d0 <= 57 && 48 <= d1 && d1 <= 57
        && 48 <= d2 && d2 <= 57 && ok_end {
        let code: u16 = (d0 - 48) as u16 * 100 + (d1 - 48) as u16 * 10 + (d2 - 48) as u16;
        Event::TunnelStatus(code)
    } else {
        Event::TunnelMalformed
    }
}

} // verus!
