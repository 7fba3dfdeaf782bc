//! HTTP request-head completion and forwarded-client-address injection.
//!
//! The parse of the request head is delegated to `httparse`; everything the
//! relay does with the parse result — splicing the forwarded-address line
//! into the buffer just before the blank-line terminator — is verified here.

use vstd::prelude::*;

use crate::bytes::push_range;

verus! {

/// The byte offset just past the blank line that terminates a complete
/// HTTP/1.x request head in `buf`, if the head is complete and well formed;
/// the offset is what `httparse` reports for the default configuration.
pub uninterp spec fn http_head_end(buf: Seq<u8>) -> Option<int>;

/// Relies on httparse::Request::parse (default config, 100 header slots):
/// the outcome is a function of the buffer alone; on `Complete(o)` the
/// reported offset counts bytes consumed from the buffer, so `o <= len`,
/// and a complete request line plus terminator is never shorter than 2 bytes.
#[verifier::external_body]
fn parse_head(buffer: &Vec<u8>) -> (r: Option<usize>)
    ensures
        r is Some <==> http_head_end(buffer@) is Some,
        r matches Some(o) ==> http_head_end(buffer@) == Some(o as int) && 2 <= o <= buffer.len(),
{
    let mut headers = [httparse::EMPTY_HEADER; 100];
    let mut request = httparse::Request::new(&mut headers);
    match request.parse(buffer.as_slice()) {
        Ok(httparse::Status::Complete(offset)) => Some(offset),
        _ => None,
    }
}

/// The header line prefix the injector writes: `X-Forwarded-For: `.
pub open spec fn xff_prefix() -> Seq<u8> {
    seq![
        88u8, 45u8, 70u8, 111u8, 114u8, 119u8, 97u8, 114u8, 100u8, 101u8, 100u8,
        45u8, 70u8, 111u8, 114u8, 58u8, 32u8,
    ]
}

/// Carriage return and line feed bytes.
pub const CR: u8 = 13;

pub const LF: u8 = 10;

pub open spec fn crlf() -> Seq<u8> {
    seq![CR, LF]
}

/// Bytes the injection adds beyond the client address text itself:
/// the prefix and the trailing CRLF.
pub const INJECTED_OVERHEAD: usize = 19;

/// The buffer after injecting `X-Forwarded-For: <ip>\r\n` immediately before
/// the final header's trailing CRLF, which sits at `offset - 2`.
pub open spec fn injected_content(buf: Seq<u8>, offset: int, ip: Seq<u8>) -> Seq<u8> {
    buf.subrange(0, offset - 2) + xff_prefix() + ip + crlf() + buf.subrange(
        offset - 2,
        buf.len() as int,
    )
}

/// Appends the `X-Forwarded-For: ` prefix onto `dst`.
fn push_xff_prefix(dst: &mut Vec<u8>)
    requires
        old(dst)@.len() + 17 <= usize::MAX,
    ensures
        final(dst)@ == old(dst)@ + xff_prefix(),
{
    dst.push(88);
    dst.push(45);
    dst.push(70);
    dst.push(111);
    dst.push(114);
    dst.push(119);
    dst.push(97);
    dst.push(114);
    dst.push(100);
    dst.push(101);
    dst.push(100);
    dst.push(45);
    dst.push(70);
    dst.push(111);
    dst.push(114);
    dst.push(58);
    dst.push(32);
    proof {
        assert(dst@ =~= old(dst)@ + xff_prefix());
    }
}

/// Splices the forwarded-address line into a buffer holding a complete
/// request head whose blank-line terminator ends at `offset`: the head keeps
/// every byte before `offset - 2`, the new line follows, and the terminator
/// plus any already-buffered body bytes follow unchanged.
pub fn inject_forwarded_for(buffer: &Vec<u8>, offset: usize, ip: &Vec<u8>) -> (r: Vec<u8>)
    requires
        2 <= offset <= buffer@.len(),
        buffer@.len() + INJECTED_OVERHEAD + ip@.len() <= usize::MAX,
    ensures
        r@ == injected_content(buffer@, offset as int, ip@),
        r@.len() == buffer@.len() + INJECTED_OVERHEAD + ip@.len(),
{
    let mut out: Vec<u8> = Vec::new();
    push_range(&mut out, buffer, 0, offset - 2);
    push_xff_prefix(&mut out);
    push_range(&mut out, ip, 0, ip.len());
    out.push(CR);
    out.push(LF);
    push_range(&mut out, buffer, offset - 2, buffer.len());
    proof {
        assert(ip@.subrange(0, ip@.len() as int) =~= ip@);
        assert(out@ =~= injected_content(buffer@, offset as int, ip@));
    }
    out
}

/// What one parse attempt decided for the header-injection phase.
pub enum HeaderPhase {
    /// The head was complete (buffer rewritten) or the retry budget ran out
    /// (buffer untouched, fail-open): forward `buffer` and connect outbound.
    Deliver { buffer: Vec<u8>, injected: bool },
    /// The head is still incomplete: read more bytes, bounded by the header
    /// read deadline, then attempt again.
    NeedRead { buffer: Vec<u8>, attempts: u8 },
}

/// Parse attempts allowed before the injector fails open.
pub const MAX_PARSE_ATTEMPTS: u8 = 10;

/// One step of the header-injection phase: `attempts` parses have already
/// been made. Out of budget, the buffer is forwarded as it stands; on a
/// complete head the forwarded-address line is spliced in; otherwise the
/// caller must read more and step again.
pub fn header_step(buffer: Vec<u8>, attempts: u8, ip: &Vec<u8>) -> (r: HeaderPhase)
    requires
        buffer@.len() + INJECTED_OVERHEAD + ip@.len() <= usize::MAX,
    ensures
        attempts >= MAX_PARSE_ATTEMPTS ==> (r matches HeaderPhase::Deliver { buffer: b, injected }
            && b@ == buffer@ && !injected),
        attempts < MAX_PARSE_ATTEMPTS && http_head_end(buffer@) is Some
            ==> (r matches HeaderPhase::Deliver { buffer: b, injected }
            && b@ == injected_content(buffer@, http_head_end(buffer@)->Some_0, ip@) && injected),
        attempts < MAX_PARSE_ATTEMPTS && http_head_end(buffer@) is None
            ==> (r matches HeaderPhase::NeedRead { buffer: b, attempts: a }
            && b@ == buffer@ && a == attempts + 1),
{
    if attempts >= MAX_PARSE_ATTEMPTS {
        return HeaderPhase::Deliver { buffer, injected: false };
    }
    match parse_head(&buffer) {
        Some(offset) => {
            let rewritten = inject_forwarded_for(&buffer, offset, ip);
            HeaderPhase::Deliver { buffer: rewritten, injected: true }
        },
        None => HeaderPhase::NeedRead { buffer, attempts: attempts + 1 },
    }
}

} // verus!
