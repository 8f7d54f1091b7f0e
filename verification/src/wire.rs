//! Wire-level pieces: hex and query-string encoding of request
//! parameters, the outbound line layout, and inbound framing with
//! reassembly of messages split across reads.
use vstd::prelude::*;

use crate::strutil::digit_char;
use crate::strutil::split2_head;
use crate::strutil::split2_rest;

verus! {

/// Lowercase hex rendering of a byte string: two digits per byte.
pub open spec fn hex_of(b: Seq<u8>) -> Seq<char>
    decreases b.len(),
{
    if b.len() == 0 {
        Seq::<char>::empty()
    } else {
        hex_of(b.drop_last()) + seq![
            digit_char(b.last() as int / 16),
            digit_char(b.last() as int % 16),
        ]
    }
}

/// Relies on hex::encode: lowercase hex, two digits per input byte,
/// most significant digit of each byte first.
#[verifier::external_body]
pub fn hex_lower(bytes: &Vec<u8>) -> (r: String)
    ensures
        r@ == hex_of(bytes@),
{
    hex::encode(bytes)
}

/// What serde_urlencoded makes of a list of key/value pairs.
pub uninterp spec fn urlencoded_of(pairs: Seq<(Seq<char>, Seq<char>)>) -> Seq<char>;

/// Relies on serde_urlencoded::to_string: form-urlencodes the pairs in
/// order; the result depends on the pairs alone.
#[verifier::external_body]
pub fn urlencode_pairs(pairs: &Vec<(String, String)>) -> (r: Result<
    String,
    crate::errors::AniDbError,
>)
    ensures
        r matches Ok(s) ==> s@ == urlencoded_of(pairs.deep_view()),
        r matches Err(e) ==> e.deep_view() is SerializationError,
{
    match serde_urlencoded::to_string(pairs) {
        Ok(s) => Ok(s),
        Err(e) => Err(crate::errors::AniDbError::SerializationError(format!("{}", e))),
    }
}

/// The line sent for one request: command, space, encoded arguments,
/// the correlation tag, and the session key when one is attached.
pub open spec fn wire_line(
    command: Seq<char>,
    args: Seq<char>,
    tag: Seq<char>,
    session: Option<Seq<char>>,
) -> Seq<char> {
    let base = command + seq![' '] + args + "&tag="@ + tag;
    match session {
        Some(s) => base + "&s="@ + s,
        None => base,
    }
}

/// Builds the outbound line for one request.
pub fn build_wire_line(command: &str, args: &str, tag: &str, session: Option<&str>) -> (r: String)
    ensures
        r@ == wire_line(command@, args@, tag@, session.deep_view()),
{
    proof {
        reveal_strlit(" ");
        reveal_strlit("&tag=");
        reveal_strlit("&s=");
    }
    let mut line = command.to_owned();
    line.append(" ");
    line.append(args);
    line.append("&tag=");
    line.append(tag);
    match session {
        Some(s) => {
            line.append("&s=");
            line.append(s);
            proof {
                assert(" "@ =~= seq![' ']);
                assert(line@ =~= wire_line(command@, args@, tag@, session.deep_view()));
            }
            line
        },
        None => {
            proof {
                assert(" "@ =~= seq![' ']);
                assert(line@ =~= wire_line(command@, args@, tag@, session.deep_view()));
            }
            line
        },
    }
}

/// How a complete inbound message splits: the tag up to the first
/// space, the code up to the next space, the reply line up to the
/// first newline, and the remaining body. A message missing one of
/// these separators is malformed.
pub open spec fn inbound_parts(msg: Seq<char>) -> Option<
    (Seq<char>, Seq<char>, Seq<char>, Seq<char>),
> {
    match split2_rest(msg, ' ') {
        None => None,
        Some(r1) => match split2_rest(r1, ' ') {
            None => None,
            Some(r2) => match split2_rest(r2, '\n') {
                None => None,
                Some(body) => Some(
                    (split2_head(msg, ' '), split2_head(r1, ' '), split2_head(r2, '\n'), body),
                ),
            },
        },
    }
}

/// Splits a complete inbound message into tag, code, reply line and
/// body; malformed messages are refused.
pub fn parse_inbound(msg: &str) -> (r: Option<(String, String, String, String)>)
    ensures
        ({
            match inbound_parts(msg@) {
                Some((tag, code, reply, body)) => r matches Some(p) && p.0@ == tag && p.1@ == code
                    && p.2@ == reply && p.3@ == body,
                None => r is None,
            }
        }),
{
    let (tag, rest) = crate::strutil::split_once_ch(msg, ' ');
    match rest {
        None => None,
        Some(r1) => {
            let (code, rest2) = crate::strutil::split_once_ch(r1.as_str(), ' ');
            match rest2 {
                None => None,
                Some(r2) => {
                    let (reply, rest3) = crate::strutil::split_once_ch(r2.as_str(), '\n');
                    match rest3 {
                        None => None,
                        Some(body) => Some((tag, code, reply, body)),
                    }
                },
            }
        },
    }
}

/// Accumulates successive reads until a read ends the message with a
/// newline; the inbound worker then frames the whole accumulation as
/// one message.
pub struct InboundBuffer {
    data: Vec<u8>,
}

impl View for InboundBuffer {
    type V = Seq<u8>;

    closed spec fn view(&self) -> Seq<u8> {
        self.data@
    }
}

impl InboundBuffer {
    /// An empty accumulation.
    pub fn new() -> (r: InboundBuffer)
        ensures
            r@ == Seq::<u8>::empty(),
    {
        InboundBuffer { data: Vec::new() }
    }

    /// Appends one read. When the accumulation now ends in a newline
    /// the whole of it is handed out and the buffer resets; otherwise
    /// everything is kept for the next read.
    pub fn push_read(&mut self, chunk: &[u8]) -> (r: Option<Vec<u8>>)
        ensures
            ({
                let all = old(self)@ + chunk@;
                if all.len() > 0 && all.last() == 10u8 {
                    &&& r matches Some(v) && v@ == all
                    &&& final(self)@ == Seq::<u8>::empty()
                } else {
                    &&& r is None
                    &&& final(self)@ == all
                }
            }),
    {
        self.data.extend_from_slice(chunk);
        let n = self.data.len();
        if n > 0 && self.data[n - 1] == 10u8 {
            let mut out: Vec<u8> = Vec::new();
            core::mem::swap(&mut out, &mut self.data);
            Some(out)
        } else {
            None
        }
    }
}

} // verus!
