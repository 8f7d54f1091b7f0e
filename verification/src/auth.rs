//! The authentication command: its request parameters and the decoded
//! session reply.
use vstd::prelude::*;

use crate::errors::AniDbError;
use crate::errors::AniDbErrorView;
use crate::errors::code_error;
use crate::strutil::split2_head;
use crate::strutil::split2_rest;
use crate::strutil::str_eq;
use crate::strutil::split_once_ch;
use crate::strutil::parse_u16;
use crate::strutil::is_uint_str;
use crate::strutil::uint_str_val;
use crate::strutil::dec_int;
use crate::strutil::i64_to_dec;
use crate::wire::urlencode_pairs;
use crate::wire::urlencoded_of;

verus! {

/// The text encoding the client asks the server to use.
#[derive(Debug, Clone, Copy, PartialEq, Eq, Structural)]
pub enum Encoding {
    Utf8,
}

impl Default for Encoding {
    fn default() -> (r: Encoding)
        ensures
            r == Encoding::Utf8,
    {
        Encoding::Utf8
    }
}

/// The login command's parameters.
#[derive(Debug, Clone)]
pub struct AuthRequest {
    pub user: String,
    pub pass: String,
    pub protover: i32,
    pub client: String,
    pub clientver: i32,
    pub nat: Option<bool>,
    pub comp: Option<bool>,
    pub enc: Encoding,
    pub mtu: Option<i32>,
    pub imgserver: Option<bool>,
}

impl AuthRequest {
    /// A login request with this library's defaults for the optional
    /// parameters.
    pub fn new(user: String, pass: String, client: String, clientver: i32) -> (r: AuthRequest)
        ensures
            r.user == user,
            r.pass == pass,
            r.protover == crate::API_VERSION,
            r.client == client,
            r.clientver == clientver,
            r.nat is None,
            r.comp is None,
            r.enc == Encoding::Utf8,
            r.mtu is None,
            r.imgserver is None,
    {
        AuthRequest {
            user,
            pass,
            protover: crate::API_VERSION,
            client,
            clientver,
            nat: None,
            comp: None,
            enc: Encoding::Utf8,
            mtu: None,
            imgserver: None,
        }
    }

    /// The wire command keyword.
    pub fn name() -> (r: &'static str)
        ensures
            r@ == "AUTH"@,
    {
        "AUTH"
    }

    /// Login itself needs no session.
    pub fn requires_login() -> (r: bool)
        ensures
            !r,
    {
        false
    }
}

/// The decoded reply to a successful login.
#[derive(Debug)]
pub struct AuthResponse {
    pub session_id: String,
    pub new_version_available: bool,
    pub nat: Option<(String, u16)>,
}

/// Whether an authentication reply under `code` decodes, given whether
/// the request asked for NAT detection, and what it decodes to.
pub open spec fn auth_reply_ok(
    resp: AuthResponse,
    nat_wanted: bool,
    code: Seq<char>,
    reply: Seq<char>,
) -> bool {
    &&& resp.session_id@ == split2_head(reply, ' ')
    &&& resp.new_version_available == (code == "201"@)
    &&& if nat_wanted {
        match split2_rest(reply, ' ') {
            None => false,
            Some(rest) => {
                let ip_tok = split2_head(rest, ' ');
                let ip = split2_head(ip_tok, ':');
                match split2_rest(ip_tok, ':') {
                    None => false,
                    Some(after) => {
                        let port = split2_head(after, ':');
                        &&& ip_tok != "LOGIN"@
                        &&& is_uint_str(port) && uint_str_val(port) <= u16::MAX
                        &&& resp.nat matches Some(p) && p.0@ == ip && p.1 as int == uint_str_val(
                            port,
                        )
                    },
                }
            },
        }
    } else {
        resp.nat is None
    }
}

impl AuthRequest {
    /// Decodes the server's reply to this login: on a success code the
    /// session id, whether a newer client exists, and, when NAT
    /// detection was asked for, the address token; every other code
    /// goes through the shared taxonomy.
    pub fn decode_response(&self, code: &str, reply: &str, _data: &str) -> (r: Result<
        AuthResponse,
        AniDbError,
    >)
        ensures
            ({
                let nat_wanted = self.nat == Some(true);
                if code@ == "200"@ || code@ == "201"@ {
                    match r {
                        Ok(resp) => auth_reply_ok(resp, nat_wanted, code@, reply@),
                        Err(e) => e.deep_view() is DecodeError && !(exists|resp: AuthResponse|
                            auth_reply_ok(resp, nat_wanted, code@, reply@)),
                    }
                } else {
                    r matches Err(e) && e.deep_view() == code_error(code@, reply@)
                }
            }),
    {
        let is200 = str_eq(code, "200");
        let is201 = str_eq(code, "201");
        if !(is200 || is201) {
            return Err(AniDbError::from_code(code, reply));
        }
        let session = {
            let (head, _) = split_once_ch(reply, ' ');
            head
        };
        let nat_wanted = match self.nat {
            Some(b) => b,
            None => false,
        };
        let nat_addr = if nat_wanted {
            let (_, rest) = split_once_ch(reply, ' ');
            let rest = match rest {
                Some(x) => x,
                None => {
                    return Err(AniDbError::DecodeError("invalid login reply".to_owned()));
                },
            };
            let (ip_tok, _) = split_once_ch(rest.as_str(), ' ');
            if str_eq(ip_tok.as_str(), "LOGIN") {
                return Err(AniDbError::DecodeError("expected an address in login reply".to_owned()));
            }
            let (ip, after) = split_once_ch(ip_tok.as_str(), ':');
            let after = match after {
                Some(x) => x,
                None => {
                    return Err(AniDbError::DecodeError("invalid login reply".to_owned()));
                },
            };
            let (port_tok, _) = split_once_ch(after.as_str(), ':');
            let port = match parse_u16(port_tok.as_str()) {
                Some(p) => p,
                None => {
                    return Err(AniDbError::DecodeError("invalid login reply".to_owned()));
                },
            };
            Some((ip, port))
        } else {
            None
        };
        let resp = AuthResponse { session_id: session, new_version_available: is201, nat: nat_addr };
        proof {
            assert(auth_reply_ok(resp, self.nat == Some(true), code@, reply@));
        }
        Ok(resp)
    }
}

/// The wire text of an optional boolean parameter: one or zero.
pub open spec fn bool_digit(b: bool) -> Seq<char> {
    if b {
        seq!['1']
    } else {
        seq!['0']
    }
}

/// The key/value pairs of the login query string, in declared field
/// order; absent optional parameters are omitted entirely.
pub open spec fn auth_pairs(a: AuthRequest) -> Seq<(Seq<char>, Seq<char>)> {
    let p = seq![
        ("user"@, a.user@),
        ("pass"@, a.pass@),
        ("protover"@, dec_int(a.protover as int)),
        ("client"@, a.client@),
        ("clientver"@, dec_int(a.clientver as int)),
    ];
    let p = match a.nat {
        Some(b) => p.push(("nat"@, bool_digit(b))),
        None => p,
    };
    let p = match a.comp {
        Some(b) => p.push(("comp"@, bool_digit(b))),
        None => p,
    };
    let p = p.push(("enc"@, "UTF8"@));
    let p = match a.mtu {
        Some(v) => p.push(("mtu"@, dec_int(v as int))),
        None => p,
    };
    match a.imgserver {
        Some(b) => p.push(("imgserver"@, bool_digit(b))),
        None => p,
    }
}

fn bool_text(b: bool) -> (r: String)
    ensures
        r@ == bool_digit(b),
{
    proof {
        reveal_strlit("1");
        reveal_strlit("0");
    }
    if b {
        "1".to_owned()
    } else {
        "0".to_owned()
    }
}

impl AuthRequest {
    /// Encodes the login parameters as a query string.
    pub fn encode(&self) -> (r: Result<String, AniDbError>)
        ensures
            r matches Ok(s) ==> s@ == urlencoded_of(auth_pairs(*self)),
            r matches Err(e) ==> e.deep_view() is SerializationError,
    {
        let mut pairs: Vec<(String, String)> = Vec::new();
        pairs.push(("user".to_owned(), self.user.clone()));
        pairs.push(("pass".to_owned(), self.pass.clone()));
        pairs.push(("protover".to_owned(), i64_to_dec(self.protover as i64)));
        pairs.push(("client".to_owned(), self.client.clone()));
        pairs.push(("clientver".to_owned(), i64_to_dec(self.clientver as i64)));
        match self.nat {
            Some(b) => {
                pairs.push(("nat".to_owned(), bool_text(b)));
            },
            None => {},
        }
        match self.comp {
            Some(b) => {
                pairs.push(("comp".to_owned(), bool_text(b)));
            },
            None => {},
        }
        pairs.push(("enc".to_owned(), "UTF8".to_owned()));
        match self.mtu {
            Some(v) => {
                pairs.push(("mtu".to_owned(), i64_to_dec(v as i64)));
            },
            None => {},
        }
        match self.imgserver {
            Some(b) => {
                pairs.push(("imgserver".to_owned(), bool_text(b)));
            },
            None => {},
        }
        proof {
            assert(pairs.deep_view() =~~= auth_pairs(*self));
        }
        match urlencode_pairs(&pairs) {
            Ok(s) => Ok(s),
            Err(e) => Err(e),
        }
    }
}

} // verus!
