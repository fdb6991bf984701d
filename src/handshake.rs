//! The WebSocket upgrade: the `Sec-WebSocket-Accept` derivation, the server's
//! answer to an upgrade request, and the client's check of the answer.
use vstd::prelude::*;
use vstd::string::*;
use vstd::utf8::encode_utf8;
use crate::error::{NetError, NetResult, WsError};

verus! {

/// The GUID that RFC 6455 appends to the client's key.
pub const MAGIC_GUID: &'static str = "258EAFA5-E914-47DA-95CA-C5AB0DC85B11";

/// The standard base64 text of the bytes `b`.
pub uninterp spec fn base64_encoding(b: Seq<u8>) -> Seq<char>;

/// The bytes that the standard base64 text `s` decodes to, or `None` when it
/// is not valid base64.
pub uninterp spec fn base64_decoding(s: Seq<u8>) -> Option<Seq<u8>>;

/// The SHA-1 digest of `b`.
pub uninterp spec fn sha1_digest(b: Seq<u8>) -> Seq<u8>;

/// Relies on base64's `Engine::encode` with the STANDARD engine (padded alphabet).
#[verifier::external_body]
fn base64_encode(b: &[u8]) -> (r: String)
    ensures
        r@ == base64_encoding(b@),
{
    base64::Engine::encode(&base64::engine::general_purpose::STANDARD, b)
}

/// Relies on base64's `Engine::decode` with the STANDARD engine: the decoded
/// bytes, or an error for text that is not valid padded base64.
#[verifier::external_body]
fn base64_decode(s: &[u8]) -> (r: Option<Vec<u8>>)
    ensures
        r matches Some(v) ==> base64_decoding(s@) == Some(v@),
        r is None ==> base64_decoding(s@) is None,
{
    base64::Engine::decode(&base64::engine::general_purpose::STANDARD, s).ok()
}

/// Relies on sha1's `Sha1::digest` (via the `Digest` trait): the 20-byte digest.
#[verifier::external_body]
fn sha1(b: &[u8]) -> (r: Vec<u8>)
    ensures
        r@ == sha1_digest(b@),
        r@.len() == 20,
{
    <sha1::Sha1 as sha1::Digest>::digest(b).to_vec()
}

/// The accept value a server answers the key `key` with.
pub open spec fn accept_value(key: Seq<char>) -> Seq<char> {
    base64_encoding(sha1_digest(encode_utf8(key) + encode_utf8(MAGIC_GUID@)))
}

/// Checks the decoded client key: it must be valid base64 of exactly 16 bytes.
pub fn validate_key(decoded: Option<Vec<u8>>) -> (r: NetResult<()>)
    ensures
        r is Ok <==> (decoded matches Some(v) && v@.len() == 16),
        r is Err ==> r matches Err(NetError::Ws(WsError::ProtocolError(_))),
{
    match decoded {
        None => Err(NetError::Ws(WsError::ProtocolError("Invalid Sec-WebSocket-Accept".to_string()))),
        Some(v) => {
            if v.len() != 16 {
                Err(NetError::Ws(WsError::ProtocolError("Sec-WebSocket-Key must be 16 bytes".to_string())))
            } else {
                Ok(())
            }
        },
    }
}

pub struct WsHandshake {}

impl WsHandshake {
    /// `base64(SHA1(key || MAGIC_GUID))`, for a key that is base64 of 16 bytes.
    pub fn build_accept(key: &str) -> (r: NetResult<String>)
        ensures
            r is Ok <==> (base64_decoding(encode_utf8(key@)) matches Some(v) && v.len() == 16),
            r matches Ok(s) ==> s@ == accept_value(key@),
            r is Err ==> r matches Err(NetError::Ws(WsError::ProtocolError(_))),
    {
        let kb = key.as_bytes();
        let decoded = base64_decode(kb);
        validate_key(decoded)?;
        let gb = MAGIC_GUID.as_bytes();
        let mut input: Vec<u8> = Vec::new();
        let mut i: usize = 0;
        while i < kb.len()
            invariant
                i <= kb@.len(),
                input@ == kb@.subrange(0, i as int),
            decreases kb@.len() - i,
        {
            input.push(kb[i]);
            i = i + 1;
            proof {
                assert(input@ =~= kb@.subrange(0, i as int));
            }
        }
        let mut j: usize = 0;
        while j < gb.len()
            invariant
                j <= gb@.len(),
                input@ == kb@ + gb@.subrange(0, j as int),
            decreases gb@.len() - j,
        {
            input.push(gb[j]);
            j = j + 1;
            proof {
                assert(input@ =~= kb@ + gb@.subrange(0, j as int));
            }
        }
        proof {
            assert(input@ =~= kb@ + gb@);
        }
        let digest = sha1(input.as_slice());
        Ok(base64_encode(digest.as_slice()))
    }
}

pub open spec fn is_protocol_separator(c: char) -> bool {
    c == ',' || c == ' '
}

/// Index of the first non-separator at or after `i`, or the length.
pub open spec fn token_start(s: Seq<char>, i: int) -> int
    decreases s.len() - i,
{
    if i >= s.len() {
        s.len() as int
    } else if is_protocol_separator(s[i]) {
        token_start(s, i + 1)
    } else {
        i
    }
}

/// Index of the first separator at or after `i`, or the length.
pub open spec fn token_end(s: Seq<char>, i: int) -> int
    decreases s.len() - i,
{
    if i >= s.len() {
        s.len() as int
    } else if is_protocol_separator(s[i]) {
        i
    } else {
        token_end(s, i + 1)
    }
}

/// The first protocol named in a comma- or space-separated list, or "chat"
/// when the list names none.
pub open spec fn first_protocol_of(s: Seq<char>) -> Seq<char> {
    let a = token_start(s, 0);
    let b = token_end(s, a);
    if a == b {
        "chat"@
    } else {
        s.subrange(a, b)
    }
}

proof fn lemma_token_start_bounds(s: Seq<char>, i: int)
    requires
        0 <= i <= s.len(),
    ensures
        i <= token_start(s, i) <= s.len(),
    decreases s.len() - i,
{
    if i < s.len() && is_protocol_separator(s[i]) {
        lemma_token_start_bounds(s, i + 1);
    }
}

proof fn lemma_token_end_bounds(s: Seq<char>, i: int)
    requires
        0 <= i <= s.len(),
    ensures
        i <= token_end(s, i) <= s.len(),
    decreases s.len() - i,
{
    if i < s.len() && !is_protocol_separator(s[i]) {
        lemma_token_end_bounds(s, i + 1);
    }
}

/// The protocol a server answers with, from the request's protocol list.
pub fn first_protocol(s: &str) -> (r: String)
    ensures
        r@ == first_protocol_of(s@),
{
    let n = s.unicode_len();
    let mut a: usize = 0;
    while a < n && (s.get_char(a) == ',' || s.get_char(a) == ' ')
        invariant
            n == s@.len(),
            a <= n,
            token_start(s@, a as int) == token_start(s@, 0),
        decreases n - a,
    {
        a = a + 1;
    }
    proof {
        lemma_token_start_bounds(s@, a as int);
    }
    let mut b: usize = a;
    while b < n && !(s.get_char(b) == ',' || s.get_char(b) == ' ')
        invariant
            n == s@.len(),
            a <= b <= n,
            token_start(s@, 0) == a,
            token_end(s@, b as int) == token_end(s@, a as int),
        decreases n - b,
    {
        b = b + 1;
    }
    if a == b {
        proof {
            reveal_strlit("chat");
        }
        String::from_str("chat")
    } else {
        String::from_str(s.substring_char(a, b))
    }
}

/// The server's decision on an upgrade request.
#[derive(Debug, PartialEq, Eq)]
pub enum HandshakeReply {
    /// Answer `400` and close.
    Reject,
    /// Answer `101` with these `Sec-WebSocket-Accept` and `Sec-WebSocket-Protocol` values.
    Accept { accept: String, protocol: String },
}

pub open spec fn version_is_13(version: Option<String>) -> bool {
    version matches Some(v) && v@ == "13"@
}

/// Whether a client key is base64 of exactly 16 bytes.
pub open spec fn key_is_valid(k: Seq<char>) -> bool {
    base64_decoding(encode_utf8(k)) matches Some(d) && d.len() == 16
}

/// The protocol list of a request, "chat" when it sends none.
pub open spec fn requested_protocols(protocol: Option<String>) -> Seq<char> {
    match protocol {
        Some(x) => x@,
        None => "chat"@,
    }
}

/// Decides the answer to an upgrade request from its `Sec-WebSocket-Key`,
/// `Sec-WebSocket-Protocol` and `Sec-WebSocket-Version` header values: a
/// request without a key or with a version other than 13 is rejected; a key
/// that is not base64 of 16 bytes is an error.
pub fn handshake_reply(key: Option<String>, protocol: Option<String>, version: Option<String>) -> (r: NetResult<HandshakeReply>)
    ensures
        !(key is Some && version_is_13(version)) ==> (r matches Ok(HandshakeReply::Reject)),
        key is Some && version_is_13(version) ==> {
            let k = key->Some_0;
            &&& (r is Ok <==> key_is_valid(k@))
            &&& r is Ok ==> (r matches Ok(HandshakeReply::Accept { accept, protocol: p })
                && accept@ == accept_value(k@)
                && p@ == first_protocol_of(requested_protocols(protocol)))
        },
{
    let thirteen = String::from_str("13");
    let k = match key {
        None => {
            return Ok(HandshakeReply::Reject);
        },
        Some(k) => k,
    };
    let ok_version = match &version {
        Some(v) => *v == thirteen,
        None => false,
    };
    if !ok_version {
        return Ok(HandshakeReply::Reject);
    }
    let accept = WsHandshake::build_accept(k.as_str())?;
    let p = match protocol {
        Some(x) => first_protocol(x.as_str()),
        None => first_protocol("chat"),
    };
    Ok(HandshakeReply::Accept { accept, protocol: p })
}

/// The client's check of the server's answer: anything but `101` is fatal.
pub fn check_response_status(status: u16) -> (r: NetResult<()>)
    ensures
        r is Ok <==> status == 101,
        r is Err ==> (r matches Err(NetError::Ws(WsError::FailStatus(s))) && s == status),
{
    if status == 101 {
        Ok(())
    } else {
        Err(NetError::Ws(WsError::FailStatus(status)))
    }
}

/// The client's `Sec-WebSocket-Key` value for a 16-byte random nonce.
pub fn client_key(nonce: &[u8; 16]) -> (r: String)
    ensures
        r@ == base64_encoding(nonce@),
{
    base64_encode(nonce.as_slice())
}

} // verus!
