//! The computational half of the exchange conduit: assembling the text that
//! an authenticated request signs, signing it, and building subscription
//! commands.  Connecting, sending and receiving are transport work and stay
//! with the caller.

use vstd::prelude::*;

use vstd::string::StringExecFns;

use crypto::mac::Mac;

use crate::structs::{now, Auth, Credentials, Message, WSChannel, WSChannelType, WSSubscribe};

verus! {

/// The digit character of `d`, for `d` between 0 and 9.
pub open spec fn spec_digit(d: int) -> char {
    if d == 0 {
        '0'
    } else if d == 1 {
        '1'
    } else if d == 2 {
        '2'
    } else if d == 3 {
        '3'
    } else if d == 4 {
        '4'
    } else if d == 5 {
        '5'
    } else if d == 6 {
        '6'
    } else if d == 7 {
        '7'
    } else if d == 8 {
        '8'
    } else {
        '9'
    }
}

/// The decimal text of a non-negative number.
pub open spec fn spec_decimal(n: int) -> Seq<char>
    recommends
        n >= 0,
    decreases n,
{
    if n < 10 {
        seq![spec_digit(n)]
    } else {
        spec_decimal(n / 10).push(spec_digit(n % 10))
    }
}

/// Relies on `u64`'s `Display` implementation: the decimal digits of `n`.
#[verifier::external_body]
fn u64_decimal(n: u64) -> (r: String)
    ensures
        r@ == spec_decimal(n as int),
{
    n.to_string()
}

/// What HMAC-SHA256 returns for a key and the UTF-8 bytes of a text.
pub uninterp spec fn hmac_sha256_of(key: Seq<u8>, msg: Seq<char>) -> Seq<u8>;

/// What base64 encoding returns for a byte string.
pub uninterp spec fn base64_of(bytes: Seq<u8>) -> Seq<char>;

/// What base64 decoding returns for a text it accepts.
pub uninterp spec fn base64_bytes_of(text: Seq<char>) -> Seq<u8>;

/// How base64 decoding reports a text it rejects.
#[verifier::external_type_specification]
#[verifier::external_body]
pub struct ExDecodeError(base64::DecodeError);

/// Relies on crypto's `Hmac` over `Sha256` (`new`, `input`, `result`,
/// `code`): the HMAC-SHA256 tag of `msg`'s UTF-8 bytes under `key`.  SHA-256
/// makes the tag 32 bytes.
#[verifier::external_body]
fn hmac_sha256(key: &[u8], msg: &str) -> (r: Vec<u8>)
    ensures
        r@ == hmac_sha256_of(key@, msg@),
        r@.len() == 32,
{
    let mut mac = crypto::hmac::Hmac::new(crypto::sha2::Sha256::new(), key);
    mac.input(msg.as_bytes());
    mac.result().code().to_vec()
}

/// Relies on base64's `encode`: the base64 text of `bytes`.
#[verifier::external_body]
fn b64_encode(bytes: &[u8]) -> (r: String)
    ensures
        r@ == base64_of(bytes@),
{
    base64::encode(bytes)
}

/// Relies on base64's `decode`: the bytes a base64 text stands for, or a
/// `DecodeError` where the text is not valid base64.
#[verifier::external_body]
fn b64_decode(text: &str) -> (r: Result<Vec<u8>, base64::DecodeError>)
    ensures
        r matches Ok(v) ==> v@ == base64_bytes_of(text@),
{
    base64::decode(text)
}

/// The text a request signs: the timestamp's decimal digits, then the HTTP
/// method, the path and the body.
pub open spec fn spec_signature_text(
    ts: u64,
    method: Seq<char>,
    uri: Seq<char>,
    body: Seq<char>,
) -> Seq<char> {
    spec_decimal(ts as int) + method + uri + body
}

/// The base64 signature of a request under the decoded secret `key`.
pub open spec fn spec_signature(
    key: Seq<u8>,
    ts: u64,
    method: Seq<char>,
    uri: Seq<char>,
    body: Seq<char>,
) -> Seq<char> {
    base64_of(hmac_sha256_of(key, spec_signature_text(ts, method, uri, body)))
}

/// Assemble the text that gets signed.
pub fn signature_message(ts: u64, method: &str, uri: &str, body: &str) -> (r: String)
    ensures
        r@ == spec_signature_text(ts, method@, uri@, body@),
{
    let mut s = u64_decimal(ts);
    s.append(method);
    s.append(uri);
    s.append(body);
    s
}

/// Sign one request with an already-decoded secret key.
pub fn sign_with_key(key: &Vec<u8>, ts: u64, method: &str, uri: &str, body: &str) -> (r: String)
    ensures
        r@ == spec_signature(key@, ts, method@, uri@, body@),
{
    let msg = signature_message(ts, method, uri, body);
    let tag = hmac_sha256(key.as_slice(), msg.as_str());
    b64_encode(tag.as_slice())
}

/// Sign one request.  Nothing is signed without credentials, nor where the
/// secret is not valid base64 (the decoder declines it); both come back as
/// `None`.
pub fn sign(
    credentials: &Option<Credentials>,
    ts: u64,
    method: &str,
    uri: &str,
    body: &str,
) -> (r: Option<String>)
    ensures
        credentials is None ==> r == None::<String>,
        credentials matches Some(c) ==> (r matches Some(s) ==> s@ == spec_signature(
            base64_bytes_of(c.secret@),
            ts,
            method@,
            uri@,
            body@,
        )),
{
    match credentials {
        None => None,
        Some(c) => {
            match b64_decode(c.secret.as_str()) {
                Ok(key) => Some(sign_with_key(&key, ts, method, uri, body)),
                Err(_) => None,
            }
        },
    }
}

/// The auth block for the subscription endpoint, signed at `ts`.
pub fn auth_at(credentials: &Option<Credentials>, ts: u64) -> (r: Option<Auth>)
    ensures
        credentials is None ==> r == None::<Auth>,
        credentials matches Some(c) ==> (r matches Some(a) ==> {
            &&& a.signature@ == spec_signature(
                base64_bytes_of(c.secret@),
                ts,
                "GET"@,
                "/users/self/verify"@,
                ""@,
            )
            &&& a.key == c.key
            &&& a.passphrase == c.passphrase
            &&& a.timestamp@ == spec_decimal(ts as int)
        }),
{
    match credentials {
        None => None,
        Some(c) => {
            match sign(credentials, ts, "GET", "/users/self/verify", "") {
                Some(signature) => Some(
                    Auth {
                        signature,
                        key: c.key.clone(),
                        passphrase: c.passphrase.clone(),
                        timestamp: u64_decimal(ts),
                    },
                ),
                None => None,
            }
        },
    }
}

/// The auth block signed at the current wall-clock time, in whole seconds.
pub fn auth(credentials: &Option<Credentials>) -> (r: Option<Auth>)
    ensures
        credentials is None ==> r == None::<Auth>,
        credentials matches Some(c) ==> (r matches Some(a) ==> exists|ts: u64|
            {
                &&& a.signature@ == #[trigger] spec_signature(
                    base64_bytes_of(c.secret@),
                    ts,
                    "GET"@,
                    "/users/self/verify"@,
                    ""@,
                )
                &&& a.key == c.key
                &&& a.passphrase == c.passphrase
                &&& a.timestamp@ == spec_decimal(ts as int)
            }),
{
    let ms = now();
    let ts: u64 = if ms < 0 {
        0
    } else {
        (ms / 1000) as u64
    };
    auth_at(credentials, ts)
}

/// The subscription command for the given channels, with the auth block
/// attached when one is there.
pub fn subscribe_message(channels: Vec<WSChannel>, auth: Option<Auth>) -> (r: Message)
    ensures
        r == Message::WSSubscribe(WSSubscribe { channels, auth }),
{
    Message::WSSubscribe(WSSubscribe { channels, auth })
}

/// The subscription command for the heartbeat channel on `product_ids`.
pub fn heartbeat_subscription(product_ids: Vec<String>, auth: Option<Auth>) -> (r: Message)
    ensures
        (match r {
            Message::WSSubscribe(s) => {
                &&& s.channels@ =~= seq![
                    WSChannel::WithProduct { name: WSChannelType::Heartbeat, product_ids },
                ]
                &&& s.auth == auth
            },
            _ => false,
        }),
{
    let mut channels: Vec<WSChannel> = Vec::new();
    channels.push(WSChannel::WithProduct { name: WSChannelType::Heartbeat, product_ids });
    subscribe_message(channels, auth)
}

/// The subscription command for the level-2 channel on `product_ids`.
pub fn level2_subscription(product_ids: Vec<String>, auth: Option<Auth>) -> (r: Message)
    ensures
        (match r {
            Message::WSSubscribe(s) => {
                &&& s.channels@ =~= seq![
                    WSChannel::WithProduct { name: WSChannelType::Level2, product_ids },
                ]
                &&& s.auth == auth
            },
            _ => false,
        }),
{
    let mut channels: Vec<WSChannel> = Vec::new();
    channels.push(WSChannel::WithProduct { name: WSChannelType::Level2, product_ids });
    subscribe_message(channels, auth)
}

/// The subscription command for the ticker channel on `product_ids`.
pub fn ticker_subscription(product_ids: Vec<String>, auth: Option<Auth>) -> (r: Message)
    ensures
        (match r {
            Message::WSSubscribe(s) => {
                &&& s.channels@ =~= seq![
                    WSChannel::WithProduct { name: WSChannelType::Ticker, product_ids },
                ]
                &&& s.auth == auth
            },
            _ => false,
        }),
{
    let mut channels: Vec<WSChannel> = Vec::new();
    channels.push(WSChannel::WithProduct { name: WSChannelType::Ticker, product_ids });
    subscribe_message(channels, auth)
}

/// The subscription command for the status channel.
pub fn status_subscription(auth: Option<Auth>) -> (r: Message)
    ensures
        (match r {
            Message::WSSubscribe(s) => {
                &&& s.channels@ =~= seq![WSChannel::Name(WSChannelType::Status)]
                &&& s.auth == auth
            },
            _ => false,
        }),
{
    let mut channels: Vec<WSChannel> = Vec::new();
    channels.push(WSChannel::Name(WSChannelType::Status));
    subscribe_message(channels, auth)
}

} // verus!
