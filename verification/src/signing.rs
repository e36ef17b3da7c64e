//! Request signing for the Coinbase API: the HMAC-SHA256 access signature,
//! the authentication headers, and the signed request that each call sends.
use vstd::prelude::*;
use vstd::utf8::encode_utf8;
use hmac::{Hmac, Mac};
use sha2::Sha256;
use crate::text::{digit_char, nat_digits, push_digits, str_eq};
use crate::text::{digits_value, lemma_nat_digits};

verus! {

/// The lowercase hexadecimal digit of `v < 16`.
pub open spec fn hex_digit(v: nat) -> char {
    if v < 10 {
        digit_char(v)
    } else {
        (v - 10 + 'a' as nat) as char
    }
}

/// Each byte as two lowercase hexadecimal digits, high half first.
pub open spec fn hex_lower(bytes: Seq<u8>) -> Seq<char>
    decreases bytes.len(),
{
    if bytes.len() == 0 {
        Seq::<char>::empty()
    } else {
        hex_lower(bytes.drop_last()) + seq![
            hex_digit(bytes.last() as nat / 16),
            hex_digit(bytes.last() as nat % 16),
        ]
    }
}

/// Whether `c` is a lowercase hexadecimal digit.
pub open spec fn is_lower_hex(c: char) -> bool {
    ('0' <= c && c <= '9') || ('a' <= c && c <= 'f')
}

/// Hex encoding writes two lowercase hexadecimal digits per byte.
pub proof fn lemma_hex_lower_shape(a: Seq<u8>)
    ensures
        hex_lower(a).len() == 2 * a.len(),
        forall|i: int| 0 <= i < hex_lower(a).len() ==> is_lower_hex(#[trigger] hex_lower(a)[i]),
    decreases a.len(),
{
    if a.len() > 0 {
        let a1 = a.drop_last();
        let x = a.last() as nat;
        lemma_hex_lower_shape(a1);
        let h = hex_lower(a);
        assert(h =~= hex_lower(a1) + seq![hex_digit(x / 16), hex_digit(x % 16)]);
        assert forall|i: int| 0 <= i < h.len() implies is_lower_hex(#[trigger] h[i]) by {
            if i < hex_lower(a1).len() {
                assert(h[i] == hex_lower(a1)[i]);
            }
        }
    }
}

/// Hex encoding loses nothing: equal encodings come from equal bytes.
pub proof fn lemma_hex_lower_injective(a: Seq<u8>, b: Seq<u8>)
    requires
        hex_lower(a) == hex_lower(b),
    ensures
        a == b,
    decreases a.len(),
{
    lemma_hex_lower_shape(a);
    lemma_hex_lower_shape(b);
    if a.len() == 0 {
        assert(a =~= b);
    } else {
        let a1 = a.drop_last();
        let x = a.last() as nat;
        let b1 = b.drop_last();
        let y = b.last() as nat;
        let h = hex_lower(a);
        assert(h =~= hex_lower(a1) + seq![hex_digit(x / 16), hex_digit(x % 16)]);
        assert(hex_lower(b) =~= hex_lower(b1) + seq![hex_digit(y / 16), hex_digit(y % 16)]);
        lemma_hex_lower_shape(a1);
        lemma_hex_lower_shape(b1);
        let n = h.len() as int;
        assert(hex_lower(a1) =~= h.take(n - 2));
        assert(hex_lower(b1) =~= h.take(n - 2));
        lemma_hex_lower_injective(a1, b1);
        assert(h[n - 2] == hex_digit(x / 16) && h[n - 2] == hex_digit(y / 16));
        assert(h[n - 1] == hex_digit(x % 16) && h[n - 1] == hex_digit(y % 16));
        assert(x / 16 == y / 16);
        assert(x % 16 == y % 16);
        assert(x == y);
        assert(a =~= a1.push(a.last()));
        assert(b =~= b1.push(b.last()));
    }
}

/// The HMAC-SHA256 tag of `message` under `key`.
pub uninterp spec fn hmac_sha256(key: Seq<u8>, message: Seq<u8>) -> Seq<u8>;

/// `Hmac::<Sha256>` from the `hmac` and `sha2` crates, keyed by
/// `new_from_slice`, fed by `update` and read by `finalize`. Claimed: the tag
/// is `hmac_sha256` of the key and message bytes, and is 32 bytes long (the
/// output size of SHA-256). `new_from_slice` accepts a key of any length.
#[verifier::external_body]
fn hmac_sha256_tag(key: &[u8], message: &[u8]) -> (tag: Vec<u8>)
    ensures
        tag@ == hmac_sha256(key@, message@),
        tag@.len() == 32,
{
    let mut mac = <Hmac<Sha256> as Mac>::new_from_slice(key).expect("HMAC can take key of any size");
    mac.update(message);
    mac.finalize().into_bytes().to_vec()
}

/// `hex::encode`. Claimed: each byte becomes two lowercase hexadecimal
/// digits, high half first, as `hex_lower` states.
#[verifier::external_body]
fn hex_encode(bytes: &[u8]) -> (s: String)
    ensures
        s@ == hex_lower(bytes@),
{
    hex::encode(bytes)
}

/// The text that Coinbase has signed: the timestamp in decimal, the method,
/// the path and the body, one after the other.
pub open spec fn access_message(
    timestamp: u64,
    method: Seq<char>,
    path: Seq<char>,
    body: Seq<char>,
) -> Seq<char> {
    nat_digits(timestamp as nat) + method + path + body
}

/// Signed messages for the same method, path and body but different
/// timestamps differ: the message fixes the moment it was signed at, and the
/// timestamp header reads back as that moment.
pub proof fn lemma_message_fixes_timestamp(
    t1: u64,
    t2: u64,
    method: Seq<char>,
    path: Seq<char>,
    body: Seq<char>,
)
    ensures
        access_message(t1, method, path, body) == access_message(t2, method, path, body) ==> t1 == t2,
        digits_value(nat_digits(t1 as nat)) == t1,
{
    lemma_nat_digits(t1 as nat);
    lemma_nat_digits(t2 as nat);
    let rest = method + path + body;
    let a = nat_digits(t1 as nat);
    let b = nat_digits(t2 as nat);
    assert(access_message(t1, method, path, body) =~= a + rest);
    assert(access_message(t2, method, path, body) =~= b + rest);
    if a + rest == b + rest {
        assert(a.len() == b.len());
        assert(a =~= (a + rest).take(a.len() as int));
        assert(b =~= (b + rest).take(b.len() as int));
    }
}

/// The access signature: the HMAC-SHA256 tag of the UTF-8 access message
/// under the UTF-8 client secret, in lowercase hexadecimal.
pub open spec fn access_sign(
    timestamp: u64,
    method: Seq<char>,
    path: Seq<char>,
    body: Seq<char>,
    client_secret: Seq<char>,
) -> Seq<char> {
    hex_lower(
        hmac_sha256(encode_utf8(client_secret), encode_utf8(access_message(timestamp, method, path, body))),
    )
}

/// The access signature is the lowercase hex of the HMAC-SHA256 tag keyed by
/// the UTF-8 bytes of the whole client secret, over the UTF-8 bytes of the
/// decimal timestamp, the method, the path and the body; and secrets that
/// differ in any character give different keys.
pub proof fn lemma_access_sign_keyed_by_whole_secret(
    timestamp: u64,
    method: Seq<char>,
    path: Seq<char>,
    body: Seq<char>,
    secret: Seq<char>,
    other_secret: Seq<char>,
)
    ensures
        access_sign(timestamp, method, path, body, secret) == hex_lower(
            hmac_sha256(encode_utf8(secret), encode_utf8(nat_digits(timestamp as nat) + method + path + body)),
        ),
        secret != other_secret ==> encode_utf8(secret) != encode_utf8(other_secret),
{
    vstd::utf8::encode_utf8_decode_utf8(secret);
    vstd::utf8::encode_utf8_decode_utf8(other_secret);
}

/// Two requests signed alike over the same text carry the same HMAC tag under
/// their secrets' whole UTF-8 bytes: the signature shows the tag unchanged.
pub proof fn lemma_equal_signs_equal_tags(
    timestamp: u64,
    method: Seq<char>,
    path: Seq<char>,
    body: Seq<char>,
    secret: Seq<char>,
    other_secret: Seq<char>,
)
    requires
        access_sign(timestamp, method, path, body, secret) == access_sign(
            timestamp,
            method,
            path,
            body,
            other_secret,
        ),
    ensures
        hmac_sha256(encode_utf8(secret), encode_utf8(nat_digits(timestamp as nat) + method + path + body))
            == hmac_sha256(
            encode_utf8(other_secret),
            encode_utf8(nat_digits(timestamp as nat) + method + path + body),
        ),
{
    let message = encode_utf8(nat_digits(timestamp as nat) + method + path + body);
    lemma_hex_lower_injective(
        hmac_sha256(encode_utf8(secret), message),
        hmac_sha256(encode_utf8(other_secret), message),
    );
}

/// The access signature of a request.
pub fn get_access_sign(timestamp: u64, method: &str, path: &str, body: &str, client_secret: &str) -> (sign: String)
    ensures
        sign@ == access_sign(timestamp, method@, path@, body@, client_secret@),
        sign@ == hex_lower(
            hmac_sha256(
                encode_utf8(client_secret@),
                encode_utf8(nat_digits(timestamp as nat) + method@ + path@ + body@),
            ),
        ),
        sign@.len() == 64,
        forall|i: int| 0 <= i < 64 ==> is_lower_hex(#[trigger] sign@[i]),
{
    let mut message = String::new();
    push_digits(&mut message, timestamp);
    message.append(method);
    message.append(path);
    message.append(body);
    assert(message@ =~= access_message(timestamp, method@, path@, body@));
    let tag = hmac_sha256_tag(client_secret.as_bytes(), message.as_str().as_bytes());
    proof {
        lemma_hex_lower_shape(tag@);
    }
    hex_encode(tag.as_slice())
}


/// One HTTP header.
#[derive(Debug)]
pub struct Header {
    pub name: String,
    pub value: String,
}

/// The names and values of a list of headers.
pub open spec fn header_pairs(headers: Seq<Header>) -> Seq<(Seq<char>, Seq<char>)> {
    headers.map_values(|h: Header| (h.name@, h.value@))
}

/// The headers that authenticate a request to the API: content type, access
/// key, access signature, timestamp and API version, in this order.
pub open spec fn auth_headers(
    timestamp: u64,
    method: Seq<char>,
    path: Seq<char>,
    body: Seq<char>,
    api_key: Seq<char>,
    client_secret: Seq<char>,
) -> Seq<(Seq<char>, Seq<char>)> {
    seq![
        ("content-type"@, "application/json"@),
        ("CB-ACCESS-KEY"@, api_key),
        ("CB-ACCESS-SIGN"@, access_sign(timestamp, method, path, body, client_secret)),
        ("CB-ACCESS-TIMESTAMP"@, nat_digits(timestamp as nat)),
        ("CB-VERSION"@, "2022-05-10"@),
    ]
}

fn make_header(name: &str, value: String) -> (h: Header)
    ensures
        h.name@ == name@,
        h.value == value,
{
    Header { name: String::from_str(name), value }
}

/// The headers that authenticate a request signed at `timestamp`.
pub fn construct_headers(
    timestamp: u64,
    method: &str,
    path: &str,
    body: &str,
    api_key: &str,
    client_secret: &str,
) -> (headers: Vec<Header>)
    ensures
        header_pairs(headers@) == auth_headers(timestamp, method@, path@, body@, api_key@, client_secret@),
{
    let mut stamp = String::new();
    push_digits(&mut stamp, timestamp);
    assert(stamp@ =~= nat_digits(timestamp as nat));
    let access_sign = get_access_sign(timestamp, method, path, body, client_secret);
    let mut headers: Vec<Header> = Vec::new();
    headers.push(make_header("content-type", String::from_str("application/json")));
    headers.push(make_header("CB-ACCESS-KEY", String::from_str(api_key)));
    headers.push(make_header("CB-ACCESS-SIGN", access_sign));
    headers.push(make_header("CB-ACCESS-TIMESTAMP", stamp));
    headers.push(make_header("CB-VERSION", String::from_str("2022-05-10")));
    assert(header_pairs(headers@) =~= auth_headers(timestamp, method@, path@, body@, api_key@, client_secret@));
    headers
}

/// The HTTP method of a request.
#[derive(Clone, Copy, Debug, PartialEq, Eq, Structural)]
pub enum Verb {
    Get,
    Post,
}

/// The key and secret that sign requests to the API.
#[derive(Debug)]
pub struct Credentials {
    pub api_key: String,
    pub client_secret: String,
}

/// A request to the API with its authentication headers; a body, if any,
/// is attached by the caller.
#[derive(Debug)]
pub struct SignedRequest {
    pub verb: Verb,
    pub url: String,
    pub headers: Vec<Header>,
}

/// The method, address and headers of a signed request.
pub open spec fn request_view(r: SignedRequest) -> (Verb, Seq<char>, Seq<(Seq<char>, Seq<char>)>) {
    (r.verb, r.url@, header_pairs(r.headers@))
}

/// The request that `connect` prepares: a GET, signed over an empty body,
/// when the method is `GET`; otherwise a POST signed over `body`. The address
/// is the path under the API's base address.
pub open spec fn connect_spec(
    method: Seq<char>,
    path: Seq<char>,
    body: Seq<char>,
    timestamp: u64,
    api_key: Seq<char>,
    client_secret: Seq<char>,
) -> (Verb, Seq<char>, Seq<(Seq<char>, Seq<char>)>) {
    let url = "https://api.coinbase.com"@ + path;
    if method == "GET"@ {
        (Verb::Get, url, auth_headers(timestamp, method, path, ""@, api_key, client_secret))
    } else {
        (Verb::Post, url, auth_headers(timestamp, method, path, body, api_key, client_secret))
    }
}

/// A GET request is signed over an empty body: the body given to `connect`
/// does not change it.
pub proof fn lemma_get_ignores_body(
    path: Seq<char>,
    body: Seq<char>,
    other_body: Seq<char>,
    timestamp: u64,
    api_key: Seq<char>,
    client_secret: Seq<char>,
)
    ensures
        connect_spec("GET"@, path, body, timestamp, api_key, client_secret)
            == connect_spec("GET"@, path, other_body, timestamp, api_key, client_secret),
        connect_spec("GET"@, path, body, timestamp, api_key, client_secret).2
            == auth_headers(timestamp, "GET"@, path, ""@, api_key, client_secret),
{
}

/// Prepares a signed request to `path` at `timestamp`.
pub fn connect(method: &str, path: &str, body: &str, timestamp: u64, credentials: &Credentials) -> (request: SignedRequest)
    ensures
        request_view(request) == connect_spec(
            method@,
            path@,
            body@,
            timestamp,
            credentials.api_key@,
            credentials.client_secret@,
        ),
{
    let mut url = String::from_str("https://api.coinbase.com");
    url.append(path);
    let is_get = str_eq(method, "GET");
    if is_get {
        let headers = construct_headers(
            timestamp,
            method,
            path,
            "",
            credentials.api_key.as_str(),
            credentials.client_secret.as_str(),
        );
        SignedRequest { verb: Verb::Get, url, headers }
    } else {
        let headers = construct_headers(
            timestamp,
            method,
            path,
            body,
            credentials.api_key.as_str(),
            credentials.client_secret.as_str(),
        );
        SignedRequest { verb: Verb::Post, url, headers }
    }
}

} // verus!
