//! Transports for communicating with the engine's daemon: selecting one of
//! the three connection backends from a descriptor, building the absolute
//! request target each backend needs, classifying responses, and deciding
//! the protocol-upgrade handshake.
//!
//! The transport here is the addressing and decision layer. Opening sockets,
//! holding pooled clients and moving bytes is left to the program around the
//! library, which consults these functions for every choice that matters:
//! which backend a descriptor selects, what target and headers a request
//! carries, whether a status is a success, what message a fault carries, and
//! whether an upgrade went through.

use vstd::prelude::*;

use crate::errors::Error;
use crate::json::hex_digit;
use crate::text::{chars_eq, chars_vec, dec_nat, push_dec_u64, string_from_chars};

verus! {

/// TLS material for an encrypted backend: the directory holding the PEM
/// files (certificate, key, and — when peers are verified — a CA), and
/// whether to verify the peer against that CA.
pub struct TlsConfig {
    pub cert_dir: String,
    pub verify: bool,
}

/// Where and how to reach the daemon, resolved once at construction: a
/// scheme, a host and optional port for the TCP family, a filesystem path
/// for a domain socket, and optional TLS material.
pub struct ConnectionDescriptor {
    pub scheme: String,
    pub host: String,
    pub port: Option<u16>,
    pub path: String,
    pub tls: Option<TlsConfig>,
}

/// The means of communication with the daemon: one of three kinds of
/// connection, each carrying what it needs to build absolute request
/// targets. Exactly one variant is selected per client, once.
pub enum Transport {
    /// Plain TCP, with the `scheme://host:port` prefix requests start from.
    Tcp { host: String },
    /// TLS-wrapped TCP, with the rewritten secure prefix.
    EncryptedTcp { host: String },
    /// A local domain socket, with its filesystem path.
    Unix { path: String },
}

/// The target prefix for a TCP-family backend.
pub open spec fn host_prefix(scheme: Seq<char>, host: Seq<char>, port: u16) -> Seq<char> {
    scheme + seq![':', '/', '/'] + host + seq![':'] + dec_nat(port as nat)
}

/// The scheme requests actually go out with: TLS rewrites `tcp` to `https`.
pub open spec fn effective_scheme(scheme: Seq<char>, tls: bool) -> Seq<char> {
    if tls && scheme == "tcp"@ {
        "https"@
    } else {
        scheme
    }
}

/// The hexadecimal rendering of a byte sequence, lower case, two digits a
/// byte.
pub open spec fn hex_bytes(b: Seq<u8>) -> Seq<char>
    decreases b.len(),
{
    if b.len() == 0 {
        seq![]
    } else {
        seq![hex_digit((b[0] / 16) as nat), hex_digit((b[0] % 16) as nat)] + hex_bytes(
            b.drop_first(),
        )
    }
}

/// The request target a domain-socket backend uses: the socket path,
/// hex-encoded, stands as the authority, and the endpoint follows.
pub open spec fn unix_target(path: Seq<char>, endpoint: Seq<char>) -> Seq<char> {
    "unix://"@ + hex_bytes(vstd::utf8::encode_utf8(path)) + seq![':', '0'] + endpoint
}

proof fn lemma_hex_bytes_push(b: Seq<u8>, x: u8)
    ensures
        hex_bytes(b.push(x)) == hex_bytes(b) + seq![
            hex_digit((x / 16) as nat),
            hex_digit((x % 16) as nat),
        ],
    decreases b.len(),
{
    if b.len() == 0 {
        assert(b.push(x).drop_first() =~= Seq::<u8>::empty());
        assert(b.push(x)[0] == x);
        assert(hex_bytes(Seq::<u8>::empty()) =~= Seq::<char>::empty());
        assert(hex_bytes(b.push(x)) =~= hex_bytes(b) + seq![
            hex_digit((x / 16) as nat),
            hex_digit((x % 16) as nat),
        ]);
    } else {
        assert(b.push(x).drop_first() =~= b.drop_first().push(x));
        assert(b.push(x)[0] == b[0]);
        lemma_hex_bytes_push(b.drop_first(), x);
        assert(hex_bytes(b.push(x)) =~= hex_bytes(b) + seq![
            hex_digit((x / 16) as nat),
            hex_digit((x % 16) as nat),
        ]);
    }
}

/// Appends the hexadecimal rendering of the bytes.
fn push_hex(bytes: &[u8], out: &mut Vec<char>)
    ensures
        final(out)@ == old(out)@ + hex_bytes(bytes@),
{
    proof {
        assert(bytes@.take(0) =~= Seq::<u8>::empty());
        assert(out@ =~= old(out)@ + hex_bytes(bytes@.take(0)));
    }
    let mut i: usize = 0;
    while i < bytes.len()
        invariant
            i <= bytes@.len(),
            out@ == old(out)@ + hex_bytes(bytes@.take(i as int)),
        decreases bytes@.len() - i,
    {
        let ghost pre = out@;
        let b = bytes[i];
        out.push(crate::json::hex_digit_char((b / 16) as u32));
        out.push(crate::json::hex_digit_char((b % 16) as u32));
        proof {
            assert(out@ =~= pre + seq![
                hex_digit((bytes@[i as int] / 16) as nat),
                hex_digit((bytes@[i as int] % 16) as nat),
            ]);
            assert(bytes@.take(i + 1) =~= bytes@.take(i as int).push(bytes@[i as int]));
            lemma_hex_bytes_push(bytes@.take(i as int), bytes@[i as int]);
        }
        i = i + 1;
    }
    assert(bytes@.take(bytes@.len() as int) =~= bytes@);
}

/// The target prefix for a TCP-family backend, as text.
fn build_host_prefix(scheme: &str, host: &str, port: u16) -> (r: String)
    ensures
        r@ == host_prefix(scheme@, host@, port),
{
    let mut out = chars_vec(scheme);
    let ghost s0 = out@;
    out.push(':');
    out.push('/');
    out.push('/');
    let mut h = chars_vec(host);
    out.append(&mut h);
    out.push(':');
    push_dec_u64(port as u64, &mut out);
    proof {
        assert(out@ =~= host_prefix(scheme@, host@, port));
    }
    string_from_chars(&out)
}

impl Transport {
    /// What selecting a backend from a descriptor returns: a `unix` scheme
    /// selects the domain-socket backend with the descriptor's path; any
    /// other scheme selects a TCP-family backend — encrypted when TLS
    /// material is configured, with the scheme rewritten to its secure form —
    /// provided a host is given, and a configuration error otherwise.
    pub open spec fn from_descriptor_post(d: ConnectionDescriptor, r: Result<Transport, Error>) -> bool {
        &&& d.scheme@ == "unix"@ ==> (r matches Ok(t) && t matches Transport::Unix { path }
            && path@ == d.path@)
        &&& d.scheme@ != "unix"@ && d.host@.len() == 0 ==> (r matches Err(e) && e is Configuration)
        &&& d.scheme@ != "unix"@ && d.host@.len() > 0 ==> {
            let port = match d.port {
                Some(p) => p,
                None => 80u16,
            };
            if d.tls is Some {
                r matches Ok(t) && t matches Transport::EncryptedTcp { host } && host@
                    == host_prefix(effective_scheme(d.scheme@, true), d.host@, port)
            } else {
                r matches Ok(t) && t matches Transport::Tcp { host } && host@ == host_prefix(
                    d.scheme@,
                    d.host@,
                    port,
                )
            }
        }
    }

    /// Selects the backend a descriptor denotes. The selection is total over
    /// resolvable descriptors, and unsupported combinations fail here, at
    /// construction, never at request time.
    pub fn from_descriptor(d: &ConnectionDescriptor) -> (r: Result<Transport, Error>)
        ensures
            Transport::from_descriptor_post(*d, r),
    {
        let sc = chars_vec(d.scheme.as_str());
        let un = chars_vec("unix");
        if chars_eq(&sc, &un) {
            proof {
                assert(un@ == "unix"@);
            }
            Ok(Transport::Unix { path: d.path.clone() })
        } else if d.host.as_str().is_empty() {
            Err(Error::Configuration("a TCP connection needs a host".to_owned()))
        } else {
            let port: u16 = match d.port {
                Some(p) => p,
                None => 80,
            };
            match &d.tls {
                Some(_) => {
                    let tc = chars_vec("tcp");
                    let scheme = if chars_eq(&sc, &tc) {
                        "https"
                    } else {
                        d.scheme.as_str()
                    };
                    proof {
                        assert(tc@ == "tcp"@);
                        assert(scheme@ == effective_scheme(d.scheme@, true));
                    }
                    Ok(
                        Transport::EncryptedTcp {
                            host: build_host_prefix(scheme, d.host.as_str(), port),
                        },
                    )
                },
                None => {
                    Ok(Transport::Tcp { host: build_host_prefix(d.scheme.as_str(), d.host.as_str(), port) })
                },
            }
        }
    }

    /// The absolute target for one request: the backend's host prefix, or
    /// the socket-scoped form for a domain socket, followed by the endpoint
    /// path and query.
    pub fn request_target(&self, endpoint: &str) -> (r: String)
        ensures
            match *self {
                Transport::Tcp { host } => r@ == host@ + endpoint@,
                Transport::EncryptedTcp { host } => r@ == host@ + endpoint@,
                Transport::Unix { path } => r@ == unix_target(path@, endpoint@),
            },
    {
        match self {
            Transport::Tcp { host } => {
                let mut out = chars_vec(host.as_str());
                let mut e = chars_vec(endpoint);
                out.append(&mut e);
                string_from_chars(&out)
            },
            Transport::EncryptedTcp { host } => {
                let mut out = chars_vec(host.as_str());
                let mut e = chars_vec(endpoint);
                out.append(&mut e);
                string_from_chars(&out)
            },
            Transport::Unix { path } => {
                let mut out = chars_vec("unix://");
                let ghost s0 = out@;
                proof {
                    assert(s0 == "unix://"@);
                }
                push_hex(path.as_str().as_bytes(), &mut out);
                out.push(':');
                out.push('0');
                let mut e = chars_vec(endpoint);
                out.append(&mut e);
                proof {
                    assert(out@ =~= unix_target(path@, endpoint@));
                }
                string_from_chars(&out)
            },
        }
    }
}

/// Whether an HTTP status is one the daemon answers success with: OK,
/// created, switching protocols, or no content. Any other status is a fault.
pub fn is_success_status(status: u16) -> (r: bool)
    ensures
        r <==> (status == 200 || status == 201 || status == 101 || status == 204),
{
    status == 200 || status == 201 || status == 101 || status == 204
}

/// The message the daemon's JSON error envelope carries for this body, if
/// the body parses as an object with a `message` string.
pub uninterp spec fn error_message_of(body: Seq<char>) -> Option<Seq<char>>;

/// Relies on serde_json: parsing is a function of the text alone, and the
/// result of reading the `message` string out of the parsed object is too.
#[verifier::external_body]
fn get_error_message(body: &str) -> (r: Option<String>)
    ensures
        r matches Some(m) ==> error_message_of(body@) == Some(m@),
        r is None ==> error_message_of(body@) is None,
{
    serde_json::from_str::<serde_json::Value>(body).ok().and_then(|v| {
        v.get("message").and_then(|m| m.as_str()).map(|m| m.to_owned())
    })
}

/// The reason phrase registered for an HTTP status code, if any.
pub uninterp spec fn reason_of(status: u16) -> Option<Seq<char>>;

/// Relies on hyper's status table: the canonical reason phrase is a function
/// of the status code alone.
#[verifier::external_body]
fn reason_phrase(status: u16) -> (r: Option<String>)
    ensures
        r matches Some(p) ==> reason_of(status) == Some(p@),
        r is None ==> reason_of(status) is None,
{
    hyper::StatusCode::from_u16(status).ok().and_then(|s| s.canonical_reason()).map(|p| {
        p.to_owned()
    })
}

/// The message a fault carries for a status and error body: the envelope's
/// message where the body parses, else the status's reason phrase, else a
/// fixed fallback.
pub open spec fn fault_message_of(status: u16, body: Seq<char>) -> Seq<char> {
    match error_message_of(body) {
        Some(m) => m,
        None => match reason_of(status) {
            Some(p) => p,
            None => "unknown error code"@,
        },
    }
}

/// The message for a non-success response.
pub fn fault_message(status: u16, body: &str) -> (r: String)
    ensures
        r@ == fault_message_of(status, body@),
{
    match get_error_message(body) {
        Some(m) => m,
        None => match reason_phrase(status) {
            Some(p) => p,
            None => "unknown error code".to_owned(),
        },
    }
}

/// Classifies one response, exactly once per request: a success status
/// passes the body on untouched; any other status becomes a fault carrying
/// the status and the message extracted from the buffered error body.
pub fn classify_response(status: u16, body: &str) -> (r: Result<(), Error>)
    ensures
        r is Ok <==> (status == 200 || status == 201 || status == 101 || status == 204),
        r matches Err(e) ==> (e matches Error::Fault { status: s, message } && s == status
            && message@ == fault_message_of(status, body@)),
{
    if is_success_status(status) {
        Ok(())
    } else {
        Err(Error::Fault { status, message: fault_message(status, body) })
    }
}

/// The headers that carry upgrade intent: `Connection: Upgrade` and
/// `Upgrade: tcp`.
pub fn upgrade_headers() -> (r: Vec<(String, String)>)
    ensures
        r@.len() == 2,
        r@[0].0@ == "Connection"@ && r@[0].1@ == "Upgrade"@,
        r@[1].0@ == "Upgrade"@ && r@[1].1@ == "tcp"@,
{
    let mut v: Vec<(String, String)> = Vec::new();
    v.push(("Connection".to_owned(), "Upgrade".to_owned()));
    v.push(("Upgrade".to_owned(), "tcp".to_owned()));
    v
}

/// The empty Host header every request carries: the domain-socket backend
/// requires it, and it is harmless for TCP.
pub fn host_header() -> (r: (String, String))
    ensures
        r.0@ == "Host"@,
        r.1@.len() == 0,
{
    ("Host".to_owned(), String::new())
}

/// Decides the protocol-upgrade handshake: only a switching-protocols
/// answer yields the raw duplex stream; any other status rejects the
/// upgrade.
pub fn check_upgrade(status: u16) -> (r: Result<(), Error>)
    ensures
        r is Ok <==> status == 101,
        r matches Err(e) ==> e is UpgradeRejected,
{
    if status == 101 {
        Ok(())
    } else {
        Err(Error::UpgradeRejected)
    }
}

/// The content type of a tar body.
pub fn tar() -> (r: String)
    ensures
        r@ == "application/tar"@,
{
    "application/tar".to_owned()
}

} // verus!
