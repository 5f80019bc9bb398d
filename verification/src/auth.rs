//! Request authenticator: every inbound request carries a timestamp header
//! and a hex-encoded signature header, and is accepted only if the
//! signature verifies over `timestamp bytes || body bytes` under the
//! application's known public verification key. This check precedes any
//! parsing of the body: the caller must hold the `Authenticated` witness
//! before handing the body to the router.
use vstd::prelude::*;
use vstd::string::*;

use ed25519_dalek::Verifier;

verus! {

/// Whether an ed25519 signature verifies a message under a public key,
/// all three given as their byte strings. The outcome is a function of the
/// three arguments alone; a key whose bytes do not decode to a curve point
/// verifies nothing.
pub uninterp spec fn sig_valid(key: Seq<u8>, msg: Seq<u8>, sig: Seq<u8>) -> bool;

/// Relies on ed25519_dalek::VerifyingKey::from_bytes and
/// ed25519_dalek::Verifier::verify: deterministic verification of a
/// 64-byte signature over the message under a 32-byte public key; a key
/// that does not decode rejects every signature.
#[verifier::external_body]
fn ed25519_verify(key: &Vec<u8>, msg: &Vec<u8>, sig: &Vec<u8>) -> (r: bool)
    requires
        key@.len() == 32,
        sig@.len() == 64,
    ensures
        r == sig_valid(key@, msg@, sig@),
{
    let key_arr: [u8; 32] = match key.as_slice().try_into() {
        Ok(a) => a,
        Err(_) => return false,
    };
    let sig_arr: [u8; 64] = match sig.as_slice().try_into() {
        Ok(a) => a,
        Err(_) => return false,
    };
    match ed25519_dalek::VerifyingKey::from_bytes(&key_arr) {
        Ok(vk) => {
            let s = ed25519_dalek::Signature::from_bytes(&sig_arr);
            vk.verify(msg.as_slice(), &s).is_ok()
        },
        Err(_) => false,
    }
}

/// The byte is the ASCII code of a hexadecimal digit.
pub open spec fn is_hex_digit_byte(b: u8) -> bool {
    (48 <= b && b <= 57) || (97 <= b && b <= 102) || (65 <= b && b <= 70)
}

/// The numeric value of a hexadecimal digit byte.
pub open spec fn hex_digit_val(b: u8) -> int {
    if 48 <= b && b <= 57 {
        b - 48
    } else if 97 <= b && b <= 102 {
        b - 87
    } else {
        b - 55
    }
}

/// The bytes are a well-formed hexadecimal encoding: even length, every
/// byte a hex digit.
pub open spec fn valid_hex(bytes: Seq<u8>) -> bool {
    bytes.len() % 2 == 0 && (forall|i: int| 0 <= i < bytes.len() ==> is_hex_digit_byte(bytes[i]))
}

/// The bytes a hexadecimal encoding decodes to: one byte per digit pair,
/// high nibble first.
pub open spec fn spec_hex_decode(bytes: Seq<u8>) -> Seq<u8> {
    Seq::new(
        (bytes.len() / 2) as nat,
        |i: int| (hex_digit_val(bytes[2 * i]) * 16 + hex_digit_val(bytes[2 * i + 1])) as u8,
    )
}

/// Relies on hex::decode: succeeds exactly on even-length strings of hex
/// digits and yields one byte per digit pair, high nibble first.
#[verifier::external_body]
fn hex_decode(s: &str) -> (r: Option<Vec<u8>>)
    ensures
        r is Some <==> valid_hex(s.spec_bytes()),
        r matches Some(v) ==> v@ == spec_hex_decode(s.spec_bytes()),
{
    hex::decode(s).ok()
}

/// The application's public verification key, held as its 32 raw bytes.
pub struct VerifyKey {
    bytes: Vec<u8>,
}

impl VerifyKey {
    /// The key's bytes.
    pub closed spec fn key_bytes(&self) -> Seq<u8> {
        self.bytes@
    }

    /// A key holds exactly 32 bytes.
    pub open spec fn wf(&self) -> bool {
        self.key_bytes().len() == 32
    }

    /// Parse the hex-encoded key text the platform hands out at startup.
    pub fn from_hex(text: &str) -> (r: Option<VerifyKey>)
        ensures
            r is Some <==> valid_hex(text.spec_bytes()) && text.spec_bytes().len() == 64,
            r matches Some(k) ==> k.wf() && k.key_bytes() == spec_hex_decode(text.spec_bytes()),
    {
        match hex_decode(text) {
            None => None,
            Some(bytes) => {
                if bytes.len() == 32 {
                    Some(VerifyKey { bytes })
                } else {
                    None
                }
            },
        }
    }
}

/// Why a request was rejected before any business logic ran.
#[derive(Clone, Copy, Debug, PartialEq, Eq, Structural)]
pub enum RequestError {
    /// A signature or timestamp header was missing or malformed, or the
    /// signature did not verify.
    BadSignature,
    /// The body did not deserialize into the expected envelope shape after
    /// authentication had passed.
    BadJson,
}

impl RequestError {
    /// The HTTP status the transport answers with.
    pub fn status_code(&self) -> (r: u16)
        ensures
            *self == RequestError::BadSignature ==> r == 401,
            *self == RequestError::BadJson ==> r == 400,
    {
        match self {
            RequestError::BadSignature => 401,
            RequestError::BadJson => 400,
        }
    }

    /// The fixed user-facing message; no internal detail is leaked.
    pub fn message(&self) -> (r: &'static str)
        ensures
            *self == RequestError::BadSignature ==> r@
                == "Bad signature or headers, discord check, bug or misconfiguration"@,
            *self == RequestError::BadJson ==> r@ == "Bad JSON body"@,
    {
        match self {
            RequestError::BadSignature => {
                "Bad signature or headers, discord check, bug or misconfiguration"
            },
            RequestError::BadJson => "Bad JSON body",
        }
    }
}

/// The witness that a request's signature was checked before its body was
/// parsed: only `authenticate` produces it.
#[derive(Debug)]
pub struct Authenticated(());

/// The message a request's signature must verify over: the timestamp
/// header's bytes followed by the body bytes.
pub open spec fn signed_payload(timestamp: Seq<u8>, body: Seq<u8>) -> Seq<u8> {
    timestamp + body
}

/// Authenticate one inbound request: both headers must be present, the
/// signature header must decode to 64 bytes of hex, and the signature must
/// verify over `timestamp || body` under the application's key. Anything
/// else is rejected with the authentication error, before any parsing of
/// the body.
pub fn authenticate(
    key: &VerifyKey,
    timestamp: Option<&String>,
    signature_hex: Option<&String>,
    body: &Vec<u8>,
) -> (r: Result<Authenticated, RequestError>)
    requires
        key.wf(),
    ensures
        r matches Err(e) ==> e == RequestError::BadSignature,
        r is Ok <==> (timestamp matches Some(t) && (signature_hex matches Some(sh) && valid_hex(
            vstd::utf8::encode_utf8(sh@),
        ) && vstd::utf8::encode_utf8(sh@).len() == 128 && sig_valid(
            key.key_bytes(),
            signed_payload(vstd::utf8::encode_utf8(t@), body@),
            spec_hex_decode(vstd::utf8::encode_utf8(sh@)),
        ))),
{
    let t = match timestamp {
        None => {
            return Err(RequestError::BadSignature);
        },
        Some(t) => t,
    };
    let sh = match signature_hex {
        None => {
            return Err(RequestError::BadSignature);
        },
        Some(sh) => sh,
    };
    let sig = match hex_decode(sh.as_str()) {
        None => {
            return Err(RequestError::BadSignature);
        },
        Some(sig) => sig,
    };
    if sig.len() != 64 {
        return Err(RequestError::BadSignature);
    }
    let mut payload: Vec<u8> = t.as_str().as_bytes_vec();
    let n = body.len();
    let mut i: usize = 0;
    proof {
        assert(payload@ + body@.take(0int) =~= payload@);
    }
    while i < n
        invariant
            0 <= i <= n,
            n == body@.len(),
            payload@ == vstd::utf8::encode_utf8(t@) + body@.take(i as int),
        decreases n - i,
    {
        payload.push(body[i]);
        proof {
            assert(vstd::utf8::encode_utf8(t@) + body@.take(i as int + 1) =~= (vstd::utf8::encode_utf8(
                t@,
            ) + body@.take(i as int)).push(body@[i as int]));
        }
        i += 1;
    }
    proof {
        assert(body@.take(n as int) =~= body@);
    }
    if ed25519_verify(&key.bytes, &payload, &sig) {
        Ok(Authenticated(()))
    } else {
        Err(RequestError::BadSignature)
    }
}

} // verus!
