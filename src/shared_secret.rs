use crate::etf::{be32, encode_token_term, etf_token_term, BINARY_TAG, SMALL_TUPLE_TAG, VERSION_TAG};
use crate::text::{decimal, to_decimal};
use base64::Engine;
use hmac::Mac;
use vstd::prelude::*;
use vstd::string::*;
use vstd::utf8::*;

verus! {

/// Declares the error of a MAC key of unacceptable length.
#[verifier::external_type_specification]
#[verifier::external_body]
pub struct ExInvalidLength(hmac::digest::InvalidLength);

/// Failure while producing the signed headers.
#[derive(Debug, Clone, PartialEq, Eq)]
pub enum SharedSecretError {
    /// The MAC refused its key.
    Hmac(String),
    /// The system clock reads before the Unix epoch.
    Clock,
}

/// Parameters of the shared-secret scheme.
#[derive(Debug, Clone, PartialEq, Eq)]
pub struct SharedSecretAuth {
    pub key: String,
    pub secret: String,
    pub digest: String,
    pub iterations: u32,
    pub key_length: usize,
}

/// Unpadded base64url text of `b`.
pub uninterp spec fn base64url_of(b: Seq<u8>) -> Seq<char>;

/// PBKDF2-HMAC-SHA256 of `password` and `salt`, `len` bytes long.
pub uninterp spec fn pbkdf2_sha256_of(password: Seq<u8>, salt: Seq<u8>, rounds: u32, len: nat) -> Seq<u8>;

/// HMAC-SHA256 of `msg` under `key`.
pub uninterp spec fn hmac_sha256_of(key: Seq<u8>, msg: Seq<u8>) -> Seq<u8>;

/// Relies on base64's `URL_SAFE_NO_PAD.encode`: the unpadded base64url text of the input.
#[verifier::external_body]
fn base64url_encode(b: &[u8]) -> (r: String)
    ensures
        r@ == base64url_of(b@),
{
    base64::engine::general_purpose::URL_SAFE_NO_PAD.encode(b)
}

/// Relies on `pbkdf2::pbkdf2_hmac::<Sha256>`: fills a buffer of `len` bytes with the derived key.
#[verifier::external_body]
fn pbkdf2_sha256(password: &[u8], salt: &[u8], rounds: u32, len: usize) -> (r: Vec<u8>)
    ensures
        r@ == pbkdf2_sha256_of(password@, salt@, rounds, len as nat),
        r@.len() == len,
{
    let mut out = vec![0u8; len];
    pbkdf2::pbkdf2_hmac::<sha2::Sha256>(password, salt, rounds, &mut out);
    out
}

/// Relies on `Hmac::<Sha256>::new_from_slice`, `update` and `finalize`: the MAC of
/// `msg`; HMAC takes keys of any length, so the result is always `Ok`.
#[verifier::external_body]
fn hmac_sha256(key: &[u8], msg: &[u8]) -> (r: Result<Vec<u8>, hmac::digest::InvalidLength>)
    ensures
        r is Ok,
        r->Ok_0@ == hmac_sha256_of(key@, msg@),
{
    let mut mac = hmac::Hmac::<sha2::Sha256>::new_from_slice(key)?;
    mac.update(msg);
    Ok(mac.finalize().into_bytes().to_vec())
}

/// Relies on `SystemTime::now` and `duration_since(UNIX_EPOCH)`: whole seconds since
/// the epoch, or `None` where the clock reads earlier. Nothing is known of the value.
#[verifier::external_body]
fn unix_seconds_now() -> (r: Option<u64>) {
    std::time::SystemTime::now().duration_since(std::time::UNIX_EPOCH).ok().map(|d| d.as_secs())
}

/// The algorithm header value `NH1-HMAC-<digest>-<iterations>-<key_length>`.
pub open spec fn algorithm_text(digest: Seq<char>, iterations: nat, key_length: nat) -> Seq<char> {
    "NH1-HMAC-"@ + digest + "-"@ + decimal(iterations) + "-"@ + decimal(key_length)
}

/// The PBKDF2 salt: a fixed preamble and the three header lines, newline-terminated.
pub open spec fn salt_text(alg: Seq<char>, key: Seq<char>, time: Seq<char>) -> Seq<char> {
    "NH1:device-socket:shared-secret:connect\n\nx-nh-alg="@ + alg + "\nx-nh-key="@ + key
        + "\nx-nh-time="@ + time + "\n"@
}

/// Signed-at of the token, in milliseconds, for a time in seconds.
pub open spec fn signed_at_ms(t: nat) -> nat {
    t * 1000
}

/// Lifetime of a token, in seconds.
pub const MAX_AGE_SECS: u128 = 86400;

/// The payload segment: base64url of the token term for `identifier` at `t`.
pub open spec fn payload_segment(identifier: Seq<u8>, t: nat) -> Seq<char> {
    base64url_of(etf_token_term(identifier, signed_at_ms(t), MAX_AGE_SECS as nat))
}

/// The text that the MAC covers: the protocol prefix, a dot, the payload segment.
pub open spec fn signing_input(identifier: Seq<u8>, t: nat) -> Seq<char> {
    "SFMyNTY."@ + payload_segment(identifier, t)
}

/// The signed token for `auth`, `identifier` and `t`.
pub open spec fn token_text(auth: SharedSecretAuth, identifier: Seq<u8>, t: nat) -> Seq<char> {
    let alg = algorithm_text(auth.digest@, auth.iterations as nat, auth.key_length as nat);
    let salt = salt_text(alg, auth.key@, decimal(t));
    let derived = pbkdf2_sha256_of(
        encode_utf8(auth.secret@),
        encode_utf8(salt),
        auth.iterations,
        auth.key_length as nat,
    );
    signing_input(identifier, t) + "."@ + base64url_of(
        hmac_sha256_of(derived, encode_utf8(signing_input(identifier, t))),
    )
}

/// The four headers, in order, for `auth`, `identifier` and `t`.
pub open spec fn headers_spec(
    auth: SharedSecretAuth,
    identifier: Seq<u8>,
    t: nat,
    headers: Seq<(String, String)>,
) -> bool {
    &&& headers.len() == 4
    &&& headers[0].0@ == "x-nh-alg"@
    &&& headers[0].1@ == algorithm_text(auth.digest@, auth.iterations as nat, auth.key_length as nat)
    &&& headers[1].0@ == "x-nh-key"@
    &&& headers[1].1@ == auth.key@
    &&& headers[2].0@ == "x-nh-time"@
    &&& headers[2].1@ == decimal(t)
    &&& headers[3].0@ == "x-nh-signature"@
    &&& headers[3].1@ == token_text(auth, identifier, t)
}

/// The payload segment of every token is the base64url text of a term that opens
/// with the version prefix, a three-element tuple and a binary: bytes 131, 104,
/// 3, 109; the term's signed-at is `t * 1000`.
pub proof fn lemma_payload_prefix(auth: SharedSecretAuth, identifier: Seq<u8>, t: nat)
    ensures
        token_text(auth, identifier, t).subrange(0, signing_input(identifier, t).len() as int)
            == signing_input(identifier, t),
        signing_input(identifier, t) == "SFMyNTY."@ + payload_segment(identifier, t),
        payload_segment(identifier, t) == base64url_of(
            etf_token_term(identifier, t * 1000, MAX_AGE_SECS as nat),
        ),
        etf_token_term(identifier, t * 1000, MAX_AGE_SECS as nat).subrange(0, 4) == seq![
            VERSION_TAG,
            SMALL_TUPLE_TAG,
            3u8,
            BINARY_TAG,
        ],
        etf_token_term(identifier, t * 1000, MAX_AGE_SECS as nat).subrange(4, 8) == be32(
            identifier.len(),
        ),
{
    let term = etf_token_term(identifier, t * 1000, MAX_AGE_SECS as nat);
    assert(term.subrange(0, 4) =~= seq![VERSION_TAG, SMALL_TUPLE_TAG, 3u8, BINARY_TAG]);
    assert(term.subrange(4, 8) =~= be32(identifier.len()));
    let si = signing_input(identifier, t);
    assert(token_text(auth, identifier, t).subrange(0, si.len() as int) =~= si);
}

/// The scheme that `new` sets up announces itself as `NH1-HMAC-sha256-1000-32`.
pub proof fn lemma_default_algorithm()
    ensures
        algorithm_text("sha256"@, 1000, 32) == "NH1-HMAC-sha256-1000-32"@,
{
    reveal_strlit("NH1-HMAC-sha256-1000-32");
    reveal_strlit("NH1-HMAC-");
    reveal_strlit("sha256");
    reveal_strlit("-");
    reveal_with_fuel(decimal, 5);
    assert(algorithm_text("sha256"@, 1000, 32) =~= "NH1-HMAC-sha256-1000-32"@);
}

fn text_of(s: &str) -> (r: String)
    ensures
        r@ == s@,
{
    s.to_owned()
}

impl SharedSecretAuth {
    /// The scheme with SHA-256, 1000 iterations and a 32-byte derived key.
    pub fn new(key: String, secret: String) -> (r: Self)
        ensures
            r.key == key,
            r.secret == secret,
            r.digest@ == "sha256"@,
            r.iterations == 1000,
            r.key_length == 32,
    {
        SharedSecretAuth { key, secret, digest: text_of("sha256"), iterations: 1000, key_length: 32 }
    }

    /// The value of the algorithm header.
    pub fn algorithm(&self) -> (r: String)
        ensures
            r@ == algorithm_text(self.digest@, self.iterations as nat, self.key_length as nat),
    {
        let mut s = text_of("NH1-HMAC-");
        s.append(self.digest.as_str());
        s.append("-");
        s.append(to_decimal(self.iterations as u64).as_str());
        s.append("-");
        s.append(to_decimal(self.key_length as u64).as_str());
        s
    }

    /// The headers for `identifier` at the current time of the system clock.
    pub fn auth_headers(&self, identifier: &str) -> (r: Result<Vec<(String, String)>, SharedSecretError>)
        requires
            identifier.spec_bytes().len() <= u32::MAX,
        ensures
            r matches Ok(h) ==> exists|t: u64| headers_spec(*self, identifier.spec_bytes(), t as nat, h@),
            r matches Err(e) ==> e is Clock,
    {
        match unix_seconds_now() {
            Some(t) => self.auth_headers_at(identifier, t),
            None => Err(SharedSecretError::Clock),
        }
    }

    /// The headers for `identifier` at `timestamp` seconds since the epoch.
    pub fn auth_headers_at(&self, identifier: &str, timestamp: u64) -> (r: Result<
        Vec<(String, String)>,
        SharedSecretError,
    >)
        requires
            identifier.spec_bytes().len() <= u32::MAX,
        ensures
            r matches Ok(h) && headers_spec(*self, identifier.spec_bytes(), timestamp as nat, h@),
    {
        let alg = self.algorithm();
        let time = to_decimal(timestamp);
        let signature = self.compute_signature(identifier, alg.as_str(), time.as_str(), timestamp)?;
        let mut headers: Vec<(String, String)> = Vec::new();
        headers.push((text_of("x-nh-alg"), alg));
        headers.push((text_of("x-nh-key"), self.key.clone()));
        headers.push((text_of("x-nh-time"), time));
        headers.push((text_of("x-nh-signature"), signature));
        Ok(headers)
    }

    fn compute_signature(&self, identifier: &str, alg: &str, time: &str, timestamp: u64) -> (r: Result<
        String,
        SharedSecretError,
    >)
        requires
            identifier.spec_bytes().len() <= u32::MAX,
            alg@ == algorithm_text(self.digest@, self.iterations as nat, self.key_length as nat),
            time@ == decimal(timestamp as nat),
        ensures
            r matches Ok(s) && s@ == token_text(*self, identifier.spec_bytes(), timestamp as nat),
    {
        let mut salt = text_of("NH1:device-socket:shared-secret:connect\n\nx-nh-alg=");
        salt.append(alg);
        salt.append("\nx-nh-key=");
        salt.append(self.key.as_str());
        salt.append("\nx-nh-time=");
        salt.append(time);
        salt.append("\n");
        let derived = pbkdf2_sha256(
            self.secret.as_str().as_bytes(),
            salt.as_str().as_bytes(),
            self.iterations,
            self.key_length,
        );
        let term = encode_token_term(identifier, timestamp as u128 * 1000, MAX_AGE_SECS);
        let payload = base64url_encode(term.as_slice());
        let mut signing = text_of("SFMyNTY.");
        signing.append(payload.as_str());
        let mac = match hmac_sha256(derived.as_slice(), signing.as_str().as_bytes()) {
            Ok(m) => m,
            Err(e) => {
                return Err(SharedSecretError::Hmac(e.to_string()));
            },
        };
        let sig = base64url_encode(mac.as_slice());
        let mut token = signing;
        token.append(".");
        token.append(sig.as_str());
        Ok(token)
    }
}

} // verus!
