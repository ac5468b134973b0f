//! The decisions in checking a Firebase ID token: which signing key the
//! token names, which certificate that is, and whether the decoded claims
//! belong to this project and carry a phone number.

use vstd::prelude::*;
use crate::jwt::{SigningAlgorithm, TokenValidation, required_setting};
use crate::text::{text_eq, trim, trimmed};

verus! {

/// Issuer prefix of Firebase ID tokens; the project id follows a `/`.
pub open spec fn firebase_issuer_base() -> Seq<char> {
    "https://securetoken.google.com"@
}

/// The user a valid Firebase ID token speaks for.
#[derive(Debug, Clone)]
pub struct FirebaseUser {
    pub phone: String,
    pub name: Option<String>,
}

/// Why a Firebase ID token was not accepted: the token itself is bad, or a
/// service it depends on failed.
#[derive(Debug)]
pub enum FirebaseAuthError {
    InvalidToken(String),
    Service(String),
}

/// A Firebase failure, with its message as characters.
pub enum FirebaseFailure {
    InvalidToken(Seq<char>),
    Service(Seq<char>),
}

impl View for FirebaseAuthError {
    type V = FirebaseFailure;

    open spec fn view(&self) -> FirebaseFailure {
        match self {
            FirebaseAuthError::InvalidToken(m) => FirebaseFailure::InvalidToken(m@),
            FirebaseAuthError::Service(m) => FirebaseFailure::Service(m@),
        }
    }
}

impl FirebaseAuthError {
    /// The message the error carries, which is how it is shown.
    pub fn message(&self) -> (r: String)
        ensures
            r@ == match self@ {
                FirebaseFailure::InvalidToken(m) => m,
                FirebaseFailure::Service(m) => m,
            },
    {
        match self {
            FirebaseAuthError::InvalidToken(m) => m.clone(),
            FirebaseAuthError::Service(m) => m.clone(),
        }
    }
}

/// The claims of a decoded Firebase ID token that the check reads.
pub struct FirebaseClaims {
    pub aud: String,
    pub iss: String,
    pub sub: String,
    pub exp: u64,
    pub iat: u64,
    pub phone_number: Option<String>,
    pub name: Option<String>,
}

/// The view of an optional text.
pub open spec fn opt_text(t: Option<String>) -> Option<Seq<char>> {
    match t {
        Some(v) => Some(v@),
        None => None,
    }
}

/// A required Firebase setting: missing or blank is a service failure.
pub open spec fn firebase_setting(name: Seq<char>, value: Option<Seq<char>>) -> Result<
    Seq<char>,
    FirebaseFailure,
> {
    match required_setting(name, value) {
        Ok(v) => Ok(v),
        Err(e) => Err(FirebaseFailure::Service(e)),
    }
}

/// Checks the value of the setting `name` for the Firebase check.
pub fn get_required_env(name: &str, value: Option<String>) -> (r: Result<String, FirebaseAuthError>)
    ensures
        firebase_setting(name@, opt_text(value)) == match r {
            Ok(v) => Ok(v@),
            Err(e) => Err(e@),
        },
{
    match crate::jwt::get_required_env(name, value) {
        Ok(v) => Ok(v),
        Err(e) => Err(FirebaseAuthError::Service(e)),
    }
}

/// The issuer a token of this project must name.
pub fn firebase_issuer(project_id: &str) -> (r: String)
    ensures
        r@ == firebase_issuer_base() + "/"@ + project_id@,
{
    String::from_str("https://securetoken.google.com").concat("/").concat(project_id)
}

/// How a Firebase ID token of this project is validated: RS256 only, with
/// expiry checked, the project as audience and the project's issuer.
pub fn firebase_token_validation(project_id: &str) -> (r: TokenValidation)
    ensures
        r.algorithm == SigningAlgorithm::RS256,
        r.validate_exp,
        r.audience matches Some(a) && a@ == project_id@,
        r.issuer matches Some(i) && i@ == firebase_issuer_base() + "/"@ + project_id@,
{
    TokenValidation {
        algorithm: SigningAlgorithm::RS256,
        validate_exp: true,
        audience: Some(String::from_str(project_id)),
        issuer: Some(firebase_issuer(project_id)),
    }
}

/// What `jsonwebtoken::decode_header` reads from a token: the name of its
/// algorithm and its key id, or the error text.
pub uninterp spec fn jwt_header(token: Seq<char>) -> Result<(Seq<char>, Option<Seq<char>>), Seq<char>>;

/// Reads the header of a token with `jsonwebtoken::decode_header`, giving
/// the algorithm by its variant name and the key id. Claimed: the outcome
/// is a function of the token text.
#[verifier::external_body]
fn decode_jwt_header(token: &str) -> (r: Result<(String, Option<String>), String>)
    ensures
        jwt_header(token@) == match r {
            Ok((alg, kid)) => Ok((alg@, opt_text(kid))),
            Err(e) => Err(e@),
        },
{
    match jsonwebtoken::decode_header(token) {
        Ok(header) => Ok((format!("{:?}", header.alg), header.kid)),
        Err(error) => Err(error.to_string()),
    }
}

/// The signing key id a Firebase token's header leads to: the header must
/// be readable, name RS256 and carry a key id.
pub open spec fn key_id_verdict(header: Result<(Seq<char>, Option<Seq<char>>), Seq<char>>) -> Result<
    Seq<char>,
    FirebaseFailure,
> {
    match header {
        Err(e) => Err(FirebaseFailure::InvalidToken(e)),
        Ok((alg, kid)) => if alg != "RS256"@ {
            Err(FirebaseFailure::InvalidToken("Invalid Firebase token algorithm"@))
        } else {
            match kid {
                None => Err(FirebaseFailure::InvalidToken("Firebase token is missing key id"@)),
                Some(k) => Ok(k),
            }
        },
    }
}

/// Judges a read token header.
pub fn key_id_from_header(header: Result<(String, Option<String>), String>) -> (r: Result<
    String,
    FirebaseAuthError,
>)
    ensures
        key_id_verdict(
            match header {
                Ok((alg, kid)) => Ok((alg@, opt_text(kid))),
                Err(e) => Err(e@),
            },
        ) == match r {
            Ok(k) => Ok(k@),
            Err(e) => Err(e@),
        },
{
    match header {
        Err(error) => Err(FirebaseAuthError::InvalidToken(error)),
        Ok((alg, kid)) => {
            if !text_eq(alg.as_str(), "RS256") {
                return Err(
                    FirebaseAuthError::InvalidToken(
                        String::from_str("Invalid Firebase token algorithm"),
                    ),
                );
            }
            match kid {
                None => Err(
                    FirebaseAuthError::InvalidToken(
                        String::from_str("Firebase token is missing key id"),
                    ),
                ),
                Some(k) => Ok(k),
            }
        },
    }
}

/// The signing key id of a Firebase token.
pub fn firebase_key_id(token: &str) -> (r: Result<String, FirebaseAuthError>)
    ensures
        key_id_verdict(jwt_header(token@)) == match r {
            Ok(k) => Ok(k@),
            Err(e) => Err(e@),
        },
{
    key_id_from_header(decode_jwt_header(token))
}

/// The certificate listed under `kid`: the first entry with that key.
pub open spec fn cert_for(certs: Seq<(String, String)>, kid: Seq<char>) -> Option<Seq<char>>
    decreases certs.len(),
{
    if certs.len() == 0 {
        None
    } else if certs[0].0@ == kid {
        Some(certs[0].1@)
    } else {
        cert_for(certs.drop_first(), kid)
    }
}

/// No key occurs twice in the list, as in a JSON object of key ids.
pub open spec fn keys_unique(certs: Seq<(String, String)>) -> bool {
    forall|i: int, j: int|
        0 <= i < j < certs.len() ==> #[trigger] certs[i].0@ != #[trigger] certs[j].0@
}

/// In a list with unique keys, the certificate for `kid` is the one listed
/// under it, wherever it stands: the lookup is that of a map.
pub proof fn lemma_cert_for_unique_keys(certs: Seq<(String, String)>, kid: Seq<char>, i: int)
    requires
        keys_unique(certs),
        0 <= i < certs.len(),
        certs[i].0@ == kid,
    ensures
        cert_for(certs, kid) == Some(certs[i].1@),
    decreases certs.len(),
{
    if i > 0 {
        assert(certs[0].0@ != certs[i].0@);
        let rest = certs.drop_first();
        assert forall|a: int, b: int| 0 <= a < b < rest.len() implies #[trigger] rest[a].0@
            != #[trigger] rest[b].0@ by {
            assert(rest[a] == certs[a + 1] && rest[b] == certs[b + 1]);
        }
        assert(rest[i - 1] == certs[i]);
        lemma_cert_for_unique_keys(rest, kid, i - 1);
    }
}

/// When no key in the list is `kid`, there is no certificate for it.
pub proof fn lemma_cert_for_absent(certs: Seq<(String, String)>, kid: Seq<char>)
    requires
        forall|i: int| 0 <= i < certs.len() ==> #[trigger] certs[i].0@ != kid,
    ensures
        cert_for(certs, kid) is None,
    decreases certs.len(),
{
    if certs.len() > 0 {
        let rest = certs.drop_first();
        assert forall|i: int| 0 <= i < rest.len() implies #[trigger] rest[i].0@ != kid by {
            assert(rest[i] == certs[i + 1]);
        }
        lemma_cert_for_absent(rest, kid);
    }
}

/// Picks the certificate for `kid` from the published key list.
pub fn select_signing_cert(certs: &Vec<(String, String)>, kid: &str) -> (r: Result<
    String,
    FirebaseAuthError,
>)
    ensures
        match cert_for(certs@, kid@) {
            Some(c) => r matches Ok(v) && v@ == c,
            None => r matches Err(e) && e@ == FirebaseFailure::InvalidToken(
                "Firebase signing key was not found"@,
            ),
        },
{
    let mut i: usize = 0;
    assert(certs@.skip(0) =~= certs@);
    while i < certs.len()
        invariant
            i <= certs@.len(),
            cert_for(certs@, kid@) == cert_for(certs@.skip(i as int), kid@),
        decreases certs@.len() - i,
    {
        assert(certs@.skip(i as int).drop_first() =~= certs@.skip(i + 1));
        if text_eq(certs[i].0.as_str(), kid) {
            return Ok(certs[i].1.clone());
        }
        i = i + 1;
    }
    Err(FirebaseAuthError::InvalidToken(String::from_str("Firebase signing key was not found")))
}

/// What the check of decoded claims answers: the phone (trimmed) and name
/// of the user, or why the token is refused. The subject must not be
/// blank, the audience must be the project, the issuer must be the
/// project's, and a non-blank phone number must be present.
pub open spec fn claims_verdict(
    sub: Seq<char>,
    aud: Seq<char>,
    iss: Seq<char>,
    phone_number: Option<Seq<char>>,
    name: Option<Seq<char>>,
    project_id: Seq<char>,
) -> Result<(Seq<char>, Option<Seq<char>>), FirebaseFailure> {
    if trimmed(sub).len() == 0 {
        Err(FirebaseFailure::InvalidToken("Firebase token subject is invalid"@))
    } else if aud != project_id {
        Err(FirebaseFailure::InvalidToken("Firebase token audience mismatch"@))
    } else if iss != firebase_issuer_base() + "/"@ + project_id {
        Err(FirebaseFailure::InvalidToken("Firebase token issuer mismatch"@))
    } else {
        match phone_number {
            Some(p) if trimmed(p).len() > 0 => Ok((trimmed(p), name)),
            _ => Err(FirebaseFailure::InvalidToken("Firebase token does not contain a phone number"@)),
        }
    }
}

/// Declares `jsonwebtoken::DecodingKey`, a key a token's signature is checked with.
#[verifier::external_type_specification]
#[verifier::external_body]
pub struct ExDecodingKey(jsonwebtoken::DecodingKey);

/// The error text `jsonwebtoken::DecodingKey::from_rsa_pem` gives for this
/// certificate, or `None` when it yields a key.
pub uninterp spec fn rsa_pem_key_error(pem: Seq<char>) -> Option<Seq<char>>;

/// An RSA key that Firebase token signatures are checked with, together
/// with the certificate text it was made of.
pub struct CertificateKey {
    key: jsonwebtoken::DecodingKey,
    pem: Ghost<Seq<char>>,
}

impl CertificateKey {
    /// The certificate text the key was made of.
    pub closed spec fn pem(&self) -> Seq<char> {
        self.pem@
    }

    /// The key, for `jsonwebtoken::decode`.
    pub fn decoding_key(&self) -> &jsonwebtoken::DecodingKey {
        &self.key
    }
}

/// Makes an RSA verification key of a PEM certificate with
/// `jsonwebtoken::DecodingKey::from_rsa_pem`. Claimed: whether it fails,
/// and with which text, is a function of the certificate text, and a key
/// it yields is the one made of this certificate.
#[verifier::external_body]
fn decoding_key_from_pem(pem: &str) -> (r: Result<CertificateKey, String>)
    ensures
        match r {
            Ok(k) => rsa_pem_key_error(pem@) is None && k.pem() == pem@,
            Err(e) => rsa_pem_key_error(pem@) == Some(e@),
        },
{
    match jsonwebtoken::DecodingKey::from_rsa_pem(pem.as_bytes()) {
        Ok(key) => Ok(CertificateKey { key, pem: Ghost(pem@) }),
        Err(error) => Err(error.to_string()),
    }
}

/// The key a Firebase token is verified with, made of the signing
/// certificate; a certificate that yields no key is a service failure.
pub fn firebase_decoding_key(cert: &str) -> (r: Result<CertificateKey, FirebaseAuthError>)
    ensures
        match rsa_pem_key_error(cert@) {
            None => r matches Ok(k) && k.pem() == cert@,
            Some(m) => r matches Err(e) && e@ == FirebaseFailure::Service(m),
        },
{
    match decoding_key_from_pem(cert) {
        Ok(key) => Ok(key),
        Err(error) => Err(FirebaseAuthError::Service(error)),
    }
}

/// Checks the outcome of decoding a Firebase token: a decoding error means
/// an invalid token; decoded claims must belong to the project.
pub fn decoded_firebase_user(decoded: Result<FirebaseClaims, String>, project_id: &str) -> (r: Result<
    FirebaseUser,
    FirebaseAuthError,
>)
    ensures
        match decoded {
            Err(m) => r matches Err(e) && e@ == FirebaseFailure::InvalidToken(m@),
            Ok(claims) => claims_verdict(
                claims.sub@,
                claims.aud@,
                claims.iss@,
                opt_text(claims.phone_number),
                opt_text(claims.name),
                project_id@,
            ) == match r {
                Ok(u) => Ok((u.phone@, opt_text(u.name))),
                Err(e) => Err(e@),
            },
        },
{
    match decoded {
        Err(error) => Err(FirebaseAuthError::InvalidToken(error)),
        Ok(claims) => check_firebase_claims(claims, project_id),
    }
}

/// Claims with a non-blank subject, the project as audience, the
/// project's issuer and a non-blank phone number are accepted, as the
/// trimmed phone and whatever name they carry, absent or not.
pub proof fn lemma_valid_claims_accepted(
    sub: Seq<char>,
    aud: Seq<char>,
    iss: Seq<char>,
    phone: Seq<char>,
    name: Option<Seq<char>>,
    project_id: Seq<char>,
)
    requires
        trimmed(sub).len() > 0,
        aud == project_id,
        iss == firebase_issuer_base() + "/"@ + project_id,
        trimmed(phone).len() > 0,
    ensures
        claims_verdict(sub, aud, iss, Some(phone), name, project_id) == Ok::<
            (Seq<char>, Option<Seq<char>>),
            FirebaseFailure,
        >((trimmed(phone), name)),
{
}

/// Whether claims are accepted does not depend on the name claim, and an
/// accepted user carries the name claim unchanged.
pub proof fn lemma_name_claim_does_not_decide(
    sub: Seq<char>,
    aud: Seq<char>,
    iss: Seq<char>,
    phone_number: Option<Seq<char>>,
    name1: Option<Seq<char>>,
    name2: Option<Seq<char>>,
    project_id: Seq<char>,
)
    ensures
        claims_verdict(sub, aud, iss, phone_number, name1, project_id) is Ok <==> claims_verdict(
            sub,
            aud,
            iss,
            phone_number,
            name2,
            project_id,
        ) is Ok,
        claims_verdict(sub, aud, iss, phone_number, name1, project_id) matches Ok((_, n)) ==> n
            == name1,
{
}

/// Checks the claims of a decoded Firebase token against the project.
pub fn check_firebase_claims(claims: FirebaseClaims, project_id: &str) -> (r: Result<
    FirebaseUser,
    FirebaseAuthError,
>)
    ensures
        claims_verdict(
            claims.sub@,
            claims.aud@,
            claims.iss@,
            opt_text(claims.phone_number),
            opt_text(claims.name),
            project_id@,
        ) == match r {
            Ok(u) => Ok((u.phone@, opt_text(u.name))),
            Err(e) => Err(e@),
        },
{
    if trim(claims.sub.as_str()).unicode_len() == 0 {
        return Err(
            FirebaseAuthError::InvalidToken(String::from_str("Firebase token subject is invalid")),
        );
    }
    if !text_eq(claims.aud.as_str(), project_id) {
        return Err(
            FirebaseAuthError::InvalidToken(String::from_str("Firebase token audience mismatch")),
        );
    }
    let expected_issuer = firebase_issuer(project_id);
    if !text_eq(claims.iss.as_str(), expected_issuer.as_str()) {
        return Err(
            FirebaseAuthError::InvalidToken(String::from_str("Firebase token issuer mismatch")),
        );
    }
    let phone = match &claims.phone_number {
        Some(p) => {
            let t = trim(p.as_str());
            if t.unicode_len() == 0 {
                None
            } else {
                Some(String::from_str(t))
            }
        },
        None => None,
    };
    match phone {
        Some(phone) => Ok(FirebaseUser { phone, name: claims.name }),
        None => Err(
            FirebaseAuthError::InvalidToken(
                String::from_str("Firebase token does not contain a phone number"),
            ),
        ),
    }
}

} // verus!
