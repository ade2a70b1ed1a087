//! Authentication by certificate: what goes into the signed assertion, the
//! request for a token, and the reading of the answer.

use crate::encoding::base64_encode;
use crate::encoding::base64_standard;
use crate::encoding::percent_encode;
use crate::encoding::percent_encoded;
use crate::encoding::random_uuid;
use crate::error::SimpleError;
use crate::http::success_status;
use crate::http::Method;
use crate::http::Request;
use crate::http::Response;
use crate::ident::AzureId;
use crate::json::json_document;
use crate::json::parse_document;
use crate::json::Json;
use crate::scope::TokenScope;
use crate::time::Timestamp;
use vstd::prelude::*;
use vstd::string::*;
use vstd::utf8::*;

pub mod token_store;

verus! {

/// The seconds for which a signed assertion is valid.
pub const JWT_EXP_SECS: u64 = 60;

/// The length of a SHA-1 digest, in bytes.
pub const FINGERPRINT_LEN: usize = 20;

/// The address at which tokens for the directory `directory` are requested.
pub open spec fn spec_token_endpoint(directory: Seq<char>) -> Seq<char> {
    "https://login.microsoftonline.com/"@ + directory + "/oauth2/v2.0/token"@
}

/// One field of a form: the key, `=`, and the value percent-encoded.
pub open spec fn spec_form_field(key: Seq<char>, value: Seq<char>) -> Seq<char> {
    key + "="@ + percent_encoded(encode_utf8(value))
}

/// The form that asks for a token for `scope`, for the client `client` that
/// proves who it is by `assertion`.
pub open spec fn spec_body(scope: TokenScope, client: Seq<char>, assertion: Seq<char>) -> Seq<
    char,
> {
    spec_form_field("scope"@, scope.scope_spec()) + "&"@ + spec_form_field("client_id"@, client)
        + "&"@ + spec_form_field(
        "client_assertion_type"@,
        "urn:ietf:params:oauth:client-assertion-type:jwt-bearer"@,
    ) + "&"@ + spec_form_field("client_assertion"@, assertion) + "&"@ + spec_form_field(
        "grant_type"@,
        "client_credentials"@,
    )
}

/// The algorithm by which an assertion is signed.
#[derive(Debug, Clone, Copy, PartialEq, Eq, Structural)]
pub enum AlgorithmType {
    Rs256,
}

/// The type that the header of an assertion declares.
#[derive(Debug, Clone, Copy, PartialEq, Eq, Structural)]
pub enum Type {
    JWT,
}

/// The header of an assertion.
#[derive(Debug)]
pub struct Header {
    pub alg: AlgorithmType,
    pub typ: Type,
    pub x5t: String,
}

impl Header {
    /// The header for a certificate with the fingerprint `digest`: signed
    /// with RSA and SHA-256, and `x5t` the fingerprint in Base64.
    pub fn with_fingerprint(digest: &[u8]) -> (header: Header)
        requires
            digest@.len() <= crate::encoding::BASE64_MAX_INPUT,
        ensures
            header.alg == AlgorithmType::Rs256,
            header.typ == Type::JWT,
            header.x5t@ == base64_standard(digest@),
    {
        Header { alg: AlgorithmType::Rs256, typ: Type::JWT, x5t: base64_encode(digest) }
    }

    /// The algorithm that the header declares.
    pub fn algorithm_type(&self) -> (alg: AlgorithmType)
        ensures
            alg == self.alg,
    {
        self.alg
    }
}

/// The claims of an assertion. Times are seconds since the Unix epoch.
#[derive(Debug)]
pub struct Claims {
    pub audience: String,
    pub issuer: String,
    pub subject: String,
    pub not_before: u64,
    pub expiration: u64,
    pub json_web_token_id: String,
    pub issued_at: u64,
}

/// Who asks for tokens: a client of a directory, known by the fingerprint of
/// its certificate.
#[derive(Debug)]
pub struct TokenManager {
    directory: AzureId,
    client: AzureId,
    fingerprint: Vec<u8>,
}

impl TokenManager {
    /// The directory in which the client is registered.
    pub closed spec fn spec_directory(&self) -> Seq<char> {
        self.directory@
    }

    /// The identifier of the client.
    pub closed spec fn spec_client(&self) -> Seq<char> {
        self.client@
    }

    /// The SHA-1 fingerprint of the client's certificate.
    pub closed spec fn spec_fingerprint(&self) -> Seq<u8> {
        self.fingerprint@
    }

    /// The invariant of the type: the fingerprint has the length of a SHA-1
    /// digest.
    pub open spec fn wf(&self) -> bool {
        self.spec_fingerprint().len() == FINGERPRINT_LEN
    }

    #[verifier::type_invariant]
    spec fn inv(&self) -> bool {
        self.wf()
    }

    /// The claims that the client makes at the second `now` under the
    /// identifier `jti`: it speaks of itself to the token endpoint, from now
    /// on and for the time an assertion is valid.
    pub open spec fn spec_claims(&self, now: u64, jti: Seq<char>, claims: Claims) -> bool {
        &&& claims.audience@ == spec_token_endpoint(self.spec_directory())
        &&& claims.issuer@ == self.spec_client()
        &&& claims.subject@ == self.spec_client()
        &&& claims.not_before == now
        &&& claims.expiration == now + JWT_EXP_SECS
        &&& claims.json_web_token_id@ == jti
        &&& claims.issued_at == now
    }

    /// The client `client` of `directory` whose certificate has the SHA-1
    /// fingerprint `fingerprint`; nothing where `fingerprint` has not the
    /// length of such a digest.
    pub fn new(directory: AzureId, client: AzureId, fingerprint: Vec<u8>) -> (r: Option<
        TokenManager,
    >)
        ensures
            r is Some <==> fingerprint@.len() == FINGERPRINT_LEN,
            r matches Some(m) ==> m.spec_directory() == directory@ && m.spec_client() == client@
                && m.spec_fingerprint() == fingerprint@,
    {
        if fingerprint.len() == FINGERPRINT_LEN {
            Some(TokenManager { directory, client, fingerprint })
        } else {
            None
        }
    }

    /// The address at which the client requests its tokens.
    pub fn token_endpoint(&self) -> (uri: String)
        ensures
            uri@ == spec_token_endpoint(self.spec_directory()),
    {
        let mut uri = String::from_str("https://login.microsoftonline.com/");
        uri.append(self.directory.id());
        uri.append("/oauth2/v2.0/token");
        uri
    }

    /// The header of the client's assertions.
    pub fn header(&self) -> (header: Header)
        ensures
            header.alg == AlgorithmType::Rs256,
            header.typ == Type::JWT,
            header.x5t@ == base64_standard(self.spec_fingerprint()),
    {
        proof {
            use_type_invariant(self);
        }
        Header::with_fingerprint(self.fingerprint.as_slice())
    }

    /// The claims of an assertion made at the second `now` under the
    /// identifier `jti`.
    pub fn claims_with(&self, now: u64, jti: String) -> (claims: Claims)
        requires
            now + JWT_EXP_SECS <= u64::MAX,
        ensures
            self.spec_claims(now, jti@, claims),
    {
        Claims {
            audience: self.token_endpoint(),
            issuer: String::from_str(self.client.id()),
            subject: String::from_str(self.client.id()),
            not_before: now,
            expiration: now + JWT_EXP_SECS,
            json_web_token_id: jti,
            issued_at: now,
        }
    }

    /// The claims of an assertion made at the second `now`, under a fresh
    /// random identifier.
    pub fn jwt_claims(&self, now: u64) -> (claims: Claims)
        requires
            now + JWT_EXP_SECS <= u64::MAX,
        ensures
            self.spec_claims(now, claims.json_web_token_id@, claims),
            crate::encoding::is_uuid_v4_text(claims.json_web_token_id@),
    {
        self.claims_with(now, jti())
    }

    /// The form that asks for a token for `scope`, with the signed assertion
    /// `assertion`.
    pub fn body(&self, scope: TokenScope, assertion: &str) -> (body: String)
        ensures
            body@ == spec_body(scope, self.spec_client(), assertion@),
    {
        let mut body = String::new();
        append_form_field(&mut body, "scope", scope.scope());
        body.append("&");
        append_form_field(&mut body, "client_id", self.client.id());
        body.append("&");
        append_form_field(
            &mut body,
            "client_assertion_type",
            "urn:ietf:params:oauth:client-assertion-type:jwt-bearer",
        );
        body.append("&");
        append_form_field(&mut body, "client_assertion", assertion);
        body.append("&");
        append_form_field(&mut body, "grant_type", "client_credentials");
        body
    }

    /// The request for a token for `scope`: a `POST` of the form to the
    /// token endpoint.
    pub fn generate_auth_request(&self, scope: TokenScope, assertion: &str) -> (request: Request)
        ensures
            request.method == Method::Post,
            request.uri@ == spec_token_endpoint(self.spec_directory()),
            request.headers@.len() == 1,
            request.headers@[0].name@ == "Content-Type"@,
            request.headers@[0].value@ == "application/x-www-form-urlencoded"@,
            request.body matches Some(bytes) && bytes@ == encode_utf8(
                spec_body(scope, self.spec_client(), assertion@),
            ),
    {
        let body = self.body(scope, assertion);
        let bytes = body.as_str().as_bytes_vec();
        let mut request = Request::new(Method::Post, self.token_endpoint(), Some(bytes));
        request.set_header(
            "Content-Type",
            String::from_str("application/x-www-form-urlencoded"),
        );
        request
    }
}

/// Appends one field of a form to `out`.
fn append_form_field(out: &mut String, key: &str, value: &str)
    ensures
        final(out)@ == old(out)@ + spec_form_field(key@, value@),
{
    out.append(key);
    out.append("=");
    let encoded = percent_encode(value);
    out.append(encoded.as_str());
}

/// A fresh random identifier for an assertion: a random identifier of
/// version 4, in its hyphenated lower-case form.
fn jti() -> (id: String)
    ensures
        crate::encoding::is_uuid_v4_text(id@),
{
    random_uuid()
}

/// What the token endpoint answers on success, as far as the client reads
/// it.
#[derive(Debug)]
pub struct ResponseBody {
    pub expires_in: i64,
    pub access_token: String,
}

/// A bearer token and the time at which it expires.
#[derive(Debug, Clone)]
pub struct TokenResponse {
    pub token: String,
    pub expires_on: Timestamp,
}

/// What the JSON document `tree` says as the answer of the token endpoint:
/// the seconds that the token lives and the token, where `tree` is an object
/// with an integer `expires_in` and a string `access_token`.
pub open spec fn spec_response_body(tree: Json) -> Option<(i64, Seq<char>)> {
    match (tree.spec_member("expires_in"@), tree.spec_member("access_token"@)) {
        (Some(expires_in), Some(access_token)) => match (
            expires_in.spec_integer(),
            access_token.spec_text(),
        ) {
            (Some(seconds), Some(token)) => Some((seconds, token)),
            _ => None,
        },
        _ => None,
    }
}

/// Whether a token received at `now` that lives for `seconds` has an expiry
/// that can be represented.
pub open spec fn expiry_fits(now: Timestamp, seconds: i64) -> bool {
    i64::MIN <= now.spec_secs() + seconds <= i64::MAX
}

impl ResponseBody {
    /// Reads the answer of the token endpoint from the JSON document `tree`;
    /// members other than the two that are read are ignored.
    pub fn from_json(tree: &Json) -> (r: Result<ResponseBody, SimpleError>)
        ensures
            match spec_response_body(*tree) {
                Some((seconds, token)) => r matches Ok(body) && body.expires_in == seconds
                    && body.access_token@ == token,
                None => r matches Err(e) && e is UnexpectedShape,
            },
    {
        let expires_in = match tree.member("expires_in") {
            Some(value) => value.integer(),
            None => None,
        };
        let access_token = match tree.member("access_token") {
            Some(value) => value.text(),
            None => None,
        };
        match (expires_in, access_token) {
            (Some(seconds), Some(token)) => Ok(
                ResponseBody { expires_in: seconds, access_token: String::from_str(token) },
            ),
            _ => Err(SimpleError::UnexpectedShape),
        }
    }
}

impl TokenResponse {
    /// The token of `body`, received at `now`: it expires `expires_in`
    /// seconds after `now`. There is none where that time cannot be
    /// represented.
    pub fn from_body(body: ResponseBody, now: &Timestamp) -> (r: Option<TokenResponse>)
        ensures
            r is Some <==> expiry_fits(*now, body.expires_in),
            r matches Some(t) ==> t.token == body.access_token && t.expires_on@ == now@
                + body.expires_in * 1_000_000_000,
    {
        match now.checked_add_secs(body.expires_in) {
            Some(expires_on) => Some(TokenResponse { token: body.access_token, expires_on }),
            None => None,
        }
    }
}

/// What the answer `response` of the token endpoint, received at `now`,
/// amounts to, once its body has been read as `document`.
pub open spec fn spec_token_outcome(
    response: Response,
    now: Timestamp,
    document: Option<Json>,
    r: Result<TokenResponse, SimpleError>,
) -> bool {
    if !success_status(response.status) {
        r matches Err(SimpleError::HttpStatus { status, body }) && status == response.status
            && body@ == response.body@
    } else {
        match document {
            None => r matches Err(e) && e is SerdeError,
            Some(tree) => match spec_response_body(tree) {
                None => r matches Err(e) && e is UnexpectedShape,
                Some((seconds, token)) => if expiry_fits(now, seconds) {
                    r matches Ok(t) && t.token@ == token && t.expires_on@ == now@ + seconds
                        * 1_000_000_000
                } else {
                    r matches Err(e) && e is UnexpectedShape
                },
            },
        }
    }
}

/// Reads the answer of the token endpoint, received at `now`. An answer
/// with a status outside the success range is an error that carries the
/// status and the body as they came; a body that is no JSON document, or none
/// of the expected shape, is an error too. Else the token expires
/// `expires_in` seconds after `now`.
pub fn read_token_response(response: &Response, now: &Timestamp) -> (r: Result<
    TokenResponse,
    SimpleError,
>)
    ensures
        spec_token_outcome(*response, *now, json_document(response.body@), r),
{
    if !response.is_success() {
        return Err(
            SimpleError::HttpStatus { status: response.status, body: response.body.clone() },
        );
    }
    match parse_document(response.body.as_str()) {
        Err(e) => Err(SimpleError::SerdeError(e)),
        Ok(tree) => match ResponseBody::from_json(&tree) {
            Err(e) => Err(e),
            Ok(body) => match TokenResponse::from_body(body, now) {
                Some(token) => Ok(token),
                None => Err(SimpleError::UnexpectedShape),
            },
        },
    }
}

} // verus!
