//! The client: it holds who asks and the tokens obtained so far, decides
//! when a new token is due, puts the token on each request, and tells a
//! success from a failure.

use crate::authentication::read_token_response;
use crate::authentication::spec_body;
use crate::authentication::spec_token_endpoint;
use crate::authentication::spec_token_outcome;
use crate::authentication::token_store::usable;
use crate::authentication::token_store::TokenStore;
use crate::authentication::TokenManager;
use crate::authentication::TokenResponse;
use crate::error::SimpleError;
use crate::http::count_name;
use crate::http::header_value;
use crate::http::same_name;
use crate::http::success_status;
use crate::http::Method;
use crate::http::Request;
use crate::http::Response;
use crate::ident::AzureId;
use crate::json::json_document;
use crate::scope::TokenScope;
use crate::text::decimal;
use crate::text::decimal_string;
use crate::time::Timestamp;
use vstd::prelude::*;
use vstd::string::*;
use vstd::utf8::*;

verus! {

/// The client of the management API.
pub struct AzureClient {
    token_manager: TokenManager,
    token_store: TokenStore,
}

/// What the client does when a token for a scope is asked for.
#[derive(Debug)]
pub enum TokenStep {
    /// The store holds a token that is still valid: it is served, and no
    /// request is made.
    Cached(String),
    /// No valid token is at hand: one request for a new one is due.
    Request,
}

/// The value of the header that carries `token`.
pub open spec fn spec_bearer(token: Seq<char>) -> Seq<char> {
    "Bearer "@ + token
}

/// What a response amounts to for the caller: itself where its status is a
/// success, else an error with its status and its body.
pub open spec fn spec_checked(response: Response, r: Result<Response, SimpleError>) -> bool {
    if success_status(response.status) {
        r == Ok::<Response, SimpleError>(response)
    } else {
        r matches Err(SimpleError::HttpStatus { status, body }) && status == response.status
            && body == response.body
    }
}

/// The token that is served for `scope` at `now` out of `tokens`, without a
/// request: the one held for `scope`, where that one is still usable.
pub open spec fn spec_served(
    tokens: Map<TokenScope, TokenResponse>,
    scope: TokenScope,
    now: Timestamp,
) -> Option<Seq<char>> {
    if tokens.contains_key(scope) && usable(tokens[scope], now) {
        Some(tokens[scope].token@)
    } else {
        None
    }
}

/// What one call for a token comes to: the token that the caller gets, the
/// number of requests that were made for it, and the tokens held afterwards.
pub struct TokenCall {
    pub token: Seq<char>,
    pub requests: nat,
    pub tokens: Map<TokenScope, TokenResponse>,
}

/// One call for a token for `scope` at `now`, where `fresh` is what the
/// token endpoint would give if it were asked: a token that is held and
/// usable is served, as `AzureClient::token` decides; else one request is
/// made, and what it gives is stored and served, as `AzureClient::store_token`
/// does.
pub open spec fn spec_token_call(
    tokens: Map<TokenScope, TokenResponse>,
    scope: TokenScope,
    now: Timestamp,
    fresh: TokenResponse,
) -> TokenCall {
    match spec_served(tokens, scope, now) {
        Some(token) => TokenCall { token, requests: 0, tokens },
        None => TokenCall { token: fresh.token@, requests: 1, tokens: tokens.insert(scope, fresh) },
    }
}

/// The tokens held after the calls for `scope` at the times `times`, one
/// after the other, where `fresh(i)` is what the token endpoint would give
/// at the call `i`.
pub open spec fn spec_token_calls(
    tokens: Map<TokenScope, TokenResponse>,
    scope: TokenScope,
    times: Seq<Timestamp>,
    fresh: spec_fn(int) -> TokenResponse,
) -> Map<TokenScope, TokenResponse>
    decreases times.len(),
{
    if times.len() == 0 {
        tokens
    } else {
        spec_token_call(
            spec_token_calls(tokens, scope, times.drop_last(), fresh),
            scope,
            times.last(),
            fresh(times.len() - 1),
        ).tokens
    }
}

/// After a call for a token, a second call for the same scope that comes
/// while the token of the first is valid gets that same token, makes no
/// request, and leaves the tokens held as they are.
pub proof fn law_second_call_is_served_from_the_store(
    tokens: Map<TokenScope, TokenResponse>,
    scope: TokenScope,
    first_time: Timestamp,
    first_fresh: TokenResponse,
    second_time: Timestamp,
    second_fresh: TokenResponse,
)
    requires
        usable(spec_token_call(tokens, scope, first_time, first_fresh).tokens[scope], second_time),
    ensures
        ({
            let first = spec_token_call(tokens, scope, first_time, first_fresh);
            let second = spec_token_call(first.tokens, scope, second_time, second_fresh);
            &&& first.tokens.contains_key(scope)
            &&& first.token == first.tokens[scope].token@
            &&& second.token == first.token
            &&& second.requests == 0
            &&& second.tokens == first.tokens
        }),
{
}

/// Once the token held for a scope has expired, the next call for that
/// scope makes exactly one request and gets the new token, which is the one
/// held from then on.
pub proof fn law_expired_token_is_replaced(
    tokens: Map<TokenScope, TokenResponse>,
    scope: TokenScope,
    now: Timestamp,
    fresh: TokenResponse,
)
    requires
        tokens.contains_key(scope),
        !usable(tokens[scope], now),
    ensures
        ({
            let call = spec_token_call(tokens, scope, now, fresh);
            &&& call.requests == 1
            &&& call.token == fresh.token@
            &&& call.tokens == tokens.insert(scope, fresh)
            &&& call.tokens[scope] == fresh
        }),
{
}

/// Calls for a scope, however many, that all come while the token held for
/// it is valid change nothing of what is held: the expiry of that token
/// stays what it was.
pub proof fn law_calls_before_expiry_keep_the_store(
    tokens: Map<TokenScope, TokenResponse>,
    scope: TokenScope,
    times: Seq<Timestamp>,
    fresh: spec_fn(int) -> TokenResponse,
)
    requires
        tokens.contains_key(scope),
        forall|i: int| 0 <= i < times.len() ==> usable(tokens[scope], #[trigger] times[i]),
    ensures
        spec_token_calls(tokens, scope, times, fresh) == tokens,
        spec_token_calls(tokens, scope, times, fresh)[scope].expires_on == tokens[scope].expires_on,
    decreases times.len(),
{
    if times.len() > 0 {
        law_calls_before_expiry_keep_the_store(tokens, scope, times.drop_last(), fresh);
    }
}

impl AzureClient {
    /// Who asks for tokens.
    pub closed spec fn spec_manager(&self) -> TokenManager {
        self.token_manager
    }

    /// The tokens held, by scope.
    pub closed spec fn spec_tokens(&self) -> Map<TokenScope, TokenResponse> {
        self.token_store@
    }

    /// The token that the client serves for `scope` at `now` without asking
    /// for a new one: the one it holds, where that one is still usable.
    pub open spec fn spec_cached(&self, scope: TokenScope, now: Timestamp) -> Option<Seq<char>> {
        spec_served(self.spec_tokens(), scope, now)
    }

    /// The client `client` of `directory` whose certificate has the SHA-1
    /// fingerprint `fingerprint`, with no token yet; nothing where
    /// `fingerprint` has not the length of such a digest.
    pub fn new(directory: AzureId, client: AzureId, fingerprint: Vec<u8>) -> (r: Option<
        AzureClient,
    >)
        ensures
            r is Some <==> fingerprint@.len() == crate::authentication::FINGERPRINT_LEN,
            r matches Some(c) ==> {
                &&& c.spec_manager().spec_directory() == directory@
                &&& c.spec_manager().spec_client() == client@
                &&& c.spec_manager().spec_fingerprint() == fingerprint@
                &&& c.spec_tokens() == Map::<TokenScope, TokenResponse>::empty()
            },
    {
        match TokenManager::new(directory, client, fingerprint) {
            Some(token_manager) => Some(
                AzureClient { token_manager, token_store: TokenStore::default() },
            ),
            None => None,
        }
    }

    /// Who asks for tokens.
    pub fn token_manager(&self) -> (manager: &TokenManager)
        ensures
            *manager == self.spec_manager(),
    {
        &self.token_manager
    }

    /// Decides how a token for `scope` is had at `now`: the token that is
    /// held is served while it has not expired; else a new one must be
    /// requested. The tokens held do not change.
    pub fn token(&self, scope: TokenScope, now: &Timestamp) -> (step: TokenStep)
        ensures
            match self.spec_cached(scope, *now) {
                Some(token) => step matches TokenStep::Cached(held) && held@ == token,
                None => step is Request,
            },
    {
        match self.token_store.token(scope, now) {
            Some(token) => TokenStep::Cached(token),
            None => TokenStep::Request,
        }
    }

    /// The request for a new token for `scope`, with the signed assertion
    /// `assertion`.
    pub fn token_request(&self, scope: TokenScope, assertion: &str) -> (request: Request)
        ensures
            request.method == Method::Post,
            request.uri@ == spec_token_endpoint(self.spec_manager().spec_directory()),
            request.headers@.len() == 1,
            request.headers@[0].name@ == "Content-Type"@,
            request.headers@[0].value@ == "application/x-www-form-urlencoded"@,
            request.body matches Some(bytes) && bytes@ == encode_utf8(
                spec_body(scope, self.spec_manager().spec_client(), assertion@),
            ),
    {
        self.token_manager.generate_auth_request(scope, assertion)
    }

    /// Keeps `fresh` as the token for `scope`, in the place of the one held
    /// for it, and hands its value back: the second half of a call for a
    /// token that had to make a request.
    pub fn store_token(&mut self, scope: TokenScope, fresh: TokenResponse) -> (token: String)
        ensures
            final(self).spec_manager() == old(self).spec_manager(),
            final(self).spec_tokens() == old(self).spec_tokens().insert(scope, fresh),
            token@ == fresh.token@,
    {
        let token = fresh.token.clone();
        self.token_store.insert_token(scope, fresh);
        token
    }

    /// Takes the answer `response` to the request for a token for `scope`,
    /// received at `now`. A token that was read takes the place of the one
    /// held for `scope` and is handed back; after a failure the tokens held
    /// are as before.
    pub fn accept_token(&mut self, scope: TokenScope, response: &Response, now: &Timestamp) -> (r:
        Result<String, SimpleError>)
        ensures
            final(self).spec_manager() == old(self).spec_manager(),
            match r {
                Ok(token) => exists|fresh: TokenResponse|
                    {
                        &&& spec_token_outcome(
                            *response,
                            *now,
                            json_document(response.body@),
                            Ok(fresh),
                        )
                        &&& final(self).spec_tokens() == old(self).spec_tokens().insert(
                            scope,
                            fresh,
                        )
                        &&& token@ == fresh.token@
                    },
                Err(e) => final(self).spec_tokens() == old(self).spec_tokens()
                    && spec_token_outcome(
                    *response,
                    *now,
                    json_document(response.body@),
                    Err(e),
                ),
            },
    {
        match read_token_response(response, now) {
            Ok(fresh) => Ok(self.store_token(scope, fresh)),
            Err(e) => Err(e),
        }
    }

    /// Puts `token` on `request` as its bearer token; an authorization that
    /// was there is overwritten.
    pub fn add_token_to_header(request: &mut Request, token: &str)
        ensures
            header_value(final(request).headers@, "Authorization"@) == Some(spec_bearer(token@)),
            count_name(final(request).headers@, "Authorization"@) == 1,
            final(request).headers@.drop_last() == crate::http::without_name(
                old(request).headers@,
                "Authorization"@,
            ),
            forall|other: Seq<char>|
                !same_name("Authorization"@, other) ==> #[trigger] header_value(
                    final(request).headers@,
                    other,
                ) == header_value(old(request).headers@, other),
            forall|other: Seq<char>|
                !same_name("Authorization"@, other) ==> #[trigger] count_name(
                    final(request).headers@,
                    other,
                ) == count_name(old(request).headers@, other),
            final(request).method == old(request).method,
            final(request).uri == old(request).uri,
            final(request).body == old(request).body,
    {
        let mut value = String::from_str("Bearer ");
        value.append(token);
        request.set_header("Authorization", value);
    }

    /// Tells a success from a failure: a response with a status from 200 to
    /// 299 is handed on as it is; any other becomes an error that carries the
    /// status and the whole body.
    pub fn check_response(response: Response) -> (r: Result<Response, SimpleError>)
        ensures
            spec_checked(response, r),
    {
        if response.is_success() {
            Ok(response)
        } else {
            Err(SimpleError::HttpStatus { status: response.status, body: response.body })
        }
    }
}

/// The header that tells the length of the body and the one that carries the
/// token are two headers.
proof fn lemma_length_and_authorization_differ()
    ensures
        !same_name("Authorization"@, "Content-Length"@),
        !same_name("Content-Length"@, "Authorization"@),
{
    reveal_strlit("Authorization");
    reveal_strlit("Content-Length");
    is_ascii_chars_encode_utf8("Authorization"@);
    is_ascii_chars_encode_utf8("Content-Length"@);
}

/// Makes `request` ready to be sent under `token`: where it holds its body,
/// it tells the length of the body; and it carries the token, in the place
/// of any authorization that was there. Every other header, the method, the
/// address and the body stay as they are.
pub fn authorize(request: &mut Request, token: &str)
    ensures
        final(request).method == old(request).method,
        final(request).uri == old(request).uri,
        final(request).body == old(request).body,
        header_value(final(request).headers@, "Authorization"@) == Some(spec_bearer(token@)),
        count_name(final(request).headers@, "Authorization"@) == 1,
        match old(request).body {
            Some(bytes) => header_value(final(request).headers@, "Content-Length"@) == Some(
                decimal(bytes@.len()),
            ) && count_name(final(request).headers@, "Content-Length"@) == 1,
            None => header_value(final(request).headers@, "Content-Length"@) == header_value(
                old(request).headers@,
                "Content-Length"@,
            ),
        },
        forall|other: Seq<char>|
            !same_name("Authorization"@, other) && !same_name("Content-Length"@, other)
                ==> #[trigger] header_value(final(request).headers@, other) == header_value(
                old(request).headers@,
                other,
            ),
{
    proof {
        lemma_length_and_authorization_differ();
    }
    add_content_length_to_header(request);
    AzureClient::add_token_to_header(request, token);
}

/// Where `request` holds its body, gives it the header that tells the
/// length of the body in bytes; else leaves it as it is.
pub fn add_content_length_to_header(request: &mut Request)
    ensures
        final(request).method == old(request).method,
        final(request).uri == old(request).uri,
        final(request).body == old(request).body,
        match old(request).body {
            Some(bytes) => {
                &&& header_value(final(request).headers@, "Content-Length"@) == Some(
                    decimal(bytes@.len()),
                )
                &&& count_name(final(request).headers@, "Content-Length"@) == 1
                &&& final(request).headers@.len() > 0
                &&& final(request).headers@.last().name@ == "Content-Length"@
                &&& final(request).headers@.drop_last() == crate::http::without_name(
                    old(request).headers@,
                    "Content-Length"@,
                )
            },
            None => final(request).headers == old(request).headers,
        },
        forall|other: Seq<char>|
            !same_name("Content-Length"@, other) ==> #[trigger] header_value(
                final(request).headers@,
                other,
            ) == header_value(old(request).headers@, other),
{
    match request.content_length() {
        Some(len) => {
            request.set_header("Content-Length", decimal_string(len as u64));
        },
        None => {},
    }
}

} // verus!
