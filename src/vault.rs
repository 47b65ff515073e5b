//! Talking to the secret store: the address of a secret, the token that
//! authenticates the request, and what an answer means.
use vstd::prelude::*;
use vstd::string::*;

use crate::error::ClientError;
use crate::json::{has_key, object_at, parse_object, rendered_at};
use crate::json::{is_object_text, object_field, object_keys, object_objects, object_rendered, parsed_object, Object};

verus! {

/// The product name sent as the user agent of each request.
pub const APP_NAME: &'static str = "vault_client";

/// Where the secret under `path` is read from a store at `endpoint`.
pub open spec fn secret_url_spec(endpoint: Seq<char>, path: Seq<char>) -> Seq<char> {
    endpoint + "/v1/"@ + path
}

/// The first dotfile found, in the order in which the directories were searched.
pub open spec fn first_found(dotfiles: Seq<Option<String>>) -> Option<String>
    decreases dotfiles.len(),
{
    if dotfiles.len() == 0 {
        None
    } else if dotfiles[0] is Some {
        dotfiles[0]
    } else {
        first_found(dotfiles.drop_first())
    }
}

/// The token a request carries: the environment's, when set and not empty, or
/// else the content of the first dotfile found.
pub open spec fn chosen_token(env_token: Option<String>, dotfiles: Seq<Option<String>>) -> Option<String> {
    if env_token is Some && env_token->0@.len() > 0 {
        env_token
    } else {
        first_found(dotfiles)
    }
}

/// What the store's answer `m` leads to: its errors, a `data` field that is no
/// object, or that `data` object.
pub open spec fn answer_verdict(m: Object, r: Result<Object, ClientError>) -> bool {
    if object_keys(m).contains("errors"@) {
        &&& r is Err
        &&& r->Err_0 is Upstream
        &&& r->Err_0->Upstream_0@ == object_rendered(m)["errors"@]
    } else if object_objects(m).contains("data"@) {
        r == Ok::<Object, ClientError>(object_field(m, "data"@))
    } else {
        r matches Err(ClientError::DataNotObject)
    }
}

/// A request for the secret under a path of the store.
#[derive(Debug, PartialEq, Eq)]
pub struct SecretRequest {
    pub url: String,
    pub user_agent: String,
    pub token: String,
}

/// The address of the secret under `path` in the store at `endpoint`.
pub fn secret_url(endpoint: &str, path: &str) -> (r: String)
    ensures
        r@ == secret_url_spec(endpoint@, path@),
{
    let mut s = String::from_str(endpoint);
    s.append("/v1/");
    s.append(path);
    s
}

/// The token from the environment (`env_token`) when it is set and not empty;
/// else the first of the dotfiles found (`None` where a directory holds none),
/// exactly as stored.
pub fn resolve_token(env_token: Option<String>, dotfiles: &Vec<Option<String>>) -> (r: Result<String, ClientError>)
    ensures
        chosen_token(env_token, dotfiles@) is Some ==> r == Ok::<String, ClientError>(chosen_token(env_token, dotfiles@)->0),
        chosen_token(env_token, dotfiles@) is None ==> r == Err::<String, ClientError>(ClientError::NoToken),
{
    let ghost chosen = chosen_token(env_token, dotfiles@);
    match &env_token {
        Some(t) => {
            if !t.as_str().is_empty() {
                return Ok(t.clone());
            }
        },
        None => {},
    }
    assert(chosen == first_found(dotfiles@));
    assert(dotfiles@.subrange(0, dotfiles@.len() as int) =~= dotfiles@);
    let mut i: usize = 0;
    while i < dotfiles.len()
        invariant
            0 <= i <= dotfiles@.len(),
            chosen == first_found(dotfiles@),
            chosen == chosen_token(env_token, dotfiles@),
            first_found(dotfiles@) == first_found(dotfiles@.subrange(i as int, dotfiles@.len() as int)),
        decreases dotfiles@.len() - i,
    {
        proof {
            assert(dotfiles@.subrange(i as int, dotfiles@.len() as int).drop_first()
                =~= dotfiles@.subrange(i as int + 1, dotfiles@.len() as int));
        }
        assert(dotfiles@.subrange(i as int, dotfiles@.len() as int)[0] == dotfiles@[i as int]);
        if let Some(t) = &dotfiles[i] {
            assert(first_found(dotfiles@.subrange(i as int, dotfiles@.len() as int)) == dotfiles@[i as int]);
            return Ok(t.clone());
        }
        i = i + 1;
    }
    proof {
        assert(dotfiles@.subrange(i as int, dotfiles@.len() as int).len() == 0);
    }
    Err(ClientError::NoToken)
}

/// The request for the secret under `path`: it needs the store's address and
/// a token.
pub fn secret_request(endpoint: Option<&str>, token: Result<String, ClientError>, path: &str) -> (r: Result<SecretRequest, ClientError>)
    ensures
        endpoint is None ==> r == Err::<SecretRequest, ClientError>(ClientError::MissingEndpoint),
        endpoint is Some && token is Err ==> r == Err::<SecretRequest, ClientError>(token->Err_0),
        endpoint is Some && token is Ok ==> {
            &&& r is Ok
            &&& r->Ok_0.url@ == secret_url_spec(endpoint->0@, path@)
            &&& r->Ok_0.user_agent@ == APP_NAME@
            &&& r->Ok_0.token == token->Ok_0
        },
{
    match endpoint {
        None => Err(ClientError::MissingEndpoint),
        Some(e) => match token {
            Err(err) => Err(err),
            Ok(t) => Ok(SecretRequest { url: secret_url(e, path), user_agent: String::from_str(APP_NAME), token: t }),
        },
    }
}

/// The `data` object of the store's answer `response`, unless the answer
/// reports errors or its `data` is no object.
pub fn secret_data(response: &Object) -> (r: Result<Object, ClientError>)
    ensures
        answer_verdict(*response, r),
{
    if has_key(response, "errors") {
        let e = rendered_at(response, "errors");
        match e {
            Some(e) => Err(ClientError::Upstream(e)),
            None => Err(ClientError::Upstream(String::new())),
        }
    } else {
        match object_at(response, "data") {
            Some(d) => Ok(d),
            None => Err(ClientError::DataNotObject),
        }
    }
}

/// The store's answer, given as its text `body`, as a JSON object.
pub fn parse_answer(body: &str) -> (r: Result<Object, ClientError>)
    ensures
        r is Ok <==> is_object_text(body@),
        r matches Ok(m) ==> parsed_object(body@) == Some(m),
        r is Err ==> r->Err_0 == ClientError::InvalidJson,
{
    match parse_object(body) {
        Err(_) => Err(ClientError::InvalidJson),
        Ok(m) => Ok(m),
    }
}

/// The `data` object of the store's answer, given as its text `body`.
pub fn read_secret_response(body: &str) -> (r: Result<Object, ClientError>)
    ensures
        !is_object_text(body@) ==> r matches Err(ClientError::InvalidJson),
        is_object_text(body@) ==> answer_verdict(parsed_object(body@)->0, r),
        r matches Ok(d) ==> d == object_field(parsed_object(body@)->0, "data"@),
{
    match parse_answer(body) {
        Err(e) => Err(e),
        Ok(m) => {
            secret_data(&m)
        },
    }
}

} // verus!
