//! The one REST call made with an endpoint and an API key read from the
//! secret store.
use vstd::prelude::*;
use vstd::string::*;

use crate::error::ClientError;
use crate::json::string_at;
use crate::json::{object_keys, object_strings, Object};

verus! {

/// The methods a REST call can use.
#[derive(Debug, Clone, Copy, PartialEq, Eq, Structural)]
pub enum HttpMethod {
    Get,
    Post,
    Head,
}

/// A REST call, ready to be sent.
#[derive(Debug)]
pub struct RestRequest {
    pub method: HttpMethod,
    pub url: String,
    /// The value of the `X-API-Key` header.
    pub api_key: String,
    pub body: Option<String>,
}

/// The address of `rest_path` under the endpoint `url`.
pub open spec fn rest_url_spec(url: Seq<char>, rest_path: Seq<char>) -> Seq<char> {
    url + "/"@ + rest_path
}

/// The method of a call: the one asked for, else `POST` when a body or a body
/// file was given, else `GET`.
pub open spec fn method_spec(explicit: Option<HttpMethod>, has_body: bool, has_body_file: bool) -> HttpMethod {
    match explicit {
        Some(m) => m,
        None => if has_body || has_body_file {
            HttpMethod::Post
        } else {
            HttpMethod::Get
        },
    }
}

/// The body of a call: the file's contents where a body file was given, else
/// the literal body.
pub open spec fn body_spec(body: Option<String>, body_file: Option<String>) -> Option<String> {
    if body_file is Some {
        body_file
    } else {
        body
    }
}

/// The method of a call: the one asked for, else `POST` when a body or a body
/// file was given, else `GET`.
pub fn get_http_method(explicit: Option<HttpMethod>, has_body: bool, has_body_file: bool) -> (r: HttpMethod)
    ensures
        r == method_spec(explicit, has_body, has_body_file),
{
    match explicit {
        Some(m) => m,
        None => if has_body || has_body_file {
            HttpMethod::Post
        } else {
            HttpMethod::Get
        },
    }
}

/// The body of a call: the contents of the body file where one was given
/// (it wins over a literal body), else the literal body, else none.
pub fn get_body(body: Option<String>, body_file: Option<String>) -> (r: Option<String>)
    ensures
        r == body_spec(body, body_file),
{
    match body_file {
        Some(contents) => Some(contents),
        None => body,
    }
}

/// The address of `rest_path` under the endpoint stored as `url` in `data`.
pub fn get_api_endpoint(data: &Object, rest_path: &str) -> (r: Result<String, ClientError>)
    ensures
        object_strings(*data).contains_key("url"@) ==> r is Ok
            && r->Ok_0@ == rest_url_spec(object_strings(*data)["url"@], rest_path@),
        !object_strings(*data).contains_key("url"@) ==> (r matches Err(ClientError::NotAString(k)) && k@ == "url"@),
{
    match string_at(data, "url") {
        Some(url) => {
            let mut s = url;
            s.append("/");
            s.append(rest_path);
            Ok(s)
        },
        None => Err(ClientError::NotAString(String::from_str("url"))),
    }
}

/// The API key stored as `token` in `data`.
pub fn get_api_token(data: &Object) -> (r: Result<String, ClientError>)
    ensures
        object_strings(*data).contains_key("token"@) ==> r is Ok
            && r->Ok_0@ == object_strings(*data)["token"@],
        !object_strings(*data).contains_key("token"@) ==> (r matches Err(ClientError::NotAString(k)) && k@ == "token"@),
{
    match string_at(data, "token") {
        Some(t) => Ok(t),
        None => Err(ClientError::NotAString(String::from_str("token"))),
    }
}

/// The call to `rest_path` that `data` (the secret under the path given to
/// the store) allows, with the method and body asked for.
pub fn rest_request(
    data: &Object,
    rest_path: &str,
    explicit: Option<HttpMethod>,
    body: Option<String>,
    body_file: Option<String>,
) -> (r: Result<RestRequest, ClientError>)
    ensures
        r is Ok <==> object_strings(*data).contains_key("url"@) && object_strings(*data).contains_key("token"@),
        r matches Ok(q) ==> {
            &&& q.method == method_spec(explicit, body is Some, body_file is Some)
            &&& q.url@ == rest_url_spec(object_strings(*data)["url"@], rest_path@)
            &&& q.api_key@ == object_strings(*data)["token"@]
            &&& q.body == body_spec(body, body_file)
        },
        r matches Err(ClientError::NotAString(k)) ==> k@ == "url"@ || k@ == "token"@,
        r is Err ==> r->Err_0 is NotAString,
{
    let url = match get_api_endpoint(data, rest_path) {
        Ok(u) => u,
        Err(e) => return Err(e),
    };
    let api_key = match get_api_token(data) {
        Ok(t) => t,
        Err(e) => return Err(e),
    };
    let method = get_http_method(explicit, body.is_some(), body_file.is_some());
    let body = get_body(body, body_file);
    Ok(RestRequest { method, url, api_key, body })
}

} // verus!
