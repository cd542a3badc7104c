use vstd::prelude::*;

verus! {

/// Why fetching from the API failed.
#[derive(Clone, Copy, Debug, PartialEq, Eq, Structural)]
pub enum ApiError {
    /// 401
    Unauthorized,
    /// 403
    Forbidden,
    /// 404
    NotFound,
    /// 500
    InternalServerError,
    /// The body was no token.
    DeserializeError,
    /// Any other failure of the request.
    RequestError,
}

/// A token as the API hands it out.
#[derive(Clone, Debug)]
pub struct JwtToken {
    pub token: String,
}

/// Where the API lives.
pub const END_POINT: &'static str = "http://localhost:8080";

/// The path of the token endpoint.
pub const TOKEN_FETCH_PATH: &'static str = "/api/v1/token/fetch";

/// The URL that `path` resolves to against the base URL `base`, as
/// `url::Url::parse` followed by `Url::join` computes it, taken as text.
pub uninterp spec fn spec_url_join(base: Seq<char>, path: Seq<char>) -> Option<Seq<char>>;

/// Parses `base` with `url::Url::parse`, resolves `path` against it with
/// `Url::join` and writes the result out. The contract names the result;
/// the rules of URL resolution are not restated here.
#[verifier::external_body]
fn url_join(base: &str, path: &str) -> (joined: Option<String>)
    ensures
        match joined {
            Some(s) => spec_url_join(base@, path@) == Some(s@),
            None => spec_url_join(base@, path@) is None,
        },
{
    match url::Url::parse(base) {
        Ok(u) => match u.join(path) {
            Ok(j) => Some(j.to_string()),
            Err(_) => None,
        },
        Err(_) => None,
    }
}

/// The API URL of `path`. A path that does not resolve against the end
/// point is no valid input.
pub fn build_api_url(path: &str) -> (url: String)
    requires
        spec_url_join(END_POINT@, path@) is Some,
    ensures
        spec_url_join(END_POINT@, path@) == Some(url@),
{
    match url_join(END_POINT, path) {
        Some(u) => u,
        None => String::new(),
    }
}

/// The URL of the token endpoint, when it resolves against the end point.
pub fn token_fetch_url() -> (url: Option<String>)
    ensures
        match url {
            Some(u) => spec_url_join(END_POINT@, TOKEN_FETCH_PATH@) == Some(u@),
            None => spec_url_join(END_POINT@, TOKEN_FETCH_PATH@) is None,
        },
{
    match url_join(END_POINT, TOKEN_FETCH_PATH) {
        Some(_) => Some(build_api_url(TOKEN_FETCH_PATH)),
        None => None,
    }
}

/// What a response of the token endpoint amounts to.
pub open spec fn spec_token_fetch_result(received: bool, status: u16, token: Option<JwtToken>) -> Result<
    JwtToken,
    ApiError,
> {
    if !received {
        Err(ApiError::RequestError)
    } else if 200 <= status < 300 {
        match token {
            Some(t) => Ok(t),
            None => Err(ApiError::DeserializeError),
        }
    } else if status == 401 {
        Err(ApiError::Unauthorized)
    } else if status == 403 {
        Err(ApiError::Forbidden)
    } else if status == 404 {
        Err(ApiError::NotFound)
    } else if status == 500 {
        Err(ApiError::InternalServerError)
    } else {
        Err(ApiError::RequestError)
    }
}

/// Reads a response of the token endpoint: whether a body was received, the
/// status, and the token that the body holds, if it holds one.
pub fn token_fetch_result(received: bool, status: u16, token: Option<JwtToken>) -> (result: Result<
    JwtToken,
    ApiError,
>)
    ensures
        result == spec_token_fetch_result(received, status, token),
{
    if !received {
        return Err(ApiError::RequestError);
    }
    if 200 <= status && status < 300 {
        match token {
            Some(t) => Ok(t),
            None => Err(ApiError::DeserializeError),
        }
    } else {
        match status {
            401 => Err(ApiError::Unauthorized),
            403 => Err(ApiError::Forbidden),
            404 => Err(ApiError::NotFound),
            500 => Err(ApiError::InternalServerError),
            _ => Err(ApiError::RequestError),
        }
    }
}

} // verus!
