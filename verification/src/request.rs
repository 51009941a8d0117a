//! What a request's query string asks for: the addresses of pictures, listed
//! under the parameter `image_url`.

use crate::fetch::FetchRequest;
use vstd::prelude::*;
use vstd::string::StringExecFns;

verus! {

/// What `serde_qs` makes of a query string read as a map from names to lists of
/// strings: nothing, where it rejects the query; else the names in ascending
/// order, each with its list.
pub uninterp spec fn query_parameters(query: Seq<char>) -> Option<
    Seq<(Seq<char>, Seq<Seq<char>>)>,
>;

/// Calls `serde_qs::from_str` for a `BTreeMap<String, Vec<String>>` and lists
/// the map's entries in the map's own order.
///
/// Believed: the outcome depends on `query` alone. Nothing is claimed of which
/// queries are accepted, nor of what is found in them.
#[verifier::external_body]
pub(crate) fn parse_query(query: &str) -> (out: Option<Vec<(String, Vec<String>)>>)
    ensures
        out.deep_view() == query_parameters(query@),
{
    match serde_qs::from_str::<std::collections::BTreeMap<String, Vec<String>>>(query) {
        Ok(parameters) => Some(parameters.into_iter().collect()),
        Err(_) => None,
    }
}

/// Why a request cannot be served as it stands.
#[derive(Clone, Copy, Debug, PartialEq, Eq, Structural)]
pub enum RequestError {
    /// The query string does not parse.
    BadQuery,
    /// The query names no picture: it has no `image_url` parameter, or an empty
    /// one.
    NoImageUrl,
    /// The address of a picture cannot be written into a query string.
    BadImageUrl,
}

/// The name of the parameter that carries the pictures' addresses.
pub open spec fn image_url_name() -> Seq<char> {
    "image_url"@
}

/// The values of the first parameter called `name`, if there is one.
pub open spec fn values_of(
    parameters: Seq<(Seq<char>, Seq<Seq<char>>)>,
    name: Seq<char>,
) -> Option<Seq<Seq<char>>>
    decreases parameters.len(),
{
    if parameters.len() == 0 {
        None
    } else if parameters[0].0 == name {
        Some(parameters[0].1)
    } else {
        values_of(parameters.drop_first(), name)
    }
}

/// The addresses that a parsed query string lists under `image_url`.
pub open spec fn image_urls_of(parameters: Option<Seq<(Seq<char>, Seq<Seq<char>>)>>) -> Result<
    Seq<Seq<char>>,
    RequestError,
> {
    match parameters {
        None => Err(RequestError::BadQuery),
        Some(parameters) => match values_of(parameters, image_url_name()) {
            None => Err(RequestError::NoImageUrl),
            Some(urls) => Ok(urls),
        },
    }
}

/// The one address that a parsed query string asks for: the last of those it
/// lists under `image_url`.
pub open spec fn image_url_of(parameters: Option<Seq<(Seq<char>, Seq<Seq<char>>)>>) -> Result<
    Seq<char>,
    RequestError,
> {
    match image_urls_of(parameters) {
        Err(e) => Err(e),
        Ok(urls) => if urls.len() == 0 {
            Err(RequestError::NoImageUrl)
        } else {
            Ok(urls.last())
        },
    }
}

/// The address of the picture that the query string `query` asks for.
pub open spec fn requested_url(query: Seq<char>) -> Result<Seq<char>, RequestError> {
    image_url_of(query_parameters(query))
}

/// Finds the values of the first parameter called `name`.
pub fn find_values<'a>(parameters: &'a Vec<(String, Vec<String>)>, name: &str) -> (out: Option<
    &'a Vec<String>,
>)
    ensures
        out.deep_view() == values_of(parameters.deep_view(), name@),
{
    let wanted = String::from_str(name);
    let mut i: usize = 0;
    assert(parameters.deep_view().skip(0) == parameters.deep_view());
    while i < parameters.len()
        invariant
            i <= parameters.len(),
            wanted@ == name@,
            values_of(parameters.deep_view(), name@) == values_of(
                parameters.deep_view().skip(i as int),
                name@,
            ),
        decreases parameters.len() - i,
    {
        let ghost rest = parameters.deep_view().skip(i as int);
        assert(rest[0] == parameters[i as int].deep_view());
        assert(rest.drop_first() == parameters.deep_view().skip(i + 1));
        if parameters[i].0 == wanted {
            return Some(&parameters[i].1);
        }
        i = i + 1;
    }
    None
}

/// Picks the one address that a parsed query string asks for: the last of
/// those listed under `image_url`. Fails with `BadQuery` where the query did
/// not parse, and with `NoImageUrl` where it lists no address.
pub fn image_url_from_parameters(parameters: Option<Vec<(String, Vec<String>)>>) -> (out: Result<
    String,
    RequestError,
>)
    ensures
        match out {
            Ok(url) => image_url_of(parameters.deep_view()) == Ok::<Seq<char>, RequestError>(
                url@,
            ),
            Err(e) => image_url_of(parameters.deep_view()) == Err::<Seq<char>, RequestError>(e),
        },
{
    match parameters {
        None => Err(RequestError::BadQuery),
        Some(parameters) => match find_values(&parameters, "image_url") {
            None => Err(RequestError::NoImageUrl),
            Some(urls) => {
                if urls.len() == 0 {
                    Err(RequestError::NoImageUrl)
                } else {
                    Ok(urls[urls.len() - 1].clone())
                }
            },
        },
    }
}

/// Reads out of a request's query string what is to be fetched: the address
/// under `image_url`, the last one if there are several. Fails with `BadQuery`
/// where the query string does not parse, and with `NoImageUrl` where it gives
/// no address.
pub fn fetch_request(query: &str) -> (out: Result<FetchRequest, RequestError>)
    ensures
        match out {
            Ok(request) => requested_url(query@) == Ok::<Seq<char>, RequestError>(request.url@),
            Err(e) => requested_url(query@) == Err::<Seq<char>, RequestError>(e),
        },
{
    match image_url_from_parameters(parse_query(query)) {
        Ok(url) => Ok(FetchRequest { url }),
        Err(e) => Err(e),
    }
}

} // verus!
