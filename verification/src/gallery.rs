//! The gallery page: one `<img>` tag for each picture that a query string
//! lists, each pointing back at the proxy.

use crate::request::{
    find_values, image_url_name, image_urls_of, parse_query, query_parameters, RequestError,
};
use crate::service::Mode;
use vstd::prelude::*;
use vstd::string::StringExecFns;

verus! {

/// The query string that `serde_qs` writes for the single parameter `name` with
/// the value `value`, percent-encoded as it sees fit; nothing, where it
/// refuses.
pub uninterp spec fn query_of(name: Seq<char>, value: Seq<char>) -> Option<Seq<char>>;

/// Calls `serde_qs::to_string` on a map with the one entry `name`, `value`.
///
/// Believed: the outcome depends on `name` and `value` alone. Nothing is
/// claimed of what the query string looks like.
#[verifier::external_body]
pub(crate) fn write_query(name: &str, value: &str) -> (out: Option<String>)
    ensures
        out.deep_view() == query_of(name@, value@),
{
    match serde_qs::to_string(&std::collections::BTreeMap::from([(name, value)])) {
        Ok(query) => Some(query),
        Err(_) => None,
    }
}

/// How a tag begins, up to the query string: the pictures of a gallery are
/// loaded in the mode of the gallery.
pub open spec fn tag_open(mode: Mode) -> Seq<char> {
    match mode {
        Mode::Original => "<img style=\"margin: 5px;\" src=/image/load/original?"@,
        Mode::Preview => "<img style=\"margin: 5px;\" src=/image/load/preview?"@,
    }
}

/// How a tag ends.
pub open spec fn tag_close() -> Seq<char> {
    ">"@
}

/// The tag for the picture whose address the query string `query` carries.
pub open spec fn tag(mode: Mode, query: Seq<char>) -> Seq<char> {
    tag_open(mode) + query + tag_close()
}

/// The tags for the pictures whose query strings are `queries`, one after the
/// other in their order; `BadImageUrl` if one of them is missing.
pub open spec fn tags_of(mode: Mode, queries: Seq<Option<Seq<char>>>) -> Result<
    Seq<char>,
    RequestError,
>
    decreases queries.len(),
{
    if queries.len() == 0 {
        Ok(Seq::empty())
    } else {
        match (tags_of(mode, queries.drop_last()), queries.last()) {
            (Ok(tags), Some(query)) => Ok(tags + tag(mode, query)),
            _ => Err(RequestError::BadImageUrl),
        }
    }
}

/// The query strings that hand the addresses `urls` back to the proxy, each
/// under `image_url`.
pub open spec fn queries_of(urls: Seq<Seq<char>>) -> Seq<Option<Seq<char>>> {
    urls.map_values(|url: Seq<char>| query_of(image_url_name(), url))
}

/// The tags for the pictures at `urls`, in their order; `BadImageUrl` if one of
/// the addresses cannot be written into a query string.
pub open spec fn markup(mode: Mode, urls: Seq<Seq<char>>) -> Result<Seq<char>, RequestError> {
    tags_of(mode, queries_of(urls))
}

/// The page for what a query string parsed to.
pub open spec fn page_of(
    mode: Mode,
    parameters: Option<Seq<(Seq<char>, Seq<Seq<char>>)>>,
) -> Result<Seq<char>, RequestError> {
    match image_urls_of(parameters) {
        Err(e) => Err(e),
        Ok(urls) => markup(mode, urls),
    }
}

/// The gallery page for a request's query string.
pub open spec fn page(mode: Mode, query: Seq<char>) -> Result<Seq<char>, RequestError> {
    page_of(mode, query_parameters(query))
}

/// Writes the tag for the picture whose address the query string `query`
/// carries.
pub fn image_tag(mode: Mode, query: &str) -> (out: String)
    ensures
        out@ == tag(mode, query@),
{
    let mut out = match mode {
        Mode::Original => String::from_str("<img style=\"margin: 5px;\" src=/image/load/original?"),
        Mode::Preview => String::from_str("<img style=\"margin: 5px;\" src=/image/load/preview?"),
    };
    out.append(query);
    out.append(">");
    out
}

/// Writes the tags for the pictures whose query strings are `queries`, in their
/// order. Fails with `BadImageUrl` where a query string is missing.
pub fn tags_from_queries(mode: Mode, queries: &Vec<Option<String>>) -> (out: Result<
    String,
    RequestError,
>)
    ensures
        match out {
            Ok(html) => tags_of(mode, queries.deep_view()) == Ok::<Seq<char>, RequestError>(html@),
            Err(e) => tags_of(mode, queries.deep_view()) == Err::<Seq<char>, RequestError>(e),
        },
{
    let mut html = String::new();
    let mut i: usize = 0;
    while i < queries.len()
        invariant
            i <= queries.len(),
            tags_of(mode, queries.deep_view().take(i as int)) == Ok::<Seq<char>, RequestError>(
                html@,
            ),
        decreases queries.len() - i,
    {
        let ghost through = queries.deep_view().take(i + 1);
        assert(through.drop_last() == queries.deep_view().take(i as int));
        assert(through.last() == queries[i as int].deep_view());
        match &queries[i] {
            Some(query) => {
                let tag = image_tag(mode, query.as_str());
                html.append(tag.as_str());
            },
            None => {
                proof {
                    lemma_tags_fail_on(mode, queries.deep_view(), i + 1);
                }
                return Err(RequestError::BadImageUrl);
            },
        }
        i = i + 1;
    }
    assert(queries.deep_view().take(i as int) == queries.deep_view());
    Ok(html)
}

/// Once the tags for the first `n` query strings cannot be written, neither can
/// those for all of them.
proof fn lemma_tags_fail_on(mode: Mode, queries: Seq<Option<Seq<char>>>, n: int)
    requires
        0 <= n <= queries.len(),
        tags_of(mode, queries.take(n)) is Err,
    ensures
        tags_of(mode, queries) == Err::<Seq<char>, RequestError>(RequestError::BadImageUrl),
    decreases queries.len() - n,
{
    if n == queries.len() {
        assert(queries.take(n) == queries);
    } else {
        assert(queries.take(n + 1).drop_last() == queries.take(n));
        lemma_tags_fail_on(mode, queries, n + 1);
    }
}

/// Writes the tags for the pictures at `urls`, in their order. Each tag loads
/// its picture from the proxy, in the mode of the gallery, with the address as
/// the `image_url` parameter.
pub fn gallery_markup(mode: Mode, urls: &Vec<String>) -> (out: Result<String, RequestError>)
    ensures
        match out {
            Ok(html) => markup(mode, urls.deep_view()) == Ok::<Seq<char>, RequestError>(html@),
            Err(e) => markup(mode, urls.deep_view()) == Err::<Seq<char>, RequestError>(e),
        },
{
    let mut queries: Vec<Option<String>> = Vec::new();
    let mut i: usize = 0;
    while i < urls.len()
        invariant
            i <= urls.len(),
            queries@.len() == i,
            queries.deep_view() == queries_of(urls.deep_view().take(i as int)),
        decreases urls.len() - i,
    {
        let ghost before = queries.deep_view();
        let query = write_query("image_url", urls[i].as_str());
        queries.push(query);
        i = i + 1;
        proof {
            let now = queries.deep_view();
            let through = urls.deep_view().take(i as int);
            assert(now.len() == i);
            assert forall|k: int| 0 <= k < i implies now[k] == #[trigger] queries_of(
                through,
            )[k] by {
                if k < i - 1 {
                    assert(now[k] == before[k]);
                    assert(through[k] == urls.deep_view().take(i - 1)[k]);
                } else {
                    assert(through[k] == urls[k]@);
                }
            }
            assert(now =~= queries_of(through));
        }
    }
    assert(urls.deep_view().take(i as int) == urls.deep_view());
    tags_from_queries(mode, &queries)
}

/// Turns what the query string parsed to into the gallery page.
pub fn page_from_parameters(mode: Mode, parameters: Option<Vec<(String, Vec<String>)>>) -> (out:
    Result<String, RequestError>)
    ensures
        match out {
            Ok(html) => page_of(mode, parameters.deep_view()) == Ok::<Seq<char>, RequestError>(
                html@,
            ),
            Err(e) => page_of(mode, parameters.deep_view()) == Err::<Seq<char>, RequestError>(e),
        },
{
    match parameters {
        None => Err(RequestError::BadQuery),
        Some(parameters) => match find_values(&parameters, "image_url") {
            None => Err(RequestError::NoImageUrl),
            Some(urls) => gallery_markup(mode, urls),
        },
    }
}

/// Makes the gallery page for a request's query string: one tag for each
/// address listed under `image_url`, in the order of the list.
///
/// Fails with `BadQuery` where the query string does not parse, with
/// `NoImageUrl` where it has no `image_url` parameter, and with `BadImageUrl`
/// where an address cannot be written into a query string.
pub fn show(mode: Mode, query: &str) -> (out: Result<String, RequestError>)
    ensures
        match out {
            Ok(html) => page(mode, query@) == Ok::<Seq<char>, RequestError>(html@),
            Err(e) => page(mode, query@) == Err::<Seq<char>, RequestError>(e),
        },
{
    page_from_parameters(mode, parse_query(query))
}

} // verus!
