//! What the requests to the service are made of: paths, the authorization
//! header, and the queries of the list commands.

use vstd::prelude::*;
use vstd::string::StringExecFns;
use crate::text::{chars_of, decimal, decimal_string, joined, run_len, scan, string_of, CharClass};

verus! {

/// `path` without the slashes at its start, so that it is resolved below
/// the base address.
pub open spec fn relative_path_text(path: Seq<char>) -> Seq<char> {
    path.skip(run_len(path, CharClass::Only('/')) as int)
}

/// The value of the authorization header for `token`.
pub open spec fn bearer_text(token: Seq<char>) -> Seq<char> {
    "Bearer "@ + token
}

/// The pair for the filter `name`, where it is given.
pub open spec fn filter_param(name: Seq<char>, value: Option<Seq<char>>) -> Seq<
    (Seq<char>, Seq<char>),
> {
    match value {
        Some(v) => seq![(name, v)],
        None => Seq::empty(),
    }
}

/// The query that lists memories.
pub open spec fn memories_query_params(
    limit: u32,
    project_id: Option<Seq<char>>,
    category: Option<Seq<char>>,
    q: Option<Seq<char>>,
    tag: Option<Seq<char>>,
) -> Seq<(Seq<char>, Seq<char>)> {
    seq![("limit"@, decimal(limit as nat))] + filter_param("project_id"@, project_id)
        + filter_param("category"@, category) + filter_param("q"@, q) + filter_param("tag"@, tag)
}

/// The query that lists assets.
pub open spec fn assets_query_params(
    limit: u32,
    project_id: Option<Seq<char>>,
    memory_id: Option<Seq<char>>,
    status: Option<Seq<char>>,
) -> Seq<(Seq<char>, Seq<char>)> {
    seq![("limit"@, decimal(limit as nat))] + filter_param("project_id"@, project_id)
        + filter_param("memory_id"@, memory_id) + filter_param("status"@, status)
}

/// `path` without the slashes at its start.
pub fn relative_path(path: &str) -> (out: String)
    ensures
        out@ == relative_path_text(path@),
{
    let cs = chars_of(path);
    let from: usize = scan(&cs, 0, cs.len(), CharClass::Only('/'));
    proof {
        assert(cs@.subrange(0, cs.len() as int) == cs@);
        assert(cs@.subrange(from as int, cs.len() as int) == cs@.skip(from as int));
    }
    string_of(&cs, from, cs.len())
}

/// The value of the authorization header for `token`.
pub fn bearer_header(token: &str) -> (out: String)
    ensures
        out@ == bearer_text(token@),
{
    joined("Bearer ", token)
}

/// Adds the pair for the filter `name` to `query`, where it is given.
fn push_filter(query: &mut Vec<(String, String)>, name: &str, value: Option<String>)
    ensures
        final(query).deep_view() == old(query).deep_view() + filter_param(name@, value.deep_view()),
{
    let ghost before = query.deep_view();
    if let Some(v) = value {
        query.push((String::from_str(name), v));
        proof {
            assert(query.deep_view() =~= before + seq![(name@, v@)]);
        }
    } else {
        proof {
            assert(query.deep_view() =~= before + Seq::empty());
        }
    }
}

/// The query that lists memories: the limit, then each filter that is
/// given.
pub fn memories_query(
    limit: u32,
    project_id: Option<String>,
    category: Option<String>,
    q: Option<String>,
    tag: Option<String>,
) -> (query: Vec<(String, String)>)
    ensures
        query.deep_view() == memories_query_params(
            limit,
            project_id.deep_view(),
            category.deep_view(),
            q.deep_view(),
            tag.deep_view(),
        ),
{
    let mut query: Vec<(String, String)> = Vec::new();
    query.push((String::from_str("limit"), decimal_string(limit as u64)));
    proof {
        assert(query.deep_view() =~= seq![("limit"@, decimal(limit as nat))]);
    }
    push_filter(&mut query, "project_id", project_id);
    push_filter(&mut query, "category", category);
    push_filter(&mut query, "q", q);
    push_filter(&mut query, "tag", tag);
    query
}

/// The query that lists assets: the limit, then each filter that is given.
pub fn assets_query(
    limit: u32,
    project_id: Option<String>,
    memory_id: Option<String>,
    status: Option<String>,
) -> (query: Vec<(String, String)>)
    ensures
        query.deep_view() == assets_query_params(
            limit,
            project_id.deep_view(),
            memory_id.deep_view(),
            status.deep_view(),
        ),
{
    let mut query: Vec<(String, String)> = Vec::new();
    query.push((String::from_str("limit"), decimal_string(limit as u64)));
    proof {
        assert(query.deep_view() =~= seq![("limit"@, decimal(limit as nat))]);
    }
    push_filter(&mut query, "project_id", project_id);
    push_filter(&mut query, "memory_id", memory_id);
    push_filter(&mut query, "status", status);
    query
}

} // verus!
