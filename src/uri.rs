//! Rebuilding a request URI from its parts, with the query rewritten.
use vstd::prelude::*;
use crate::operation::Mode;
use crate::query::{modified_path_and_query, stripped_query};

verus! {

#[verifier::external_type_specification]
#[verifier::external_body]
pub struct ExHttpError(http::Error);

/// Whether `http` accepts a URI assembled from these scheme, authority and
/// path-and-query texts.
pub uninterp spec fn uri_builds(
    scheme: Seq<char>,
    authority: Seq<char>,
    path_and_query: Seq<char>,
) -> bool;

/// The text of the URI that `http` assembles from these scheme, authority
/// and path-and-query texts.
pub uninterp spec fn built_uri_text(
    scheme: Seq<char>,
    authority: Seq<char>,
    path_and_query: Seq<char>,
) -> Seq<char>;

/// Assembles a URI from its three texts and returns its text.
/// Relies on `http::uri::Builder`: `build` succeeds exactly when each text
/// parses as its part and the parts form a URI, and the URI it builds, as
/// written by `http::Uri`'s `Display`, depends on the texts alone.
#[verifier::external_body]
fn build_uri(scheme: &str, authority: &str, path_and_query: &str) -> (r: Result<
    String,
    http::Error,
>)
    ensures
        r is Ok <==> uri_builds(scheme@, authority@, path_and_query@),
        r matches Ok(t) ==> t@ == built_uri_text(scheme@, authority@, path_and_query@),
{
    http::Uri::builder().scheme(scheme).authority(authority).path_and_query(
        path_and_query,
    ).build().map(|u| u.to_string())
}

/// The parts of a request URI that the rewrite reads.
pub struct UriParts {
    pub scheme: String,
    pub authority: String,
    pub path: String,
    pub query: Option<String>,
}

/// Why a URI could not be rewritten.
#[derive(Debug)]
pub enum RewriteError {
    /// The URI has no query to rewrite.
    MissingQuery,
    /// The rewritten parts do not form a URI.
    Invalid(http::Error),
}

/// The path-and-query text of the rewritten URI: the path, `?`, and the query
/// without its `x-id` components.
pub open spec fn rewritten_path_and_query(path: Seq<char>, query: Seq<char>) -> Seq<char> {
    path + seq!['?'] + stripped_query(query)
}

/// Rebuilds a URI from the same scheme and authority, its path, and its query
/// with every component that starts with `x-id` dropped, and returns its text.
pub fn rewrite_uri(parts: &UriParts) -> (r: Result<String, RewriteError>)
    ensures
        parts.query is None ==> r matches Err(RewriteError::MissingQuery),
        parts.query is Some ==> (r is Ok <==> uri_builds(
            parts.scheme@,
            parts.authority@,
            rewritten_path_and_query(parts.path@, parts.query->0@),
        )),
        parts.query is Some ==> (r is Err ==> r matches Err(RewriteError::Invalid(_))),
        parts.query is Some ==> (r matches Ok(t) ==> t@ == built_uri_text(
            parts.scheme@,
            parts.authority@,
            rewritten_path_and_query(parts.path@, parts.query->0@),
        )),
{
    match &parts.query {
        None => Err(RewriteError::MissingQuery),
        Some(query) => {
            let path_and_query = modified_path_and_query(parts.path.as_str(), query.as_str());
            match build_uri(parts.scheme.as_str(), parts.authority.as_str(), path_and_query.as_str()) {
                Ok(uri) => Ok(uri),
                Err(e) => Err(RewriteError::Invalid(e)),
            }
        },
    }
}

/// The URI text to send for `mode`: `None` in standard mode, where the
/// request goes out as the client built it; the rewritten URI in modified
/// mode.
pub fn uri_for_mode(mode: Mode, parts: &UriParts) -> (r: Result<Option<String>, RewriteError>)
    ensures
        mode == Mode::Standard ==> r matches Ok(None),
        mode == Mode::Modified ==> (parts.query is None ==> r matches Err(
            RewriteError::MissingQuery,
        )),
        mode == Mode::Modified && parts.query is Some ==> (r matches Ok(Some(_)) <==> uri_builds(
            parts.scheme@,
            parts.authority@,
            rewritten_path_and_query(parts.path@, parts.query->0@),
        )),
        mode == Mode::Modified && parts.query is Some ==> (r is Err ==> r matches Err(
            RewriteError::Invalid(_),
        )),
        mode == Mode::Modified && parts.query is Some ==> (r matches Ok(Some(t)) ==> t@
            == built_uri_text(
            parts.scheme@,
            parts.authority@,
            rewritten_path_and_query(parts.path@, parts.query->0@),
        )),
{
    match mode {
        Mode::Standard => Ok(None),
        Mode::Modified => match rewrite_uri(parts) {
            Ok(uri) => Ok(Some(uri)),
            Err(e) => Err(e),
        },
    }
}

} // verus!
