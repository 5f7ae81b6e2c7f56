//! The page of the interactive query explorer.

use vstd::prelude::*;

verus! {

/// Where the explorer sends its queries.
pub const GRAPHQL_ENDPOINT: &'static str = "http://localhost:8080/graphql";

/// The page that juniper generates for an explorer that sends its queries
/// to `endpoint`.
pub uninterp spec fn graphiql_page(endpoint: Seq<char>) -> Seq<char>;

/// Calls `juniper::http::graphiql::graphiql_source`, which formats a fixed
/// page around the endpoint that it is given. Trusted: that the page depends
/// on the endpoint alone.
#[verifier::external_body]
fn graphiql_source(endpoint: &str) -> (page: String)
    ensures
        page@ == graphiql_page(endpoint@),
{
    juniper::http::graphiql::graphiql_source(endpoint)
}

/// The explorer's page, set to send its queries to [`GRAPHQL_ENDPOINT`].
pub fn explorer_page() -> (page: String)
    ensures
        page@ == graphiql_page(GRAPHQL_ENDPOINT@),
{
    graphiql_source(GRAPHQL_ENDPOINT)
}

} // verus!
