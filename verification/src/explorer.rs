//! The interactive exploration page.

use crate::config::{QUERY_PATH, SUBSCRIPTION_PATH};
use vstd::prelude::*;

verus! {

/// The GraphiQL document that `async_graphql` renders for a query endpoint
/// and a subscription endpoint, with every other option of its builder left
/// at its default. The document is a fixed template filled in with the two
/// endpoints, so it depends on them alone.
pub uninterp spec fn graphiql_document(
    endpoint: Seq<char>,
    subscription_endpoint: Seq<char>,
) -> Seq<char>;

/// Calls `async_graphql::http::GraphiQLSource`: `build`, then `endpoint` and
/// `subscription_endpoint` with the two arguments, then `finish`. Nothing is
/// claimed of the page but that it is the document which that builder renders
/// for these two endpoints.
#[verifier::external_body]
fn render_graphiql(endpoint: &str, subscription_endpoint: &str) -> (page: String)
    ensures
        page@ == graphiql_document(endpoint@, subscription_endpoint@),
{
    async_graphql::http::GraphiQLSource::build()
        .endpoint(endpoint)
        .subscription_endpoint(subscription_endpoint)
        .finish()
}

/// The HTML of the exploration page: the GraphiQL document that queries
/// [`QUERY_PATH`] and subscribes at [`SUBSCRIPTION_PATH`].
pub fn graphiql() -> (page: String)
    ensures
        page@ == graphiql_document(QUERY_PATH@, SUBSCRIPTION_PATH@),
{
    render_graphiql(QUERY_PATH, SUBSCRIPTION_PATH)
}

} // verus!
