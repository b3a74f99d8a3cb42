//! The interactive query page.

use async_graphql::http::GraphiQLSource;
use vstd::prelude::*;

verus! {

/// The one path of the service: the query page is served on it and queries
/// are posted to it.
pub const ENDPOINT: &'static str = "/";

/// The HTML document that `GraphiQLSource` renders for a given query
/// endpoint, with every other setting of the builder left at its default.
pub uninterp spec fn graphiql_document(endpoint: Seq<char>) -> Seq<char>;

/// Calls `async_graphql::http::GraphiQLSource::build`, sets `endpoint` on the
/// builder and calls `finish`.  Nothing of this is proved.  The contract
/// claims only that the document depends on the endpoint and on nothing
/// else: the builder renders a template that is compiled into the crate, and
/// no other field of the builder is set.
#[verifier::external_body]
fn render_graphiql(endpoint: &str) -> (page: String)
    ensures
        page@ == graphiql_document(endpoint@),
{
    GraphiQLSource::build().endpoint(endpoint).finish()
}

/// The interactive query page, set up to send its queries to [`ENDPOINT`].
pub fn graphiql() -> (page: String)
    ensures
        page@ == graphiql_document(ENDPOINT@),
{
    render_graphiql(ENDPOINT)
}

} // verus!
