use vstd::prelude::*;

use crate::document::Document;

pub mod weaviate;

verus! {

/// The most documents that a similarity query hands back.
pub const QUERY_LIMIT: usize = 5;

/// Keeps the first `QUERY_LIMIT` documents of a ranked query result, in
/// their order.
pub fn cap_results(documents: Vec<Document>) -> (r: Vec<Document>)
    ensures
        documents@.len() <= QUERY_LIMIT ==> r@ == documents@,
        documents@.len() > QUERY_LIMIT ==> r@ == documents@.subrange(0, QUERY_LIMIT as int),
{
    let mut documents = documents;
    documents.truncate(QUERY_LIMIT);
    documents
}

} // verus!
