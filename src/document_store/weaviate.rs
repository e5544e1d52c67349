use vstd::prelude::*;

verus! {

/// The class under which documents are kept in the vector store.
pub const CLASS_NAME: &'static str = "Document";

/// Why the vector-store backend failed; each carries the backend's own
/// description.
#[derive(Debug)]
pub enum Error {
    CreateClient(String),
    CreateDocument(String),
    UpdateDocument(String),
    QueryDocument(String),
}

pub open spec fn create_client_prefix() -> Seq<char> {
    "cannot create weaviate client: "@
}

pub open spec fn create_document_prefix() -> Seq<char> {
    "cannot create weaviate document: "@
}

pub open spec fn update_document_prefix() -> Seq<char> {
    "cannot update weaviate document: "@
}

pub open spec fn query_document_prefix() -> Seq<char> {
    "cannot query weaviate documents: "@
}

impl Error {
    /// The human-readable description of the error: a prefix naming the
    /// failed operation, then the backend's description.
    pub fn message(&self) -> (r: String)
        ensures
            self matches Error::CreateClient(d) ==> r@ == create_client_prefix() + d@,
            self matches Error::CreateDocument(d) ==> r@ == create_document_prefix() + d@,
            self matches Error::UpdateDocument(d) ==> r@ == update_document_prefix() + d@,
            self matches Error::QueryDocument(d) ==> r@ == query_document_prefix() + d@,
    {
        let (prefix, detail) = match self {
            Error::CreateClient(d) => ("cannot create weaviate client: ", d),
            Error::CreateDocument(d) => ("cannot create weaviate document: ", d),
            Error::UpdateDocument(d) => ("cannot update weaviate document: ", d),
            Error::QueryDocument(d) => ("cannot query weaviate documents: ", d),
        };
        let mut text = prefix.to_owned();
        text.append(detail.as_str());
        text
    }
}

/// How a document is written to the store.
#[derive(Clone, Copy, Debug, PartialEq, Eq, Structural)]
pub enum Upsert {
    Create,
    Update,
}

/// Conventional upsert: update the object at the document's content
/// address when the store reports one there, create it otherwise (also when
/// the existence check itself failed, `None`).
pub fn upsert_action(exists: Option<bool>) -> (r: Upsert)
    ensures
        r == (if exists == Some(true) {
            Upsert::Update
        } else {
            Upsert::Create
        }),
{
    match exists {
        Some(true) => Upsert::Update,
        _ => Upsert::Create,
    }
}

/// The result of a store call, with the backend's failure description
/// mapped to the error of the write that was attempted.
pub fn store_outcome(action: Upsert, outcome: Result<(), String>) -> (r: Result<(), Error>)
    ensures
        outcome is Ok <==> r is Ok,
        outcome matches Err(d) ==> (action == Upsert::Create ==> (r matches Err(
            Error::CreateDocument(e),
        ) && e == d)),
        outcome matches Err(d) ==> (action == Upsert::Update ==> (r matches Err(
            Error::UpdateDocument(e),
        ) && e == d)),
{
    match outcome {
        Ok(()) => Ok(()),
        Err(d) => match action {
            Upsert::Create => Err(Error::CreateDocument(d)),
            Upsert::Update => Err(Error::UpdateDocument(d)),
        },
    }
}

/// The near-text clause of a similarity query for `query`.
pub open spec fn near_text_spec(query: Seq<char>) -> Seq<char> {
    "{ concepts: [\""@ + query + "\"] }"@
}

pub fn near_text(query: &str) -> (r: String)
    ensures
        r@ == near_text_spec(query@),
{
    let mut text = "{ concepts: [\"".to_owned();
    text.append(query);
    text.append("\"] }");
    text
}

} // verus!
