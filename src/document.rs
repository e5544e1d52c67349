use vstd::prelude::*;

verus! {

/// The 16 bytes of the name-based UUID (version 5, OID namespace) of the
/// UTF-8 text `name`.
pub uninterp spec fn oid_uuid_v5(name: Seq<char>) -> Seq<u8>;

/// Relies on `uuid::Uuid::new_v5` with `Uuid::NAMESPACE_OID`: a SHA-1
/// name-based UUID of the bytes of `name`, which depends on them alone.
#[verifier::external_body]
fn oid_uuid_v5_of(name: &str) -> (r: [u8; 16])
    ensures
        r@ == oid_uuid_v5(name@),
{
    *uuid::Uuid::new_v5(&uuid::Uuid::NAMESPACE_OID, name.as_bytes()).as_bytes()
}

/// A document produced by a datasource. `id` is the id that the datasource
/// gave it, unique within that datasource.
#[derive(Debug)]
pub struct Document {
    pub id: String,
    pub name: String,
    pub content: String,
    pub url: Option<String>,
}

/// The content address under which a document is stored: a stable UUID of
/// its external id, so that synchronizing the same item again updates it.
pub open spec fn content_address(id: Seq<char>) -> Seq<u8> {
    oid_uuid_v5(id)
}

impl Document {
    pub fn new(id: &str, name: &str, content: &str, url: Option<String>) -> (r: Document)
        ensures
            r.id@ == id@,
            r.name@ == name@,
            r.content@ == content@,
            r.url == url,
    {
        Document { id: id.to_owned(), name: name.to_owned(), content: content.to_owned(), url }
    }

    /// The content address of this document.
    pub fn uuid(&self) -> (r: [u8; 16])
        ensures
            r@ == content_address(self.id@),
    {
        oid_uuid_v5_of(self.id.as_str())
    }

    /// A copy of this document.
    pub fn duplicate(&self) -> (r: Document)
        ensures
            r.id@ == self.id@,
            r.name@ == self.name@,
            r.content@ == self.content@,
            r.url == self.url,
    {
        let url = match &self.url {
            Some(u) => Some(u.clone()),
            None => None,
        };
        Document { id: self.id.clone(), name: self.name.clone(), content: self.content.clone(), url }
    }
}

/// The content address depends on the external id alone: two documents
/// with the same external id get the same address, whatever else differs.
pub proof fn lemma_address_deterministic(a: &Document, b: &Document)
    requires
        a.id@ == b.id@,
    ensures
        content_address(a.id@) == content_address(b.id@),
{
}

} // verus!
