use vstd::prelude::*;

use crate::agent;
use crate::registry::Registry;

verus! {

/// The label that a lookup failure gives for each capability kind.
pub open spec fn datasource_label() -> Seq<char> {
    "datasource"@
}

pub open spec fn agent_label() -> Seq<char> {
    "agent"@
}

pub open spec fn integration_label() -> Seq<char> {
    "integration"@
}

pub open spec fn llm_label() -> Seq<char> {
    "llm"@
}

/// Why a request to the application failed.
#[derive(Debug)]
pub enum Error {
    /// No component of the kind (first field) is declared under the name
    /// (second field).
    ResourceNotFound(String, String),
}

/// The text of the message that describes a missing resource.
pub open spec fn not_found_text(kind: Seq<char>, name: Seq<char>) -> Seq<char> {
    "The "@ + kind + " "@ + name + " does not exist in the configuration"@
}

impl Error {
    /// A lookup failure for `kind` under `name`.
    fn not_found(kind: &str, name: &str) -> (r: Error)
        ensures
            r matches Error::ResourceNotFound(k, n) && k@ == kind@ && n@ == name@,
    {
        Error::ResourceNotFound(kind.to_owned(), name.to_owned())
    }

    /// The human-readable description of the error.
    pub fn message(&self) -> (r: String)
        ensures
            self matches Error::ResourceNotFound(k, n) ==> r@ == not_found_text(k@, n@),
    {
        match self {
            Error::ResourceNotFound(kind, name) => {
                let mut text = "The ".to_owned();
                text.append(kind.as_str());
                text.append(" ");
                text.append(name.as_str());
                text.append(" does not exist in the configuration");
                text
            },
        }
    }
}

/// The application: one registry of named instances per capability kind,
/// built once from the configuration and read-only afterwards, together with
/// the document store and the conversation store that it owns.
///
/// `D`, `L` and `I` are the datasource, language-model and integration
/// instances; `S` the document store; `C` the conversation store as the
/// serving runtime shares it.
pub struct App<D, L, I, S, C> {
    pub document_store: S,
    pub conversation_store: C,
    pub datasources: Registry<D>,
    pub llms: Registry<L>,
    pub agents: Registry<agent::Config>,
    pub integrations: Registry<I>,
}

impl<D, L, I, S, C> App<D, L, I, S, C> {
    pub open spec fn well_formed(&self) -> bool {
        &&& self.datasources.well_formed()
        &&& self.llms.well_formed()
        &&& self.agents.well_formed()
        &&& self.integrations.well_formed()
    }

    pub open spec fn datasources(&self) -> Map<Seq<char>, D> {
        self.datasources.view()
    }

    pub open spec fn llms(&self) -> Map<Seq<char>, L> {
        self.llms.view()
    }

    pub open spec fn agents(&self) -> Map<Seq<char>, agent::Config> {
        self.agents.view()
    }

    pub open spec fn integrations(&self) -> Map<Seq<char>, I> {
        self.integrations.view()
    }

    /// An application with its two stores and no named component yet.
    pub fn new(document_store: S, conversation_store: C) -> (r: Self)
        ensures
            r.well_formed(),
            r.document_store == document_store,
            r.conversation_store == conversation_store,
            r.datasources() == Map::<Seq<char>, D>::empty(),
            r.llms() == Map::<Seq<char>, L>::empty(),
            r.agents() == Map::<Seq<char>, agent::Config>::empty(),
            r.integrations() == Map::<Seq<char>, I>::empty(),
    {
        App {
            document_store,
            conversation_store,
            datasources: Registry::new(),
            llms: Registry::new(),
            agents: Registry::new(),
            integrations: Registry::new(),
        }
    }

    /// The datasource declared under `name`.
    pub fn datasource(&self, name: &str) -> (r: Result<&D, Error>)
        requires
            self.well_formed(),
        ensures
            r is Ok <==> self.datasources().contains_key(name@),
            r matches Ok(v) ==> *v == self.datasources()[name@],
            r matches Err(e) ==> e matches Error::ResourceNotFound(k, n) && k@ == datasource_label()
                && n@ == name@,
    {
        match self.datasources.get(name) {
            Some(v) => Ok(v),
            None => {
                Err(Error::not_found("datasource", name))
            },
        }
    }

    /// The agent declared under `name`.
    pub fn agent(&self, name: &str) -> (r: Result<&agent::Config, Error>)
        requires
            self.well_formed(),
        ensures
            r is Ok <==> self.agents().contains_key(name@),
            r matches Ok(v) ==> *v == self.agents()[name@],
            r matches Err(e) ==> e matches Error::ResourceNotFound(k, n) && k@ == agent_label()
                && n@ == name@,
    {
        match self.agents.get(name) {
            Some(v) => Ok(v),
            None => {
                Err(Error::not_found("agent", name))
            },
        }
    }

    /// The integration declared under `name`.
    pub fn integration(&self, name: &str) -> (r: Result<&I, Error>)
        requires
            self.well_formed(),
        ensures
            r is Ok <==> self.integrations().contains_key(name@),
            r matches Ok(v) ==> *v == self.integrations()[name@],
            r matches Err(e) ==> e matches Error::ResourceNotFound(k, n) && k@ == integration_label()
                && n@ == name@,
    {
        match self.integrations.get(name) {
            Some(v) => Ok(v),
            None => {
                Err(Error::not_found("integration", name))
            },
        }
    }

    /// The language model declared under `name`.
    pub fn llm(&self, name: &str) -> (r: Result<&L, Error>)
        requires
            self.well_formed(),
        ensures
            r is Ok <==> self.llms().contains_key(name@),
            r matches Ok(v) ==> *v == self.llms()[name@],
            r matches Err(e) ==> e matches Error::ResourceNotFound(k, n) && k@ == llm_label()
                && n@ == name@,
    {
        match self.llms.get(name) {
            Some(v) => Ok(v),
            None => {
                Err(Error::not_found("llm", name))
            },
        }
    }

    /// The agent declared under `agent` and the language model that it
    /// names: the first step of answering a question, which changes nothing.
    pub fn resolve_agent(&self, agent: &str) -> (r: Result<(&agent::Config, &L), Error>)
        requires
            self.well_formed(),
        ensures
            r is Ok <==> self.agents().contains_key(agent@) && self.llms().contains_key(
                self.agents()[agent@].llm@,
            ),
            r matches Ok((a, l)) ==> *a == self.agents()[agent@] && *l == self.llms()[a.llm@],
            !self.agents().contains_key(agent@) ==> (r matches Err(Error::ResourceNotFound(k, n))
                && k@ == agent_label() && n@ == agent@),
            self.agents().contains_key(agent@) ==> (r matches Err(Error::ResourceNotFound(k, n))
                ==> k@ == llm_label() && n@ == self.agents()[agent@].llm@),
    {
        let config = self.agent(agent)?;
        let llm = self.llm(config.llm.as_str())?;
        Ok((config, llm))
    }

    /// Declares a datasource under `name`, replacing any earlier one.
    pub fn add_datasource(&mut self, name: &str, value: D)
        requires
            old(self).well_formed(),
        ensures
            final(self).well_formed(),
            final(self).datasources() == old(self).datasources().insert(name@, value),
            final(self).llms() == old(self).llms(),
            final(self).agents() == old(self).agents(),
            final(self).integrations() == old(self).integrations(),
    {
        self.datasources.insert(name, value);
    }

    /// Declares a language model under `name`, replacing any earlier one.
    pub fn add_llm(&mut self, name: &str, value: L)
        requires
            old(self).well_formed(),
        ensures
            final(self).well_formed(),
            final(self).llms() == old(self).llms().insert(name@, value),
            final(self).datasources() == old(self).datasources(),
            final(self).agents() == old(self).agents(),
            final(self).integrations() == old(self).integrations(),
    {
        self.llms.insert(name, value);
    }

    /// Declares an agent under `name`, replacing any earlier one.
    pub fn add_agent(&mut self, name: &str, value: agent::Config)
        requires
            old(self).well_formed(),
        ensures
            final(self).well_formed(),
            final(self).agents() == old(self).agents().insert(name@, value),
            final(self).datasources() == old(self).datasources(),
            final(self).llms() == old(self).llms(),
            final(self).integrations() == old(self).integrations(),
    {
        self.agents.insert(name, value);
    }

    /// Declares an integration under `name`, replacing any earlier one.
    pub fn add_integration(&mut self, name: &str, value: I)
        requires
            old(self).well_formed(),
        ensures
            final(self).well_formed(),
            final(self).integrations() == old(self).integrations().insert(name@, value),
            final(self).datasources() == old(self).datasources(),
            final(self).llms() == old(self).llms(),
            final(self).agents() == old(self).agents(),
    {
        self.integrations.insert(name, value);
    }
}

} // verus!
