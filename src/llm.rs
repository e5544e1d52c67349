use vstd::prelude::*;

verus! {

/// Why a language model produced no answer.
#[derive(Debug)]
pub enum Error {
    /// The backend request failed; its description.
    Request(String),
    /// The backend answered, but with no usable completion.
    NoCompletion,
}

pub open spec fn no_completion_text() -> Seq<char> {
    "no completion produced"@
}

impl Error {
    /// The human-readable description of the error.
    pub fn message(&self) -> (r: String)
        ensures
            self matches Error::Request(d) ==> r@ == d@,
            self is NoCompletion ==> r@ == no_completion_text(),
    {
        match self {
            Error::Request(d) => d.clone(),
            Error::NoCompletion => "no completion produced".to_owned(),
        }
    }
}

/// The answer taken from a chat completion: the content of its first
/// choice. No choice, or a first choice without content, is
/// `Error::NoCompletion`.
pub fn first_completion(choices: Vec<Option<String>>) -> (r: Result<String, Error>)
    ensures
        r is Ok <==> choices@.len() > 0 && choices@[0] is Some,
        r matches Ok(s) ==> choices@[0] == Some(s),
        r is Err ==> r matches Err(Error::NoCompletion),
{
    let mut choices = choices;
    if choices.len() == 0 {
        return Err(Error::NoCompletion);
    }
    match choices.swap_remove(0) {
        Some(content) => Ok(content),
        None => Err(Error::NoCompletion),
    }
}

} // verus!
