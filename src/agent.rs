use vstd::prelude::*;

verus! {

/// An agent: the language model it talks to, by name, and its instruction
/// prompt.
#[derive(Debug)]
pub struct Config {
    pub llm: String,
    pub prompt: String,
}

impl Config {
    pub fn new(llm: &str, prompt: &str) -> (r: Config)
        ensures
            r.llm@ == llm@,
            r.prompt@ == prompt@,
    {
        Config { llm: llm.to_owned(), prompt: prompt.to_owned() }
    }
}

} // verus!
