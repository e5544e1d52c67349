use vstd::prelude::*;

verus! {

/// The one command that an integration recognizes.
pub const ASK_COMMAND: &'static str = "/ask";

/// The port an integration listens on when its configuration names none.
pub const DEFAULT_PORT: u16 = 8080;

/// The provisional reply to a command, sent before the answer is ready.
pub const ACKNOWLEDGMENT: &'static str = "Loading...";

/// What to do with an inbound command.
#[derive(Debug)]
pub enum Dispatch {
    /// Answer `query` in the conversation `conversation_id`, in the
    /// background, and deliver the answer to the command's reply address.
    Ask { conversation_id: String, query: String },
    /// Not a recognized command: log it and do nothing else.
    Ignore,
}

/// Decides what an inbound command leads to. The ask command, with its free
/// text (empty when absent), is answered in the conversation of the channel
/// it came from; any other command is ignored.
pub fn dispatch(command: &str, text: Option<String>, channel: &str) -> (r: Dispatch)
    ensures
        command@ == ASK_COMMAND@ ==> (r matches Dispatch::Ask { conversation_id, query }
            && conversation_id@ == channel@ && query@ == (match text {
            Some(t) => t@,
            None => Seq::<char>::empty(),
        })),
        command@ != ASK_COMMAND@ ==> r is Ignore,
{
    if command.to_owned() == ASK_COMMAND.to_owned() {
        let query = match text {
            Some(t) => t,
            None => String::new(),
        };
        Dispatch::Ask { conversation_id: channel.to_owned(), query }
    } else {
        Dispatch::Ignore
    }
}

/// The port an integration listens on.
pub fn listen_port(port: Option<u16>) -> (r: u16)
    ensures
        r == (match port {
            Some(p) => p,
            None => DEFAULT_PORT,
        }),
{
    match port {
        Some(p) => p,
        None => DEFAULT_PORT,
    }
}

} // verus!
