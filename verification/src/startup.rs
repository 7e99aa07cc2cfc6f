//! What to tell the person who started the server when it cannot serve.
use vstd::prelude::*;
use crate::text::{contains, has_substring};

verus! {

/// Whether one of `messages` holds `needle`.
pub open spec fn chain_holds(messages: Seq<String>, needle: Seq<char>) -> bool {
    exists|i: int| 0 <= i < messages.len() && has_substring(#[trigger] messages[i]@, needle)
}

/// Whether an error or one of its causes speaks of `needle`. `chain` holds
/// the message of the error and of each of its causes, the outermost first.
pub fn error_chain_contains(chain: &Vec<String>, needle: &str) -> (found: bool)
    ensures
        found == chain_holds(chain@, needle@),
{
    let mut i: usize = 0;
    while i < chain.len()
        invariant
            i <= chain.len(),
            forall|k: int| 0 <= k < i ==> !has_substring(#[trigger] chain@[k]@, needle@),
        decreases chain.len() - i,
    {
        if contains(chain[i].as_str(), needle) {
            return true;
        }
        i += 1;
    }
    false
}

/// What is said where no client completed the handshake: the server was
/// most likely started by hand.
pub const NOT_CONNECTED: &'static str =
    "MCP client is not connected: this binary is a stdio MCP server and must be launched by an MCP host, not directly from a shell.";

/// What is said of any other failure to start.
pub const START_FAILED: &'static str = "failed to start MCP stdio service";

/// The message for a failure to start serving: the chain of an error that
/// speaks of the `initialized request` means that no client is connected.
pub open spec fn startup_failure_spec(chain: Seq<String>) -> Seq<char> {
    if chain_holds(chain, "initialized request"@) {
        NOT_CONNECTED@
    } else {
        START_FAILED@
    }
}

/// The message for a failure to start serving, from the messages of the
/// error and its causes.
pub fn startup_failure_message(chain: &Vec<String>) -> (message: String)
    ensures
        message@ == startup_failure_spec(chain@),
{
    if error_chain_contains(chain, "connection closed: initialized request")
        || error_chain_contains(chain, "initialized request") {
        proof {
            if chain_holds(chain@, "connection closed: initialized request"@) {
                lemma_longer_needle(chain@);
            }
        }
        NOT_CONNECTED.to_owned()
    } else {
        START_FAILED.to_owned()
    }
}

/// A chain that speaks of `connection closed: initialized request` speaks
/// of `initialized request`.
proof fn lemma_longer_needle(chain: Seq<String>)
    requires
        chain_holds(chain, "connection closed: initialized request"@),
    ensures
        chain_holds(chain, "initialized request"@),
{
    let long = "connection closed: initialized request"@;
    let short = "initialized request"@;
    reveal_strlit("connection closed: initialized request");
    reveal_strlit("initialized request");
    let i = choose|i: int| 0 <= i < chain.len() && has_substring(#[trigger] chain[i]@, long);
    let text = chain[i]@;
    let at = choose|at: int| crate::text::occurs_at(text, long, at);
    assert(long.subrange(19, 38) =~= short);
    assert(text.subrange(at + 19, at + 38) =~= text.subrange(at, at + 38).subrange(19, 38));
    assert(crate::text::occurs_at(text, short, at + 19));
}

} // verus!
