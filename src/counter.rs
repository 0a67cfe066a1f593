//! The contract state and its greeting method.
use near_sdk::AccountId;
use vstd::prelude::*;

verus! {

/// The contract's state. It holds no data, so there is exactly one state.
#[derive(Debug, Clone, Copy, PartialEq, Eq, Structural)]
pub struct Counter;

/// The text of the greeting: `hello`.
pub open spec fn greeting_text() -> Seq<char> {
    seq!['h', 'e', 'l', 'l', 'o']
}

/// What greeting `to` returns: the greeting text beside the identifier itself.
pub open spec fn greeting_of(to: AccountId) -> (Seq<char>, AccountId) {
    (greeting_text(), to)
}

/// The value of a greeting's result, with its text seen as characters.
pub open spec fn greeting_view(r: (String, AccountId)) -> (Seq<char>, AccountId) {
    (r.0@, r.1)
}

impl Default for Counter {
    /// The state a contract starts from: the one empty state.
    fn default() -> (r: Counter)
        ensures
            r == Counter,
    {
        Counter
    }
}

impl Counter {
    /// Returns `("hello", to)`, with `to` copied. Reads nothing else and
    /// changes nothing.
    pub fn hello(&self, to: &AccountId) -> (r: (String, AccountId))
        ensures
            greeting_view(r) == greeting_of(*to),
    {
        let text = "hello".to_owned();
        proof {
            reveal_strlit("hello");
        }
        assert(text@ =~= greeting_text());
        (text, to.clone())
    }
}

/// Greeting one identifier twice gives the same result both times: any two
/// results that `hello` may return for the same identifier are equal.
pub proof fn lemma_hello_deterministic(to: AccountId, r1: (String, AccountId), r2: (String, AccountId))
    requires
        greeting_view(r1) == greeting_of(to),
        greeting_view(r2) == greeting_of(to),
    ensures
        r1.0@ == r2.0@,
        r1.1 == r2.1,
{
}

/// There is a single state, so every state, and every state that `default`
/// builds at any time, is the empty one.
pub proof fn lemma_state_unique(s: Counter, t: Counter)
    ensures
        s == t,
        s == Counter,
{
}

} // verus!
