//! Token usage of a turn or a request.

use vstd::prelude::*;

verus! {

/// How many tokens a request took.
#[derive(Debug, Clone, Copy, PartialEq, Eq, Structural)]
pub struct Usage {
    pub prompt_tokens: u64,
    pub completion_tokens: u64,
    pub reasoning_tokens: Option<u64>,
    pub cached_tokens: Option<u64>,
    pub total_tokens: Option<u64>,
}

impl Usage {
    /// The total that was reported, or else the sum of prompt and completion. The
    /// sum is taken in either case, so it has to fit.
    pub fn total(&self) -> (r: u64)
        requires
            self.prompt_tokens + self.completion_tokens <= u64::MAX,
        ensures
            r == (match self.total_tokens {
                Some(t) => t as int,
                None => self.prompt_tokens + self.completion_tokens,
            }),
    {
        self.total_tokens.unwrap_or(self.prompt_tokens + self.completion_tokens)
    }
}

impl Default for Usage {
    fn default() -> (r: Self)
        ensures
            r == (Usage {
                prompt_tokens: 0,
                completion_tokens: 0,
                reasoning_tokens: None,
                cached_tokens: None,
                total_tokens: None,
            }),
    {
        Usage {
            prompt_tokens: 0,
            completion_tokens: 0,
            reasoning_tokens: None,
            cached_tokens: None,
            total_tokens: None,
        }
    }
}

} // verus!
