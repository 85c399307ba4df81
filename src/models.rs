use vstd::prelude::*;

verus! {

/// Token accounting of one request.
#[derive(Clone, Copy, Debug, PartialEq, Eq, Structural)]
pub struct Usage {
    pub prompt_tokens: u32,
    pub completion_tokens: u32,
    pub total_tokens: u32,
}

/// `a + b`, or `u32::MAX` where the sum does not fit.
pub open spec fn sat_add_u32(a: u32, b: u32) -> u32 {
    if a + b > u32::MAX {
        u32::MAX
    } else {
        (a + b) as u32
    }
}

impl Usage {
    /// The usage of a request whose prompt and completion took the given
    /// numbers of tokens; the total saturates at `u32::MAX`.
    pub fn new(prompt_tokens: u32, completion_tokens: u32) -> (r: Usage)
        ensures
            r == (Usage {
                prompt_tokens,
                completion_tokens,
                total_tokens: sat_add_u32(prompt_tokens, completion_tokens),
            }),
    {
        Usage {
            prompt_tokens,
            completion_tokens,
            total_tokens: prompt_tokens.saturating_add(completion_tokens),
        }
    }
}

} // verus!
