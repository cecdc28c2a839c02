//! The token budget of a turn.

use vstd::prelude::*;

verus! {

/// How the input tokens of a turn are shared out, and how many are used.
#[derive(Debug, Clone, Copy, PartialEq, Eq, Structural)]
pub struct TokenBudget {
    /// The limit on input tokens.
    pub total: u64,
    /// For system and safety instructions.
    pub system_tokens: u64,
    /// For tool schemas and summaries of capabilities.
    pub schema_tokens: u64,
    /// For active skills and plugin instructions.
    pub skill_tokens: u64,
    /// For the conversation and tool results.
    pub history_tokens: u64,
    /// Kept free.
    pub margin_tokens: u64,
    /// Used so far.
    pub consumed: u64,
}

/// A share of a total in percent, rounded down.
pub open spec fn percent(total: u64, p: nat) -> nat {
    (total as nat) * p / 100
}

/// Subtraction that stops at zero.
pub open spec fn minus(a: nat, b: nat) -> nat {
    if a >= b {
        (a - b) as nat
    } else {
        0
    }
}

impl TokenBudget {
    /// The budget of a total before anything is used.
    pub open spec fn of(total: u64) -> TokenBudget {
        TokenBudget {
            total,
            system_tokens: percent(total, 10) as u64,
            schema_tokens: percent(total, 10) as u64,
            skill_tokens: percent(total, 10) as u64,
            history_tokens: percent(total, 65) as u64,
            margin_tokens: percent(total, 5) as u64,
            consumed: 0,
        }
    }

    /// What is left, the margin aside.
    pub open spec fn left(self) -> nat {
        minus(minus(self.total as nat, self.margin_tokens as nat), self.consumed as nat)
    }

    /// Shares a total out: a tenth each for system, schemas and skills, 65 percent
    /// for history, and 5 percent of margin. The products have to fit.
    pub fn new(total: u64) -> (r: Self)
        requires
            total * 65 <= u64::MAX,
        ensures
            r == TokenBudget::of(total),
    {
        TokenBudget {
            total,
            system_tokens: total * 10 / 100,
            schema_tokens: total * 10 / 100,
            skill_tokens: total * 10 / 100,
            history_tokens: total * 65 / 100,
            margin_tokens: total * 5 / 100,
            consumed: 0,
        }
    }

    pub fn remaining(&self) -> (r: u64)
        ensures
            r == self.left(),
    {
        let cap: u64 = self.total.saturating_sub(self.margin_tokens);
        cap.saturating_sub(self.consumed)
    }

    pub fn is_exhausted(&self) -> (r: bool)
        ensures
            r == (self.left() == 0),
    {
        self.remaining() == 0
    }

    /// Counts tokens as used; the count stops at the largest number.
    pub fn consume(&mut self, tokens: u64)
        ensures
            *final(self) == (TokenBudget {
                consumed: (if old(self).consumed + tokens <= u64::MAX {
                    old(self).consumed + tokens
                } else {
                    u64::MAX as int
                }) as u64,
                ..*old(self)
            }),
    {
        self.consumed = self.consumed.saturating_add(tokens);
    }

    pub fn debug_metadata(&self) -> (r: TokenBudgetDebug)
        ensures
            r.total == self.total,
            r.consumed == self.consumed,
            r.remaining == self.left(),
            r.allocation_percent == (TokenBudgetAllocation {
                system: 10,
                schema: 10,
                skills: 10,
                history: 65,
                margin: 5,
            }),
    {
        TokenBudgetDebug {
            total: self.total,
            consumed: self.consumed,
            remaining: self.remaining(),
            allocation_percent: TokenBudgetAllocation {
                system: 10,
                schema: 10,
                skills: 10,
                history: 65,
                margin: 5,
            },
        }
    }
}

/// The state of a budget, for diagnosis.
#[derive(Debug, Clone, Copy, PartialEq, Eq, Structural)]
pub struct TokenBudgetDebug {
    pub total: u64,
    pub consumed: u64,
    pub remaining: u64,
    pub allocation_percent: TokenBudgetAllocation,
}

/// The shares of a budget in percent.
#[derive(Debug, Clone, Copy, PartialEq, Eq, Structural)]
pub struct TokenBudgetAllocation {
    pub system: u8,
    pub schema: u8,
    pub skills: u8,
    pub history: u8,
    pub margin: u8,
}

/// The shares of a budget never exceed its total.
pub proof fn law_shares_fit(total: u64)
    requires
        total * 65 <= u64::MAX,
    ensures
        ({
            let b = TokenBudget::of(total);
            b.system_tokens + b.schema_tokens + b.skill_tokens + b.history_tokens + b.margin_tokens
                <= total
        }),
{
}

/// The shares of a budget are what they are said to be, to the token: a tenth each for the
/// system, the schemas and the skills, 65 hundredths for the history, 5 for the margin.
pub proof fn law_shares_are_hundredths(total: u64)
    requires
        total * 65 <= u64::MAX,
    ensures
        ({
            let b = TokenBudget::of(total);
            &&& b.total == total
            &&& b.consumed == 0
            &&& 100 * b.system_tokens <= 10 * total < 100 * b.system_tokens + 100
            &&& 100 * b.schema_tokens <= 10 * total < 100 * b.schema_tokens + 100
            &&& 100 * b.skill_tokens <= 10 * total < 100 * b.skill_tokens + 100
            &&& 100 * b.history_tokens <= 65 * total < 100 * b.history_tokens + 100
            &&& 100 * b.margin_tokens <= 5 * total < 100 * b.margin_tokens + 100
        }),
{
}

/// What is left, what is used and the margin make up the total, as long as there is
/// anything left; once they exceed it, nothing is left.
pub proof fn law_left_and_used_make_the_total(b: TokenBudget)
    ensures
        b.consumed + b.margin_tokens <= b.total ==> b.left() + b.consumed + b.margin_tokens
            == b.total,
        b.consumed + b.margin_tokens > b.total ==> b.left() == 0,
{
}

} // verus!
