//! How the conditions of a filter combine, and how the grid tells of them.

use crate::text::{chars_of, decimal, push_decimal, push_str, string_of};
use vstd::prelude::*;

verus! {

/// How two neighbouring filter conditions combine.
#[derive(Clone, Copy, Debug, PartialEq, Eq, Structural)]
pub enum FilterLogic {
    /// Both must hold.
    And,
    /// One must hold.
    Or,
}

impl FilterLogic {
    /// The other connective.
    pub open spec fn toggled(self) -> FilterLogic {
        match self {
            FilterLogic::And => FilterLogic::Or,
            FilterLogic::Or => FilterLogic::And,
        }
    }

    /// Switches between `And` and `Or`.
    pub fn toggle(&mut self)
        ensures
            *final(self) == old(self).toggled(),
    {
        *self = match *self {
            FilterLogic::And => FilterLogic::Or,
            FilterLogic::Or => FilterLogic::And,
        };
    }

    /// Switching twice changes nothing, and switching once always does.
    pub proof fn lemma_toggle(self)
        ensures
            self.toggled().toggled() == self,
            self.toggled() != self,
    {
    }
}

impl Default for FilterLogic {
    fn default() -> (r: Self)
        ensures
            r == FilterLogic::And,
    {
        FilterLogic::And
    }
}

/// The words on the bar above the grid that lead to the filters: an
/// invitation to add one if there is none, else how many are switched on.
pub open spec fn filter_label(total: usize, enabled: usize) -> Seq<char> {
    if total == 0 {
        "+ 筛选"@
    } else {
        "筛选("@ + decimal(enabled as nat) + ")"@
    }
}

/// The words on the bar above the grid that lead to the filters.
pub fn filter_label_text(total: usize, enabled: usize) -> (text: String)
    ensures
        text@ == filter_label(total, enabled),
{
    if total == 0 {
        return "+ 筛选".to_owned();
    }
    let mut out = chars_of("筛选(");
    push_decimal(&mut out, enabled);
    push_str(&mut out, ")");
    string_of(&out)
}

} // verus!
