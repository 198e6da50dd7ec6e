//! A board of ideas that users like and fund with debt tokens.
use vstd::prelude::*;

use crate::errors::ErrorCode;
use crate::key::Key;

verus! {

#[derive(Clone, Debug)]
pub struct Idea {
    pub creator: Key,
    pub content: String,
    pub likes: u64,
    pub total_dsc_contributions: u64,
    /// The account that contributions are paid into.
    pub vault: Key,
}

/// A contribution ready to be committed once `into_vault` debt tokens have
/// moved into the idea's vault.
#[derive(Clone, Copy, Debug)]
pub struct ContributionPlan {
    pub total_dsc_contributions: u64,
    pub into_vault: u64,
}

/// A new idea, without likes or contributions.
pub fn post_idea(creator: Key, vault: Key, content: String) -> (r: Idea)
    ensures
        r.creator == creator,
        r.content@ == content@,
        r.likes == 0,
        r.total_dsc_contributions == 0,
        r.vault == vault,
{
    Idea { creator, content, likes: 0, total_dsc_contributions: 0, vault }
}

/// Counts one more like.
pub fn like_idea(idea: &mut Idea) -> (r: Result<(), ErrorCode>)
    ensures
        old(idea).likes < u64::MAX ==> r is Ok && final(idea).likes == old(idea).likes + 1,
        old(idea).likes == u64::MAX ==> r == Err::<(), ErrorCode>(ErrorCode::Overflow)
            && final(idea).likes == old(idea).likes,
        final(idea).creator == old(idea).creator,
        final(idea).content@ == old(idea).content@,
        final(idea).total_dsc_contributions == old(idea).total_dsc_contributions,
        final(idea).vault == old(idea).vault,
{
    match idea.likes.checked_add(1) {
        Some(v) => {
            idea.likes = v;
            Ok(())
        },
        None => Err(ErrorCode::Overflow),
    }
}

/// Stages a contribution of `amount` debt tokens to an idea.
pub fn contribute_dsc(idea: &Idea, amount: u64) -> (r: Result<ContributionPlan, ErrorCode>)
    ensures
        amount == 0 ==> r == Err::<ContributionPlan, ErrorCode>(ErrorCode::AmountLessThanZero),
        amount > 0 && idea.total_dsc_contributions + amount > u64::MAX ==> r == Err::<
            ContributionPlan,
            ErrorCode,
        >(ErrorCode::Overflow),
        amount > 0 && idea.total_dsc_contributions + amount <= u64::MAX ==> r == Ok::<
            ContributionPlan,
            ErrorCode,
        >(
            ContributionPlan {
                total_dsc_contributions: (idea.total_dsc_contributions + amount) as u64,
                into_vault: amount,
            },
        ),
{
    if amount == 0 {
        return Err(ErrorCode::AmountLessThanZero);
    }
    match idea.total_dsc_contributions.checked_add(amount) {
        Some(total) => Ok(ContributionPlan { total_dsc_contributions: total, into_vault: amount }),
        None => Err(ErrorCode::Overflow),
    }
}

} // verus!
