use vstd::prelude::*;
use crate::engine::FundFlowCrowdfund;

verus! {

/// In every well-formed ledger the registry holds exactly the ids
/// `1, 2, …, n` in creation order: they start at 1, grow strictly, and
/// have no gaps or repeats. Together with `create_campaign`'s contract —
/// each call returns `last_id + 1` and appends it — this pins the ids a
/// sequence of creations returns.
pub proof fn lemma_ids_strictly_increasing_from_one(s: FundFlowCrowdfund)
    requires
        s.wf(),
    ensures
        forall|i: int| 0 <= i < s.ids@.len() ==> #[trigger] s.ids@[i] as int == i + 1,
        forall|i: int, j: int|
            0 <= i < j < s.ids@.len() ==> #[trigger] s.ids@[i] < #[trigger] s.ids@[j],
        s.ids@.len() > 0 ==> s.ids@[0] == 1,
{
}

/// After a committed donation the stored record — what `get_campaign`
/// returns — holds exactly the pre-call raised total plus the donated
/// amount; every other campaign is untouched.
pub proof fn lemma_donate_raises_exactly(
    pre: FundFlowCrowdfund,
    post: FundFlowCrowdfund,
    donor: String,
    campaign_id: u32,
    amount: i128,
)
    requires
        pre.wf(),
        FundFlowCrowdfund::donate_ok(pre, post, donor, campaign_id, amount),
    ensures
        post.has_campaign(campaign_id),
        post.campaign_at(campaign_id).raised == pre.campaign_at(campaign_id).raised + amount,
        post.campaign_at(campaign_id).goal == pre.campaign_at(campaign_id).goal,
        post.campaign_at(campaign_id).owner == pre.campaign_at(campaign_id).owner,
        post.campaign_at(campaign_id).is_active,
        forall|other: u32|
            pre.has_campaign(other) && other != campaign_id ==> #[trigger] post.campaign_at(other)
                == pre.campaign_at(other),
{
}

/// Closing is idempotent: a committed close leaves the campaign with the
/// same raised, goal and owner and inactive, which is exactly the state
/// in which `close_campaign`'s contract forces the owner's next close to
/// return success while changing nothing and emitting no notification.
pub proof fn lemma_close_idempotent(
    pre: FundFlowCrowdfund,
    post: FundFlowCrowdfund,
    campaign_id: u32,
)
    requires
        pre.wf(),
        FundFlowCrowdfund::close_ok(pre, post, campaign_id),
    ensures
        post.has_campaign(campaign_id),
        !post.campaign_at(campaign_id).is_active,
        post.campaign_at(campaign_id).raised == pre.campaign_at(campaign_id).raised,
        post.campaign_at(campaign_id).goal == pre.campaign_at(campaign_id).goal,
        post.campaign_at(campaign_id).owner == pre.campaign_at(campaign_id).owner,
{
}

} // verus!
