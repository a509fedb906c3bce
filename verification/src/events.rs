use vstd::prelude::*;

verus! {

/// A notification of a committed state transition, recorded in order of
/// emission for external observers. The ledger only ever appends events
/// and never reads them back; the host publishes them after the
/// invocation commits.
pub enum Event {
    CampaignCreated { owner: String, campaign_id: u32, goal: i128 },
    DonationMade { donor: String, campaign_id: u32, amount: i128, new_raised: i128 },
    CampaignClosed { campaign_id: u32 },
}

} // verus!
