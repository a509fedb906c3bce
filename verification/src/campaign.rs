use vstd::prelude::*;

verus! {

/// A fundraising campaign record, the central entity of the ledger.
///
/// `title` and `description` are opaque text fixed at creation. `goal` and
/// `raised` are signed amounts: the goal is strictly positive and immutable,
/// the raised total starts at zero and only grows, and only while the
/// campaign is active. `owner` is the identity of the creator, the only
/// principal allowed to close the campaign.
pub struct Campaign {
    pub campaign_id: u32,
    pub title: String,
    pub description: String,
    pub goal: i128,
    pub raised: i128,
    pub owner: String,
    pub is_active: bool,
}

impl Campaign {
    /// What every stored campaign satisfies: a positive id, a strictly
    /// positive goal, and a non-negative raised total.
    pub open spec fn valid(self) -> bool {
        &&& self.campaign_id >= 1
        &&& self.goal > 0
        &&& self.raised >= 0
    }
}

impl Clone for Campaign {
    /// A clone is equal to the record it copies, field for field.
    fn clone(&self) -> (r: Campaign)
        ensures
            r == *self,
    {
        Campaign {
            campaign_id: self.campaign_id,
            title: self.title.clone(),
            description: self.description.clone(),
            goal: self.goal,
            raised: self.raised,
            owner: self.owner.clone(),
            is_active: self.is_active,
        }
    }
}

} // verus!
