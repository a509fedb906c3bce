use vstd::prelude::*;
use vstd::pervasive::VecAdditionalExecFns;
use crate::auth::require_caller_is;
use crate::campaign::Campaign;
use crate::errors::Error;
use crate::events::Event;

verus! {

/// Checks that an amount (a goal or a donation) is strictly positive:
/// the validation every mutating operation performs before touching state.
pub fn assert_positive_amount(amount: i128) -> (r: Result<(), Error>)
    ensures
        r is Ok <==> amount > 0,
        amount <= 0 ==> r == Err::<(), Error>(Error::InvalidAmount),
{
    if amount <= 0 {
        Err(Error::InvalidAmount)
    } else {
        Ok(())
    }
}

/// The crowdfunding ledger: everything that survives between operations.
///
/// The host serializes invocations and persists this state between them.
/// Each operation below is one complete state transition: it either
/// commits as a whole — record written, registry and counter advanced,
/// notification appended — or returns an error having changed nothing.
pub struct FundFlowCrowdfund {
    /// The highest campaign id issued so far; the next id is always one more.
    pub last_id: u32,
    /// The registry: every campaign id ever issued, in creation order.
    pub ids: Vec<u32>,
    /// The campaign records; the record with id `i + 1` sits at index `i`.
    pub campaigns: Vec<Campaign>,
    /// Notifications of committed transitions, in order of emission.
    pub events: Vec<Event>,
}

impl FundFlowCrowdfund {
    /// The ledger invariant: ids are issued contiguously starting at 1, the
    /// registry lists exactly the issued ids in creation order, and every
    /// record is stored under its own id and is internally valid.
    pub open spec fn wf(self) -> bool {
        &&& self.ids@.len() == self.last_id as int
        &&& self.campaigns@.len() == self.last_id as int
        &&& forall|i: int| 0 <= i < self.ids@.len() ==> #[trigger] self.ids@[i] as int == i + 1
        &&& forall|i: int| 0 <= i < self.campaigns@.len()
                ==> (#[trigger] self.campaigns@[i]).campaign_id as int == i + 1
        &&& forall|i: int| 0 <= i < self.campaigns@.len()
                ==> (#[trigger] self.campaigns@[i]).valid()
    }

    /// Whether a campaign with this id exists in the ledger.
    pub open spec fn has_campaign(self, campaign_id: u32) -> bool {
        1 <= campaign_id <= self.last_id
    }

    /// The stored record of an existing campaign.
    pub open spec fn campaign_at(self, campaign_id: u32) -> Campaign
        recommends
            self.has_campaign(campaign_id),
    {
        self.campaigns@[campaign_id - 1]
    }

    /// An empty ledger: no ids issued, no records, no notifications. This
    /// is the meaning the ledger gives to a store that was never written.
    pub fn new() -> (s: FundFlowCrowdfund)
        ensures
            s.wf(),
            s.last_id == 0,
            s.ids@ == Seq::<u32>::empty(),
            s.campaigns@ == Seq::<Campaign>::empty(),
            s.events@ == Seq::<Event>::empty(),
    {
        FundFlowCrowdfund {
            last_id: 0,
            ids: Vec::new(),
            campaigns: Vec::new(),
            events: Vec::new(),
        }
    }

    /// The committed transition of a successful `create_campaign`: one new
    /// record with the next id, raised zero and active; one registry
    /// append; the counter advanced; one creation notification. Nothing
    /// else moves.
    pub open spec fn create_ok(
        pre: FundFlowCrowdfund,
        post: FundFlowCrowdfund,
        title: String,
        description: String,
        goal: i128,
        owner: String,
        new_id: u32,
    ) -> bool {
        &&& goal > 0
        &&& new_id as int == pre.last_id + 1
        &&& post.last_id == new_id
        &&& post.ids@ == pre.ids@.push(new_id)
        &&& post.campaigns@ == pre.campaigns@.push(
            Campaign {
                campaign_id: new_id,
                title: title,
                description: description,
                goal: goal,
                raised: 0,
                owner: owner,
                is_active: true,
            },
        )
        &&& post.events@ == pre.events@.push(
            Event::CampaignCreated { owner: owner, campaign_id: new_id, goal: goal },
        )
    }

    /// The committed transition of a successful `donate`: the one record's
    /// raised total grows by exactly the amount, one donation notification
    /// is appended, and nothing else moves.
    pub open spec fn donate_ok(
        pre: FundFlowCrowdfund,
        post: FundFlowCrowdfund,
        donor: String,
        campaign_id: u32,
        amount: i128,
    ) -> bool {
        let c = pre.campaign_at(campaign_id);
        let new_raised = (c.raised + amount) as i128;
        &&& pre.has_campaign(campaign_id)
        &&& c.is_active
        &&& amount > 0
        &&& c.raised + amount <= i128::MAX
        &&& post.last_id == pre.last_id
        &&& post.ids@ == pre.ids@
        &&& post.campaigns@ == pre.campaigns@.update(
            campaign_id - 1,
            Campaign { raised: new_raised, ..c },
        )
        &&& post.events@ == pre.events@.push(
            Event::DonationMade {
                donor: donor,
                campaign_id: campaign_id,
                amount: amount,
                new_raised: new_raised,
            },
        )
    }

    /// The committed transition of a `close_campaign` that actually closes:
    /// the one record's active flag drops, one closure notification is
    /// appended, and nothing else moves — raised, goal and owner included.
    pub open spec fn close_ok(
        pre: FundFlowCrowdfund,
        post: FundFlowCrowdfund,
        campaign_id: u32,
    ) -> bool {
        let c = pre.campaign_at(campaign_id);
        &&& pre.has_campaign(campaign_id)
        &&& c.is_active
        &&& post.last_id == pre.last_id
        &&& post.ids@ == pre.ids@
        &&& post.campaigns@ == pre.campaigns@.update(
            campaign_id - 1,
            Campaign { is_active: false, ..c },
        )
        &&& post.events@ == pre.events@.push(Event::CampaignClosed { campaign_id: campaign_id })
    }

    /// Pure read of one campaign record. Needs no authorization, changes
    /// nothing; an unknown id is a distinguishable error, never a default.
    pub fn get_campaign(&self, campaign_id: u32) -> (r: Result<Campaign, Error>)
        requires
            self.wf(),
        ensures
            self.has_campaign(campaign_id) ==> r == Ok::<Campaign, Error>(
                self.campaign_at(campaign_id),
            ),
            !self.has_campaign(campaign_id) ==> r == Err::<Campaign, Error>(Error::NotFound),
    {
        if 1 <= campaign_id && campaign_id <= self.last_id {
            let idx = (campaign_id - 1) as usize;
            Ok(self.campaigns[idx].clone())
        } else {
            Err(Error::NotFound)
        }
    }

    /// Pure read of the full identity registry, in creation order.
    pub fn list_campaigns(&self) -> (r: Vec<u32>)
        ensures
            r@ == self.ids@,
    {
        let mut out: Vec<u32> = Vec::new();
        let mut i: usize = 0;
        while i < self.ids.len()
            invariant
                i <= self.ids@.len(),
                out@ == self.ids@.subrange(0, i as int),
            decreases self.ids@.len() - i,
        {
            out.push(self.ids[i]);
            i = i + 1;
        }
        proof {
            assert(self.ids@.subrange(0, self.ids@.len() as int) =~= self.ids@);
        }
        out
    }

    /// Creates a campaign owned by the (host-authenticated) caller.
    ///
    /// A non-positive goal is rejected with `InvalidAmount` and nothing
    /// changes. Otherwise the next id is allocated and returned, and the
    /// ledger commits exactly the `create_ok` transition.
    pub fn create_campaign(
        &mut self,
        title: String,
        description: String,
        goal: i128,
        owner: String,
    ) -> (r: Result<u32, Error>)
        requires
            old(self).wf(),
            old(self).last_id < u32::MAX,
        ensures
            final(self).wf(),
            goal <= 0 ==> r == Err::<u32, Error>(Error::InvalidAmount) && *final(self) == *old(
                self,
            ),
            goal > 0 ==> {
                let new_id = (old(self).last_id + 1) as u32;
                &&& r == Ok::<u32, Error>(new_id)
                &&& Self::create_ok(*old(self), *final(self), title, description, goal, owner, new_id)
            },
    {
        if let Err(e) = assert_positive_amount(goal) {
            return Err(e);
        }
        let new_id = self.last_id + 1;
        let campaign = Campaign {
            campaign_id: new_id,
            title,
            description,
            goal,
            raised: 0,
            owner: owner.clone(),
            is_active: true,
        };
        self.campaigns.push(campaign);
        self.ids.push(new_id);
        self.last_id = new_id;
        self.events.push(Event::CampaignCreated { owner, campaign_id: new_id, goal });
        Ok(new_id)
    }

    /// Records a donation from the (host-authenticated) donor.
    ///
    /// Rejects, in this order and with nothing changed: a non-positive
    /// amount (`InvalidAmount`), an unknown id (`NotFound`), an inactive
    /// campaign (`CampaignClosed`), and a total past the representable
    /// range (`ArithmeticOverflow`). Otherwise it returns the new raised
    /// total and commits exactly the `donate_ok` transition.
    pub fn donate(&mut self, donor: String, campaign_id: u32, amount: i128) -> (r: Result<
        i128,
        Error,
    >)
        requires
            old(self).wf(),
        ensures
            final(self).wf(),
            amount <= 0 ==> r == Err::<i128, Error>(Error::InvalidAmount) && *final(self) == *old(
                self,
            ),
            amount > 0 && !old(self).has_campaign(campaign_id) ==> r == Err::<i128, Error>(
                Error::NotFound,
            ) && *final(self) == *old(self),
            amount > 0 && old(self).has_campaign(campaign_id) && !old(self).campaign_at(
                campaign_id,
            ).is_active ==> r == Err::<i128, Error>(Error::CampaignClosed) && *final(self) == *old(
                self,
            ),
            amount > 0 && old(self).has_campaign(campaign_id) && old(self).campaign_at(
                campaign_id,
            ).is_active && old(self).campaign_at(campaign_id).raised + amount > i128::MAX ==> r
                == Err::<i128, Error>(Error::ArithmeticOverflow) && *final(self) == *old(self),
            amount > 0 && old(self).has_campaign(campaign_id) && old(self).campaign_at(
                campaign_id,
            ).is_active && old(self).campaign_at(campaign_id).raised + amount <= i128::MAX ==> {
                &&& r == Ok::<i128, Error>(
                    (old(self).campaign_at(campaign_id).raised + amount) as i128,
                )
                &&& Self::donate_ok(*old(self), *final(self), donor, campaign_id, amount)
            },
    {
        if let Err(e) = assert_positive_amount(amount) {
            return Err(e);
        }
        if !(1 <= campaign_id && campaign_id <= self.last_id) {
            return Err(Error::NotFound);
        }
        let idx = (campaign_id - 1) as usize;
        if !self.campaigns[idx].is_active {
            return Err(Error::CampaignClosed);
        }
        let new_raised = match self.campaigns[idx].raised.checked_add(amount) {
            Some(v) => v,
            None => {
                return Err(Error::ArithmeticOverflow);
            },
        };
        let mut updated = self.campaigns[idx].clone();
        updated.raised = new_raised;
        self.campaigns.set(idx, updated);
        self.events.push(
            Event::DonationMade { donor, campaign_id, amount, new_raised },
        );
        Ok(new_raised)
    }

    /// Closes a campaign on behalf of the (host-authenticated) caller.
    ///
    /// An unknown id is `NotFound`; a caller other than the stored owner
    /// is `Unauthorized`; in both cases nothing changes. Closing an
    /// already-closed campaign succeeds and changes nothing — not even a
    /// notification. Otherwise the ledger commits exactly the `close_ok`
    /// transition.
    pub fn close_campaign(&mut self, caller: String, campaign_id: u32) -> (r: Result<(), Error>)
        requires
            old(self).wf(),
        ensures
            final(self).wf(),
            !old(self).has_campaign(campaign_id) ==> r == Err::<(), Error>(Error::NotFound)
                && *final(self) == *old(self),
            old(self).has_campaign(campaign_id) && caller@ != old(self).campaign_at(
                campaign_id,
            ).owner@ ==> r == Err::<(), Error>(Error::Unauthorized) && *final(self) == *old(self),
            old(self).has_campaign(campaign_id) && caller@ == old(self).campaign_at(
                campaign_id,
            ).owner@ && !old(self).campaign_at(campaign_id).is_active ==> r == Ok::<(), Error>(())
                && *final(self) == *old(self),
            old(self).has_campaign(campaign_id) && caller@ == old(self).campaign_at(
                campaign_id,
            ).owner@ && old(self).campaign_at(campaign_id).is_active ==> {
                &&& r == Ok::<(), Error>(())
                &&& Self::close_ok(*old(self), *final(self), campaign_id)
            },
    {
        if !(1 <= campaign_id && campaign_id <= self.last_id) {
            return Err(Error::NotFound);
        }
        let idx = (campaign_id - 1) as usize;
        if let Err(e) = require_caller_is(&caller, &self.campaigns[idx].owner) {
            return Err(e);
        }
        if !self.campaigns[idx].is_active {
            return Ok(());
        }
        let mut updated = self.campaigns[idx].clone();
        updated.is_active = false;
        self.campaigns.set(idx, updated);
        self.events.push(Event::CampaignClosed { campaign_id });
        Ok(())
    }
}

} // verus!
