use fundflow_crowdfund::engine::FundFlowCrowdfund;
use fundflow_crowdfund::errors::Error;
use fundflow_crowdfund::events::Event;

fn s(text: &str) -> String {
    String::from(text)
}

#[test]
fn test_create_and_get_campaign() {
    let mut ledger = FundFlowCrowdfund::new();

    let id = ledger
        .create_campaign(s("Test"), s("Desc"), 100i128, s("alice"))
        .unwrap();
    assert_eq!(id, 1);

    let c = ledger.get_campaign(id).unwrap();
    assert_eq!(c.campaign_id, 1);
    assert_eq!(c.goal, 100);
    assert!(c.is_active);
}

#[test]
fn create_rejects_non_positive_goal() {
    let mut ledger = FundFlowCrowdfund::new();
    assert_eq!(
        ledger.create_campaign(s("T"), s("D"), 0i128, s("alice")),
        Err(Error::InvalidAmount)
    );
    assert_eq!(
        ledger.create_campaign(s("T"), s("D"), -7i128, s("alice")),
        Err(Error::InvalidAmount)
    );
    assert!(ledger.list_campaigns().is_empty());
    assert!(ledger.events.is_empty());
}

#[test]
fn ids_are_sequential_from_one() {
    let mut ledger = FundFlowCrowdfund::new();
    let a = ledger
        .create_campaign(s("A"), s("a"), 10i128, s("alice"))
        .unwrap();
    let b = ledger
        .create_campaign(s("B"), s("b"), 20i128, s("bob"))
        .unwrap();
    let c = ledger
        .create_campaign(s("C"), s("c"), 30i128, s("carol"))
        .unwrap();
    assert_eq!((a, b, c), (1, 2, 3));
    assert_eq!(ledger.list_campaigns(), vec![1u32, 2u32, 3u32]);
}

#[test]
fn list_is_empty_before_any_creation() {
    let ledger = FundFlowCrowdfund::new();
    assert_eq!(ledger.list_campaigns(), Vec::<u32>::new());
}

#[test]
fn get_unknown_campaign_is_not_found() {
    let mut ledger = FundFlowCrowdfund::new();
    assert!(matches!(ledger.get_campaign(1), Err(Error::NotFound)));
    ledger
        .create_campaign(s("T"), s("D"), 5i128, s("alice"))
        .unwrap();
    assert!(matches!(ledger.get_campaign(0), Err(Error::NotFound)));
    assert!(matches!(ledger.get_campaign(2), Err(Error::NotFound)));
}

#[test]
fn donate_accumulates_exactly() {
    let mut ledger = FundFlowCrowdfund::new();
    let id = ledger
        .create_campaign(s("T"), s("D"), 100i128, s("alice"))
        .unwrap();
    assert_eq!(ledger.donate(s("bob"), id, 40i128), Ok(40i128));
    assert_eq!(ledger.get_campaign(id).unwrap().raised, 40);
    assert_eq!(ledger.donate(s("carol"), id, 25i128), Ok(65i128));
    assert_eq!(ledger.get_campaign(id).unwrap().raised, 65);
}

#[test]
fn donate_rejections_change_nothing() {
    let mut ledger = FundFlowCrowdfund::new();
    let id = ledger
        .create_campaign(s("T"), s("D"), 100i128, s("alice"))
        .unwrap();
    ledger.donate(s("bob"), id, 40i128).unwrap();
    let events_before = ledger.events.len();

    assert_eq!(ledger.donate(s("bob"), id, 0i128), Err(Error::InvalidAmount));
    assert_eq!(ledger.donate(s("bob"), id, -3i128), Err(Error::InvalidAmount));
    assert_eq!(ledger.donate(s("bob"), 99, 5i128), Err(Error::NotFound));
    assert_eq!(ledger.get_campaign(id).unwrap().raised, 40);
    assert_eq!(ledger.events.len(), events_before);
}

#[test]
fn donate_overflow_is_rejected_without_change() {
    let mut ledger = FundFlowCrowdfund::new();
    let id = ledger
        .create_campaign(s("T"), s("D"), 100i128, s("alice"))
        .unwrap();
    assert_eq!(ledger.donate(s("bob"), id, i128::MAX), Ok(i128::MAX));
    let events_before = ledger.events.len();
    assert_eq!(
        ledger.donate(s("bob"), id, 1i128),
        Err(Error::ArithmeticOverflow)
    );
    assert_eq!(ledger.get_campaign(id).unwrap().raised, i128::MAX);
    assert_eq!(ledger.events.len(), events_before);
    assert!(ledger.get_campaign(id).unwrap().is_active);
}

#[test]
fn only_owner_can_close() {
    let mut ledger = FundFlowCrowdfund::new();
    let id = ledger
        .create_campaign(s("T"), s("D"), 100i128, s("alice"))
        .unwrap();
    let events_before = ledger.events.len();
    assert_eq!(ledger.close_campaign(s("mallory"), id), Err(Error::Unauthorized));
    assert!(ledger.get_campaign(id).unwrap().is_active);
    assert_eq!(ledger.events.len(), events_before);

    assert_eq!(ledger.close_campaign(s("alice"), id), Ok(()));
    assert!(!ledger.get_campaign(id).unwrap().is_active);
}

#[test]
fn close_unknown_campaign_is_not_found() {
    let mut ledger = FundFlowCrowdfund::new();
    assert_eq!(ledger.close_campaign(s("alice"), 1), Err(Error::NotFound));
}

#[test]
fn close_is_idempotent() {
    let mut ledger = FundFlowCrowdfund::new();
    let id = ledger
        .create_campaign(s("T"), s("D"), 100i128, s("alice"))
        .unwrap();
    ledger.donate(s("bob"), id, 30i128).unwrap();
    assert_eq!(ledger.close_campaign(s("alice"), id), Ok(()));
    let events_after_first = ledger.events.len();

    assert_eq!(ledger.close_campaign(s("alice"), id), Ok(()));
    let c = ledger.get_campaign(id).unwrap();
    assert_eq!(c.raised, 30);
    assert_eq!(c.goal, 100);
    assert_eq!(c.owner, s("alice"));
    assert!(!c.is_active);
    assert_eq!(ledger.events.len(), events_after_first);
}

#[test]
fn notifications_record_each_committed_transition() {
    let mut ledger = FundFlowCrowdfund::new();
    let id = ledger
        .create_campaign(s("T"), s("D"), 100i128, s("alice"))
        .unwrap();
    ledger.donate(s("bob"), id, 40i128).unwrap();
    ledger.close_campaign(s("alice"), id).unwrap();

    assert_eq!(ledger.events.len(), 3);
    match &ledger.events[0] {
        Event::CampaignCreated { owner, campaign_id, goal } => {
            assert_eq!(owner, "alice");
            assert_eq!(*campaign_id, 1);
            assert_eq!(*goal, 100);
        }
        _ => panic!("expected a creation notification"),
    }
    match &ledger.events[1] {
        Event::DonationMade { donor, campaign_id, amount, new_raised } => {
            assert_eq!(donor, "bob");
            assert_eq!(*campaign_id, 1);
            assert_eq!(*amount, 40);
            assert_eq!(*new_raised, 40);
        }
        _ => panic!("expected a donation notification"),
    }
    match &ledger.events[2] {
        Event::CampaignClosed { campaign_id } => assert_eq!(*campaign_id, 1),
        _ => panic!("expected a closure notification"),
    }
}

#[test]
fn full_campaign_lifecycle() {
    let mut ledger = FundFlowCrowdfund::new();

    let id = ledger
        .create_campaign(s("Well"), s("A village well"), 100i128, s("alice"))
        .unwrap();
    assert_eq!(id, 1);
    let c = ledger.get_campaign(id).unwrap();
    assert_eq!(c.raised, 0);
    assert!(c.is_active);

    assert_eq!(ledger.donate(s("bob"), id, 40i128), Ok(40i128));
    assert_eq!(ledger.get_campaign(id).unwrap().raised, 40);

    assert_eq!(ledger.donate(s("carol"), id, 70i128), Ok(110i128));
    let c = ledger.get_campaign(id).unwrap();
    assert_eq!(c.raised, 110);
    assert!(c.is_active, "exceeding the goal does not close the campaign");

    assert_eq!(ledger.close_campaign(s("mallory"), id), Err(Error::Unauthorized));
    assert!(ledger.get_campaign(id).unwrap().is_active);

    assert_eq!(ledger.close_campaign(s("alice"), id), Ok(()));
    assert!(!ledger.get_campaign(id).unwrap().is_active);

    assert_eq!(ledger.donate(s("bob"), id, 10i128), Err(Error::CampaignClosed));
    assert_eq!(ledger.get_campaign(id).unwrap().raised, 110);
}
