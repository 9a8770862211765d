use geev_core::{
    complete_donation, create_help_request, donate, plan_donation, Deposit, Error, Event,
    HelpRequest, HelpRequestStatus, Identity, Store,
};

fn creator() -> Identity {
    Identity::account(0, 0xC)
}

fn donor() -> Identity {
    Identity::account(0, 0xD)
}

fn token() -> Identity {
    Identity::contract(0, 0x7)
}

fn moved(_: &mut Store, _: Deposit) -> bool {
    true
}

fn never_asked(_: &mut Store, _: Deposit) -> bool {
    panic!("the token collaborator must not be called")
}

/// A store with one open help request, id 1, for `goal`.
fn store_with_request(goal: i128) -> Store {
    let mut store = Store::new();
    assert_eq!(
        create_help_request(&mut store, creator(), Some(creator()), token(), goal),
        Ok(1)
    );
    store
}

fn give(store: &mut Store, amount: i128) -> Result<Event, Error> {
    donate(store, donor(), Some(donor()), 1, amount, moved)
}

#[test]
fn create_help_request_stores_an_open_request_with_nothing_raised() {
    let mut store = Store::new();
    let id = create_help_request(&mut store, creator(), Some(creator()), token(), 100);
    assert_eq!(id, Ok(1));
    assert_eq!(
        store.help_request(1),
        Some(HelpRequest {
            id: 1,
            creator: creator(),
            token: token(),
            goal: 100,
            raised_amount: 0,
            status: HelpRequestStatus::Open
        })
    );
    assert_eq!(store.help_request_count(), 1);
    assert_eq!(
        create_help_request(&mut store, creator(), Some(creator()), token(), 5),
        Ok(2)
    );
    assert_eq!(store.help_request_count(), 2);
    assert_eq!(store.help_request(2).unwrap().goal, 5);
    assert_eq!(store.help_request(1).unwrap().goal, 100);
    // The ids of giveaways are counted apart.
    assert_eq!(store.giveaway_count(), 0);
}

#[test]
fn create_help_request_refuses_bad_input() {
    let mut store = Store::new();
    for goal in [0, -1, i128::MIN] {
        assert_eq!(
            create_help_request(&mut store, creator(), Some(creator()), token(), goal),
            Err(Error::InvalidAmount)
        );
    }
    assert_eq!(
        create_help_request(&mut store, creator(), None, token(), 100),
        Err(Error::Unauthorized)
    );
    assert_eq!(
        create_help_request(&mut store, creator(), Some(donor()), token(), 100),
        Err(Error::Unauthorized)
    );
    assert_eq!(store, Store::new());
    store.set_help_request_count(u64::MAX);
    let before = store.clone();
    assert_eq!(
        create_help_request(&mut store, creator(), Some(creator()), token(), 100),
        Err(Error::InvalidAmount)
    );
    assert_eq!(store, before);
}

#[test]
fn donate_pulls_the_amount_and_adds_it_to_what_was_raised() {
    let mut store = store_with_request(100);
    let mut asked = None;
    let result = donate(
        &mut store,
        donor(),
        Some(donor()),
        1,
        30,
        |s: &mut Store, request: Deposit| {
            // Nothing is recorded before the amount has moved.
            assert_eq!(s.help_request(1).unwrap().raised_amount, 0);
            assert!(s.is_locked());
            asked = Some(request);
            true
        },
    );
    assert_eq!(
        result,
        Ok(Event::DonationReceived {
            request_id: 1,
            donor: donor(),
            amount: 30
        })
    );
    assert_eq!(
        asked,
        Some(Deposit {
            token: token(),
            from: donor(),
            amount: 30
        })
    );
    assert_eq!(
        store.help_request(1),
        Some(HelpRequest {
            id: 1,
            creator: creator(),
            token: token(),
            goal: 100,
            raised_amount: 30,
            status: HelpRequestStatus::Open
        })
    );
    assert!(!store.is_locked());
}

#[test]
fn donations_add_up_and_fund_the_request_when_the_goal_is_reached() {
    let mut store = store_with_request(100);
    let amounts: [i128; 4] = [30, 1, 68, 1];
    let mut sum: i128 = 0;
    for amount in amounts {
        assert!(give(&mut store, amount).is_ok());
        sum += amount;
        let request = store.help_request(1).unwrap();
        assert_eq!(request.raised_amount, sum);
        assert_eq!(request.goal, 100);
        assert_eq!(
            request.status == HelpRequestStatus::FullyFunded,
            sum >= 100
        );
    }
    assert_eq!(store.help_request(1).unwrap().raised_amount, 100);
    assert_eq!(
        store.help_request(1).unwrap().status,
        HelpRequestStatus::FullyFunded
    );
}

#[test]
fn donation_may_overshoot_the_goal() {
    let mut store = store_with_request(100);
    assert!(give(&mut store, 99).is_ok());
    assert_eq!(
        store.help_request(1).unwrap().status,
        HelpRequestStatus::Open
    );
    assert!(give(&mut store, 500).is_ok());
    let request = store.help_request(1).unwrap();
    assert_eq!(request.raised_amount, 599);
    assert_eq!(request.status, HelpRequestStatus::FullyFunded);
}

#[test]
fn fully_funded_request_refuses_donations_and_keeps_what_was_raised() {
    let mut store = store_with_request(100);
    assert!(give(&mut store, 100).is_ok());
    let funded = store.clone();
    let result = donate(&mut store, donor(), Some(donor()), 1, 1, never_asked);
    assert_eq!(result, Err(Error::InvalidState));
    assert_eq!(store, funded);
    assert_eq!(store.help_request(1).unwrap().raised_amount, 100);
}

#[test]
fn donate_refuses_an_amount_that_is_not_positive() {
    let mut store = store_with_request(100);
    let before = store.clone();
    for amount in [0, -5, i128::MIN] {
        let result = donate(&mut store, donor(), Some(donor()), 1, amount, never_asked);
        assert_eq!(result, Err(Error::InvalidAmount));
        assert_eq!(store, before);
    }
}

#[test]
fn negative_donation_to_request_seven_fails_and_leaves_it_unchanged() {
    let mut store = Store::new();
    for _ in 0..7 {
        create_help_request(&mut store, creator(), Some(creator()), token(), 100).unwrap();
    }
    let before = store.clone();
    let request = store.help_request(7);
    assert!(request.is_some());
    let result = donate(&mut store, donor(), Some(donor()), 7, -5, never_asked);
    assert_eq!(result, Err(Error::InvalidAmount));
    assert_eq!(store.help_request(7), request);
    assert_eq!(store, before);
    // The amount is refused even where there is no such request.
    let mut empty = Store::new();
    let result = donate(&mut empty, donor(), Some(donor()), 7, -5, never_asked);
    assert_eq!(result, Err(Error::InvalidAmount));
    assert_eq!(empty, Store::new());
}

#[test]
fn donate_refuses_an_unknown_request() {
    let mut store = store_with_request(100);
    let before = store.clone();
    let result = donate(&mut store, donor(), Some(donor()), 2, 10, never_asked);
    assert_eq!(result, Err(Error::NotFound));
    assert_eq!(store, before);
}

#[test]
fn donate_requires_the_approval_of_the_donor() {
    let mut store = store_with_request(100);
    let before = store.clone();
    let result = donate(&mut store, donor(), None, 1, 10, never_asked);
    assert_eq!(result, Err(Error::Unauthorized));
    let result = donate(&mut store, donor(), Some(creator()), 1, 10, never_asked);
    assert_eq!(result, Err(Error::Unauthorized));
    // A missing approval is reported before a bad amount.
    let result = donate(&mut store, donor(), None, 1, -5, never_asked);
    assert_eq!(result, Err(Error::Unauthorized));
    assert_eq!(store, before);
}

#[test]
fn donate_refuses_a_sum_that_leaves_the_range() {
    let mut store = store_with_request(i128::MAX);
    assert!(give(&mut store, i128::MAX - 1).is_ok());
    let before = store.clone();
    let result = donate(&mut store, donor(), Some(donor()), 1, 2, never_asked);
    assert_eq!(result, Err(Error::InvalidAmount));
    assert_eq!(store, before);
    // The last unit still fits, and meets the goal.
    assert!(give(&mut store, 1).is_ok());
    let request = store.help_request(1).unwrap();
    assert_eq!(request.raised_amount, i128::MAX);
    assert_eq!(request.status, HelpRequestStatus::FullyFunded);
}

#[test]
fn donate_that_cannot_pull_the_amount_changes_nothing() {
    let mut store = store_with_request(100);
    let before = store.clone();
    let result = donate(
        &mut store,
        donor(),
        Some(donor()),
        1,
        30,
        |_: &mut Store, _: Deposit| false,
    );
    assert_eq!(result, Err(Error::TransferFailed));
    assert_eq!(store, before);
    assert!(!store.is_locked());
}

#[test]
fn donate_is_refused_while_a_guarded_operation_runs() {
    let mut store = store_with_request(100);
    store.set_lock();
    let before = store.clone();
    let result = donate(&mut store, donor(), Some(donor()), 1, 30, never_asked);
    assert_eq!(result, Err(Error::ReentrancyDetected));
    assert_eq!(store, before);
}

#[test]
fn donation_from_within_its_own_transfer_is_refused() {
    let mut store = store_with_request(100);
    let mut inner = None;
    let outer = donate(
        &mut store,
        donor(),
        Some(donor()),
        1,
        30,
        |s: &mut Store, _: Deposit| {
            inner = Some(donate(s, donor(), Some(donor()), 1, 50, never_asked));
            true
        },
    );
    assert_eq!(inner, Some(Err(Error::ReentrancyDetected)));
    assert!(outer.is_ok());
    assert_eq!(store.help_request(1).unwrap().raised_amount, 30);
    assert!(!store.is_locked());
}

#[test]
fn closed_request_still_takes_donations() {
    let mut store = store_with_request(100);
    let mut request = store.help_request(1).unwrap();
    request.status = HelpRequestStatus::Closed;
    store.set_help_request(1, request);
    assert!(give(&mut store, 40).is_ok());
    let request = store.help_request(1).unwrap();
    assert_eq!(request.raised_amount, 40);
    assert_eq!(request.status, HelpRequestStatus::Closed);
    assert!(give(&mut store, 60).is_ok());
    let request = store.help_request(1).unwrap();
    assert_eq!(request.raised_amount, 100);
    assert_eq!(request.status, HelpRequestStatus::FullyFunded);
}

#[test]
fn complete_donation_follows_the_answer_of_the_collaborator() {
    let mut store = store_with_request(100);
    let before = store.clone();
    assert_eq!(
        complete_donation(&mut store, donor(), 1, 30, false),
        Err(Error::TransferFailed)
    );
    assert_eq!(
        complete_donation(&mut store, donor(), 1, 0, true),
        Err(Error::InvalidAmount)
    );
    assert_eq!(
        complete_donation(&mut store, donor(), 2, 30, true),
        Err(Error::NotFound)
    );
    assert_eq!(store, before);
    assert_eq!(
        complete_donation(&mut store, donor(), 1, 30, true),
        Ok(Event::DonationReceived {
            request_id: 1,
            donor: donor(),
            amount: 30
        })
    );
    assert_eq!(store.help_request(1).unwrap().raised_amount, 30);
    assert_eq!(
        complete_donation(&mut store, donor(), 1, i128::MAX, true),
        Err(Error::InvalidAmount)
    );
    assert!(complete_donation(&mut store, donor(), 1, 70, true).is_ok());
    let funded = store.clone();
    assert_eq!(
        complete_donation(&mut store, donor(), 1, 1, true),
        Err(Error::InvalidState)
    );
    assert_eq!(store, funded);
}

#[test]
fn donations_to_one_request_leave_the_others_alone() {
    let mut store = store_with_request(100);
    create_help_request(&mut store, creator(), Some(creator()), token(), 50).unwrap();
    let second = store.help_request(2);
    assert!(give(&mut store, 100).is_ok());
    assert_eq!(store.help_request(2), second);
    let result = donate(&mut store, donor(), Some(donor()), 2, 50, moved);
    assert!(result.is_ok());
    assert_eq!(
        store.help_request(2).unwrap().status,
        HelpRequestStatus::FullyFunded
    );
    assert_eq!(store.help_request(1).unwrap().raised_amount, 100);
}

#[test]
fn plan_donation_names_the_deposit_or_the_refusal() {
    let mut store = store_with_request(100);
    let before = store.clone();
    assert_eq!(
        plan_donation(&store, donor(), Some(donor()), 1, 30),
        Ok(Deposit {
            token: token(),
            from: donor(),
            amount: 30
        })
    );
    assert_eq!(store, before);
    assert_eq!(
        plan_donation(&store, donor(), None, 1, 30),
        Err(Error::Unauthorized)
    );
    assert_eq!(
        plan_donation(&store, donor(), Some(donor()), 1, 0),
        Err(Error::InvalidAmount)
    );
    assert_eq!(
        plan_donation(&store, donor(), Some(donor()), 2, 30),
        Err(Error::NotFound)
    );
    store.set_lock();
    assert_eq!(
        plan_donation(&store, donor(), Some(donor()), 1, 30),
        Err(Error::ReentrancyDetected)
    );
    // A bad amount is reported before the flag.
    assert_eq!(
        plan_donation(&store, donor(), Some(donor()), 1, -5),
        Err(Error::InvalidAmount)
    );
    store.clear_lock();
    assert!(give(&mut store, 100).is_ok());
    assert_eq!(
        plan_donation(&store, donor(), Some(donor()), 1, 30),
        Err(Error::InvalidState)
    );
}
