use swarmdon::dispatch::DispatchOutcome;
use swarmdon::poll::{
    reconcile, AccountFeed, PollAction, PollEvent, PollPhase, PollScheduler, POLL_INTERVAL_SECS,
};
use swarmdon::swarm::{SwarmCheckin, SwarmLocation, SwarmVenue};
use swarmdon::watermark::Watermark;

fn checkin(id: &str, private: Option<bool>) -> SwarmCheckin {
    SwarmCheckin {
        id: id.to_string(),
        kind: "checkin".to_string(),
        private,
        shout: Some("hello".to_string()),
        user: None,
        venue: SwarmVenue {
            id: "v".to_string(),
            name: "A Place".to_string(),
            location: SwarmLocation::new(None, None, None),
        },
        with: vec![],
    }
}

fn fetched(account: &str, watermark: &str, ids: &[&str]) -> AccountFeed {
    AccountFeed {
        account: account.to_string(),
        watermark: watermark.to_string(),
        feed: Ok(ids.iter().map(|id| checkin(id, None)).collect()),
    }
}

fn failed(account: &str, watermark: &str) -> AccountFeed {
    AccountFeed {
        account: account.to_string(),
        watermark: watermark.to_string(),
        feed: Err("unable to get latest checkins".to_string()),
    }
}

fn mark(account: &str, checkin_id: &str) -> Watermark {
    Watermark {
        account: account.to_string(),
        checkin_id: checkin_id.to_string(),
    }
}

fn is_sleep(action: &PollAction) -> bool {
    matches!(action, PollAction::Sleep(secs) if *secs == 300)
}

fn is_dispatch(action: &PollAction, account: &str, checkin_id: &str) -> bool {
    matches!(action, PollAction::Dispatch { account: a, checkin_id: c } if a == account && c == checkin_id)
}

fn is_advance(action: &PollAction, account: &str, checkin_id: &str) -> bool {
    matches!(action, PollAction::Advance { account: a, checkin_id: c } if a == account && c == checkin_id)
}

#[test]
fn poll_interval_is_five_minutes() {
    assert_eq!(POLL_INTERVAL_SECS, 300);
}

#[test]
fn reconcile_orders_each_batch_oldest_first() {
    let batches = reconcile(vec![fetched("a", "2", &["4", "3", "2", "1"])]);
    assert_eq!(batches.len(), 1);
    assert_eq!(batches[0].account, "a");
    let ids: Vec<&str> = batches[0].checkins.iter().map(|c| c.id.as_str()).collect();
    assert_eq!(ids, vec!["3", "4"]);
}

#[test]
fn reconcile_leaves_out_accounts_without_news() {
    let batches = reconcile(vec![
        fetched("a", "4", &["4", "3"]),
        fetched("b", "1", &[]),
        fetched("c", "7", &["8", "7"]),
    ]);
    assert_eq!(batches.len(), 1);
    assert_eq!(batches[0].account, "c");
}

#[test]
fn reconcile_isolates_a_failed_fetch() {
    let batches = reconcile(vec![
        fetched("a", "1", &["2", "1"]),
        failed("b", "5"),
        fetched("c", "7", &["9", "8", "7"]),
    ]);
    let accounts: Vec<&str> = batches.iter().map(|b| b.account.as_str()).collect();
    assert_eq!(accounts, vec!["a", "c"]);
    let last: Vec<&str> = batches[1].checkins.iter().map(|c| c.id.as_str()).collect();
    assert_eq!(last, vec!["8", "9"]);
}

#[test]
fn reconcile_never_relays_private_checkins() {
    let feed = AccountFeed {
        account: "a".to_string(),
        watermark: "1".to_string(),
        feed: Ok(vec![
            checkin("4", Some(true)),
            checkin("3", None),
            checkin("2", Some(true)),
            checkin("1", None),
        ]),
    };
    let batches = reconcile(vec![feed]);
    assert_eq!(batches.len(), 1);
    let ids: Vec<&str> = batches[0].checkins.iter().map(|c| c.id.as_str()).collect();
    assert_eq!(ids, vec!["3"]);
    let only_private = AccountFeed {
        account: "b".to_string(),
        watermark: "1".to_string(),
        feed: Ok(vec![checkin("9", Some(true))]),
    };
    assert!(reconcile(vec![only_private]).is_empty());
}

#[test]
fn scheduler_runs_a_round() {
    let mut s = PollScheduler::new();
    assert_eq!(s.phase(), PollPhase::Idle);
    assert!(s.current().is_none());

    let action = s.step(PollEvent::Tick(vec![mark("a", "1"), mark("b", "5")]));
    assert_eq!(s.phase(), PollPhase::Fetching);
    assert!(matches!(action, PollAction::FetchFeeds(ref accounts) if accounts.len() == 2
        && accounts[0].account == "a" && accounts[1].checkin_id == "5"));

    let action = s.step(PollEvent::Fetched(vec![
        fetched("a", "1", &["3", "2", "1"]),
        failed("x", "0"),
        fetched("b", "5", &["6", "5"]),
    ]));
    assert_eq!(s.phase(), PollPhase::Reconciling);
    assert!(matches!(action, PollAction::Reconcile));

    let action = s.step(PollEvent::Proceed);
    assert_eq!(s.phase(), PollPhase::Dispatching);
    assert!(is_dispatch(&action, "a", "2"));
    assert_eq!(s.current().unwrap().id, "2");

    let action = s.step(PollEvent::Dispatched(DispatchOutcome::Posted));
    assert!(is_dispatch(&action, "a", "3"));
    assert_eq!(s.current().unwrap().id, "3");

    let action = s.step(PollEvent::Dispatched(DispatchOutcome::Failed("503".to_string())));
    assert!(is_advance(&action, "a", "3"));
    assert!(s.current().is_none());

    let action = s.step(PollEvent::Advanced);
    assert!(is_dispatch(&action, "b", "6"));
    assert_eq!(s.current().unwrap().id, "6");

    let action = s.step(PollEvent::Dispatched(DispatchOutcome::Skipped));
    assert!(is_advance(&action, "b", "6"));

    let action = s.step(PollEvent::Advanced);
    assert!(is_sleep(&action));
    assert_eq!(s.phase(), PollPhase::Idle);
}

#[test]
fn scheduler_sleeps_when_nothing_is_new() {
    let mut s = PollScheduler::new();
    s.step(PollEvent::Tick(vec![mark("a", "1")]));
    s.step(PollEvent::Fetched(vec![fetched("a", "1", &["1"]), failed("b", "2")]));
    let action = s.step(PollEvent::Proceed);
    assert!(is_sleep(&action));
    assert_eq!(s.phase(), PollPhase::Idle);
}

#[test]
fn scheduler_ends_the_round_on_an_event_out_of_turn() {
    let mut s = PollScheduler::new();
    assert!(is_sleep(&s.step(PollEvent::Proceed)));
    assert_eq!(s.phase(), PollPhase::Idle);

    s.step(PollEvent::Tick(vec![]));
    assert!(is_sleep(&s.step(PollEvent::Advanced)));
    assert_eq!(s.phase(), PollPhase::Idle);

    s.step(PollEvent::Tick(vec![mark("a", "1")]));
    s.step(PollEvent::Fetched(vec![fetched("a", "1", &["2", "1"])]));
    s.step(PollEvent::Proceed);
    assert!(is_sleep(&s.step(PollEvent::Advanced)));
    assert_eq!(s.phase(), PollPhase::Idle);
    assert!(s.current().is_none());
}

#[test]
fn scheduler_leaves_an_unavailable_account_without_advancing() {
    let mut s = PollScheduler::new();
    s.step(PollEvent::Tick(vec![mark("a", "1"), mark("b", "5")]));
    s.step(PollEvent::Fetched(vec![
        fetched("a", "1", &["3", "2", "1"]),
        fetched("b", "5", &["6", "5"]),
    ]));
    let action = s.step(PollEvent::Proceed);
    assert!(is_dispatch(&action, "a", "2"));

    let action = s.step(PollEvent::Unavailable);
    assert!(is_dispatch(&action, "b", "6"));
    assert_eq!(s.current().unwrap().id, "6");

    let action = s.step(PollEvent::Unavailable);
    assert!(is_sleep(&action));
    assert_eq!(s.phase(), PollPhase::Idle);
}

#[test]
fn scheduler_advances_to_the_last_handled_checkin_when_the_account_is_lost() {
    let mut s = PollScheduler::new();
    s.step(PollEvent::Tick(vec![mark("a", "1")]));
    s.step(PollEvent::Fetched(vec![fetched("a", "1", &["4", "3", "2", "1"])]));
    assert!(is_dispatch(&s.step(PollEvent::Proceed), "a", "2"));
    assert!(is_dispatch(&s.step(PollEvent::Dispatched(DispatchOutcome::Posted)), "a", "3"));

    let action = s.step(PollEvent::Unavailable);
    assert!(is_advance(&action, "a", "2"));
    assert!(s.current().is_none());
    assert!(is_sleep(&s.step(PollEvent::Advanced)));
    assert_eq!(s.phase(), PollPhase::Idle);
}

#[test]
fn scheduler_ends_the_round_when_unavailable_comes_out_of_turn() {
    let mut s = PollScheduler::new();
    assert!(is_sleep(&s.step(PollEvent::Unavailable)));
    s.step(PollEvent::Tick(vec![mark("a", "1")]));
    s.step(PollEvent::Fetched(vec![fetched("a", "1", &["2", "1"])]));
    s.step(PollEvent::Proceed);
    assert!(is_advance(&s.step(PollEvent::Dispatched(DispatchOutcome::Skipped)), "a", "2"));
    assert!(is_sleep(&s.step(PollEvent::Unavailable)));
    assert_eq!(s.phase(), PollPhase::Idle);
}
