use swarmdon::dispatch::DispatchOutcome;
use swarmdon::push::{PushAction, PushEvent, PushHandler, PushVerdict};
use swarmdon::swarm::{SwarmCheckin, SwarmLocation, SwarmPush, SwarmUser, SwarmVenue};

fn author(id: &str) -> SwarmUser {
    SwarmUser {
        id: id.to_string(),
        first_name: "Rice".to_string(),
        last_name: "R".to_string(),
        handle: "fanzeyi".to_string(),
    }
}

fn pushed(private: Option<bool>, user: Option<SwarmUser>) -> SwarmCheckin {
    SwarmCheckin {
        id: "c42".to_string(),
        kind: "checkin".to_string(),
        private,
        shout: None,
        user,
        venue: SwarmVenue {
            id: "v".to_string(),
            name: "A Place".to_string(),
            location: SwarmLocation::new(None, None, None),
        },
        with: vec![],
    }
}

fn push_with(secret: &str) -> SwarmPush {
    SwarmPush {
        checkin: "{\"id\":\"c42\"}".to_string(),
        secret: secret.to_string(),
    }
}

fn responds(action: &PushAction, verdict: PushVerdict) -> bool {
    matches!(action, PushAction::Respond(v) if *v == verdict)
}

fn parsing() -> PushHandler {
    let mut h = PushHandler::new("s3cret".to_string());
    let action = h.step(PushEvent::Received(push_with("s3cret")));
    assert!(matches!(action, PushAction::Parse(ref text) if text == "{\"id\":\"c42\"}"));
    h
}

#[test]
fn push_with_wrong_secret_is_rejected() {
    let mut h = PushHandler::new("s3cret".to_string());
    let action = h.step(PushEvent::Received(push_with("guess")));
    assert!(responds(&action, PushVerdict::BadSecret));
    assert!(h.current().is_none());
}

#[test]
fn push_that_cannot_be_read_is_rejected() {
    let mut h = parsing();
    assert!(responds(&h.step(PushEvent::Parsed(None)), PushVerdict::Unparsable));
}

#[test]
fn private_push_never_reaches_the_dispatcher() {
    let mut h = parsing();
    let action = h.step(PushEvent::Parsed(Some(pushed(Some(true), Some(author("u1"))))));
    assert!(responds(&action, PushVerdict::Private));
    assert!(h.current().is_none());
    let action = h.step(PushEvent::Account(true));
    assert!(responds(&action, PushVerdict::OutOfTurn));
    assert!(h.current().is_none());
}

#[test]
fn push_without_author_is_rejected() {
    let mut h = parsing();
    let action = h.step(PushEvent::Parsed(Some(pushed(None, None))));
    assert!(responds(&action, PushVerdict::NoAuthor));
}

#[test]
fn push_for_unknown_author_is_rejected() {
    let mut h = parsing();
    let action = h.step(PushEvent::Parsed(Some(pushed(Some(false), Some(author("u1"))))));
    assert!(matches!(action, PushAction::FindOwner(ref id) if id == "u1"));
    assert!(responds(&h.step(PushEvent::Owner(None)), PushVerdict::UnknownAuthor));
}

#[test]
fn push_for_unknown_account_is_rejected() {
    let mut h = parsing();
    h.step(PushEvent::Parsed(Some(pushed(None, Some(author("u1"))))));
    let action = h.step(PushEvent::Owner(Some("https://m.example:7".to_string())));
    assert!(matches!(action, PushAction::FindAccount(ref key) if key == "https://m.example:7"));
    assert!(responds(&h.step(PushEvent::Account(false)), PushVerdict::UnknownAccount));
}

#[test]
fn push_is_relayed_and_advances_the_watermark() {
    let mut h = parsing();
    h.step(PushEvent::Parsed(Some(pushed(None, Some(author("u1"))))));
    h.step(PushEvent::Owner(Some("https://m.example:7".to_string())));
    assert!(h.current().is_none());
    let action = h.step(PushEvent::Account(true));
    assert!(matches!(action, PushAction::Dispatch { ref account } if account == "https://m.example:7"));
    assert_eq!(h.current().unwrap().id, "c42");
    let action = h.step(PushEvent::Dispatched(DispatchOutcome::Failed("503".to_string())));
    assert!(matches!(
        action,
        PushAction::Advance { ref account, ref checkin_id }
            if account == "https://m.example:7" && checkin_id == "c42"
    ));
    assert!(h.current().is_none());
    assert!(responds(&h.step(PushEvent::Advanced), PushVerdict::Relayed));
    assert!(responds(&h.step(PushEvent::Advanced), PushVerdict::OutOfTurn));
}
