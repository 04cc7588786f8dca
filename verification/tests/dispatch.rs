use swarmdon::dispatch::{
    compose_status, default_policy, dispatch_step, Channel, DispatchAction, DispatchEvent,
    DispatchOutcome, DispatchState, NoAnnotationPolicy,
};
use swarmdon::friends::FriendsMap;
use swarmdon::swarm::{SwarmCheckin, SwarmCheckinDetail, SwarmLocation, SwarmUser, SwarmVenue};

fn companion(first_name: &str, handle: &str) -> SwarmUser {
    SwarmUser {
        id: "9".to_string(),
        first_name: first_name.to_string(),
        last_name: "X".to_string(),
        handle: handle.to_string(),
    }
}

fn place(location: SwarmLocation) -> SwarmVenue {
    SwarmVenue {
        id: "v1".to_string(),
        name: "A Place".to_string(),
        location,
    }
}

fn new_york() -> SwarmLocation {
    SwarmLocation::new(
        Some("United States".to_string()),
        Some("New York".to_string()),
        Some("NY".to_string()),
    )
}

fn visit(shout: Option<&str>, with: Vec<SwarmUser>, location: SwarmLocation) -> SwarmCheckin {
    SwarmCheckin {
        id: "c1".to_string(),
        kind: "checkin".to_string(),
        private: None,
        shout: shout.map(|s| s.to_string()),
        user: None,
        venue: place(location),
        with,
    }
}

fn detail_of(url: &str) -> SwarmCheckinDetail {
    SwarmCheckinDetail {
        basic: visit(None, vec![], new_york()),
        checkin_short_url: url.to_string(),
    }
}

#[test]
fn status_with_annotation_and_location() {
    let c = visit(Some("Great coffee"), vec![], new_york());
    assert_eq!(
        compose_status(&c, &FriendsMap::new(), "https://swarm.example/c1", NoAnnotationPolicy::Skip),
        Some("Great coffee (@ A Place in New York, NY) https://swarm.example/c1".to_string())
    );
}

#[test]
fn status_with_annotation_without_location() {
    let c = visit(Some("Great coffee"), vec![], SwarmLocation::new(None, None, None));
    assert_eq!(
        compose_status(&c, &FriendsMap::new(), "https://s/c1", NoAnnotationPolicy::Announce),
        Some("Great coffee (@ A Place) https://s/c1".to_string())
    );
}

#[test]
fn status_without_annotation_follows_the_policy() {
    let c = visit(None, vec![], new_york());
    assert_eq!(
        compose_status(&c, &FriendsMap::new(), "https://s/c1", NoAnnotationPolicy::Skip),
        None
    );
    assert_eq!(
        compose_status(&c, &FriendsMap::new(), "https://s/c1", NoAnnotationPolicy::Announce),
        Some("I'm at A Place in New York, NY https://s/c1".to_string())
    );
    let bare = visit(None, vec![], SwarmLocation::new(None, None, None));
    assert_eq!(
        compose_status(&bare, &FriendsMap::new(), "https://s/c1", NoAnnotationPolicy::Announce),
        Some("I'm at A Place https://s/c1".to_string())
    );
}

#[test]
fn status_rewrites_companions_as_mentions() {
    let c = visit(
        Some("Lunch with Alex, Bob"),
        vec![companion("Alex", "alex"), companion("Bob", "bob")],
        new_york(),
    );
    let mut friends = FriendsMap::new();
    friends.insert("alex".to_string(), "alex@example.com".to_string());
    assert_eq!(
        compose_status(&c, &friends, "https://s/c1", NoAnnotationPolicy::Skip),
        Some("Lunch with @alex@example.com, Bob (@ A Place in New York, NY) https://s/c1".to_string())
    );
}

#[test]
fn policy_differs_between_push_and_poll() {
    assert_eq!(default_policy(Channel::Push), NoAnnotationPolicy::Announce);
    assert_eq!(default_policy(Channel::Poll), NoAnnotationPolicy::Skip);
}

#[test]
fn dispatch_posts_once_on_success() {
    let c = visit(Some("Hi"), vec![], new_york());
    let friends = FriendsMap::new();
    let policy = NoAnnotationPolicy::Skip;
    let (state, action) = dispatch_step(DispatchState::Ready, DispatchEvent::Begin, &c, &friends, policy);
    assert_eq!(state, DispatchState::AwaitingDetail);
    assert!(matches!(action, DispatchAction::FetchDetail(ref id) if id == "c1"));
    let (state, action) = dispatch_step(
        state,
        DispatchEvent::Detail(Ok(detail_of("https://s/c1"))),
        &c,
        &friends,
        policy,
    );
    assert_eq!(state, DispatchState::AwaitingPost);
    assert!(matches!(
        action,
        DispatchAction::Post(ref text) if text == "Hi (@ A Place in New York, NY) https://s/c1"
    ));
    let (state, action) = dispatch_step(state, DispatchEvent::PostResult(Ok(())), &c, &friends, policy);
    assert_eq!(state, DispatchState::Finished);
    assert!(matches!(action, DispatchAction::Finish(DispatchOutcome::Posted)));
}

#[test]
fn dispatch_skips_without_annotation() {
    let c = visit(Some("with Alex"), vec![companion("Alex", "alex")], new_york());
    let friends = FriendsMap::new();
    let (state, action) = dispatch_step(
        DispatchState::AwaitingDetail,
        DispatchEvent::Detail(Ok(detail_of("https://s/c1"))),
        &c,
        &friends,
        NoAnnotationPolicy::Skip,
    );
    assert_eq!(state, DispatchState::Finished);
    assert!(matches!(action, DispatchAction::Finish(DispatchOutcome::Skipped)));
}

#[test]
fn dispatch_fails_when_detail_fails() {
    let c = visit(Some("Hi"), vec![], new_york());
    let (state, action) = dispatch_step(
        DispatchState::AwaitingDetail,
        DispatchEvent::Detail(Err("timeout".to_string())),
        &c,
        &FriendsMap::new(),
        NoAnnotationPolicy::Announce,
    );
    assert_eq!(state, DispatchState::Finished);
    assert!(matches!(
        action,
        DispatchAction::Finish(DispatchOutcome::Failed(ref reason)) if reason == "timeout"
    ));
}

#[test]
fn dispatch_fails_when_post_fails() {
    let c = visit(Some("Hi"), vec![], new_york());
    let (state, action) = dispatch_step(
        DispatchState::AwaitingPost,
        DispatchEvent::PostResult(Err("503".to_string())),
        &c,
        &FriendsMap::new(),
        NoAnnotationPolicy::Skip,
    );
    assert_eq!(state, DispatchState::Finished);
    assert!(matches!(
        action,
        DispatchAction::Finish(DispatchOutcome::Failed(ref reason)) if reason == "503"
    ));
}

#[test]
fn dispatch_rejects_events_out_of_turn() {
    let c = visit(Some("Hi"), vec![], new_york());
    let friends = FriendsMap::new();
    let cases = [
        (DispatchState::Ready, DispatchEvent::PostResult(Ok(()))),
        (DispatchState::AwaitingDetail, DispatchEvent::Begin),
        (DispatchState::AwaitingPost, DispatchEvent::Detail(Ok(detail_of("u")))),
        (DispatchState::Finished, DispatchEvent::Begin),
    ];
    for (state, event) in cases {
        let (next, action) = dispatch_step(state, event, &c, &friends, NoAnnotationPolicy::Announce);
        assert_eq!(next, DispatchState::Finished);
        assert!(matches!(
            action,
            DispatchAction::Finish(DispatchOutcome::Failed(ref reason)) if reason == "out of turn"
        ));
    }
}
