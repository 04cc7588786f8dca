use swarmdon::account::{
    account_key, parse_user_cookie, set_cookie_line, user_cookie_value, MastodonData, User,
};
use swarmdon::friends::{parse_friends_map, FriendsMap, FriendsMapError};
use swarmdon::swarm::{get_last_checkin, SwarmCheckin, SwarmLocation, SwarmUserApi, SwarmVenue};
use swarmdon::watermark::{Watermark, WatermarkStore};
use swarmdon::web::{
    check_instance_url, instance_url, mastodon_redirect_uri, normalize_instance_url, starts_with,
    swarm_callback_url, InstanceUrlError, SwarmApi,
};

fn data() -> MastodonData {
    MastodonData {
        base: "https://m.example".to_string(),
        client_id: "id".to_string(),
        client_secret: "secret".to_string(),
        redirect: "https://r.example".to_string(),
        token: "tok".to_string(),
    }
}

fn checkin(id: &str) -> SwarmCheckin {
    SwarmCheckin {
        id: id.to_string(),
        kind: "checkin".to_string(),
        private: None,
        shout: None,
        user: None,
        venue: SwarmVenue {
            id: "v".to_string(),
            name: "A Place".to_string(),
            location: SwarmLocation::new(None, None, None),
        },
        with: vec![],
    }
}

#[test]
fn friends_map_is_read_line_by_line() {
    let map = parse_friends_map("alex=alex@example.com\r\nbob=bob@example.org\nalex=a@b=c\n").unwrap();
    assert_eq!(map.get("alex"), Some(&"a@b=c".to_string()));
    assert_eq!(map.get("bob"), Some(&"bob@example.org".to_string()));
    assert_eq!(map.get("carol"), None);
    assert!(map.contains_key("bob"));
    assert!(!map.contains_key("bo"));
}

#[test]
fn friends_map_of_empty_text_is_empty() {
    let map = parse_friends_map("").unwrap();
    assert!(!map.contains_key(""));
}

#[test]
fn friends_map_reports_the_first_line_without_equals() {
    assert!(matches!(
        parse_friends_map("a=b\n\nc=d\nnope\n"),
        Err(FriendsMapError::InvalidLine(1))
    ));
    assert!(matches!(
        parse_friends_map("nope"),
        Err(FriendsMapError::InvalidLine(0))
    ));
}

#[test]
fn friends_map_insert_replaces() {
    let mut map = FriendsMap::new();
    map.insert("alex".to_string(), "one".to_string());
    map.insert("alex".to_string(), "two".to_string());
    assert_eq!(map.get("alex"), Some(&"two".to_string()));
}

#[test]
fn watermark_store_overwrites_and_snapshots() {
    let mut store = WatermarkStore::new();
    assert!(store.snapshot().is_empty());
    store.advance("a", "1");
    store.advance("b", "7");
    store.advance("a", "2");
    assert_eq!(store.get("a"), Some(&"2".to_string()));
    assert_eq!(store.get("b"), Some(&"7".to_string()));
    assert_eq!(store.get("c"), None);
    let mut snapshot: Vec<(String, String)> = store
        .snapshot()
        .into_iter()
        .map(|w| (w.account, w.checkin_id))
        .collect();
    snapshot.sort();
    assert_eq!(
        snapshot,
        vec![
            ("a".to_string(), "2".to_string()),
            ("b".to_string(), "7".to_string())
        ]
    );
}

#[test]
fn unset_watermark_is_empty() {
    let w = Watermark::unset("a".to_string());
    assert_eq!(w.account, "a");
    assert_eq!(w.checkin_id, "");
}

#[test]
fn watermark_store_from_entries_keeps_the_last_of_each_account() {
    let store = WatermarkStore::from_entries(&vec![
        Watermark { account: "a".to_string(), checkin_id: "1".to_string() },
        Watermark { account: "b".to_string(), checkin_id: "5".to_string() },
        Watermark { account: "a".to_string(), checkin_id: "3".to_string() },
    ]);
    assert_eq!(store.get("a"), Some(&"3".to_string()));
    assert_eq!(store.get("b"), Some(&"5".to_string()));
    assert_eq!(store.snapshot().len(), 2);
}

#[test]
fn account_texts_have_their_formats() {
    assert_eq!(account_key("https://m.example/", "42"), "https://m.example/:42");
    assert_eq!(user_cookie_value("https://m.example/", "42"), "https://m.example/|42");
    assert_eq!(
        set_cookie_line("user", "abc"),
        "user=abc; Path=/; HttpOnly; Max-Age=604800; Secure"
    );
}

#[test]
fn user_cookie_round_trips() {
    let value = user_cookie_value("https://m.example/", "42|x");
    assert_eq!(
        parse_user_cookie(&value),
        Some(("https://m.example/".to_string(), "42|x".to_string()))
    );
    assert_eq!(parse_user_cookie("no bar"), None);
}

#[test]
fn user_keeps_the_destination_when_the_origin_is_linked() {
    let mut user = User::new(data());
    assert_eq!(user.swarm_id, "");
    assert_eq!(user.swarm_access_token, "");
    user.link_swarm("u1".to_string(), "tok1".to_string());
    assert_eq!(user.swarm_id, "u1");
    assert_eq!(user.mastodon.base, "https://m.example");
    assert_eq!(user.get_swarm().access_token, "tok1");
}

#[test]
fn swarm_endpoints_have_their_formats() {
    let api = SwarmUserApi::new("TOKEN".to_string());
    assert_eq!(
        api.me_endpoint(),
        "https://api.foursquare.com/v2/users/self?v=20220722&oauth_token=TOKEN"
    );
    assert_eq!(
        api.checkins_endpoint(),
        "https://api.foursquare.com/v2/users/self/checkins?v=20220722&oauth_token=TOKEN"
    );
    assert_eq!(
        api.checkin_endpoint("c1"),
        "https://api.foursquare.com/v2/checkins/c1?v=20220722&oauth_token=TOKEN"
    );
    assert_eq!(
        api.endpoint("/x"),
        "https://api.foursquare.com/v2/x?v=20220722&oauth_token=TOKEN"
    );
}

#[test]
fn last_checkin_is_the_newest_of_the_feed() {
    assert_eq!(
        get_last_checkin(&vec![checkin("9"), checkin("8")], "u1"),
        Ok("9".to_string())
    );
    assert_eq!(
        get_last_checkin(&vec![], "u1"),
        Err("no checkins found for user u1".to_string())
    );
}

#[test]
fn instance_url_gets_https_and_is_parsed() {
    assert_eq!(normalize_instance_url("m.example"), "https://m.example");
    assert_eq!(normalize_instance_url("https://m.example"), "https://m.example");
    assert_eq!(normalize_instance_url("http://m.example"), "https://http://m.example");
    assert_eq!(instance_url("m.example").unwrap(), "https://m.example/");
    assert_eq!(instance_url("https://M.Example/a b").unwrap(), "https://m.example/a%20b");
    assert!(matches!(
        instance_url(""),
        Err(InstanceUrlError::Unparsable(ref message)) if message == "empty host"
    ));
    assert!(matches!(instance_url("https:"), Err(InstanceUrlError::Unparsable(_))));
}

#[test]
fn instance_url_must_use_https() {
    assert!(matches!(
        check_instance_url(Ok("http://m.example/".to_string())),
        Err(InstanceUrlError::NotHttps)
    ));
    assert!(matches!(
        check_instance_url(Ok("https://m.example/".to_string())),
        Ok(ref text) if text == "https://m.example/"
    ));
    assert!(matches!(
        check_instance_url(Err("empty host".to_string())),
        Err(InstanceUrlError::Unparsable(ref message)) if message == "empty host"
    ));
    assert!(starts_with("https://x", "https:"));
    assert!(!starts_with("http", "https:"));
    assert!(starts_with("abc", ""));
}

#[test]
fn callback_addresses_are_built_from_the_base() {
    assert_eq!(
        mastodon_redirect_uri("https://127.0.0.1:8000"),
        "https://127.0.0.1:8000/mastodon/callback"
    );
    assert_eq!(
        swarm_callback_url("https://127.0.0.1:8000"),
        Ok("https://127.0.0.1:8000/swarm/callback".to_string())
    );
    assert_eq!(
        swarm_callback_url("not an address"),
        Err("relative URL without a base".to_string())
    );
}

#[test]
fn authorization_addresses_carry_their_parameters() {
    let api = SwarmApi::new(
        "CLIENT".to_string(),
        "SECRET".to_string(),
        "https://127.0.0.1:8000/swarm/callback".to_string(),
    );
    assert_eq!(
        api.get_authenticate_url(),
        Some(
            "https://foursquare.com/oauth2/authenticate?client_id=CLIENT&response_type=code&redirect_uri=https%3A%2F%2F127.0.0.1%3A8000%2Fswarm%2Fcallback"
                .to_string()
        )
    );
    assert_eq!(
        api.get_access_token_url("a b"),
        Some(
            "https://foursquare.com/oauth2/access_token?client_id=CLIENT&client_secret=SECRET&grant_type=authorization_code&redirect_uri=https%3A%2F%2F127.0.0.1%3A8000%2Fswarm%2Fcallback&code=a+b"
                .to_string()
        )
    );
}
