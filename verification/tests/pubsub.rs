use livestream_notifier::pubsub::{
    de_time, discover_hub, first_hub, pubsub_callback_handler, pubsub_challenge_handler, se_time,
    DiscoveryError, Feed, Fetched, HubMode, HubRequest, Link, PubSub, PubSubCallbackParams,
    PubSubError, ACCEPTED, OK,
};

/// The request for a subscription to `topic` under `token`, as `subscribe` would hand it out.
fn asked(token: u64, topic: &str) -> HubRequest {
    HubRequest {
        hub: "https://hub/".to_string(),
        callback: format!("https://host/pubsub/{}", token),
        topic: topic.to_string(),
        mode: HubMode::Subscribe,
        token,
    }
}

fn link(rel: &str, href: &str) -> Link {
    Link { rel: rel.to_string(), href: href.to_string() }
}

fn document(links: Vec<Link>) -> Fetched {
    Fetched::Document(Feed { title: "feed".to_string(), link: links, updated: None, entry: Vec::new() })
}

fn with_hub(hub: &str) -> Fetched {
    document(vec![link("self", "https://feed/A"), link("hub", hub)])
}

fn challenge(text: Option<&str>) -> PubSubCallbackParams {
    PubSubCallbackParams {
        challenge: text.map(|t| t.to_string()),
        mode: Some("subscribe".to_string()),
        topic: Some("https://feed/A".to_string()),
        lease_seconds: Some(432_000),
    }
}

#[test]
fn the_hub_is_the_link_with_the_relation_hub() {
    let fetched = document(vec![link("hub", "H")]);
    assert_eq!(discover_hub(&fetched), Ok("H".to_string()));
    let fetched = with_hub("https://pubsubhubbub.appspot.com/subscribe");
    assert_eq!(discover_hub(&fetched), Ok("https://pubsubhubbub.appspot.com/subscribe".to_string()));
}

#[test]
fn the_first_hub_wins() {
    let links = vec![link("alternate", "A"), link("hub", "first"), link("hub", "second")];
    assert_eq!(first_hub(&links), Some(1));
    assert_eq!(discover_hub(&document(links)), Ok("first".to_string()));
}

#[test]
fn a_document_without_hub_fails_discovery() {
    assert_eq!(discover_hub(&document(Vec::new())), Err(DiscoveryError::NoHub));
    let links = vec![link("self", "S"), link("Hub", "H"), link("hub ", "H"), link("", "H")];
    assert_eq!(first_hub(&links), None);
    assert_eq!(discover_hub(&document(links)), Err(DiscoveryError::NoHub));
}

#[test]
fn a_failed_fetch_fails_discovery() {
    assert_eq!(discover_hub(&Fetched::InvalidUrl), Err(DiscoveryError::InvalidUrl));
    assert_eq!(discover_hub(&Fetched::Unreachable), Err(DiscoveryError::Fetch));
    assert_eq!(discover_hub(&Fetched::Malformed), Err(DiscoveryError::Parse));
}

#[test]
fn the_challenge_is_echoed() {
    assert_eq!(pubsub_challenge_handler(&challenge(Some("XYZ"))), (200, "XYZ".to_string()));
    assert_eq!(pubsub_challenge_handler(&challenge(Some(""))), (200, String::new()));
    assert_eq!(pubsub_challenge_handler(&challenge(Some(" a b\n"))), (200, " a b\n".to_string()));
}

#[test]
fn a_request_without_challenge_gets_an_empty_body() {
    assert_eq!(pubsub_challenge_handler(&challenge(None)), (200, String::new()));
    let bare = PubSubCallbackParams { challenge: None, mode: None, topic: None, lease_seconds: None };
    assert_eq!(pubsub_challenge_handler(&bare), (OK, String::new()));
}

#[test]
fn the_challenge_is_echoed_whatever_the_subscriptions() {
    // the reply is made from the request alone; the state of the subscriber is not even looked at
    let mut pubsub: PubSub<u8> = PubSub::new("/pubsub");
    let before = pubsub_challenge_handler(&challenge(Some("XYZ")));
    let request = pubsub.subscribe("https://host", "https://feed/A", &with_hub("H")).unwrap();
    let pending = pubsub_challenge_handler(&challenge(Some("XYZ")));
    pubsub.complete_subscribe(&request, 202, "", 1).unwrap();
    let active = pubsub_challenge_handler(&challenge(Some("XYZ")));
    assert_eq!(before, (200, "XYZ".to_string()));
    assert_eq!(pending, before);
    assert_eq!(active, before);
    assert_eq!(pubsub.get_subscription_id("https://feed/A"), Some(1));
}

#[test]
fn tokens_count_up_from_one() {
    let mut pubsub: PubSub<u8> = PubSub::new("/pubsub");
    assert_eq!(pubsub.get_next_subscription_id(), Some(1));
    assert_eq!(pubsub.get_next_subscription_id(), Some(2));
    assert_eq!(pubsub.get_next_subscription_id(), Some(3));
}

#[test]
fn tokens_run_out() {
    let mut pubsub: PubSub<u8> = PubSub::new("/pubsub");
    pubsub.complete_subscribe(&asked(u64::MAX, "https://feed/A"), 202, "", 1).unwrap();
    assert_eq!(pubsub.get_next_subscription_id(), None);
    assert!(matches!(
        pubsub.subscribe("https://host", "https://feed/B", &with_hub("H")),
        Err(PubSubError::TokensExhausted)
    ));
    assert_eq!(pubsub.get_subscription_id("https://feed/A"), Some(u64::MAX));
}

#[test]
fn the_callback_address_ends_in_the_token() {
    let pubsub: PubSub<u8> = PubSub::new("/pubsub");
    assert_eq!(pubsub.get_pubsub_callback_url("https://host", 7), "https://host/pubsub/7");
    assert_eq!(pubsub.get_pubsub_callback_url("", 0), "/pubsub/0");
    assert_eq!(
        pubsub.get_pubsub_callback_url("https://host", u64::MAX),
        "https://host/pubsub/18446744073709551615"
    );
    assert_eq!(pubsub.route(), "/pubsub/:subscription_id");
    let root: PubSub<u8> = PubSub::new("");
    assert_eq!(root.get_pubsub_callback_url("https://host", 12), "https://host/12");
    assert_eq!(root.route(), "/:subscription_id");
}

#[test]
fn subscribing_asks_the_hub() {
    let mut pubsub: PubSub<u8> = PubSub::new("/pubsub");
    let request = pubsub.subscribe("https://host", "https://feed/A", &with_hub("https://hub/")).unwrap();
    assert_eq!(request.hub, "https://hub/");
    assert_eq!(request.callback, "https://host/pubsub/1");
    assert_eq!(request.topic, "https://feed/A");
    assert_eq!(request.mode, HubMode::Subscribe);
    assert_eq!(request.token, 1);
    assert_eq!(
        request.form(),
        vec![
            ("hub.callback".to_string(), "https://host/pubsub/1".to_string()),
            ("hub.topic".to_string(), "https://feed/A".to_string()),
            ("hub.mode".to_string(), "subscribe".to_string()),
        ]
    );
    // nothing is recorded before the hub has answered
    assert_eq!(pubsub.get_subscription_id("https://feed/A"), None);
}

#[test]
fn subscribing_without_hub_fails_and_spends_the_token() {
    let mut pubsub: PubSub<u8> = PubSub::new("/pubsub");
    assert!(matches!(
        pubsub.subscribe("https://host", "https://feed/A", &document(Vec::new())),
        Err(PubSubError::Discovery(DiscoveryError::NoHub))
    ));
    assert!(matches!(
        pubsub.subscribe("https://host", "https://feed/A", &Fetched::Unreachable),
        Err(PubSubError::Discovery(DiscoveryError::Fetch))
    ));
    assert!(matches!(
        pubsub.subscribe("https://host", "not a url", &Fetched::InvalidUrl),
        Err(PubSubError::Discovery(DiscoveryError::InvalidUrl))
    ));
    assert!(matches!(
        pubsub.subscribe("https://host", "https://feed/A", &Fetched::Malformed),
        Err(PubSubError::Discovery(DiscoveryError::Parse))
    ));
    let request = pubsub.subscribe("https://host", "https://feed/A", &with_hub("H")).unwrap();
    assert_eq!(request.token, 5);
}

#[test]
fn only_202_is_an_acceptance() {
    for status in [0u16, 200, 201, 203, 204, 301, 400, 404, 500, u16::MAX] {
        let mut pubsub: PubSub<u8> = PubSub::new("/pubsub");
        let request = pubsub.subscribe("https://host", "https://feed/A", &with_hub("H")).unwrap();
        match pubsub.complete_subscribe(&request, status, "the raw response", 1) {
            Err(PubSubError::SubscriptionRejected { status: kept, response }) => {
                assert_eq!(kept, status);
                assert_eq!(response, "the raw response");
            }
            other => panic!("{:?}", other),
        }
        assert_eq!(pubsub.get_subscription_id("https://feed/A"), None);
        assert_eq!(pubsub.take("1"), None);
    }
    let mut pubsub: PubSub<u8> = PubSub::new("/pubsub");
    let request = pubsub.subscribe("https://host", "https://feed/A", &with_hub("H")).unwrap();
    assert!(pubsub.complete_subscribe(&request, ACCEPTED, "", 1).is_ok());
    assert_eq!(pubsub.get_subscription_id("https://feed/A"), Some(1));
}

#[test]
fn unsubscribing_needs_a_subscription() {
    let mut pubsub: PubSub<u8> = PubSub::new("/pubsub");
    // without a subscription the answer is the same whatever the fetch came to
    for fetched in [
        with_hub("H"),
        document(Vec::new()),
        Fetched::Unreachable,
        Fetched::Malformed,
        Fetched::InvalidUrl,
    ] {
        assert!(matches!(
            pubsub.unsubscribe("https://host", "https://feed/A", &fetched),
            Err(PubSubError::NotSubscribed)
        ));
    }
    let request = pubsub.subscribe("https://host", "https://feed/A", &with_hub("H")).unwrap();
    // asked for, but not accepted by the hub yet
    assert!(matches!(
        pubsub.unsubscribe("https://host", "https://feed/A", &with_hub("H")),
        Err(PubSubError::NotSubscribed)
    ));
    pubsub.complete_subscribe(&request, 202, "", 1).unwrap();
    assert!(matches!(
        pubsub.unsubscribe("https://host", "https://feed/B", &with_hub("H")),
        Err(PubSubError::NotSubscribed)
    ));
    assert!(matches!(
        pubsub.unsubscribe("https://host", "https://feed/B", &Fetched::Unreachable),
        Err(PubSubError::NotSubscribed)
    ));
    assert_eq!(pubsub.len(), 1);
}

#[test]
fn unsubscribing_from_a_feed_without_hub_fails_discovery() {
    let mut pubsub: PubSub<u8> = PubSub::new("/pubsub");
    let request = pubsub.subscribe("https://host", "https://feed/A", &with_hub("H")).unwrap();
    pubsub.complete_subscribe(&request, 202, "", 1).unwrap();
    assert!(matches!(
        pubsub.unsubscribe("https://host", "https://feed/A", &Fetched::Unreachable),
        Err(PubSubError::Discovery(DiscoveryError::Fetch))
    ));
    assert!(matches!(
        pubsub.unsubscribe("https://host", "https://feed/A", &document(Vec::new())),
        Err(PubSubError::Discovery(DiscoveryError::NoHub))
    ));
    assert!(matches!(
        pubsub.unsubscribe("https://host", "https://feed/A", &Fetched::Malformed),
        Err(PubSubError::Discovery(DiscoveryError::Parse))
    ));
    assert!(matches!(
        pubsub.unsubscribe("https://host", "https://feed/A", &Fetched::InvalidUrl),
        Err(PubSubError::Discovery(DiscoveryError::InvalidUrl))
    ));
    // the subscription is still there
    assert_eq!(pubsub.get_subscription_id("https://feed/A"), Some(1));
}

#[test]
fn unsubscribing_asks_the_hub_and_removes_on_acceptance() {
    let mut pubsub: PubSub<u8> = PubSub::new("/pubsub");
    let request = pubsub.subscribe("https://host", "https://feed/A", &with_hub("H")).unwrap();
    pubsub.complete_subscribe(&request, 202, "", 1).unwrap();
    let request = pubsub.unsubscribe("https://host", "https://feed/A", &with_hub("H2")).unwrap();
    assert_eq!(request.hub, "H2");
    assert_eq!(request.callback, "https://host/pubsub/1");
    assert_eq!(request.topic, "https://feed/A");
    assert_eq!(request.mode, HubMode::Unsubscribe);
    assert_eq!(request.token, 1);
    assert_eq!(request.form()[2], ("hub.mode".to_string(), "unsubscribe".to_string()));
    // nothing is removed before the hub has answered
    assert_eq!(pubsub.get_subscription_id("https://feed/A"), Some(1));
    match pubsub.complete_unsubscribe(&request, 500, "busy") {
        Err(PubSubError::SubscriptionRejected { status, response }) => {
            assert_eq!(status, 500);
            assert_eq!(response, "busy");
        }
        other => panic!("{:?}", other),
    }
    assert_eq!(pubsub.get_subscription_id("https://feed/A"), Some(1));
    assert!(pubsub.complete_unsubscribe(&request, 202, "").is_ok());
    assert_eq!(pubsub.get_subscription_id("https://feed/A"), None);
    assert_eq!(pubsub.take("1"), None);
    // accepted again, with nothing left to remove
    assert!(pubsub.complete_unsubscribe(&request, 202, "").is_ok());
}

#[test]
fn the_lowest_token_of_a_topic_is_found() {
    let mut pubsub: PubSub<u8> = PubSub::new("/pubsub");
    for token in [9u64, 3, 7, 5] {
        pubsub.complete_subscribe(&asked(token, "https://feed/A"), 202, "", token as u8).unwrap();
        pubsub.complete_subscribe(&asked(token + 100, "https://feed/B"), 202, "", 0).unwrap();
    }
    assert_eq!(pubsub.get_subscription_id("https://feed/A"), Some(3));
    assert_eq!(pubsub.get_subscription_id("https://feed/B"), Some(103));
    assert_eq!(pubsub.get_subscription_id("https://feed/C"), None);
    pubsub.complete_unsubscribe(&asked(0, "https://feed/A"), 202, "").unwrap();
    assert_eq!(pubsub.get_subscription_id("https://feed/A"), Some(5));
    // a token beyond the last one handed out moves the counter past it
    assert_eq!(pubsub.get_next_subscription_id(), Some(110));
}

#[test]
fn an_accepted_subscription_is_recorded_with_its_hub() {
    let mut pubsub: PubSub<u8> = PubSub::new("/pubsub");
    let request = pubsub.subscribe("https://host", "https://feed/A", &with_hub("https://hub/one")).unwrap();
    assert_eq!(request.hub, "https://hub/one");
    pubsub.complete_subscribe(&request, 202, "", 1).unwrap();
    assert_eq!(pubsub.hub_of(1), Some("https://hub/one".to_string()));
    assert_eq!(pubsub.topic_of(1), Some("https://feed/A".to_string()));
    assert_eq!(pubsub.hub_of(2), None);
    assert_eq!(pubsub.topic_of(2), None);
    assert_eq!(pubsub.len(), 1);
}

#[test]
fn a_push_takes_the_handler_once() {
    let mut pubsub: PubSub<&'static str> = PubSub::new("/pubsub");
    let request = pubsub.subscribe("https://host", "https://feed/A", &with_hub("H")).unwrap();
    pubsub.complete_subscribe(&request, 202, "", "handler").unwrap();
    let first = pubsub_callback_handler(&mut pubsub, "1", "payload".to_string());
    assert_eq!(first.status, 200);
    assert_eq!(first.handler, Some("handler"));
    assert_eq!(first.payload, "payload");
    let second = pubsub_callback_handler(&mut pubsub, "1", "payload".to_string());
    assert_eq!(second.status, 200);
    assert_eq!(second.handler, None);
    assert_eq!(second.payload, "payload");
}

#[test]
fn of_two_pushes_to_any_token_the_second_reaches_nothing() {
    let mut pubsub: PubSub<u64> = PubSub::new("/pubsub");
    let tokens = [1u64, 2, 3, 10, 99, 100, 12_345, u64::MAX - 1, u64::MAX];
    for token in tokens {
        pubsub.complete_subscribe(&asked(token, "https://feed/A"), 202, "", token).unwrap();
    }
    for token in tokens {
        let text = token.to_string();
        let first = pubsub_callback_handler(&mut pubsub, &text, "payload".to_string());
        assert_eq!((first.status, first.handler), (200, Some(token)));
        let second = pubsub_callback_handler(&mut pubsub, &text, "payload".to_string());
        assert_eq!((second.status, second.handler), (200, None));
    }
    assert_eq!(pubsub.len(), 0);
}

#[test]
fn a_push_to_an_unknown_token_is_acknowledged() {
    let mut pubsub: PubSub<u8> = PubSub::new("/pubsub");
    pubsub.complete_subscribe(&asked(1, "https://feed/A"), 202, "", 1).unwrap();
    for token in ["2", "0", "18446744073709551615", "18446744073709551616", "", "abc", "1a", "-1", "1/2", " 1"] {
        let delivery = pubsub_callback_handler(&mut pubsub, token, "payload".to_string());
        assert_eq!(delivery.status, 200, "{:?}", token);
        assert_eq!(delivery.handler, None, "{:?}", token);
    }
    // the subscription is still there
    assert_eq!(pubsub.take("1"), Some(1));
}

#[test]
fn a_push_to_a_never_allocated_token_reaches_nothing() {
    let mut pubsub: PubSub<u8> = PubSub::new("/pubsub");
    let delivery = pubsub_callback_handler(&mut pubsub, "1", "payload".to_string());
    assert_eq!(delivery.status, 200);
    assert_eq!(delivery.handler, None);
    let request = pubsub.subscribe("https://host", "https://feed/A", &with_hub("H")).unwrap();
    // handed out, but not accepted by the hub yet
    let delivery = pubsub_callback_handler(&mut pubsub, "1", "payload".to_string());
    assert_eq!(delivery.handler, None);
    pubsub.complete_subscribe(&request, 202, "", 9).unwrap();
    let delivery = pubsub_callback_handler(&mut pubsub, "2", "payload".to_string());
    assert_eq!(delivery.status, 200);
    assert_eq!(delivery.handler, None);
}

#[test]
fn the_token_is_read_as_a_number() {
    let mut pubsub: PubSub<u8> = PubSub::new("/pubsub");
    pubsub.complete_subscribe(&asked(7, "https://feed/A"), 202, "", 1).unwrap();
    pubsub.complete_subscribe(&asked(8, "https://feed/B"), 202, "", 2).unwrap();
    assert_eq!(pubsub.take("007"), Some(1));
    assert_eq!(pubsub.take("+8"), Some(2));
}

#[test]
fn subscribe_verify_and_deliver() {
    let mut pubsub: PubSub<Box<dyn FnOnce(String) -> String>> = PubSub::new("/pubsub");
    // the stub hub answers 202
    let request = pubsub.subscribe("https://host", "https://feed/A", &with_hub("https://hub/")).unwrap();
    assert_eq!(request.form()[1].1, "https://feed/A");
    let token = request.callback.rsplit('/').next().unwrap().to_string();
    pubsub
        .complete_subscribe(&request, 202, "", Box::new(|payload| format!("got {}", payload)))
        .unwrap();
    // the hub verifies
    assert_eq!(pubsub_challenge_handler(&challenge(Some("abc123"))), (200, "abc123".to_string()));
    // the hub pushes
    let payload = "<feed><entry><updated>2015-03-06T21:40:57+00:00</updated></entry></feed>";
    let first = pubsub_callback_handler(&mut pubsub, &token, payload.to_string());
    assert_eq!(first.status, 200);
    assert_eq!(first.payload, payload);
    let handler = first.handler.expect("the handler of the subscription");
    assert_eq!(handler(first.payload), format!("got {}", payload));
    // and pushes the same again
    let second = pubsub_callback_handler(&mut pubsub, &token, payload.to_string());
    assert_eq!(second.status, 200);
    assert!(second.handler.is_none());
}

#[test]
fn instants_are_read_from_rfc3339() {
    assert_eq!(de_time("2015-03-06T21:40:57+00:00"), Some(1_425_678_057_000));
    assert_eq!(de_time("2015-03-06T21:40:57Z"), Some(1_425_678_057_000));
    assert_eq!(de_time("1996-12-19T16:39:57-08:00"), Some(851_042_397_000));
    assert_eq!(de_time("1970-01-01T00:00:00.250Z"), Some(250));
    assert_eq!(de_time("1969-12-31T23:59:59Z"), Some(-1000));
}

#[test]
fn what_is_no_instant_reads_as_none() {
    assert_eq!(de_time(""), None);
    assert_eq!(de_time("yesterday"), None);
    assert_eq!(de_time("2015-03-06"), None);
    assert_eq!(de_time("2015-13-06T21:40:57Z"), None);
    assert_eq!(de_time("1425678057000"), None);
}

#[test]
fn instants_are_written_as_rfc3339() {
    assert_eq!(se_time(Some(1_425_678_057_000)), "2015-03-06T21:40:57+00:00");
    assert_eq!(se_time(Some(0)), "1970-01-01T00:00:00+00:00");
    assert_eq!(se_time(Some(250)), "1970-01-01T00:00:00.250+00:00");
    assert_eq!(se_time(None), "");
    assert_eq!(se_time(Some(i64::MAX)), "");
}

#[test]
fn written_instants_read_back() {
    for millis in [0i64, 1, 999, 1_425_678_057_000, -1, -86_400_000, 253_402_300_799_999] {
        assert_eq!(de_time(&se_time(Some(millis))), Some(millis));
    }
}
