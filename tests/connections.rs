use ferrischat_ws::close::{CloseCode, CloseFrame, Ending};
use ferrischat_ws::connection::{
    Action, AuthQuery, Connection, Input, Stage, StorageError, Subscription, missing_service,
};
use ferrischat_ws::registry::ConnectionRegistry;
use ferrischat_ws::topic::Topic;

const CONN: u128 = 1;
const USER: u128 = 100;
const GUILD: u128 = 500;

fn feed(conn: &mut Connection, input: Input) -> Action {
    assert!(conn.accepts(&input), "input not awaited: {:?}", input);
    conn.step(input)
}

/// Drives a connection through its setup with the given guilds.
fn subscribed_connection(guilds: Vec<u128>) -> Connection {
    let mut registry = ConnectionRegistry::new();
    registry.register(CONN, USER);
    let mut conn = Connection::new(CONN);
    assert_eq!(feed(&mut conn, Input::DirectEvent), Action::Deliver);
    assert_eq!(feed(&mut conn, Input::Written), Action::LookupUser);
    let found = registry.lookup(conn.connection_id());
    assert_eq!(
        feed(&mut conn, Input::UserFound(found)),
        Action::Subscribe(Subscription::User(USER))
    );
    assert_eq!(feed(&mut conn, Input::Subscribed(true)), Action::FetchMemberships(USER));
    let mut action = feed(&mut conn, Input::Memberships(Ok(guilds.clone())));
    for g in &guilds {
        assert_eq!(action, Action::Subscribe(Subscription::Guild(*g)));
        action = feed(&mut conn, Input::Subscribed(true));
    }
    assert_eq!(action, Action::Wait { bus: true });
    assert!(conn.is_subscribed());
    conn
}

#[test]
fn member_receives_authorized_message_event() {
    let mut conn = subscribed_connection(vec![GUILD]);
    let mut delivered = 0;
    let a = feed(&mut conn, Input::BusMessage(String::from("message_42_500")));
    assert_eq!(a, Action::Decode);
    let a = feed(&mut conn, Input::Decoded(true));
    assert_eq!(
        a,
        Action::Authorize(AuthQuery {
            topic: Topic::Message { channel_id: 42, guild_id: GUILD },
            user_id: USER,
        })
    );
    let a = feed(&mut conn, Input::Authorized(Ok(true)));
    if a == Action::Deliver {
        delivered += 1;
    }
    assert_eq!(feed(&mut conn, Input::Written), Action::Wait { bus: true });
    assert_eq!(delivered, 1);
    assert!(!conn.is_closed());
}

#[test]
fn bogus_topic_is_dropped_without_close() {
    let mut conn = subscribed_connection(vec![GUILD]);
    assert_eq!(
        feed(&mut conn, Input::BusMessage(String::from("bogus"))),
        Action::Wait { bus: true }
    );
    assert_eq!(conn.stage(), Stage::Waiting);
    assert!(!conn.is_closed());
}

#[test]
fn malformed_topics_are_dropped_without_close() {
    let mut conn = subscribed_connection(vec![GUILD]);
    for name in ["message_42", "guild_x", "member_1_2", "invite_", "channel_1_b"] {
        assert_eq!(
            feed(&mut conn, Input::BusMessage(String::from(name))),
            Action::Wait { bus: true }
        );
        assert!(!conn.is_closed());
    }
}

#[test]
fn unauthorized_event_is_not_delivered() {
    let mut conn = subscribed_connection(vec![GUILD]);
    feed(&mut conn, Input::BusMessage(String::from("guild_500")));
    feed(&mut conn, Input::Decoded(true));
    assert_eq!(feed(&mut conn, Input::Authorized(Ok(false))), Action::Wait { bus: true });
    assert!(!conn.is_closed());
}

#[test]
fn storage_failure_during_setup_closes_and_unregisters() {
    let mut registry = ConnectionRegistry::new();
    registry.register(CONN, USER);
    let mut conn = Connection::new(CONN);
    feed(&mut conn, Input::DirectEvent);
    feed(&mut conn, Input::Written);
    feed(&mut conn, Input::UserFound(registry.lookup(CONN)));
    feed(&mut conn, Input::Subscribed(true));
    let a = feed(&mut conn, Input::Memberships(Err(StorageError)));
    assert_eq!(a, Action::Close(Ending::Fatal(CloseCode::StorageSetup)));
    assert_eq!(CloseCode::StorageSetup.code(), 5000);
    let frame = Ending::Fatal(CloseCode::StorageSetup).frame(None).unwrap();
    assert_eq!(frame.code, 5000);
    assert!(conn.is_closed());
    conn.release(&mut registry);
    assert_eq!(registry.lookup(CONN), None);
}

#[test]
fn setup_runs_once() {
    let mut conn = subscribed_connection(vec![GUILD, 600]);
    assert_eq!(conn.subscriptions().len(), 3);
    for _ in 0..5 {
        assert_eq!(feed(&mut conn, Input::DirectEvent), Action::Deliver);
        assert_eq!(feed(&mut conn, Input::Written), Action::Wait { bus: true });
    }
    assert_eq!(
        conn.subscriptions(),
        &vec![Subscription::User(USER), Subscription::Guild(GUILD), Subscription::Guild(600)]
    );
}

#[test]
fn setup_starts_after_first_serviced_event_only() {
    let mut conn = Connection::new(CONN);
    assert!(!conn.accepts(&Input::BusMessage(String::from("guild_1"))));
    assert_eq!(feed(&mut conn, Input::DirectEvent), Action::Deliver);
    assert_eq!(feed(&mut conn, Input::Written), Action::LookupUser);
    assert!(!conn.accepts(&Input::DirectEvent));
    assert_eq!(conn.stage(), Stage::LookingUpUser);
}

#[test]
fn no_guilds_finishes_setup() {
    let conn = subscribed_connection(vec![]);
    assert_eq!(conn.subscriptions(), &vec![Subscription::User(USER)]);
    assert_eq!(conn.user_id(), Some(USER));
}

#[test]
fn missing_registry_entry_is_fatal() {
    let registry = ConnectionRegistry::new();
    let mut conn = Connection::new(CONN);
    feed(&mut conn, Input::DirectEvent);
    feed(&mut conn, Input::Written);
    assert_eq!(
        feed(&mut conn, Input::UserFound(registry.lookup(CONN))),
        Action::Close(Ending::Fatal(CloseCode::ConnectionNotFound))
    );
    assert_eq!(CloseCode::ConnectionNotFound.code(), 5004);
}

#[test]
fn refused_user_subscription_is_fatal() {
    let mut conn = Connection::new(CONN);
    feed(&mut conn, Input::DirectEvent);
    feed(&mut conn, Input::Written);
    feed(&mut conn, Input::UserFound(Some(USER)));
    assert_eq!(
        feed(&mut conn, Input::Subscribed(false)),
        Action::Close(Ending::Fatal(CloseCode::BusSubscribe))
    );
}

#[test]
fn refused_guild_subscription_is_fatal() {
    let mut conn = Connection::new(CONN);
    feed(&mut conn, Input::DirectEvent);
    feed(&mut conn, Input::Written);
    feed(&mut conn, Input::UserFound(Some(USER)));
    feed(&mut conn, Input::Subscribed(true));
    assert_eq!(
        feed(&mut conn, Input::Memberships(Ok(vec![1, 2, 3]))),
        Action::Subscribe(Subscription::Guild(1))
    );
    assert_eq!(
        feed(&mut conn, Input::Subscribed(true)),
        Action::Subscribe(Subscription::Guild(2))
    );
    assert_eq!(
        feed(&mut conn, Input::Subscribed(false)),
        Action::Close(Ending::Fatal(CloseCode::BusSubscribe))
    );
    assert!(!conn.is_subscribed());
}

#[test]
fn undecodable_payload_is_fatal() {
    let mut conn = subscribed_connection(vec![GUILD]);
    feed(&mut conn, Input::BusMessage(String::from("member_500")));
    assert_eq!(
        feed(&mut conn, Input::Decoded(false)),
        Action::Close(Ending::Fatal(CloseCode::InboundDecode))
    );
}

#[test]
fn storage_failure_during_authorization_is_fatal() {
    let mut conn = subscribed_connection(vec![GUILD]);
    feed(&mut conn, Input::BusMessage(String::from("invite_500")));
    feed(&mut conn, Input::Decoded(true));
    assert_eq!(
        feed(&mut conn, Input::Authorized(Err(StorageError))),
        Action::Close(Ending::Fatal(CloseCode::StorageAuthorization))
    );
}

#[test]
fn lost_bus_queue_is_fatal() {
    let mut conn = subscribed_connection(vec![GUILD]);
    assert_eq!(
        feed(&mut conn, Input::BusClosed),
        Action::Close(Ending::Fatal(CloseCode::BusLost))
    );
    assert!(!conn.accepts(&Input::DirectEvent));
}

#[test]
fn encode_failure_is_fatal() {
    let mut conn = Connection::new(CONN);
    assert_eq!(
        feed(&mut conn, Input::DirectEncodeFailed),
        Action::Close(Ending::Fatal(CloseCode::OutboundEncode))
    );
}

#[test]
fn teardown_passes_reason_verbatim() {
    let mut conn = subscribed_connection(vec![]);
    assert_eq!(feed(&mut conn, Input::Teardown), Action::Close(Ending::Requested));
    let reason = CloseFrame { code: 1000, reason: String::from("bye") };
    assert_eq!(Ending::Requested.frame(Some(reason.clone())), Some(reason));
    assert_eq!(Ending::Requested.frame(None), None);
}

#[test]
fn owner_closing_direct_channel_ends_gracefully() {
    let mut conn = Connection::new(CONN);
    assert_eq!(feed(&mut conn, Input::DirectClosed), Action::Close(Ending::OwnerClosed));
    assert_eq!(Ending::OwnerClosed.frame(None), None);
}

#[test]
fn missing_services_are_fatal() {
    assert_eq!(missing_service(false, true), Some(CloseCode::RegistryUnavailable));
    assert_eq!(missing_service(false, false), Some(CloseCode::RegistryUnavailable));
    assert_eq!(missing_service(true, false), Some(CloseCode::BusUnavailable));
    assert_eq!(missing_service(true, true), None);
}

#[test]
fn close_codes_are_distinct() {
    let all = [
        CloseCode::StorageSetup,
        CloseCode::OutboundEncode,
        CloseCode::BusUnavailable,
        CloseCode::RegistryUnavailable,
        CloseCode::ConnectionNotFound,
        CloseCode::BusSubscribe,
        CloseCode::BusLost,
        CloseCode::InboundDecode,
        CloseCode::StorageAuthorization,
    ];
    for (i, a) in all.iter().enumerate() {
        assert!(!a.reason().is_empty());
        assert_eq!(a.frame().reason, a.reason());
        for b in &all[i + 1..] {
            assert_ne!(a.code(), b.code());
        }
    }
    assert_eq!(CloseCode::BusLost.code(), 5007);
    assert_eq!(CloseCode::OutboundEncode.code(), 5001);
}

#[test]
fn subscription_patterns_of_connection() {
    assert_eq!(Subscription::User(7).pattern(), "*7*");
    assert_eq!(Subscription::Guild(500).pattern(), "*500*");
}
