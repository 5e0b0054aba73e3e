use livestream_notifier::discord::{
    get_channels, send_message_to_channel, send_message_to_developer, GuildChannel,
};

fn channel(id: u64, name: &str) -> GuildChannel {
    GuildChannel { id, name: name.to_string() }
}

#[test]
fn channels_are_found_by_name() {
    let channels = vec![
        channel(1, "general"),
        channel(2, "hololive-notifications"),
        channel(3, "hololive-stream-started"),
        channel(4, "hololive-notifications"),
        channel(5, "Hololive-Notifications"),
    ];
    assert_eq!(get_channels(&channels, "hololive-notifications"), vec![2, 4]);
    assert_eq!(get_channels(&channels, "hololive-stream-started"), vec![3]);
    assert_eq!(get_channels(&channels, "missing"), Vec::<u64>::new());
    assert_eq!(get_channels(&Vec::new(), "general"), Vec::<u64>::new());
}

#[test]
fn a_message_goes_to_every_channel_of_the_name() {
    let channels = vec![channel(1, "general"), channel(2, "news"), channel(3, "news")];
    let messages = send_message_to_channel(&channels, "news", "hello");
    assert_eq!(messages.len(), 2);
    assert_eq!((messages[0].channel_id, messages[0].text.as_str()), (2, "hello"));
    assert_eq!((messages[1].channel_id, messages[1].text.as_str()), (3, "hello"));
    assert!(send_message_to_channel(&channels, "missing", "hello").is_empty());
}

#[test]
fn the_developer_is_told_where_one_is_configured() {
    let message = send_message_to_developer(Some("123456789"), "hello".to_string()).unwrap();
    assert_eq!(message.user_id, 123_456_789);
    assert_eq!(message.text, "hello");
}

#[test]
fn nobody_is_told_without_a_developer() {
    assert!(send_message_to_developer(None, "hello".to_string()).is_none());
    assert!(send_message_to_developer(Some(""), "hello".to_string()).is_none());
    assert!(send_message_to_developer(Some("someone"), "hello".to_string()).is_none());
    assert!(send_message_to_developer(Some("-1"), "hello".to_string()).is_none());
}
