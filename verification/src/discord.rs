//! What is sent to the chat, and to whom. Sending is the caller's part.

use crate::text::{decimal_u64, parse_u64, str_eq};
use vstd::prelude::*;

verus! {

/// A channel of a guild, as far as a message is addressed by it.
#[derive(Debug)]
pub struct GuildChannel {
    pub id: u64,
    pub name: String,
}

/// A message to one channel.
#[derive(Debug)]
pub struct ChannelMessage {
    pub channel_id: u64,
    pub text: String,
}

/// A message to one user.
#[derive(Debug)]
pub struct DirectMessage {
    pub user_id: u64,
    pub text: String,
}

/// The identifiers of the channels that are called `name`, in the order of
/// `channels`.
pub open spec fn named(channels: Seq<GuildChannel>, name: Seq<char>) -> Seq<u64>
    decreases channels.len(),
{
    if channels.len() == 0 {
        Seq::empty()
    } else if channels.last().name@ == name {
        named(channels.drop_last(), name).push(channels.last().id)
    } else {
        named(channels.drop_last(), name)
    }
}

/// The channels to which a message for `channel_name` goes: every channel of
/// that name, of whatever guild, in the order in which the guilds list them.
pub fn get_channels(channels: &Vec<GuildChannel>, channel_name: &str) -> (r: Vec<u64>)
    ensures
        r@ == named(channels@, channel_name@),
{
    let mut found: Vec<u64> = Vec::new();
    let mut i: usize = 0;
    while i < channels.len()
        invariant
            i <= channels@.len(),
            found@ == named(channels@.take(i as int), channel_name@),
        decreases channels@.len() - i,
    {
        assert(channels@.take(i + 1).drop_last() =~= channels@.take(i as int));
        if str_eq(channels[i].name.as_str(), channel_name) {
            found.push(channels[i].id);
        }
        i += 1;
    }
    assert(channels@.take(i as int) =~= channels@);
    found
}

/// Whether `messages` carry `text` to each of `channels`, in their order.
pub open spec fn addressed(messages: Seq<ChannelMessage>, channels: Seq<u64>, text: Seq<char>) -> bool {
    &&& messages.len() == channels.len()
    &&& forall|i: int|
        0 <= i < messages.len() ==> (#[trigger] messages[i]).channel_id == channels[i]
            && messages[i].text@ == text
}

/// The messages that bring `message` to the channels called `channel_name`:
/// one for each such channel, in the order of `channels`, and none where
/// there is no such channel.
pub fn send_message_to_channel(
    channels: &Vec<GuildChannel>,
    channel_name: &str,
    message: &str,
) -> (r: Vec<ChannelMessage>)
    ensures
        addressed(r@, named(channels@, channel_name@), message@),
{
    let found = get_channels(channels, channel_name);
    let mut messages: Vec<ChannelMessage> = Vec::new();
    let mut i: usize = 0;
    while i < found.len()
        invariant
            i <= found@.len(),
            addressed(messages@, found@.take(i as int), message@),
        decreases found@.len() - i,
    {
        messages.push(ChannelMessage { channel_id: found[i], text: message.to_owned() });
        i += 1;
    }
    assert(found@.take(i as int) =~= found@);
    messages
}

/// The message that tells the developer `message`, where the configuration
/// names a developer: `developer_id` is the configured identifier, absent
/// where there is none. Nothing is sent where it is absent or not a number.
pub fn send_message_to_developer(developer_id: Option<&str>, message: String) -> (r: Option<
    DirectMessage,
>)
    ensures
        match r {
            Some(m) => developer_id matches Some(id) && decimal_u64(id@) == Some(m.user_id)
                && m.text == message,
            None => developer_id matches Some(id) ==> decimal_u64(id@) is None,
        },
{
    let id = match developer_id {
        Some(id) => id,
        None => {
            return None;
        },
    };
    match parse_u64(id) {
        Some(user_id) => Some(DirectMessage { user_id, text: message }),
        None => None,
    }
}

} // verus!
