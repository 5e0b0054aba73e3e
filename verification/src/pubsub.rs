//! The WebSub subscriber: hub discovery, the subscribe and unsubscribe
//! handshakes, and the callback endpoints.
//!
//! Nothing here touches the network. The caller fetches the feed document,
//! posts the request that `subscribe` or `unsubscribe` hands out, and reports
//! what came back; the callback endpoints are functions from a request to the
//! reply that the HTTP layer sends.

use crate::clock::{parse_rfc3339, rfc3339_millis, rfc3339_text, write_rfc3339};
use crate::text::{
    decimal, decimal_u64, lemma_decimal_roundtrip, parse_u64, push_decimal, str_eq,
};
use std::collections::HashMap;
use vstd::prelude::*;
use vstd::string::*;

verus! {

broadcast use vstd::std_specs::hash::group_hash_axioms;

/// The content type of a request to a hub.
pub const FORM_CONTENT_TYPE: &'static str = "application/x-www-form-urlencoded";

/// The status with which a hub accepts a request.
pub const ACCEPTED: u16 = 202;

/// The status of every reply of the callback endpoints.
pub const OK: u16 = 200;

/// A link of a feed or of an entry.
#[derive(Debug)]
pub struct Link {
    pub rel: String,
    pub href: String,
}

/// The author of an entry.
#[derive(Debug)]
pub struct Author {
    pub name: String,
    pub uri: String,
}

/// An entry of a feed. `published` and `updated` are instants in
/// milliseconds since the epoch, absent where the document gave none that
/// could be read.
#[derive(Debug)]
pub struct Entry {
    pub id: String,
    pub video_id: String,
    pub channel_id: String,
    pub title: String,
    pub link: Link,
    pub author: Author,
    pub published: Option<i64>,
    pub updated: Option<i64>,
}

/// A feed document.
#[derive(Debug)]
pub struct Feed {
    pub title: String,
    pub link: Vec<Link>,
    pub updated: Option<i64>,
    pub entry: Vec<Entry>,
}

/// What an attempt to fetch and read a feed document came to.
#[derive(Debug)]
pub enum Fetched {
    /// The topic is not a URL.
    InvalidUrl,
    /// The document could not be fetched.
    Unreachable,
    /// What was fetched is not a feed document.
    Malformed,
    /// The document.
    Document(Feed),
}

/// Why no hub was found for a topic.
#[derive(Clone, Copy, Debug, PartialEq, Eq, Structural)]
pub enum DiscoveryError {
    /// The topic is not a URL.
    InvalidUrl,
    /// The feed document could not be fetched.
    Fetch,
    /// The feed document could not be read.
    Parse,
    /// The feed document names no hub.
    NoHub,
}

/// A request to the subscriber that did not go through.
#[derive(Debug)]
pub enum PubSubError {
    /// No hub was found for the topic.
    Discovery(DiscoveryError),
    /// The hub answered with a status other than 202; `response` is what the
    /// caller kept of the answer, for diagnostics.
    SubscriptionRejected { status: u16, response: String },
    /// There is no subscription to the topic.
    NotSubscribed,
    /// Every correlation token has been handed out.
    TokensExhausted,
}

/// The query of a verification request from a hub.
#[derive(Debug)]
pub struct PubSubCallbackParams {
    pub challenge: Option<String>,
    pub mode: Option<String>,
    pub topic: Option<String>,
    pub lease_seconds: Option<i64>,
}

/// What a request asks of the hub.
#[derive(Clone, Copy, Debug, PartialEq, Eq, Structural)]
pub enum HubMode {
    Subscribe,
    Unsubscribe,
}

/// A request to post to a hub, form-encoded, with the content type
/// `FORM_CONTENT_TYPE`.
#[derive(Debug)]
pub struct HubRequest {
    /// The address of the hub.
    pub hub: String,
    /// The field `hub.callback`.
    pub callback: String,
    /// The field `hub.topic`.
    pub topic: String,
    /// The field `hub.mode`.
    pub mode: HubMode,
    /// The correlation token that `callback` ends in.
    pub token: u64,
}

/// A subscription: the topic it is to, the hub that accepted it, and the
/// handler that takes the first payload pushed for it. It is held from the
/// hub's acceptance until that first push, or until it is given up.
pub struct Subscription<H> {
    pub topic: String,
    pub hub: String,
    pub handler: H,
}

/// What a push to the callback of a token hands out.
pub struct Delivery<H> {
    /// The status of the reply to the hub: always 200.
    pub status: u16,
    /// The handler to run on the payload, where the token had one.
    pub handler: Option<H>,
    /// The payload as it was pushed.
    pub payload: String,
}

/// Reads the instant of a feed or an entry, in milliseconds since the epoch,
/// from the RFC 3339 text that the document gives; `None` where the text is
/// no such date and time.
pub fn de_time(text: &str) -> (r: Option<i64>)
    ensures
        r == rfc3339_millis(text@),
{
    parse_rfc3339(text)
}

/// The text that `se_time` writes.
pub open spec fn time_text(instant: Option<i64>) -> Seq<char> {
    match instant {
        Some(millis) => match rfc3339_text(millis) {
            Some(text) => text,
            None => Seq::empty(),
        },
        None => Seq::empty(),
    }
}

/// Writes an instant as RFC 3339 text in UTC; the empty text for no instant,
/// and for one that the calendar cannot hold.
pub fn se_time(instant: Option<i64>) -> (r: String)
    ensures
        r@ == time_text(instant),
{
    match instant {
        Some(millis) => match write_rfc3339(millis) {
            Some(text) => text,
            None => String::new(),
        },
        None => String::new(),
    }
}

/// Whether the link names a hub.
pub open spec fn is_hub(link: Link) -> bool {
    link.rel@ == "hub"@
}

/// Whether the `i`-th link is the first that names a hub.
pub open spec fn first_hub_at(links: Seq<Link>, i: int) -> bool {
    &&& 0 <= i < links.len()
    &&& is_hub(links[i])
    &&& forall|j: int| 0 <= j < i ==> !is_hub(#[trigger] links[j])
}

/// Whether no link names a hub.
pub open spec fn no_hub(links: Seq<Link>) -> bool {
    forall|j: int| 0 <= j < links.len() ==> !is_hub(#[trigger] links[j])
}

/// What discovery comes to: the address in the first link of the document
/// whose relation is `hub`, or the reason why there is none.
pub open spec fn discovered(fetched: Fetched, r: Result<String, DiscoveryError>) -> bool {
    match fetched {
        Fetched::InvalidUrl => r == Err::<String, DiscoveryError>(DiscoveryError::InvalidUrl),
        Fetched::Unreachable => r == Err::<String, DiscoveryError>(DiscoveryError::Fetch),
        Fetched::Malformed => r == Err::<String, DiscoveryError>(DiscoveryError::Parse),
        Fetched::Document(feed) => match r {
            Ok(hub) => exists|i: int| first_hub_at(feed.link@, i) && hub@ == feed.link@[i].href@,
            Err(e) => e == DiscoveryError::NoHub && no_hub(feed.link@),
        },
    }
}

/// The place of the first link that names a hub.
pub fn first_hub(links: &Vec<Link>) -> (r: Option<usize>)
    ensures
        match r {
            Some(i) => first_hub_at(links@, i as int),
            None => no_hub(links@),
        },
{
    let mut i: usize = 0;
    while i < links.len()
        invariant
            i <= links@.len(),
            forall|j: int| 0 <= j < i ==> !is_hub(#[trigger] links@[j]),
        decreases links@.len() - i,
    {
        if str_eq(links[i].rel.as_str(), "hub") {
            return Some(i);
        }
        i += 1;
    }
    None
}

/// Finds the hub of a feed in what fetching its document came to.
pub fn discover_hub(fetched: &Fetched) -> (r: Result<String, DiscoveryError>)
    ensures
        discovered(*fetched, r),
{
    match fetched {
        Fetched::InvalidUrl => Err(DiscoveryError::InvalidUrl),
        Fetched::Unreachable => Err(DiscoveryError::Fetch),
        Fetched::Malformed => Err(DiscoveryError::Parse),
        Fetched::Document(feed) => match first_hub(&feed.link) {
            Some(i) => Ok(feed.link[i].href.clone()),
            None => Err(DiscoveryError::NoHub),
        },
    }
}

/// The body that answers a verification request: its challenge, word for
/// word, or nothing where it brought none.
pub open spec fn challenge_echo(challenge: Option<String>) -> Seq<char> {
    match challenge {
        Some(text) => text@,
        None => Seq::empty(),
    }
}

/// Answers a verification request of a hub: status 200 and the challenge as
/// the body. The answer depends on the request alone, not on the token it
/// was sent to nor on any subscription.
pub fn pubsub_challenge_handler(params: &PubSubCallbackParams) -> (r: (u16, String))
    ensures
        r.0 == OK,
        r.1@ == challenge_echo(params.challenge),
{
    match &params.challenge {
        Some(text) => (OK, text.clone()),
        None => (OK, String::new()),
    }
}

/// The value of the form field `hub.mode`.
pub open spec fn mode_text(mode: HubMode) -> Seq<char> {
    match mode {
        HubMode::Subscribe => "subscribe"@,
        HubMode::Unsubscribe => "unsubscribe"@,
    }
}

/// The address at which the hub reaches the subscription with the token
/// `id`: the host, the callback path, a slash and the token in decimal.
pub open spec fn callback_url(host: Seq<char>, path: Seq<char>, id: u64) -> Seq<char> {
    host + path + seq!['/'] + decimal(id as nat)
}

/// The pattern of the callback routes: the callback path and a segment that
/// takes the token.
pub open spec fn callback_route(path: Seq<char>) -> Seq<char> {
    path + "/:subscription_id"@
}

impl HubRequest {
    /// The three fields of the form, by name: `hub.callback`, `hub.topic`
    /// and `hub.mode`.
    pub fn form(&self) -> (r: Vec<(String, String)>)
        ensures
            r@.len() == 3,
            r@[0].0@ == "hub.callback"@ && r@[0].1@ == self.callback@,
            r@[1].0@ == "hub.topic"@ && r@[1].1@ == self.topic@,
            r@[2].0@ == "hub.mode"@ && r@[2].1@ == mode_text(self.mode),
    {
        let mode = match self.mode {
            HubMode::Subscribe => "subscribe",
            HubMode::Unsubscribe => "unsubscribe",
        };
        let mut fields: Vec<(String, String)> = Vec::new();
        fields.push((String::from_str("hub.callback"), self.callback.clone()));
        fields.push((String::from_str("hub.topic"), self.topic.clone()));
        fields.push((String::from_str("hub.mode"), String::from_str(mode)));
        fields
    }
}

/// Whether `request` is the request to the first hub that `fetched` names,
/// for the subscription to `topic` with the token `id`.
pub open spec fn request_for(
    request: HubRequest,
    fetched: Fetched,
    host: Seq<char>,
    path: Seq<char>,
    topic: Seq<char>,
    mode: HubMode,
    id: u64,
) -> bool {
    &&& discovered(fetched, Ok(request.hub))
    &&& request.callback@ == callback_url(host, path, id)
    &&& request.topic@ == topic
    &&& request.mode == mode
    &&& request.token == id
}

/// Whether discovery fails on `fetched`, with `e`.
pub open spec fn discovery_fails(fetched: Fetched, e: PubSubError) -> bool {
    e matches PubSubError::Discovery(d) && discovered(fetched, Err(d))
}

/// Whether `e` reports that the hub answered with `status`, keeping
/// `response`.
pub open spec fn rejected_with(e: PubSubError, status: u16, response: Seq<char>) -> bool {
    e matches PubSubError::SubscriptionRejected { status: s, response: kept } && s == status && kept@
        == response
}

/// The handler that a push to `token` takes: that of the subscription under
/// the number that `token` writes, if there is one.
pub open spec fn taken<H>(subscriptions: Map<u64, Subscription<H>>, token: Seq<char>) -> Option<H> {
    match decimal_u64(token) {
        Some(id) => if subscriptions.contains_key(id) {
            Some(subscriptions[id].handler)
        } else {
            None
        },
        None => None,
    }
}

/// The subscriptions after a push to `token`: without the one whose handler
/// was taken.
pub open spec fn after_delivery<H>(
    subscriptions: Map<u64, Subscription<H>>,
    token: Seq<char>,
) -> Map<u64, Subscription<H>> {
    match decimal_u64(token) {
        Some(id) => subscriptions.remove(id),
        None => subscriptions,
    }
}

/// The subscriptions after the subscription to `topic` was given up.
pub open spec fn after_unsubscribe<H>(
    subscriptions: Map<u64, Subscription<H>>,
    topic: Seq<char>,
) -> Map<u64, Subscription<H>> {
    match token_of(subscriptions, topic) {
        Some(id) => subscriptions.remove(id),
        None => subscriptions,
    }
}

/// Whether `after` is `before` with the subscription that `request` asked
/// for, with `handler`, put under the token of the request.
pub open spec fn recorded<H>(
    before: Map<u64, Subscription<H>>,
    after: Map<u64, Subscription<H>>,
    request: HubRequest,
    handler: H,
) -> bool {
    &&& after.contains_key(request.token)
    &&& after[request.token].topic@ == request.topic@
    &&& after[request.token].hub@ == request.hub@
    &&& after[request.token].handler == handler
    &&& after.remove(request.token) == before.remove(request.token)
}

/// Whether the subscription under `id` is to `topic`.
pub open spec fn subscribed_under<H>(
    subscriptions: Map<u64, Subscription<H>>,
    topic: Seq<char>,
    id: u64,
) -> bool {
    subscriptions.contains_key(id) && subscriptions[id].topic@ == topic
}

/// Whether `id` is the lowest token of a subscription to `topic`.
pub open spec fn lowest_token<H>(
    subscriptions: Map<u64, Subscription<H>>,
    topic: Seq<char>,
    id: u64,
) -> bool {
    &&& subscribed_under(subscriptions, topic, id)
    &&& forall|other: u64| #[trigger] subscribed_under(subscriptions, topic, other) ==> id <= other
}

/// The token of the subscription to `topic`; the lowest, where there are
/// several.
pub open spec fn token_of<H>(subscriptions: Map<u64, Subscription<H>>, topic: Seq<char>) -> Option<
    u64,
> {
    if exists|id: u64| lowest_token(subscriptions, topic, id) {
        Some(choose|id: u64| lowest_token(subscriptions, topic, id))
    } else {
        None
    }
}

/// `token_of` is `None` exactly where no subscription is to the topic, and
/// otherwise the lowest token of a subscription to it.
pub proof fn lemma_token_of<H>(subscriptions: Map<u64, Subscription<H>>, topic: Seq<char>)
    ensures
        token_of(subscriptions, topic) is None <==> forall|id: u64|
            !#[trigger] subscribed_under(subscriptions, topic, id),
        token_of(subscriptions, topic) matches Some(id) ==> lowest_token(subscriptions, topic, id),
{
    if exists|id: u64| subscribed_under(subscriptions, topic, id) {
        let id = choose|id: u64| subscribed_under(subscriptions, topic, id);
        lemma_lowest_exists(subscriptions, topic, id);
    }
}

/// Where a subscription is to the topic, one of them has the lowest token.
proof fn lemma_lowest_exists<H>(subscriptions: Map<u64, Subscription<H>>, topic: Seq<char>, id: u64)
    requires
        subscribed_under(subscriptions, topic, id),
    ensures
        exists|least: u64| lowest_token(subscriptions, topic, least),
    decreases id,
{
    if exists|other: u64| subscribed_under(subscriptions, topic, other) && other < id {
        let other = choose|other: u64| subscribed_under(subscriptions, topic, other) && other < id;
        lemma_lowest_exists(subscriptions, topic, other);
    } else {
        assert(lowest_token(subscriptions, topic, id));
    }
}

/// The subscriber's state: the subscriptions by correlation token, the path
/// under which the callback endpoints are served, and the last token that
/// was handed out.
pub struct PubSub<H> {
    subscriptions: HashMap<u64, Subscription<H>>,
    callback_path: String,
    subscription_id: u64,
}

impl<H> PubSub<H> {
    /// The subscriptions by correlation token.
    pub closed spec fn subscriptions(&self) -> Map<u64, Subscription<H>> {
        self.subscriptions@
    }

    /// The path under which the callback endpoints are served.
    pub closed spec fn callback_path(&self) -> Seq<char> {
        self.callback_path@
    }

    /// The last token that was handed out; zero before the first.
    pub closed spec fn last_token(&self) -> u64 {
        self.subscription_id
    }

    /// The invariant of the state: no subscription is held under a token that
    /// was not handed out yet. `new` establishes it, and every method keeps
    /// it.
    pub closed spec fn wf(&self) -> bool {
        forall|id: u64| #[trigger] self.subscriptions@.contains_key(id) ==> id <= self.subscription_id
    }

    /// A subscriber without subscriptions.
    pub fn new(callback_path: &str) -> (r: Self)
        ensures
            r.wf(),
            r.subscriptions() == Map::<u64, Subscription<H>>::empty(),
            r.callback_path() == callback_path@,
            r.last_token() == 0,
    {
        PubSub {
            subscriptions: HashMap::new(),
            callback_path: callback_path.to_owned(),
            subscription_id: 0,
        }
    }

    /// The token of the subscription to `topic`; the lowest, where there are
    /// several.
    pub fn get_subscription_id(&self, topic: &str) -> (r: Option<u64>)
        ensures
            r == token_of(self.subscriptions(), topic@),
            match r {
                Some(id) => lowest_token(self.subscriptions(), topic@, id),
                None => forall|id: u64| !#[trigger] subscribed_under(self.subscriptions(), topic@, id),
            },
    {
        let mut best: Option<u64> = None;
        let ghost subs = self.subscriptions@;
        for entry in it: self.subscriptions.iter()
            invariant
                subs == self.subscriptions@,
                best matches Some(b) ==> subscribed_under(subs, topic@, b),
                forall|k: u64| #[trigger]
                    subs.contains_key(k) ==> it.seq().contains((&k, &subs[k])),
                forall|j: int|
                    0 <= j < it.index() && (#[trigger] it.seq()[j]).1.topic@ == topic@ ==> best is Some
                        && best->0 <= *it.seq()[j].0,
        {
            let (id, subscription) = entry;
            if str_eq(subscription.topic.as_str(), topic) {
                let lower = match best {
                    Some(b) => *id < b,
                    None => true,
                };
                if lower {
                    best = Some(*id);
                }
            }
        }
        proof {
            if let Some(b) = best {
                assert(lowest_token(subs, topic@, b));
            } else {
                assert forall|id: u64| !lowest_token(subs, topic@, id) by {}
            }
        }
        best
    }

    /// The number of subscriptions.
    pub fn len(&self) -> (r: usize)
        ensures
            r == self.subscriptions().len(),
    {
        self.subscriptions.len()
    }

    /// The topic of the subscription under `token`.
    pub fn topic_of(&self, token: u64) -> (r: Option<String>)
        ensures
            match r {
                Some(topic) => self.subscriptions().contains_key(token) && topic@
                    == self.subscriptions()[token].topic@,
                None => !self.subscriptions().contains_key(token),
            },
    {
        match self.subscriptions.get(&token) {
            Some(subscription) => Some(subscription.topic.clone()),
            None => None,
        }
    }

    /// The hub that accepted the subscription under `token`.
    pub fn hub_of(&self, token: u64) -> (r: Option<String>)
        ensures
            match r {
                Some(hub) => self.subscriptions().contains_key(token) && hub@
                    == self.subscriptions()[token].hub@,
                None => !self.subscriptions().contains_key(token),
            },
    {
        match self.subscriptions.get(&token) {
            Some(subscription) => Some(subscription.hub.clone()),
            None => None,
        }
    }

    /// Hands out the next correlation token: one more than the last, which no
    /// subscription is held under. `None` once the last was `u64::MAX`.
    pub fn get_next_subscription_id(&mut self) -> (r: Option<u64>)
        requires
            old(self).wf(),
        ensures
            final(self).wf(),
            final(self).subscriptions() == old(self).subscriptions(),
            final(self).callback_path() == old(self).callback_path(),
            match r {
                Some(id) => old(self).last_token() < u64::MAX && id == old(self).last_token() + 1
                    && final(self).last_token() == id && !old(self).subscriptions().contains_key(id),
                None => old(self).last_token() == u64::MAX && final(self).last_token() == u64::MAX,
            },
    {
        if self.subscription_id == u64::MAX {
            return None;
        }
        self.subscription_id = self.subscription_id + 1;
        Some(self.subscription_id)
    }

    /// The address at which the hub reaches the subscription with the token
    /// `subscription_id`, on the host `pubsub_host`.
    pub fn get_pubsub_callback_url(&self, pubsub_host: &str, subscription_id: u64) -> (r: String)
        ensures
            r@ == callback_url(pubsub_host@, self.callback_path(), subscription_id),
    {
        let mut url = String::from_str(pubsub_host);
        url.append(self.callback_path.as_str());
        proof {
            reveal_strlit("/");
        }
        url.append("/");
        push_decimal(&mut url, subscription_id);
        assert(url@ =~= callback_url(pubsub_host@, self.callback_path(), subscription_id));
        url
    }

    /// The pattern under which the HTTP layer serves both callback
    /// endpoints.
    pub fn route(&self) -> (r: String)
        ensures
            r@ == callback_route(self.callback_path()),
    {
        let mut route = self.callback_path.clone();
        route.append("/:subscription_id");
        route
    }

    /// Begins a subscription to `topic`: hands out a token for it, finds the
    /// hub in what fetching the feed came to, and returns the request that
    /// the caller is to post to the hub. The token is spent even where no hub
    /// is found. Nothing is recorded before the hub has accepted the request:
    /// see `complete_subscribe`.
    pub fn subscribe(&mut self, pubsub_host: &str, topic: &str, fetched: &Fetched) -> (r: Result<
        HubRequest,
        PubSubError,
    >)
        requires
            old(self).wf(),
        ensures
            final(self).wf(),
            final(self).subscriptions() == old(self).subscriptions(),
            final(self).callback_path() == old(self).callback_path(),
            old(self).last_token() == u64::MAX ==> final(self).last_token() == u64::MAX
                && r matches Err(PubSubError::TokensExhausted),
            old(self).last_token() < u64::MAX ==> final(self).last_token() == old(self).last_token()
                + 1 && match r {
                Ok(request) => request_for(
                    request,
                    *fetched,
                    pubsub_host@,
                    old(self).callback_path(),
                    topic@,
                    HubMode::Subscribe,
                    final(self).last_token(),
                ) && !old(self).subscriptions().contains_key(request.token),
                Err(e) => discovery_fails(*fetched, e),
            },
    {
        let id = match self.get_next_subscription_id() {
            Some(id) => id,
            None => {
                return Err(PubSubError::TokensExhausted);
            },
        };
        let hub = match discover_hub(fetched) {
            Ok(hub) => hub,
            Err(e) => {
                return Err(PubSubError::Discovery(e));
            },
        };
        Ok(
            HubRequest {
                hub,
                callback: self.get_pubsub_callback_url(pubsub_host, id),
                topic: topic.to_owned(),
                mode: HubMode::Subscribe,
                token: id,
            },
        )
    }

    /// Ends a subscription that `subscribe` began, with the hub's answer to
    /// `request`. Where the status is 202 the subscription is recorded under
    /// the token of the request, with `handler`; any other status is a
    /// rejection, which records nothing and keeps `response` for
    /// diagnostics. A token beyond the last one handed out counts as handed
    /// out from now on.
    pub fn complete_subscribe(
        &mut self,
        request: &HubRequest,
        status: u16,
        response: &str,
        handler: H,
    ) -> (r: Result<(), PubSubError>)
        requires
            old(self).wf(),
        ensures
            final(self).wf(),
            final(self).callback_path() == old(self).callback_path(),
            match r {
                Ok(()) => status == ACCEPTED && recorded(
                    old(self).subscriptions(),
                    final(self).subscriptions(),
                    *request,
                    handler,
                ) && final(self).last_token() == (if request.token > old(self).last_token() {
                    request.token
                } else {
                    old(self).last_token()
                }),
                Err(e) => status != ACCEPTED && rejected_with(e, status, response@) && final(self).subscriptions() == old(self).subscriptions() && final(self).last_token() == old(self).last_token(),
            },
    {
        if status != ACCEPTED {
            return Err(PubSubError::SubscriptionRejected { status, response: response.to_owned() });
        }
        if request.token > self.subscription_id {
            self.subscription_id = request.token;
        }
        self.subscriptions.insert(
            request.token,
            Subscription { topic: request.topic.clone(), hub: request.hub.clone(), handler },
        );
        assert(self.subscriptions@.remove(request.token) =~= old(self).subscriptions@.remove(
            request.token,
        ));
        Ok(())
    }

    /// Begins the end of the subscription to `topic`: looks the subscription
    /// up, then finds the hub in what fetching the feed came to, and returns
    /// the request that the caller is to post to the hub. Without a
    /// subscription to the topic the answer is `NotSubscribed`, whatever the
    /// fetch came to, and nothing is to be posted. Nothing is removed before
    /// the hub has accepted the request: see `complete_unsubscribe`.
    pub fn unsubscribe(&self, pubsub_host: &str, topic: &str, fetched: &Fetched) -> (r: Result<
        HubRequest,
        PubSubError,
    >)
        ensures
            match token_of(self.subscriptions(), topic@) {
                None => r matches Err(PubSubError::NotSubscribed),
                Some(id) => match r {
                    Ok(request) => request_for(
                        request,
                        *fetched,
                        pubsub_host@,
                        self.callback_path(),
                        topic@,
                        HubMode::Unsubscribe,
                        id,
                    ),
                    Err(e) => discovery_fails(*fetched, e),
                },
            },
            (forall|id: u64| !#[trigger] subscribed_under(self.subscriptions(), topic@, id))
                ==> r matches Err(PubSubError::NotSubscribed),
    {
        let id = match self.get_subscription_id(topic) {
            Some(id) => id,
            None => {
                return Err(PubSubError::NotSubscribed);
            },
        };
        let hub = match discover_hub(fetched) {
            Ok(hub) => hub,
            Err(e) => {
                return Err(PubSubError::Discovery(e));
            },
        };
        Ok(
            HubRequest {
                hub,
                callback: self.get_pubsub_callback_url(pubsub_host, id),
                topic: topic.to_owned(),
                mode: HubMode::Unsubscribe,
                token: id,
            },
        )
    }

    /// Ends what `unsubscribe` began, with the hub's answer to `request`.
    /// Where the status is 202 the subscription to the topic of the request
    /// is removed, if it is still there; any other status is a rejection,
    /// which removes nothing and keeps `response` for diagnostics.
    pub fn complete_unsubscribe(&mut self, request: &HubRequest, status: u16, response: &str) -> (r:
        Result<(), PubSubError>)
        requires
            old(self).wf(),
        ensures
            final(self).wf(),
            final(self).callback_path() == old(self).callback_path(),
            final(self).last_token() == old(self).last_token(),
            match r {
                Ok(()) => status == ACCEPTED && final(self).subscriptions() == after_unsubscribe(
                    old(self).subscriptions(),
                    request.topic@,
                ),
                Err(e) => status != ACCEPTED && rejected_with(e, status, response@) && final(self).subscriptions() == old(self).subscriptions(),
            },
    {
        if status != ACCEPTED {
            return Err(PubSubError::SubscriptionRejected { status, response: response.to_owned() });
        }
        match self.get_subscription_id(request.topic.as_str()) {
            Some(id) => {
                self.subscriptions.remove(&id);
            },
            None => {},
        }
        Ok(())
    }

    /// Takes the subscription under the token that `token` writes out of the
    /// state and returns its handler; `None`, and no change, where `token`
    /// writes no number or no subscription is held under it.
    pub fn take(&mut self, token: &str) -> (r: Option<H>)
        requires
            old(self).wf(),
        ensures
            final(self).wf(),
            final(self).callback_path() == old(self).callback_path(),
            final(self).last_token() == old(self).last_token(),
            r == taken(old(self).subscriptions(), token@),
            final(self).subscriptions() == after_delivery(old(self).subscriptions(), token@),
    {
        let id = match parse_u64(token) {
            Some(id) => id,
            None => {
                return None;
            },
        };
        match self.subscriptions.remove(&id) {
            Some(subscription) => Some(subscription.handler),
            None => {
                assert(self.subscriptions@ =~= old(self).subscriptions@.remove(id));
                None
            },
        }
    }
}

/// Answers a push of `payload` to the callback of `token`: takes the handler
/// of the subscription under the token, once and for all, and hands it out
/// with the payload for the caller to run. The reply to the hub is 200
/// whether or not there was a handler, and whatever the handler will do.
pub fn pubsub_callback_handler<H>(registry: &mut PubSub<H>, token: &str, payload: String) -> (r:
    Delivery<H>)
    requires
        old(registry).wf(),
    ensures
        final(registry).wf(),
        final(registry).callback_path() == old(registry).callback_path(),
        final(registry).last_token() == old(registry).last_token(),
        final(registry).subscriptions() == after_delivery(old(registry).subscriptions(), token@),
        r.status == OK,
        r.handler == taken(old(registry).subscriptions(), token@),
        r.payload == payload,
{
    let handler = registry.take(token);
    Delivery { status: OK, handler, payload }
}

/// Of two pushes to one token the second reaches no handler: whatever the
/// first one found, nothing is left under the token for the second, and what
/// is held under other tokens is the same after the second as after the
/// first.
pub proof fn law_second_push_reaches_nothing<H>(
    subscriptions: Map<u64, Subscription<H>>,
    token: Seq<char>,
)
    ensures
        taken(after_delivery(subscriptions, token), token) is None,
        after_delivery(after_delivery(subscriptions, token), token) == after_delivery(
            subscriptions,
            token,
        ),
{
    assert(after_delivery(after_delivery(subscriptions, token), token) =~= after_delivery(
        subscriptions,
        token,
    ));
}

/// A push to the callback address of a subscription reaches its handler:
/// the token that the address ends in reads back as the token under which
/// the subscription is held.
pub proof fn law_callback_reaches_subscription<H>(subscriptions: Map<u64, Subscription<H>>, id: u64)
    requires
        subscriptions.contains_key(id),
    ensures
        taken(subscriptions, decimal(id as nat)) == Some(subscriptions[id].handler),
        after_delivery(subscriptions, decimal(id as nat)) == subscriptions.remove(id),
{
    lemma_decimal_roundtrip(id);
}

/// A push to a token that was never handed out reaches no handler and
/// changes nothing.
pub proof fn law_unallocated_token_reaches_nothing<H>(registry: PubSub<H>, token: Seq<char>)
    requires
        registry.wf(),
        decimal_u64(token) matches Some(id) ==> id > registry.last_token(),
    ensures
        taken(registry.subscriptions(), token) is None,
        after_delivery(registry.subscriptions(), token) == registry.subscriptions(),
{
    assert(after_delivery(registry.subscriptions(), token) =~= registry.subscriptions());
}

} // verus!
