//! Live updates: the channels that clients subscribe to, and what a session
//! answers to its client.

use vstd::prelude::*;
use vstd::string::StringExecFns;

verus! {

/// A message for every client of a channel.
#[derive(Clone)]
pub struct BroadcastMessage(pub String);

/// The request to add the client `addr` to a channel.
pub struct Subscribe<C> {
    pub channel: String,
    pub addr: C,
}

/// The request to send `payload` to every client of a channel.
pub struct Publish {
    pub channel: String,
    pub payload: String,
}

/// The channels and their clients. A channel exists from its first
/// subscription on. Nothing is kept for a channel without clients: what is
/// published there is lost.
pub struct Channels<C> {
    subscriptions: Vec<Subscribe<C>>,
}

/// Mathematical content of a subscription: the channel's name and the client.
pub struct SubscriptionView<C> {
    pub channel: Seq<char>,
    pub client: C,
}

/// The subscriptions in `subscriptions`, in order.
pub open spec fn subscription_views<C>(subscriptions: Seq<Subscribe<C>>) -> Seq<
    SubscriptionView<C>,
> {
    Seq::new(
        subscriptions.len(),
        |i: int| SubscriptionView { channel: subscriptions[i].channel@, client: subscriptions[i].addr },
    )
}

/// The test "is the subscription one to `channel`".
pub open spec fn to_channel<C>(channel: Seq<char>) -> spec_fn(SubscriptionView<C>) -> bool {
    |subscription: SubscriptionView<C>| subscription.channel == channel
}

/// The clients of `channel` among the subscriptions, in the order in which
/// they subscribed.
pub open spec fn clients_of<C>(subscriptions: Seq<SubscriptionView<C>>, channel: Seq<char>) -> Seq<
    C,
> {
    subscriptions.filter(to_channel(channel)).map_values(
        |subscription: SubscriptionView<C>| subscription.client,
    )
}

impl<C> View for Channels<C> {
    type V = Seq<SubscriptionView<C>>;

    closed spec fn view(&self) -> Seq<SubscriptionView<C>> {
        subscription_views(self.subscriptions@)
    }
}

impl<C> Channels<C> {
    /// No channels.
    pub fn new() -> (channels: Self)
        ensures
            channels@ == Seq::<SubscriptionView<C>>::empty(),
    {
        let channels = Channels { subscriptions: Vec::new() };
        assert(subscription_views(channels.subscriptions@) == Seq::<SubscriptionView<C>>::empty());
        channels
    }

    /// The number of subscriptions.
    pub fn len(&self) -> (len: usize)
        ensures
            len == self@.len(),
    {
        self.subscriptions.len()
    }

    /// Adds `client` to the clients of `channel`, after those it has.
    pub fn subscribe(&mut self, channel: &str, client: C)
        ensures
            final(self)@ == old(self)@.push(SubscriptionView { channel: channel@, client }),
            clients_of(final(self)@, channel@) == clients_of(old(self)@, channel@).push(client),
            forall|other: Seq<char>|
                other != channel@ ==> #[trigger] clients_of(final(self)@, other) == clients_of(
                    old(self)@,
                    other,
                ),
    {
        let ghost before = self@;
        let ghost added = SubscriptionView { channel: channel@, client };
        self.subscriptions.push(Subscribe { channel: channel.to_owned(), addr: client });
        assert(self@ == before.push(added));
        proof {
            before.lemma_filter_push(added, to_channel(channel@));
            assert(clients_of(self@, channel@) == clients_of(before, channel@).push(client));
            assert forall|other: Seq<char>| other != channel@ implies #[trigger] clients_of(
                self@,
                other,
            ) == clients_of(before, other) by {
                before.lemma_filter_push(added, to_channel(other));
            }
        }
    }

    /// The clients that a message published on `channel` goes to: the
    /// channel's clients in the order in which they subscribed, and none
    /// where the channel has none.
    pub fn recipients(&self, channel: &str) -> (clients: Vec<&C>)
        ensures
            clients@.len() == clients_of(self@, channel@).len(),
            forall|i: int|
                0 <= i < clients@.len() ==> *(#[trigger] clients@[i]) == clients_of(
                    self@,
                    channel@,
                )[i],
    {
        let wanted = channel.to_owned();
        let ghost test = to_channel::<C>(channel@);
        let ghost client = |subscription: SubscriptionView<C>| subscription.client;
        let mut clients: Vec<&C> = Vec::new();
        let mut i: usize = 0;
        proof {
            reveal(Seq::filter);
        }
        assert(self@.take(0).filter(test) == Seq::<SubscriptionView<C>>::empty());
        while i < self.subscriptions.len()
            invariant
                i <= self.subscriptions.len(),
                wanted@ == channel@,
                test == to_channel::<C>(channel@),
                client == |subscription: SubscriptionView<C>| subscription.client,
                clients@.len() == self@.take(i as int).filter(test).len(),
                forall|j: int|
                    0 <= j < clients@.len() ==> *(#[trigger] clients@[j]) == self@.take(
                        i as int,
                    ).filter(test).map_values(client)[j],
            decreases self.subscriptions.len() - i,
        {
            proof {
                assert(self@.take(i + 1) == self@.take(i as int).push(self@[i as int]));
                self@.take(i as int).lemma_filter_push(self@[i as int], test);
            }
            if self.subscriptions[i].channel == wanted {
                clients.push(&self.subscriptions[i].addr);
            }
            i += 1;
        }
        assert(self@.take(i as int) == self@);
        clients
    }

    /// The deliveries of `msg` published on `channel`: one copy of the
    /// message for each of the channel's clients, in the order in which they
    /// subscribed. On a channel without clients nothing is delivered.
    pub fn broadcast(&self, channel: &str, msg: String) -> (deliveries: Vec<
        (&C, BroadcastMessage),
    >)
        ensures
            deliveries@.len() == clients_of(self@, channel@).len(),
            forall|i: int|
                0 <= i < deliveries@.len() ==> *(#[trigger] deliveries@[i]).0 == clients_of(
                    self@,
                    channel@,
                )[i] && deliveries@[i].1.0@ == msg@,
    {
        let clients = self.recipients(channel);
        let mut deliveries: Vec<(&C, BroadcastMessage)> = Vec::new();
        let mut i: usize = 0;
        while i < clients.len()
            invariant
                i <= clients.len(),
                deliveries@.len() == i,
                forall|j: int|
                    0 <= j < i ==> (#[trigger] deliveries@[j]).0 == clients@[j]
                        && deliveries@[j].1.0@ == msg@,
            decreases clients.len() - i,
        {
            deliveries.push((clients[i], BroadcastMessage(msg.clone())));
            i += 1;
        }
        deliveries
    }
}

/// What a client sent to its session.
pub enum Incoming {
    /// A text.
    Text(String),
    /// A ping, with its payload.
    Ping(Vec<u8>),
    /// The wish to close the connection.
    Close,
    /// Anything else, or a protocol error.
    Other,
}

/// What a session does in answer.
pub enum Answer {
    /// Send this text.
    Text(String),
    /// Send a pong with this payload.
    Pong(Vec<u8>),
    /// Close the connection and stop the session.
    Close,
    /// Nothing.
    Nothing,
}

impl Incoming {
    /// The session's answer: a text is echoed after `echo: `, a ping gets a
    /// pong with the same payload, a close is followed, and anything else is
    /// passed over.
    pub fn answer(self) -> (answer: Answer)
        ensures
            match self {
                Incoming::Text(text) => answer matches Answer::Text(echo) && echo@ == "echo: "@
                    + text@,
                Incoming::Ping(payload) => answer matches Answer::Pong(pong) && pong@ == payload@,
                Incoming::Close => answer is Close,
                Incoming::Other => answer is Nothing,
            },
    {
        match self {
            Incoming::Text(text) => {
                let mut echo = "echo: ".to_owned();
                echo.append(text.as_str());
                Answer::Text(echo)
            },
            Incoming::Ping(payload) => Answer::Pong(payload),
            Incoming::Close => Answer::Close,
            Incoming::Other => Answer::Nothing,
        }
    }
}

} // verus!
