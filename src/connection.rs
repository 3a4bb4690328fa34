//! The outbound multiplexer of one connection, as a state machine.
//!
//! The task that owns the connection waits on its sources (the teardown
//! signal, the direct channel, and once subscribed the bus queue), hands what
//! arrived to [`Connection::step`], and carries out the [`Action`] that comes
//! back; the outcome of that action is the next [`Input`]. Every decision
//! lives here: when the one-time subscription setup runs, which bus topics
//! are meaningful, which events need an authorization check, and with which
//! code the connection ends.

use vstd::prelude::*;
use crate::close::{CloseCode, Ending};
use crate::registry::ConnectionRegistry;
use crate::topic::{Topic, parse_topic, spec_parse_topic, spec_pattern, subscription_pattern};

verus! {

/// A bus subscription of a connection.
#[derive(Clone, Copy, Debug, PartialEq, Eq, Structural)]
pub enum Subscription {
    /// Everything that names the connection's user.
    User(u128),
    /// Everything that names a guild the user belongs to.
    Guild(u128),
}

impl Subscription {
    pub open spec fn spec_id(self) -> u128 {
        match self {
            Subscription::User(id) => id,
            Subscription::Guild(id) => id,
        }
    }

    /// The bus pattern to subscribe to.
    pub fn pattern(&self) -> (r: String)
        ensures
            r@ == spec_pattern(self.spec_id()),
    {
        match self {
            Subscription::User(id) => subscription_pattern(*id),
            Subscription::Guild(id) => subscription_pattern(*id),
        }
    }
}

/// The question put to storage before a bus event is forwarded: may this
/// user see events of this topic?
#[derive(Clone, Copy, Debug, PartialEq, Eq, Structural)]
pub struct AuthQuery {
    pub topic: Topic,
    pub user_id: u128,
}

/// A data-access failure reported by storage.
#[derive(Clone, Copy, Debug, PartialEq, Eq, Structural)]
pub struct StorageError;

/// Where the connection stands, and which input it awaits.
#[derive(Clone, Copy, Debug, PartialEq, Eq, Structural)]
pub enum Stage {
    /// Waiting on its sources.
    Waiting,
    /// Writing an item to the client.
    Writing,
    /// Setup: looking the connection up in the registry.
    LookingUpUser,
    /// Setup: subscribing to the user's topics.
    SubscribingUser,
    /// Setup: asking storage for the user's guilds.
    FetchingGuilds,
    /// Setup: subscribing to the guilds' topics, one after another.
    SubscribingGuilds,
    /// Decoding the payload of a bus event of this topic.
    Decoding(Topic),
    /// Checking whether the user may see a bus event of this topic.
    Authorizing(Topic),
    /// Ended; nothing more happens.
    Closed(Ending),
}

/// What happened: an item from a source, or the outcome of the last action.
#[derive(Debug)]
pub enum Input {
    /// The teardown signal fired.
    Teardown,
    /// An event came from the direct channel and was encoded for the wire.
    DirectEvent,
    /// An event came from the direct channel and could not be encoded.
    DirectEncodeFailed,
    /// The owner closed the direct channel.
    DirectClosed,
    /// An event came from the bus under this topic name.
    BusMessage(String),
    /// The bus queue closed.
    BusClosed,
    /// The last item was written (or the write failed and was logged).
    Written,
    /// The registry's answer: the connection's user, if it is registered.
    UserFound(Option<u128>),
    /// Whether the bus accepted the subscription.
    Subscribed(bool),
    /// The guilds the user belongs to, or a storage failure.
    Memberships(Result<Vec<u128>, StorageError>),
    /// Whether the bus payload matched the event schema.
    Decoded(bool),
    /// Whether the user may see the event, or a storage failure.
    Authorized(Result<bool, StorageError>),
}

/// What the owning task does next.
#[derive(Clone, Copy, Debug, PartialEq, Eq, Structural)]
pub enum Action {
    /// Wait on the teardown signal and the direct channel, and on the bus
    /// queue as well when `bus` holds.
    Wait { bus: bool },
    /// Write the item just received to the client, unchanged.
    Deliver,
    /// Look the connection up in the registry.
    LookupUser,
    /// Subscribe to this on the bus.
    Subscribe(Subscription),
    /// Ask storage for the guilds of this user.
    FetchMemberships(u128),
    /// Decode the payload of the bus event just received.
    Decode,
    /// Ask storage this question.
    Authorize(AuthQuery),
    /// End the connection this way.
    Close(Ending),
}

/// The state of a connection.
pub struct ConnectionView {
    pub connection_id: u128,
    pub stage: Stage,
    /// Whether the one-time setup has started.
    pub setup_begun: bool,
    /// Whether the setup has completed, so the bus queue is in the wait set.
    pub subscribed: bool,
    pub user_id: Option<u128>,
    /// The guilds found during setup.
    pub guilds: Seq<u128>,
    /// The subscriptions the bus has accepted, in order.
    pub subscriptions: Seq<Subscription>,
}

/// The subscriptions for a list of guilds.
pub open spec fn guild_subscriptions(guilds: Seq<u128>) -> Seq<Subscription> {
    guilds.map_values(|g: u128| Subscription::Guild(g))
}

/// The subscriptions of a connection whose setup has gone through
/// `done_guilds` of its guilds.
pub open spec fn setup_subscriptions(user_id: u128, guilds: Seq<u128>, done_guilds: int) -> Seq<
    Subscription,
> {
    seq![Subscription::User(user_id)] + guild_subscriptions(guilds.take(done_guilds))
}

/// A connection that has not done anything yet.
pub open spec fn fresh(connection_id: u128) -> ConnectionView {
    ConnectionView {
        connection_id,
        stage: Stage::Waiting,
        setup_begun: false,
        subscribed: false,
        user_id: None,
        guilds: Seq::empty(),
        subscriptions: Seq::empty(),
    }
}

/// The states a connection can reach.
pub open spec fn view_wf(v: ConnectionView) -> bool {
    &&& v.subscribed ==> v.setup_begun
    &&& v.subscribed ==> v.user_id is Some && v.subscriptions == setup_subscriptions(
        v.user_id->0,
        v.guilds,
        v.guilds.len() as int,
    )
    &&& !v.setup_begun ==> v.subscriptions.len() == 0
    &&& match v.stage {
        Stage::LookingUpUser => v.setup_begun && !v.subscribed && v.subscriptions.len() == 0,
        Stage::SubscribingUser => v.setup_begun && !v.subscribed && v.user_id is Some
            && v.subscriptions.len() == 0,
        Stage::FetchingGuilds => v.setup_begun && !v.subscribed && v.user_id is Some
            && v.subscriptions == seq![Subscription::User(v.user_id->0)],
        Stage::SubscribingGuilds => v.setup_begun && !v.subscribed && v.user_id is Some
            && 1 <= v.subscriptions.len() <= v.guilds.len() && v.subscriptions
            == setup_subscriptions(v.user_id->0, v.guilds, v.subscriptions.len() - 1),
        Stage::Decoding(_) | Stage::Authorizing(_) => v.subscribed,
        _ => true,
    }
}

/// Whether the connection in state `v` awaits input `i`.
pub open spec fn spec_accepts(v: ConnectionView, i: Input) -> bool {
    match v.stage {
        Stage::Waiting => match i {
            Input::Teardown | Input::DirectEvent | Input::DirectEncodeFailed
            | Input::DirectClosed => true,
            Input::BusMessage(_) | Input::BusClosed => v.subscribed,
            _ => false,
        },
        Stage::Writing => i is Written,
        Stage::LookingUpUser => i is UserFound,
        Stage::SubscribingUser | Stage::SubscribingGuilds => i is Subscribed,
        Stage::FetchingGuilds => i is Memberships,
        Stage::Decoding(_) => i is Decoded,
        Stage::Authorizing(_) => i is Authorized,
        Stage::Closed(_) => false,
    }
}

/// Ending the connection.
pub open spec fn spec_close(v: ConnectionView, e: Ending) -> (ConnectionView, Action) {
    (ConnectionView { stage: Stage::Closed(e), ..v }, Action::Close(e))
}

/// After an input is serviced: the one-time setup starts if it has not,
/// else the connection waits again.
pub open spec fn spec_settle(v: ConnectionView) -> (ConnectionView, Action) {
    if !v.setup_begun {
        (ConnectionView { stage: Stage::LookingUpUser, setup_begun: true, ..v }, Action::LookupUser)
    } else {
        (ConnectionView { stage: Stage::Waiting, ..v }, Action::Wait { bus: v.subscribed })
    }
}

/// The setup has subscribed to everything it needed.
pub open spec fn spec_setup_done(v: ConnectionView) -> (ConnectionView, Action) {
    (ConnectionView { stage: Stage::Waiting, subscribed: true, ..v }, Action::Wait { bus: true })
}

/// One step of the connection: the state after input `i` and the action to take.
/// An input the connection does not await changes nothing.
pub open spec fn spec_next(v: ConnectionView, i: Input) -> (ConnectionView, Action) {
    if !spec_accepts(v, i) {
        (v, Action::Wait { bus: v.subscribed })
    } else {
        match i {
            Input::Teardown => spec_close(v, Ending::Requested),
            Input::DirectClosed => spec_close(v, Ending::OwnerClosed),
            Input::DirectEncodeFailed => spec_close(v, Ending::Fatal(CloseCode::OutboundEncode)),
            Input::DirectEvent => (ConnectionView { stage: Stage::Writing, ..v }, Action::Deliver),
            Input::BusClosed => spec_close(v, Ending::Fatal(CloseCode::BusLost)),
            Input::BusMessage(name) => match spec_parse_topic(name@) {
                None => spec_settle(v),
                Some(t) => (ConnectionView { stage: Stage::Decoding(t), ..v }, Action::Decode),
            },
            Input::Written => spec_settle(v),
            Input::UserFound(None) => spec_close(v, Ending::Fatal(CloseCode::ConnectionNotFound)),
            Input::UserFound(Some(u)) => (
                ConnectionView { stage: Stage::SubscribingUser, user_id: Some(u), ..v },
                Action::Subscribe(Subscription::User(u)),
            ),
            Input::Subscribed(false) => spec_close(v, Ending::Fatal(CloseCode::BusSubscribe)),
            Input::Subscribed(true) => {
                let u = v.user_id->0;
                if v.stage is SubscribingUser {
                    (
                        ConnectionView {
                            stage: Stage::FetchingGuilds,
                            subscriptions: seq![Subscription::User(u)],
                            ..v
                        },
                        Action::FetchMemberships(u),
                    )
                } else {
                    let k = v.subscriptions.len() - 1;
                    let w = ConnectionView {
                        subscriptions: v.subscriptions.push(Subscription::Guild(v.guilds[k])),
                        ..v
                    };
                    if k + 1 == v.guilds.len() {
                        spec_setup_done(w)
                    } else {
                        (w, Action::Subscribe(Subscription::Guild(v.guilds[k + 1])))
                    }
                }
            },
            Input::Memberships(Err(_)) => spec_close(v, Ending::Fatal(CloseCode::StorageSetup)),
            Input::Memberships(Ok(gs)) => {
                let w = ConnectionView { guilds: gs@, ..v };
                if gs@.len() == 0 {
                    spec_setup_done(w)
                } else {
                    (
                        ConnectionView { stage: Stage::SubscribingGuilds, ..w },
                        Action::Subscribe(Subscription::Guild(gs@[0])),
                    )
                }
            },
            Input::Decoded(false) => spec_close(v, Ending::Fatal(CloseCode::InboundDecode)),
            Input::Decoded(true) => {
                let t = v.stage->Decoding_0;
                (
                    ConnectionView { stage: Stage::Authorizing(t), ..v },
                    Action::Authorize(AuthQuery { topic: t, user_id: v.user_id->0 }),
                )
            },
            Input::Authorized(Err(_)) => spec_close(
                v,
                Ending::Fatal(CloseCode::StorageAuthorization),
            ),
            Input::Authorized(Ok(true)) => (
                ConnectionView { stage: Stage::Writing, ..v },
                Action::Deliver,
            ),
            Input::Authorized(Ok(false)) => spec_settle(v),
        }
    }
}

/// How many times the one-time setup starts while the connection takes
/// `inputs`, one after another, from state `v`.
pub open spec fn setup_passes(v: ConnectionView, inputs: Seq<Input>) -> nat
    decreases inputs.len(),
{
    if inputs.len() == 0 {
        0
    } else {
        let (w, a) = spec_next(v, inputs[0]);
        (if a is LookupUser {
            1nat
        } else {
            0nat
        }) + setup_passes(w, inputs.drop_first())
    }
}

proof fn lemma_step_setup_flag(v: ConnectionView, i: Input)
    ensures
        v.setup_begun ==> spec_next(v, i).0.setup_begun,
        spec_next(v, i).1 is LookupUser ==> !v.setup_begun && spec_next(v, i).0.setup_begun,
{
}

/// The subscription setup starts at most once in the life of a connection,
/// however many inputs arrive and in whatever order; never again once it has
/// started.
pub proof fn lemma_setup_at_most_once(v: ConnectionView, inputs: Seq<Input>)
    ensures
        setup_passes(v, inputs) <= (if v.setup_begun {
            0nat
        } else {
            1nat
        }),
    decreases inputs.len(),
{
    if inputs.len() > 0 {
        let (w, a) = spec_next(v, inputs[0]);
        lemma_step_setup_flag(v, inputs[0]);
        lemma_setup_at_most_once(w, inputs.drop_first());
    }
}

/// A bus event whose topic name is not one of the gateway's topics (unknown
/// prefix, wrong number of parts, an identifier that is not a decimal number)
/// is dropped: nothing is written, and the connection stays open and waiting
/// as it was.
pub proof fn lemma_malformed_topic_dropped(v: ConnectionView, name: String)
    requires
        view_wf(v),
        v.stage == Stage::Waiting,
        v.subscribed,
        spec_parse_topic(name@) is None,
    ensures
        spec_next(v, Input::BusMessage(name)) == (v, Action::Wait { bus: true }),
{
}

/// A bus event is written to the client only when storage has said that the
/// user may see it; when it says no, the event is dropped and the connection
/// stays open, waiting on all its sources.
pub proof fn lemma_unauthorized_not_delivered(v: ConnectionView, i: Input)
    requires
        view_wf(v),
        v.stage is Authorizing,
    ensures
        spec_next(v, i).1 is Deliver ==> i matches Input::Authorized(Ok(true)),
        i matches Input::Authorized(Ok(false)) ==> spec_next(v, i) == (
            ConnectionView { stage: Stage::Waiting, ..v },
            Action::Wait { bus: true },
        ),
{
}

/// The condition that ends a connection at once because a shared service of
/// the process is missing; `None` when both are there.
pub fn missing_service(registry_present: bool, bus_present: bool) -> (r: Option<CloseCode>)
    ensures
        r == (if !registry_present {
            Some(CloseCode::RegistryUnavailable)
        } else if !bus_present {
            Some(CloseCode::BusUnavailable)
        } else {
            None::<CloseCode>
        }),
{
    if !registry_present {
        Some(CloseCode::RegistryUnavailable)
    } else if !bus_present {
        Some(CloseCode::BusUnavailable)
    } else {
        None
    }
}

/// One connection's multiplexer state.
pub struct Connection {
    connection_id: u128,
    stage: Stage,
    setup_begun: bool,
    subscribed: bool,
    user_id: Option<u128>,
    guilds: Vec<u128>,
    subscriptions: Vec<Subscription>,
}

impl View for Connection {
    type V = ConnectionView;

    closed spec fn view(&self) -> ConnectionView {
        ConnectionView {
            connection_id: self.connection_id,
            stage: self.stage,
            setup_begun: self.setup_begun,
            subscribed: self.subscribed,
            user_id: self.user_id,
            guilds: self.guilds@,
            subscriptions: self.subscriptions@,
        }
    }
}

impl Connection {
    pub open spec fn wf(&self) -> bool {
        view_wf(self@)
    }

    /// A connection that has just been established: waiting, not yet subscribed.
    pub fn new(connection_id: u128) -> (r: Self)
        ensures
            r@ == fresh(connection_id),
            r.wf(),
    {
        let r = Connection {
            connection_id,
            stage: Stage::Waiting,
            setup_begun: false,
            subscribed: false,
            user_id: None,
            guilds: Vec::new(),
            subscriptions: Vec::new(),
        };
        assert(r@.guilds =~= Seq::<u128>::empty());
        assert(r@.subscriptions =~= Seq::<Subscription>::empty());
        r
    }

    pub fn connection_id(&self) -> (r: u128)
        ensures
            r == self@.connection_id,
    {
        self.connection_id
    }

    pub fn stage(&self) -> (r: Stage)
        ensures
            r == self@.stage,
    {
        self.stage
    }

    /// Whether the setup has completed and the bus queue is in the wait set.
    pub fn is_subscribed(&self) -> (r: bool)
        ensures
            r == self@.subscribed,
    {
        self.subscribed
    }

    /// Whether the connection has ended.
    pub fn is_closed(&self) -> (r: bool)
        ensures
            r == (self@.stage is Closed),
    {
        match self.stage {
            Stage::Closed(_) => true,
            _ => false,
        }
    }

    /// The user found in the registry during setup.
    pub fn user_id(&self) -> (r: Option<u128>)
        ensures
            r == self@.user_id,
    {
        self.user_id
    }

    /// The subscriptions the bus has accepted, in order.
    pub fn subscriptions(&self) -> (r: &Vec<Subscription>)
        ensures
            r@ == self@.subscriptions,
    {
        &self.subscriptions
    }

    /// Whether the connection awaits `input` now.
    pub fn accepts(&self, input: &Input) -> (r: bool)
        ensures
            r == spec_accepts(self@, *input),
    {
        match self.stage {
            Stage::Waiting => match input {
                Input::Teardown | Input::DirectEvent | Input::DirectEncodeFailed
                | Input::DirectClosed => true,
                Input::BusMessage(_) | Input::BusClosed => self.subscribed,
                _ => false,
            },
            Stage::Writing => matches!(input, Input::Written),
            Stage::LookingUpUser => matches!(input, Input::UserFound(_)),
            Stage::SubscribingUser | Stage::SubscribingGuilds => matches!(input, Input::Subscribed(_)),
            Stage::FetchingGuilds => matches!(input, Input::Memberships(_)),
            Stage::Decoding(_) => matches!(input, Input::Decoded(_)),
            Stage::Authorizing(_) => matches!(input, Input::Authorized(_)),
            Stage::Closed(_) => false,
        }
    }

    /// Ends the connection.
    fn close(&mut self, e: Ending) -> (r: Action)
        requires
            old(self).wf(),
        ensures
            (final(self)@, r) == spec_close(old(self)@, e),
            final(self).wf(),
    {
        self.stage = Stage::Closed(e);
        Action::Close(e)
    }

    /// Done with an input: starts the setup if it has not begun, else waits.
    fn settle(&mut self) -> (r: Action)
        requires
            old(self).wf(),
            old(self)@.stage is Waiting || old(self)@.stage is Writing || old(self)@.stage
                is Authorizing,
        ensures
            (final(self)@, r) == spec_settle(old(self)@),
            final(self).wf(),
    {
        if !self.setup_begun {
            self.stage = Stage::LookingUpUser;
            self.setup_begun = true;
            Action::LookupUser
        } else {
            self.stage = Stage::Waiting;
            Action::Wait { bus: self.subscribed }
        }
    }

    /// The last subscription of the setup went through.
    fn setup_done(&mut self) -> (r: Action)
        requires
            view_wf(ConnectionView { subscribed: true, stage: Stage::Waiting, ..old(self)@ }),
        ensures
            (final(self)@, r) == spec_setup_done(old(self)@),
            final(self).wf(),
    {
        self.stage = Stage::Waiting;
        self.subscribed = true;
        Action::Wait { bus: true }
    }

    /// Takes one input and says what to do next. The owning task calls it
    /// only with an input the connection awaits (see [`Connection::accepts`]).
    pub fn step(&mut self, input: Input) -> (r: Action)
        requires
            old(self).wf(),
            spec_accepts(old(self)@, input),
        ensures
            (final(self)@, r) == spec_next(old(self)@, input),
            final(self).wf(),
    {

        match input {
            Input::Teardown => self.close(Ending::Requested),
            Input::DirectClosed => self.close(Ending::OwnerClosed),
            Input::DirectEncodeFailed => self.close(Ending::Fatal(CloseCode::OutboundEncode)),
            Input::DirectEvent => {
                self.stage = Stage::Writing;
                Action::Deliver
            },
            Input::BusClosed => self.close(Ending::Fatal(CloseCode::BusLost)),
            Input::BusMessage(name) => match parse_topic(name.as_str()) {
                None => self.settle(),
                Some(t) => {
                    self.stage = Stage::Decoding(t);
                    Action::Decode
                },
            },
            Input::Written => self.settle(),
            Input::UserFound(None) => self.close(Ending::Fatal(CloseCode::ConnectionNotFound)),
            Input::UserFound(Some(u)) => {
                self.stage = Stage::SubscribingUser;
                self.user_id = Some(u);
                Action::Subscribe(Subscription::User(u))
            },
            Input::Subscribed(false) => self.close(Ending::Fatal(CloseCode::BusSubscribe)),
            Input::Subscribed(true) => {
                let u = self.user_id.unwrap();
                if matches!(self.stage, Stage::SubscribingUser) {
                    self.stage = Stage::FetchingGuilds;
                    self.subscriptions.push(Subscription::User(u));
                    assert(self.subscriptions@ =~= seq![Subscription::User(u)]);
                    Action::FetchMemberships(u)
                } else {
                    let k = self.subscriptions.len() - 1;
                    let g = self.guilds[k];
                    self.subscriptions.push(Subscription::Guild(g));
                    proof {
                        assert(self.guilds@.take(k + 1) =~= self.guilds@.take(k as int).push(g));
                        assert(guild_subscriptions(self.guilds@.take(k + 1))
                            =~= guild_subscriptions(self.guilds@.take(k as int)).push(Subscription::Guild(g)));
                        assert(self.subscriptions@ =~= setup_subscriptions(u, self.guilds@, k + 1));
                    }
                    if k + 1 == self.guilds.len() {
                        assert(self.guilds@.take(k + 1) =~= self.guilds@);
                        self.setup_done()
                    } else {
                        Action::Subscribe(Subscription::Guild(self.guilds[k + 1]))
                    }
                }
            },
            Input::Memberships(Err(_)) => self.close(Ending::Fatal(CloseCode::StorageSetup)),
            Input::Memberships(Ok(gs)) => {
                self.guilds = gs;
                let u = self.user_id.unwrap();
                proof {
                    assert(self.guilds@.take(0) =~= Seq::<u128>::empty());
                    assert(guild_subscriptions(Seq::<u128>::empty()) =~= Seq::<Subscription>::empty());
                    assert(self.subscriptions@ =~= setup_subscriptions(u, self.guilds@, 0));
                }
                if self.guilds.len() == 0 {
                    assert(self.guilds@.take(0) =~= self.guilds@);
                    self.setup_done()
                } else {
                    self.stage = Stage::SubscribingGuilds;
                    Action::Subscribe(Subscription::Guild(self.guilds[0]))
                }
            },
            Input::Decoded(false) => self.close(Ending::Fatal(CloseCode::InboundDecode)),
            Input::Decoded(true) => {
                let t = match self.stage {
                    Stage::Decoding(t) => t,
                    _ => unreached(),
                };
                self.stage = Stage::Authorizing(t);
                Action::Authorize(AuthQuery { topic: t, user_id: self.user_id.unwrap() })
            },
            Input::Authorized(Err(_)) => self.close(Ending::Fatal(CloseCode::StorageAuthorization)),
            Input::Authorized(Ok(true)) => {
                self.stage = Stage::Writing;
                Action::Deliver
            },
            Input::Authorized(Ok(false)) => self.settle(),
        }
    }

    /// Removes the connection from the registry. The owning task calls it on
    /// every path by which the connection ends, also in the middle of setup.
    pub fn release(&self, registry: &mut ConnectionRegistry)
        ensures
            final(registry)@ == old(registry)@.remove(self@.connection_id),
            !final(registry)@.contains_key(self@.connection_id),
    {
        registry.unregister(self.connection_id);
    }
}

} // verus!
