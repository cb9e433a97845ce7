//! The runtime's per-channel clients: a `Client` or `Connection` wraps one
//! queue client, and `State` keeps one `Client` for each channel by name.

use vstd::prelude::*;
use vstd::hash_map::StringHashMap;
use crate::service_bus::{open_queue, target_of, Queue, QueueTarget, ServiceBusError, ServiceBusSettings};

verus! {

/// A client of one queue, handed to a guest.
pub struct Client {
    pub queue_client: Queue,
}

impl Client {
    /// The queue this client serves.
    pub open spec fn target(self) -> QueueTarget {
        self.queue_client.target()
    }
}

impl Clone for Client {
    fn clone(&self) -> (r: Self)
        ensures
            r == *self,
    {
        Client { queue_client: self.queue_client.clone() }
    }
}

/// A named connection to one queue, from which clients are made.
pub struct Connection {
    pub queue_client: Queue,
}

/// The connections of a runtime, by name.
pub struct Connections {
    map: StringHashMap<Connection>,
}

impl View for Connections {
    type V = Map<Seq<char>, Connection>;

    closed spec fn view(&self) -> Map<Seq<char>, Connection> {
        self.map@
    }
}

impl Connections {
    /// No connections.
    pub fn new() -> (r: Connections)
        ensures
            r@ == Map::<Seq<char>, Connection>::empty(),
    {
        Connections { map: StringHashMap::new() }
    }

    /// Adds `connection` under `name`, replacing any connection of that name.
    pub fn insert(&mut self, name: String, connection: Connection)
        ensures
            final(self)@ == old(self)@.insert(name@, connection),
    {
        self.map.insert(name, connection);
    }

    /// Whether a connection is named `name`.
    pub fn contains(&self, name: &String) -> (r: bool)
        ensures
            r == self@.contains_key(name@),
    {
        self.map.contains_key(name.as_str())
    }

    /// The connection named `name`, if there is one.
    pub fn get(&self, name: &String) -> (r: Option<&Connection>)
        ensures
            match r {
                Some(c) => self@.contains_key(name@) && *c == self@[name@],
                None => !self@.contains_key(name@),
            },
    {
        self.map.get(name.as_str())
    }
}

/// Creates the connection to the queue `queue`, with the namespace and
/// policy of `settings`.
pub fn new_connection(settings: &ServiceBusSettings, queue: &String) -> (r: Connection)
    ensures
        r.queue_client.target() == target_of(*settings, queue@),
{
    Connection { queue_client: open_queue(settings, queue) }
}

/// Creates a client for the queue named `channel`. This never fails.
pub fn new_client(channel: &String, settings: &ServiceBusSettings) -> (r: Result<Client, ServiceBusError>)
    ensures
        r matches Ok(c) && c.target() == target_of(*settings, channel@),
{
    Ok(Client { queue_client: open_queue(settings, channel) })
}

/// The clients of a runtime, one for each channel by name.
pub struct State {
    clients: StringHashMap<Client>,
}

impl View for State {
    type V = Map<Seq<char>, Client>;

    closed spec fn view(&self) -> Map<Seq<char>, Client> {
        self.clients@
    }
}

impl State {
    /// A state with no clients.
    pub fn new() -> (r: State)
        ensures
            r@ == Map::<Seq<char>, Client>::empty(),
    {
        State { clients: StringHashMap::new() }
    }

    /// Registers `client` for `channel`, replacing any client it had, and
    /// returns the client it replaced.
    pub fn register(&mut self, channel: String, client: Client) -> (previous: Option<Client>)
        ensures
            final(self)@ == old(self)@.insert(channel@, client),
            previous == (if old(self)@.contains_key(channel@) {
                Some(old(self)@[channel@])
            } else {
                None
            }),
    {
        let previous = match self.clients.get(channel.as_str()) {
            Some(c) => Some(c.clone()),
            None => None,
        };
        self.clients.insert(channel, client);
        previous
    }

    /// Creates a client for `channel` and registers it, returning the client
    /// that the channel had before.
    pub fn new_client(&mut self, channel: &String, settings: &ServiceBusSettings) -> (previous: Option<Client>)
        ensures
            final(self)@.dom() == old(self)@.dom().insert(channel@),
            final(self)@[channel@].target() == target_of(*settings, channel@),
            forall|k: Seq<char>| k != channel@ && #[trigger] old(self)@.contains_key(k)
                ==> final(self)@[k] == old(self)@[k],
            previous == (if old(self)@.contains_key(channel@) {
                Some(old(self)@[channel@])
            } else {
                None
            }),
    {
        let client = new_client(channel, settings).unwrap();
        self.register(channel.clone(), client)
    }

    /// Whether `channel` has a client.
    pub fn has_client(&self, channel: &String) -> (r: bool)
        ensures
            r == self@.contains_key(channel@),
    {
        self.clients.contains_key(channel.as_str())
    }

    /// The client of `channel`, which must have one.
    pub fn get_client(&self, channel: &String) -> (r: &Client)
        requires
            self@.contains_key(channel@),
        ensures
            *r == self@[channel@],
    {
        self.clients.get(channel.as_str()).unwrap()
    }
}

/// After a client is registered for a channel, the channel's client is the
/// registered one and every other channel keeps the client it had.
pub proof fn lemma_get_after_register(
    before: Map<Seq<char>, Client>,
    channel: Seq<char>,
    client: Client,
    other: Seq<char>,
)
    ensures
        before.insert(channel, client).contains_key(channel),
        before.insert(channel, client)[channel] == client,
        other != channel ==> (before.insert(channel, client).contains_key(other)
            == before.contains_key(other)),
        other != channel && before.contains_key(other) ==> before.insert(channel, client)[other]
            == before[other],
{
}

/// Registering a client for a channel and then registering the client it
/// replaced puts the state back as it was.
pub proof fn lemma_register_previous_restores(
    before: Map<Seq<char>, Client>,
    channel: Seq<char>,
    client: Client,
)
    requires
        before.contains_key(channel),
    ensures
        before.insert(channel, client).insert(channel, before[channel]) == before,
{
    assert(before.insert(channel, client).insert(channel, before[channel]) =~= before);
}

}
