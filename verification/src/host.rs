//! The host's client: one queue client for each channel that the guest's
//! configuration names.

use vstd::prelude::*;
use vstd::hash_map::StringHashMap;
use wasmtime::component::ResourceTable;
use crate::service_bus::{open_queue, target_of, Queue, QueueTarget, ServiceBusSettings};
use crate::table::{
    delete_host_client, delete_host_error, deleted, error_handles, get_host_client,
    host_client_handles, host_clients, push_host_client, pushed, runtime_clients, table_children,
    table_full, table_handles, table_parents, typed_failure, TableError,
};

verus! {

/// The names of `channels`, as a set.
pub open spec fn channel_names(channels: Seq<String>) -> Set<Seq<char>> {
    Set::new(|name: Seq<char>| exists|i: int| 0 <= i < channels.len() && #[trigger] channels[i]@ == name)
}

/// The queues that a host configured with `settings` serves for `channels`:
/// for each channel named, the queue of that name.
pub open spec fn configured_targets(channels: Seq<String>, settings: ServiceBusSettings) -> Map<Seq<char>, QueueTarget> {
    Map::new(|name: Seq<char>| channel_names(channels).contains(name), |name: Seq<char>| target_of(settings, name))
}

/// The host's client: a queue client for each channel, by name.
pub struct Client {
    channels: StringHashMap<Queue>,
}

/// The error resource of the messaging interface; it carries nothing.
pub struct Error {}

impl View for Client {
    type V = Map<Seq<char>, Queue>;

    closed spec fn view(&self) -> Map<Seq<char>, Queue> {
        self.channels@
    }
}

impl Client {
    /// The queue that each channel's client serves.
    pub open spec fn targets(self) -> Map<Seq<char>, QueueTarget> {
        self@.map_values(|q: Queue| q.target())
    }

    /// Whether `channel` has a queue client.
    pub fn has_channel(&self, channel: &String) -> (r: bool)
        ensures
            r == self@.contains_key(channel@),
    {
        self.channels.contains_key(channel.as_str())
    }

    /// The queue client of `channel`, which must have one.
    pub fn queue(&self, channel: &String) -> (r: &Queue)
        requires
            self@.contains_key(channel@),
        ensures
            *r == self@[channel@],
    {
        self.channels.get(channel.as_str()).unwrap()
    }

    /// A copy of the queue client of `channel`, which must have one, for a
    /// worker to own.
    pub fn queue_owned(&self, channel: &String) -> (r: Queue)
        requires
            self@.contains_key(channel@),
        ensures
            r == self@[channel@],
    {
        self.queue(channel).clone()
    }
}

/// Creates the host's client: a client of the queue named after each of
/// `channels`, made with `settings`. A channel named twice gets the client
/// made last.
pub fn build_client(channels: &Vec<String>, settings: &ServiceBusSettings) -> (client: Client)
    ensures
        client@.dom() == channel_names(channels@),
        client.targets() == configured_targets(channels@, *settings),
{
    let mut map: StringHashMap<Queue> = StringHashMap::new();
    let n = channels.len();
    let mut i: usize = 0;
    while i < n
        invariant
            n == channels.len(),
            i <= n,
            map@.dom() == channel_names(channels@.take(i as int)),
            forall|k: Seq<char>| #[trigger] map@.contains_key(k) ==> map@[k].target() == target_of(*settings, k),
        decreases n - i,
    {
        let channel = &channels[i];
        let queue = open_queue(settings, channel);
        map.insert(channel.clone(), queue);
        proof {
            let before = channels@.take(i as int);
            let after = channels@.take(i + 1);
            assert(after == before.push(channels@[i as int]));
            assert forall|name: Seq<char>| #[trigger] channel_names(after).contains(name)
                == map@.dom().contains(name) by {
                if channel_names(after).contains(name) {
                    let j = choose|j: int| 0 <= j < after.len() && #[trigger] after[j]@ == name;
                    if j < i {
                        assert(before[j]@ == name);
                    }
                }
                if map@.dom().contains(name) && name != channels@[i as int]@ {
                    assert(channel_names(before).contains(name));
                    let j = choose|j: int| 0 <= j < before.len() && #[trigger] before[j]@ == name;
                    assert(after[j]@ == name);
                }
                if name == channels@[i as int]@ {
                    assert(after[i as int]@ == name);
                }
            }
            assert(map@.dom() =~= channel_names(after));
        }
        i = i + 1;
    }
    assert(channels@.take(n as int) == channels@);
    let client = Client { channels: map };
    assert(client.targets() =~= configured_targets(channels@, *settings));
    client
}

/// The table holds the same resources, with the same parents, children and
/// contents, in `a` and in `b`.
pub open spec fn same_contents(a: ResourceTable, b: ResourceTable) -> bool {
    &&& table_handles(a) == table_handles(b)
    &&& table_parents(a) == table_parents(b)
    &&& table_children(a) == table_children(b)
    &&& host_clients(a) == host_clients(b)
    &&& runtime_clients(a) == runtime_clients(b)
    &&& error_handles(a) == error_handles(b)
}

/// What `initialise_client` leaves behind: on success a fresh handle now
/// holds a host client serving exactly the configured channels, each on the
/// queue of its name, and nothing else changed; on failure the table was full
/// (every handle in use) and is unchanged.
pub open spec fn initialised(
    before: ResourceTable,
    after: ResourceTable,
    channels: Seq<String>,
    settings: ServiceBusSettings,
    r: Result<u32, TableError>,
) -> bool {
    match r {
        Ok(h) => {
            &&& pushed(before, after, h)
            &&& host_clients(after) == host_clients(before).insert(h, configured_targets(channels, settings))
            &&& runtime_clients(after) == runtime_clients(before)
        },
        Err(e) => e == TableError::Full && table_full(before) && after == before,
    }
}

/// What a read of the host client under handle `h` reports: on success, the
/// client the table holds there.
pub open spec fn read_outcome(table: ResourceTable, h: u32, r: Result<&Client, TableError>) -> bool {
    match r {
        Ok(c) => {
            &&& host_client_handles(table).contains(h)
            &&& table_handles(table).contains(h)
            &&& c.targets() == host_clients(table)[h]
        },
        Err(e) => typed_failure(table, host_client_handles(table), h, e),
    }
}

/// Creates the host's client for `channels` (see `build_client`) and hands
/// it to the resource table, returning its handle.
pub fn initialise_client(
    channels: &Vec<String>,
    settings: &ServiceBusSettings,
    table: &mut ResourceTable,
) -> (r: Result<u32, TableError>)
    ensures
        initialised(*old(table), *final(table), channels@, *settings, r),
{
    let client = build_client(channels, settings);
    push_host_client(table, client)
}

/// The host client under handle `h` in `table`.
pub fn client_of(table: &ResourceTable, h: u32) -> (r: Result<&Client, TableError>)
    ensures
        read_outcome(*table, h, r),
{
    get_host_client(table, h)
}

/// The handle that `initialise_client` hands back can be read back, as the
/// client serving exactly the configured channels, each on the queue of its
/// name.
pub proof fn lemma_initialised_client_is_readable(
    t0: ResourceTable,
    t1: ResourceTable,
    channels: Seq<String>,
    settings: ServiceBusSettings,
    h: u32,
    r: Result<&Client, TableError>,
)
    requires
        initialised(t0, t1, channels, settings, Ok(h)),
        read_outcome(t1, h, r),
    ensures
        r matches Ok(c) && c.targets() == configured_targets(channels, settings),
        r matches Ok(c) && (channels.len() == 0 ==> c@.dom().is_empty()),
{
    if channels.len() == 0 {
        let c = r->Ok_0;
        assert forall|k: Seq<char>| !c@.dom().contains(k) by {
            assert(!channel_names(channels).contains(k));
            assert(!c.targets().contains_key(k));
        }
    }
}

/// What `drop_client` leaves behind, for handle `h`.
pub open spec fn client_dropped(before: ResourceTable, after: ResourceTable, h: u32, r: Result<(), TableError>) -> bool {
    deleted(before, after, host_client_handles(before), h, r)
}

/// What `drop_error` leaves behind, for handle `h`.
pub open spec fn error_dropped(before: ResourceTable, after: ResourceTable, h: u32, r: Result<(), TableError>) -> bool {
    deleted(before, after, error_handles(before), h, r)
}

/// Drops the host client resource `handle` that a guest held.
pub fn drop_client(table: &mut ResourceTable, handle: u32) -> (r: Result<(), TableError>)
    ensures
        client_dropped(*old(table), *final(table), handle, r),
{
    let outcome = delete_host_client(table, handle);
    match outcome {
        Ok(_) => Ok(()),
        Err(e) => Err(e),
    }
}

/// Drops the error resource `handle` that a guest held.
pub fn drop_error(table: &mut ResourceTable, handle: u32) -> (r: Result<(), TableError>)
    ensures
        error_dropped(*old(table), *final(table), handle, r),
{
    let outcome = delete_host_error(table, handle);
    match outcome {
        Ok(_) => Ok(()),
        Err(e) => Err(e),
    }
}

/// Dropping the client that `initialise_client` handed out succeeds, and the
/// table holds exactly the resources it held before it was handed out.
pub proof fn lemma_drop_undoes_initialise(
    t0: ResourceTable,
    t1: ResourceTable,
    t2: ResourceTable,
    channels: Seq<String>,
    settings: ServiceBusSettings,
    h: u32,
    r: Result<(), TableError>,
)
    requires
        initialised(t0, t1, channels, settings, Ok(h)),
        client_dropped(t1, t2, h, r),
    ensures
        r is Ok,
        same_contents(t2, t0),
{
    assert(table_handles(t2) =~= table_handles(t0));
    assert(table_children(t2) =~= table_children(t0));
    assert(host_clients(t2) =~= host_clients(t0));
    assert(error_handles(t2) =~= error_handles(t0));
    assert(runtime_clients(t2) =~= runtime_clients(t0));
    assert(table_parents(t2) =~= table_parents(t0));
}

/// Dropping a live error resource that has no children succeeds.
pub proof fn lemma_drop_of_live_error(t0: ResourceTable, t1: ResourceTable, h: u32, r: Result<(), TableError>)
    requires
        error_handles(t0).contains(h),
        table_handles(t0).contains(h),
        !table_parents(t0).contains(h),
        error_dropped(t0, t1, h, r),
    ensures
        r is Ok,
{
}

/// Dropping a handle that holds nothing fails with `NotPresent` and changes
/// nothing.
pub proof fn lemma_drop_of_unknown_handle(t0: ResourceTable, t1: ResourceTable, h: u32, r: Result<(), TableError>)
    requires
        !table_handles(t0).contains(h),
        client_dropped(t0, t1, h, r),
    ensures
        r == Err::<(), TableError>(TableError::NotPresent),
        t1 == t0,
{
}

/// Handing the host client to the table succeeds whenever the table has a
/// free handle.
pub proof fn lemma_initialise_succeeds_unless_full(
    t0: ResourceTable,
    t1: ResourceTable,
    channels: Seq<String>,
    settings: ServiceBusSettings,
    r: Result<u32, TableError>,
)
    requires
        !table_full(t0),
        initialised(t0, t1, channels, settings, r),
    ensures
        r is Ok,
{
}

}
