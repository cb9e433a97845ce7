//! The host side of the guest's `client` resource: a guest connects to a
//! named connection and receives a client resource, which it later drops.

use vstd::prelude::*;
use wasmtime::component::ResourceTable;
use crate::host::same_contents;
use crate::runtime::{Client, Connections};
use crate::table::{
    delete_runtime_client, get_runtime_client, typed_failure, deleted, error_handles, freed, host_clients, push_runtime_client, pushed,
    runtime_client_handles, runtime_clients, table_children, table_full, table_handles,
    table_parents, TableError,
};

verus! {

/// What `connect` leaves behind: on success a fresh handle now holds a
/// runtime client for the queue of the connection `connection` and nothing
/// else changed; on failure the table was full (every handle in use) and is
/// unchanged.
pub open spec fn connected(
    before: ResourceTable,
    after: ResourceTable,
    connection: crate::runtime::Connection,
    r: Result<u32, TableError>,
) -> bool {
    match r {
        Ok(h) => {
            &&& pushed(before, after, h)
            &&& runtime_clients(after) == runtime_clients(before).insert(h, connection.queue_client.target())
            &&& host_clients(after) == host_clients(before)
        },
        Err(e) => e == TableError::Full && table_full(before) && after == before,
    }
}

/// Connects a guest to the connection called `name`, which must exist: a
/// client sharing that connection's queue client is added to `table`, and its
/// handle returned.
pub fn connect(connections: &Connections, table: &mut ResourceTable, name: &String) -> (r: Result<u32, TableError>)
    requires
        connections@.contains_key(name@),
    ensures
        connected(*old(table), *final(table), connections@[name@], r),
{
    let connection = connections.get(name).unwrap();
    let client = Client { queue_client: connection.queue_client.clone() };
    push_runtime_client(table, client)
}

/// Drops the client resource `handle` of a guest, which must be a live
/// runtime client with no children: it is freed, and nothing else changes.
pub fn drop_client(table: &mut ResourceTable, handle: u32) -> (r: Result<(), TableError>)
    requires
        runtime_client_handles(*old(table)).contains(handle),
        table_handles(*old(table)).contains(handle),
        !table_parents(*old(table)).contains(handle),
    ensures
        r is Ok,
        freed(*old(table), *final(table), handle),
{
    let outcome = delete_runtime_client(table, handle);
    match outcome {
        Ok(_) => Ok(()),
        Err(e) => Err(e),
    }
}

/// The client resource `handle` through which a guest sends: on success,
/// the runtime client the table holds there.
pub fn sending_client(table: &ResourceTable, handle: u32) -> (r: Result<&Client, TableError>)
    ensures
        match r {
            Ok(c) => {
                &&& runtime_client_handles(*table).contains(handle)
                &&& c.target() == runtime_clients(*table)[handle]
            },
            Err(e) => typed_failure(*table, runtime_client_handles(*table), handle, e),
        },
{
    get_runtime_client(table, handle)
}

/// A client that a guest connected can be found again to send through, and
/// serves the named connection's queue.
pub proof fn lemma_connected_client_sends_on_its_queue(
    t0: ResourceTable,
    t1: ResourceTable,
    connection: crate::runtime::Connection,
    h: u32,
    r: Result<&Client, TableError>,
)
    requires
        connected(t0, t1, connection, Ok(h)),
        match r {
            Ok(c) => {
                &&& runtime_client_handles(t1).contains(h)
                &&& c.target() == runtime_clients(t1)[h]
            },
            Err(e) => typed_failure(t1, runtime_client_handles(t1), h, e),
        },
    ensures
        r matches Ok(c) && c.target() == connection.queue_client.target(),
{
}

/// A client that a guest connected and then dropped is gone again: the table
/// holds exactly the resources it held before the connect.
pub proof fn lemma_drop_undoes_connect(
    t0: ResourceTable,
    t1: ResourceTable,
    t2: ResourceTable,
    connection: crate::runtime::Connection,
    h: u32,
)
    requires
        connected(t0, t1, connection, Ok(h)),
        freed(t1, t2, h),
    ensures
        same_contents(t2, t0),
{
    assert(table_handles(t2) =~= table_handles(t0));
    assert(table_children(t2) =~= table_children(t0));
    assert(runtime_clients(t2) =~= runtime_clients(t0));
    assert(error_handles(t2) =~= error_handles(t0));
    assert(host_clients(t2) =~= host_clients(t0));
    assert(table_parents(t2) =~= table_parents(t0));
}

/// The client handed out by `connect` may be dropped: it is a live runtime
/// client with no children.
pub proof fn lemma_connected_client_may_be_dropped(
    t0: ResourceTable,
    t1: ResourceTable,
    connection: crate::runtime::Connection,
    h: u32,
)
    requires
        connected(t0, t1, connection, Ok(h)),
    ensures
        runtime_client_handles(t1).contains(h),
        table_handles(t1).contains(h),
        !table_parents(t1).contains(h),
{
}

/// Connecting succeeds whenever the table has a free handle.
pub proof fn lemma_connect_succeeds_unless_full(
    t0: ResourceTable,
    t1: ResourceTable,
    connection: crate::runtime::Connection,
    r: Result<u32, TableError>,
)
    requires
        !table_full(t0),
        connected(t0, t1, connection, r),
    ensures
        r is Ok,
{
}

}
