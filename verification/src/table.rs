//! The resource table that hands clients to a guest, through wasmtime's
//! `ResourceTable`. A resource is named by its handle, the table index that
//! `Resource::rep` gives. The table's contents are described by which
//! handles are in use, which entries have a parent or children, and, for the
//! library's own resources, which queues each one serves.

use vstd::prelude::*;
use wasmtime::component::{Resource, ResourceTable, ResourceTableError};
use crate::host;
use crate::runtime;
use crate::service_bus::QueueTarget;

verus! {

/// wasmtime's resource table, held opaque; its contents are described by
/// the names below.
#[verifier::external_type_specification]
#[verifier::external_body]
pub struct ExResourceTable(wasmtime::component::ResourceTable);

/// Why an operation on the resource table failed.
#[derive(Debug, PartialEq, Eq, Structural)]
pub enum TableError {
    /// The table has no free handle.
    Full,
    /// No resource has this handle.
    NotPresent,
    /// The resource with this handle is of another type.
    WrongType,
    /// The resource has child resources and cannot be deleted.
    HasChildren,
}

/// The handles of the resources that `table` holds.
pub uninterp spec fn table_handles(table: ResourceTable) -> Set<u32>;

/// The handles of the resources in `table` that have child resources.
pub uninterp spec fn table_parents(table: ResourceTable) -> Set<u32>;

/// The handles of the resources in `table` that have a parent resource.
pub uninterp spec fn table_children(table: ResourceTable) -> Set<u32>;

/// The host clients (`host::Client`) in `table`, by handle, each given by the
/// queues it serves per channel (`host::Client::targets`).
pub uninterp spec fn host_clients(table: ResourceTable) -> Map<u32, Map<Seq<char>, QueueTarget>>;

/// The runtime clients (`runtime::Client`) in `table`, by handle, each given
/// by the queue it serves (`runtime::Client::target`).
pub uninterp spec fn runtime_clients(table: ResourceTable) -> Map<u32, QueueTarget>;

/// The handles of the error resources (`host::Error`) in `table`.
pub uninterp spec fn error_handles(table: ResourceTable) -> Set<u32>;

/// The handles of the host clients in `table`.
pub open spec fn host_client_handles(table: ResourceTable) -> Set<u32> {
    host_clients(table).dom()
}

/// The handles of the runtime clients in `table`.
pub open spec fn runtime_client_handles(table: ResourceTable) -> Set<u32> {
    runtime_clients(table).dom()
}

/// Every handle of `table` is in use: no resource can be added.
pub open spec fn table_full(table: ResourceTable) -> bool {
    forall|h: u32| #[trigger] table_handles(table).contains(h)
}

/// What holds after a push of a new resource with no parent under handle
/// `h`, apart from the typed contents.
pub open spec fn pushed(before: ResourceTable, after: ResourceTable, h: u32) -> bool {
    &&& !table_handles(before).contains(h)
    &&& !table_parents(before).contains(h)
    &&& !table_children(before).contains(h)
    &&& !host_client_handles(before).contains(h)
    &&& !runtime_client_handles(before).contains(h)
    &&& !error_handles(before).contains(h)
    &&& table_handles(after) == table_handles(before).insert(h)
    &&& table_parents(after) == table_parents(before)
    &&& table_children(after) == table_children(before)
    &&& error_handles(after) == error_handles(before)
}

/// What holds after the resource under handle `h` was freed: it is gone from
/// every description, and only a parent of it may have lost its last child.
pub open spec fn freed(before: ResourceTable, after: ResourceTable, h: u32) -> bool {
    &&& table_handles(before).contains(h)
    &&& !table_parents(before).contains(h)
    &&& table_handles(after) == table_handles(before).remove(h)
    &&& table_children(after) == table_children(before).remove(h)
    &&& (if table_children(before).contains(h) {
        table_parents(after).subset_of(table_parents(before))
    } else {
        table_parents(after) == table_parents(before)
    })
    &&& host_clients(after) == host_clients(before).remove(h)
    &&& runtime_clients(after) == runtime_clients(before).remove(h)
    &&& error_handles(after) == error_handles(before).remove(h)
}

/// What a delete of handle `h` reports, given the handles `typed` of the
/// resources of the type asked for.
pub open spec fn deleted(before: ResourceTable, after: ResourceTable, typed: Set<u32>, h: u32, r: Result<(), TableError>) -> bool {
    match r {
        Ok(_) => typed.contains(h) && freed(before, after, h),
        Err(TableError::NotPresent) => !table_handles(before).contains(h) && after == before,
        Err(TableError::HasChildren) => {
            &&& table_handles(before).contains(h)
            &&& table_parents(before).contains(h)
            &&& after == before
        },
        Err(TableError::WrongType) => !typed.contains(h) && freed(before, after, h),
        Err(TableError::Full) => false,
    }
}

/// What a typed read of handle `h` reports when it fails, given the handles
/// `typed` of the resources of the type asked for.
pub open spec fn typed_failure(table: ResourceTable, typed: Set<u32>, h: u32, e: TableError) -> bool {
    &&& !typed.contains(h)
    &&& (e == TableError::NotPresent <==> !table_handles(table).contains(h))
    &&& (e == TableError::NotPresent || e == TableError::WrongType)
}

/// The outcome `r` of a delete, with the deleted value dropped.
pub open spec fn unit_of<T>(r: Result<T, TableError>) -> Result<(), TableError> {
    match r {
        Ok(_) => Ok(()),
        Err(e) => Err(e),
    }
}

/// `ResourceTable::push` of a `host::Client`, handing back the handle
/// (`Resource::rep`) of the new resource.
///
/// Claimed, from the source of wasmtime 21: a push reuses a free index or
/// appends one, so the handle was not in use and nothing else changes; the
/// new entry holds `client`, with no parent and no children. It fails only
/// with `Full`, when there is no free index and no further index fits in a
/// `u32`, that is when every `u32` handle is in use; the table is then
/// unchanged.
#[verifier::external_body]
pub(crate) fn push_host_client(table: &mut ResourceTable, client: host::Client) -> (r: Result<u32, TableError>)
    ensures
        match r {
            Ok(h) => {
                &&& pushed(*old(table), *final(table), h)
                &&& table_parents(*final(table)) == table_parents(*old(table))
                &&& table_children(*final(table)) == table_children(*old(table))
                &&& host_clients(*final(table)) == host_clients(*old(table)).insert(h, client.targets())
                &&& runtime_clients(*final(table)) == runtime_clients(*old(table))
            },
            Err(e) => e == TableError::Full && table_full(*old(table)) && *final(table) == *old(table),
        },
{
    match table.push(client) {
        Ok(resource) => Ok(resource.rep()),
        Err(ResourceTableError::Full) => Err(TableError::Full),
        Err(ResourceTableError::NotPresent) => Err(TableError::NotPresent),
        Err(ResourceTableError::WrongType) => Err(TableError::WrongType),
        Err(ResourceTableError::HasChildren) => Err(TableError::HasChildren),
    }
}

/// `ResourceTable::push` of a `runtime::Client`, handing back the handle of
/// the new resource. Claimed as for `push_host_client`.
#[verifier::external_body]
pub(crate) fn push_runtime_client(table: &mut ResourceTable, client: runtime::Client) -> (r: Result<u32, TableError>)
    ensures
        match r {
            Ok(h) => {
                &&& pushed(*old(table), *final(table), h)
                &&& runtime_clients(*final(table)) == runtime_clients(*old(table)).insert(h, client.target())
                &&& host_clients(*final(table)) == host_clients(*old(table))
            },
            Err(e) => e == TableError::Full && table_full(*old(table)) && *final(table) == *old(table),
        },
{
    match table.push(client) {
        Ok(resource) => Ok(resource.rep()),
        Err(ResourceTableError::Full) => Err(TableError::Full),
        Err(ResourceTableError::NotPresent) => Err(TableError::NotPresent),
        Err(ResourceTableError::WrongType) => Err(TableError::WrongType),
        Err(ResourceTableError::HasChildren) => Err(TableError::HasChildren),
    }
}

/// `ResourceTable::get` of the `host::Client` under handle `h`.
///
/// Claimed, from the source of wasmtime 21: the read succeeds exactly when
/// `h` holds a `host::Client`, and gives back that client; it fails with
/// `NotPresent` when `h` holds nothing and with `WrongType` when it holds
/// another type.
#[verifier::external_body]
pub(crate) fn get_host_client(table: &ResourceTable, h: u32) -> (r: Result<&host::Client, TableError>)
    ensures
        match r {
            Ok(c) => {
                &&& host_client_handles(*table).contains(h)
                &&& table_handles(*table).contains(h)
                &&& c.targets() == host_clients(*table)[h]
            },
            Err(e) => typed_failure(*table, host_client_handles(*table), h, e),
        },
{
    match table.get(&Resource::<host::Client>::new_own(h)) {
        Ok(client) => Ok(client),
        Err(ResourceTableError::Full) => Err(TableError::Full),
        Err(ResourceTableError::NotPresent) => Err(TableError::NotPresent),
        Err(ResourceTableError::WrongType) => Err(TableError::WrongType),
        Err(ResourceTableError::HasChildren) => Err(TableError::HasChildren),
    }
}

/// `ResourceTable::get` of the `runtime::Client` under handle `h`. Claimed as
/// for `get_host_client`, with the runtime clients in place of the host
/// clients.
#[verifier::external_body]
pub(crate) fn get_runtime_client(table: &ResourceTable, h: u32) -> (r: Result<&runtime::Client, TableError>)
    ensures
        match r {
            Ok(c) => {
                &&& runtime_client_handles(*table).contains(h)
                &&& table_handles(*table).contains(h)
                &&& c.target() == runtime_clients(*table)[h]
            },
            Err(e) => typed_failure(*table, runtime_client_handles(*table), h, e),
        },
{
    match table.get(&Resource::<runtime::Client>::new_own(h)) {
        Ok(client) => Ok(client),
        Err(ResourceTableError::Full) => Err(TableError::Full),
        Err(ResourceTableError::NotPresent) => Err(TableError::NotPresent),
        Err(ResourceTableError::WrongType) => Err(TableError::WrongType),
        Err(ResourceTableError::HasChildren) => Err(TableError::HasChildren),
    }
}

/// `ResourceTable::delete` of the `runtime::Client` under handle `h`.
///
/// Claimed, from the source of wasmtime 21: a resource with children is not
/// deleted (`HasChildren`, table unchanged); a missing one gives
/// `NotPresent` (table unchanged); otherwise the entry is freed, even when it
/// holds another type, in which case the result is `WrongType`. Freeing a
/// child removes it from its parent's children, which may leave the parent
/// with none. On success the client that was stored is given back.
#[verifier::external_body]
pub(crate) fn delete_runtime_client(table: &mut ResourceTable, h: u32) -> (r: Result<runtime::Client, TableError>)
    ensures
        deleted(*old(table), *final(table), runtime_client_handles(*old(table)), h, unit_of(r)),
        r matches Ok(c) ==> c.target() == runtime_clients(*old(table))[h],
{
    match table.delete(Resource::<runtime::Client>::new_own(h)) {
        Ok(client) => Ok(client),
        Err(ResourceTableError::Full) => Err(TableError::Full),
        Err(ResourceTableError::NotPresent) => Err(TableError::NotPresent),
        Err(ResourceTableError::WrongType) => Err(TableError::WrongType),
        Err(ResourceTableError::HasChildren) => Err(TableError::HasChildren),
    }
}

/// `ResourceTable::delete` of the `host::Client` under handle `h`. Claimed as
/// for `delete_runtime_client`, with the host clients in place of the runtime
/// clients.
#[verifier::external_body]
pub(crate) fn delete_host_client(table: &mut ResourceTable, h: u32) -> (r: Result<host::Client, TableError>)
    ensures
        deleted(*old(table), *final(table), host_client_handles(*old(table)), h, unit_of(r)),
        r matches Ok(c) ==> c.targets() == host_clients(*old(table))[h],
{
    match table.delete(Resource::<host::Client>::new_own(h)) {
        Ok(client) => Ok(client),
        Err(ResourceTableError::Full) => Err(TableError::Full),
        Err(ResourceTableError::NotPresent) => Err(TableError::NotPresent),
        Err(ResourceTableError::WrongType) => Err(TableError::WrongType),
        Err(ResourceTableError::HasChildren) => Err(TableError::HasChildren),
    }
}

/// `ResourceTable::delete` of the `host::Error` under handle `h`. Claimed as
/// for `delete_runtime_client`, with the error resources in place of the
/// runtime clients.
#[verifier::external_body]
pub(crate) fn delete_host_error(table: &mut ResourceTable, h: u32) -> (r: Result<host::Error, TableError>)
    ensures
        deleted(*old(table), *final(table), error_handles(*old(table)), h, unit_of(r)),
{
    match table.delete(Resource::<host::Error>::new_own(h)) {
        Ok(error) => Ok(error),
        Err(ResourceTableError::Full) => Err(TableError::Full),
        Err(ResourceTableError::NotPresent) => Err(TableError::NotPresent),
        Err(ResourceTableError::WrongType) => Err(TableError::WrongType),
        Err(ResourceTableError::HasChildren) => Err(TableError::HasChildren),
    }
}

}
