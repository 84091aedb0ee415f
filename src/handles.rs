use crate::exception::Result;
use crate::exception::{Exception, ExceptionView};
use crate::keepalive::{encoding_error, has_nul, name_error};
use crate::cxxstring::{CxxStr, CxxString};
use crate::marshal::{
    call_result, field_value_array_error, field_value_array_map, native_failure, take_field_value_array,
    RAW_EXCEPTION_NONE, error_view, key_op_array_error, key_op_array_records, key_op_codes_known, open_error, open_handle, status_ids,
    status_owned, take_key_op_field_values_array, NativeStatus,
};
use crate::native::{
    field_value_array_ids, key_op_array_ids, without, NativeFieldValueArray, NativeHeap, NativeKeyOpFieldValuesArray,
    NativeString,
};
use crate::record::{FieldValues, KeyOpFieldValues, KeyOpFieldValuesView, SelectResult};
use vstd::prelude::*;

verus! {

/// How a connection reaches its store.
#[derive(Debug)]
pub enum DbConnectionInfo {
    Tcp { hostname: String, port: u16, db_id: i32 },
    Unix { sock_path: String, db_id: i32 },
    Named { db_name: String, is_tcp_conn: bool },
    Keyed { db_name: String, is_tcp_conn: bool, container_name: String, netns: String },
}

impl Clone for DbConnectionInfo {
    fn clone(&self) -> (r: Self)
        ensures
            r == *self,
    {
        match self {
            DbConnectionInfo::Tcp { hostname, port, db_id } => DbConnectionInfo::Tcp {
                hostname: hostname.clone(),
                port: *port,
                db_id: *db_id,
            },
            DbConnectionInfo::Unix { sock_path, db_id } => DbConnectionInfo::Unix {
                sock_path: sock_path.clone(),
                db_id: *db_id,
            },
            DbConnectionInfo::Named { db_name, is_tcp_conn } => DbConnectionInfo::Named {
                db_name: db_name.clone(),
                is_tcp_conn: *is_tcp_conn,
            },
            DbConnectionInfo::Keyed { db_name, is_tcp_conn, container_name, netns } => DbConnectionInfo::Keyed {
                db_name: db_name.clone(),
                is_tcp_conn: *is_tcp_conn,
                container_name: container_name.clone(),
                netns: netns.clone(),
            },
        }
    }
}

/// The error that encoding a connection's names gives, if any: the first
/// name holding a NUL byte.
pub open spec fn connection_error(c: DbConnectionInfo) -> Option<ExceptionView> {
    match c {
        DbConnectionInfo::Tcp { hostname, .. } => name_error(hostname@),
        DbConnectionInfo::Unix { sock_path, .. } => name_error(sock_path@),
        DbConnectionInfo::Named { db_name, .. } => name_error(db_name@),
        DbConnectionInfo::Keyed { db_name, container_name, netns, .. } => if has_nul(db_name@) {
            name_error(db_name@)
        } else if has_nul(container_name@) {
            name_error(container_name@)
        } else {
            name_error(netns@)
        },
    }
}

fn encode_connection(c: &DbConnectionInfo) -> (r: Option<Exception>)
    ensures
        error_view(r) == connection_error(*c),
{
    match c {
        DbConnectionInfo::Tcp { hostname, .. } => encoding_error(hostname.as_str()),
        DbConnectionInfo::Unix { sock_path, .. } => encoding_error(sock_path.as_str()),
        DbConnectionInfo::Named { db_name, .. } => encoding_error(db_name.as_str()),
        DbConnectionInfo::Keyed { db_name, container_name, netns, .. } => {
            match encoding_error(db_name.as_str()) {
                Some(e) => Some(e),
                None => match encoding_error(container_name.as_str()) {
                    Some(e) => Some(e),
                    None => encoding_error(netns.as_str()),
                },
            }
        },
    }
}

/// The default response timeout of a cloned connection, in milliseconds.
pub const DEFAULT_CLONE_TIMEOUT_MS: u32 = 15000;

/// A connection to the store.
#[derive(Debug)]
pub struct DbConnector {
    ptr: usize,
    connection: DbConnectionInfo,
    timeout_ms: u32,
}

impl DbConnector {
    /// The native handle of the connection.
    pub closed spec fn handle(&self) -> usize {
        self.ptr
    }

    /// How the connection reaches its store.
    pub closed spec fn connection_spec(&self) -> DbConnectionInfo {
        self.connection
    }

    /// The response timeout, in milliseconds; 0 blocks indefinitely.
    pub closed spec fn timeout_spec(&self) -> u32 {
        self.timeout_ms
    }

    /// Opens a connection. `status` is what the native open reported; a
    /// name that cannot be a native string fails first, then a failing
    /// open. A timeout of 0 means block indefinitely.
    pub fn new(heap: &mut NativeHeap, connection: DbConnectionInfo, timeout_ms: u32, status: NativeStatus) -> (r:
        Result<DbConnector>)
        requires
            old(heap).spare() > 0,
            status_owned(&*old(heap), status),
        ensures
            r is Ok <==> open_error(connection_error(connection), status) is None,
            r matches Err(e) ==> Some(e@) == open_error(connection_error(connection), status),
            r is Err ==> final(heap).live_ids() == old(heap).live_ids().difference(status_ids(status)),
            r matches Ok(db) ==> db.connection_spec() == connection && db.timeout_spec() == timeout_ms && !old(
                heap,
            ).live_ids().contains(db.handle()) && final(heap).live_ids() == old(heap).live_ids().insert(
                db.handle(),
            ),
    {
        match open_handle(heap, encode_connection(&connection), status) {
            Err(e) => Err(e),
            Ok(ptr) => Ok(DbConnector { ptr, connection, timeout_ms }),
        }
    }

    /// Opens a connection to a database named in the store's configuration.
    pub fn new_named(
        heap: &mut NativeHeap,
        db_name: String,
        is_tcp_conn: bool,
        timeout_ms: u32,
        status: NativeStatus,
    ) -> (r: Result<DbConnector>)
        requires
            old(heap).spare() > 0,
            status_owned(&*old(heap), status),
        ensures
            r is Ok <==> open_error(connection_error((DbConnectionInfo::Named { db_name, is_tcp_conn })), status) is None,
            r matches Err(e) ==> Some(e@) == open_error(connection_error((DbConnectionInfo::Named { db_name, is_tcp_conn })), status),
            r is Err ==> final(heap).live_ids() == old(heap).live_ids().difference(status_ids(status)),
            r matches Ok(db) ==> db.connection_spec() == (DbConnectionInfo::Named { db_name, is_tcp_conn }) && db.timeout_spec() == timeout_ms && !old(
                heap,
            ).live_ids().contains(db.handle()) && final(heap).live_ids() == old(heap).live_ids().insert(
                db.handle(),
            ),
    {
        Self::new(heap, DbConnectionInfo::Named { db_name, is_tcp_conn }, timeout_ms, status)
    }

    /// Opens a connection over a TCP socket.
    pub fn new_tcp(
        heap: &mut NativeHeap,
        db_id: i32,
        hostname: String,
        port: u16,
        timeout_ms: u32,
        status: NativeStatus,
    ) -> (r: Result<DbConnector>)
        requires
            old(heap).spare() > 0,
            status_owned(&*old(heap), status),
        ensures
            r is Ok <==> open_error(connection_error((DbConnectionInfo::Tcp { hostname, port, db_id })), status) is None,
            r matches Err(e) ==> Some(e@) == open_error(connection_error((DbConnectionInfo::Tcp { hostname, port, db_id })), status),
            r is Err ==> final(heap).live_ids() == old(heap).live_ids().difference(status_ids(status)),
            r matches Ok(db) ==> db.connection_spec() == (DbConnectionInfo::Tcp { hostname, port, db_id }) && db.timeout_spec() == timeout_ms && !old(
                heap,
            ).live_ids().contains(db.handle()) && final(heap).live_ids() == old(heap).live_ids().insert(
                db.handle(),
            ),
    {
        Self::new(heap, DbConnectionInfo::Tcp { hostname, port, db_id }, timeout_ms, status)
    }

    /// Opens a connection over a unix socket.
    pub fn new_unix(
        heap: &mut NativeHeap,
        db_id: i32,
        sock_path: String,
        timeout_ms: u32,
        status: NativeStatus,
    ) -> (r: Result<DbConnector>)
        requires
            old(heap).spare() > 0,
            status_owned(&*old(heap), status),
        ensures
            r is Ok <==> open_error(connection_error((DbConnectionInfo::Unix { sock_path, db_id })), status) is None,
            r matches Err(e) ==> Some(e@) == open_error(connection_error((DbConnectionInfo::Unix { sock_path, db_id })), status),
            r is Err ==> final(heap).live_ids() == old(heap).live_ids().difference(status_ids(status)),
            r matches Ok(db) ==> db.connection_spec() == (DbConnectionInfo::Unix { sock_path, db_id }) && db.timeout_spec() == timeout_ms && !old(
                heap,
            ).live_ids().contains(db.handle()) && final(heap).live_ids() == old(heap).live_ids().insert(
                db.handle(),
            ),
    {
        Self::new(heap, DbConnectionInfo::Unix { sock_path, db_id }, timeout_ms, status)
    }

    /// Opens a connection to a database of a given container and network
    /// namespace.
    pub fn new_keyed(
        heap: &mut NativeHeap,
        db_name: String,
        is_tcp_conn: bool,
        timeout_ms: u32,
        container_name: String,
        netns: String,
        status: NativeStatus,
    ) -> (r: Result<DbConnector>)
        requires
            old(heap).spare() > 0,
            status_owned(&*old(heap), status),
        ensures
            r is Ok <==> open_error(connection_error((DbConnectionInfo::Keyed { db_name, is_tcp_conn, container_name, netns })), status) is None,
            r matches Err(e) ==> Some(e@) == open_error(connection_error((DbConnectionInfo::Keyed { db_name, is_tcp_conn, container_name, netns })), status),
            r is Err ==> final(heap).live_ids() == old(heap).live_ids().difference(status_ids(status)),
            r matches Ok(db) ==> db.connection_spec() == (DbConnectionInfo::Keyed { db_name, is_tcp_conn, container_name, netns }) && db.timeout_spec() == timeout_ms && !old(
                heap,
            ).live_ids().contains(db.handle()) && final(heap).live_ids() == old(heap).live_ids().insert(
                db.handle(),
            ),
    {
        Self::new(
            heap,
            DbConnectionInfo::Keyed { db_name, is_tcp_conn, container_name, netns },
            timeout_ms,
            status,
        )
    }

    /// Opens an independent connection to the same target, with the given
    /// timeout; a failing native open is an error, never ignored.
    pub fn clone_timeout(&self, heap: &mut NativeHeap, timeout_ms: u32, status: NativeStatus) -> (r: Result<
        DbConnector,
    >)
        requires
            old(heap).live_ids().contains(self.handle()),
            old(heap).spare() > 0,
            status_owned(&*old(heap), status),
        ensures
            r is Ok <==> open_error(connection_error(self.connection_spec()), status) is None,
            r matches Err(e) ==> Some(e@) == open_error(connection_error(self.connection_spec()), status),
            r is Err ==> final(heap).live_ids() == old(heap).live_ids().difference(status_ids(status)),
            r matches Ok(db) ==> db.connection_spec() == self.connection_spec() && db.timeout_spec() == timeout_ms && !old(
                heap,
            ).live_ids().contains(db.handle()) && final(heap).live_ids() == old(heap).live_ids().insert(
                db.handle(),
            ),
            r matches Ok(db) ==> db.handle() != self.handle(),
    {
        Self::new(heap, self.connection.clone(), timeout_ms, status)
    }

    /// Opens an independent connection to the same target, with the
    /// default timeout.
    pub fn clone_default(&self, heap: &mut NativeHeap, status: NativeStatus) -> (r: Result<DbConnector>)
        requires
            old(heap).live_ids().contains(self.handle()),
            old(heap).spare() > 0,
            status_owned(&*old(heap), status),
        ensures
            r is Ok <==> open_error(connection_error(self.connection_spec()), status) is None,
            r matches Err(e) ==> Some(e@) == open_error(connection_error(self.connection_spec()), status),
            r is Err ==> final(heap).live_ids() == old(heap).live_ids().difference(status_ids(status)),
            r matches Ok(db) ==> db.connection_spec() == self.connection_spec() && db.timeout_spec() == DEFAULT_CLONE_TIMEOUT_MS && !old(
                heap,
            ).live_ids().contains(db.handle()) && final(heap).live_ids() == old(heap).live_ids().insert(
                db.handle(),
            ),
            r matches Ok(db) ==> db.handle() != self.handle(),
    {
        self.clone_timeout(heap, DEFAULT_CLONE_TIMEOUT_MS, status)
    }

    /// How the connection reaches its store.
    pub fn connection(&self) -> (r: &DbConnectionInfo)
        ensures
            *r == self.connection_spec(),
    {
        &self.connection
    }

    /// The native handle of the connection.
    pub fn handle_id(&self) -> (r: usize)
        ensures
            r == self.handle(),
    {
        self.ptr
    }

    /// Closes the connection, releasing its native handle.
    pub fn close(self, heap: &mut NativeHeap)
        requires
            old(heap).live_ids().contains(self.handle()),
        ensures
            final(heap).live_ids() == old(heap).live_ids().remove(self.handle()),
    {
        heap.release(self.ptr);
    }
}

/// Takes the records that a native pop returned; shared by the consumer
/// handles.
fn pop_records(heap: &mut NativeHeap, arr: NativeKeyOpFieldValuesArray) -> (r: Result<Vec<KeyOpFieldValues>>)
    requires
        old(heap).owns_all(key_op_array_ids(arr)),
        key_op_codes_known(arr),
    ensures
        final(heap).live_ids() == without(old(heap).live_ids(), key_op_array_ids(arr)),
        r is Ok <==> key_op_array_error(arr) is None,
        r matches Ok(v) ==> v@.map_values(|k: KeyOpFieldValues| k@) == key_op_array_records(arr),
        r matches Err(e) ==> Some(e@) == key_op_array_error(arr),
{
    take_key_op_field_values_array(heap, arr)
}

/// A consumer of a table's change queue.
#[derive(Debug)]
pub struct ConsumerStateTable {
    ptr: usize,
    db: DbConnector,
    table_name: String,
}

impl ConsumerStateTable {
    /// The native handle of the queue.
    pub closed spec fn handle(&self) -> usize {
        self.ptr
    }

    /// The connection the queue reads through.
    pub closed spec fn db_spec(&self) -> DbConnector {
        self.db
    }

    /// The table that the queue follows.
    pub closed spec fn table_name_spec(&self) -> Seq<char> {
        self.table_name@
    }

    /// Opens a consumer of `table_name` over `db`.
    pub fn new(
        heap: &mut NativeHeap,
        db: DbConnector,
        table_name: &str,
        pop_batch_size: Option<i32>,
        pri: Option<i32>,
        status: NativeStatus,
    ) -> (r: Result<ConsumerStateTable>)
        requires
            old(heap).spare() > 0,
            status_owned(&*old(heap), status),
        ensures
            r is Ok <==> open_error(name_error(table_name@), status) is None,
            r matches Err(e) ==> Some(e@) == open_error(name_error(table_name@), status),
            r is Err ==> final(heap).live_ids() == old(heap).live_ids().difference(status_ids(status)),
            r matches Ok(t) ==> t.table_name_spec() == table_name@ && !old(heap).live_ids().contains(t.handle())
                && final(heap).live_ids() == old(heap).live_ids().insert(t.handle()),
    {
        match open_handle(heap, encoding_error(table_name), status) {
            Err(e) => Err(e),
            Ok(ptr) => {
                Ok(ConsumerStateTable { ptr, db, table_name: table_name.to_owned() })
            },
        }
    }

    /// Decodes the records that the native pop returned; nothing pending
    /// gives an empty batch, not an error.
    pub fn pops(&self, heap: &mut NativeHeap, arr: NativeKeyOpFieldValuesArray) -> (r: Result<
        Vec<KeyOpFieldValues>,
    >)
        requires
            old(heap).owns_all(key_op_array_ids(arr)),
            key_op_codes_known(arr),
        ensures
            final(heap).live_ids() == without(old(heap).live_ids(), key_op_array_ids(arr)),
            r is Ok <==> key_op_array_error(arr) is None,
            r matches Ok(v) ==> v@.map_values(|k: KeyOpFieldValues| k@) == key_op_array_records(arr),
            r matches Err(e) ==> Some(e@) == key_op_array_error(arr),
    {
        pop_records(heap, arr)
    }

    /// The connection the queue reads through.
    pub fn db_connector(&self) -> (r: &DbConnector)
        ensures
            *r == self.db_spec(),
    {
        &self.db
    }

    /// The connection the queue reads through, for mutation.
    pub fn db_connector_mut(&mut self) -> (r: &mut DbConnector)
        ensures
            *r == old(self).db_spec(),
            final(self).db_spec() == *final(r),
            final(self).handle() == old(self).handle(),
            final(self).table_name_spec() == old(self).table_name_spec(),
    {
        &mut self.db
    }

    /// The table that the queue follows.
    pub fn table_name(&self) -> (r: &str)
        ensures
            r@ == self.table_name_spec(),
    {
        self.table_name.as_str()
    }

    /// Closes the queue, releasing its handle and its connection's.
    pub fn close(self, heap: &mut NativeHeap)
        requires
            old(heap).live_ids().contains(self.handle()),
            old(heap).live_ids().contains(self.db_spec().handle()),
            self.handle() != self.db_spec().handle(),
        ensures
            final(heap).live_ids() == old(heap).live_ids().remove(self.handle()).remove(self.db_spec().handle()),
    {
        heap.release(self.ptr);
        self.db.close(heap);
    }
}

/// A subscriber to a table's key-space notifications.
#[derive(Debug)]
pub struct SubscriberStateTable {
    ptr: usize,
    db: DbConnector,
    table_name: String,
}

impl SubscriberStateTable {
    /// The native handle of the subscription.
    pub closed spec fn handle(&self) -> usize {
        self.ptr
    }

    /// The connection the subscription reads through.
    pub closed spec fn db_spec(&self) -> DbConnector {
        self.db
    }

    /// The table that the subscription follows.
    pub closed spec fn table_name_spec(&self) -> Seq<char> {
        self.table_name@
    }

    /// Subscribes to `table_name` over `db`.
    pub fn new(
        heap: &mut NativeHeap,
        db: DbConnector,
        table_name: &str,
        pop_batch_size: Option<i32>,
        pri: Option<i32>,
        status: NativeStatus,
    ) -> (r: Result<SubscriberStateTable>)
        requires
            old(heap).spare() > 0,
            status_owned(&*old(heap), status),
        ensures
            r is Ok <==> open_error(name_error(table_name@), status) is None,
            r matches Err(e) ==> Some(e@) == open_error(name_error(table_name@), status),
            r is Err ==> final(heap).live_ids() == old(heap).live_ids().difference(status_ids(status)),
            r matches Ok(t) ==> t.table_name_spec() == table_name@ && !old(heap).live_ids().contains(t.handle())
                && final(heap).live_ids() == old(heap).live_ids().insert(t.handle()),
    {
        match open_handle(heap, encoding_error(table_name), status) {
            Err(e) => Err(e),
            Ok(ptr) => {
                Ok(SubscriberStateTable { ptr, db, table_name: table_name.to_owned() })
            },
        }
    }

    /// Decodes the records that the native pop returned; nothing pending
    /// gives an empty batch, not an error.
    pub fn pops(&self, heap: &mut NativeHeap, arr: NativeKeyOpFieldValuesArray) -> (r: Result<
        Vec<KeyOpFieldValues>,
    >)
        requires
            old(heap).owns_all(key_op_array_ids(arr)),
            key_op_codes_known(arr),
        ensures
            final(heap).live_ids() == without(old(heap).live_ids(), key_op_array_ids(arr)),
            r is Ok <==> key_op_array_error(arr) is None,
            r matches Ok(v) ==> v@.map_values(|k: KeyOpFieldValues| k@) == key_op_array_records(arr),
            r matches Err(e) ==> Some(e@) == key_op_array_error(arr),
    {
        pop_records(heap, arr)
    }

    /// The connection the subscription reads through.
    pub fn db_connector(&self) -> (r: &DbConnector)
        ensures
            *r == self.db_spec(),
    {
        &self.db
    }

    /// The connection the subscription reads through, for mutation.
    pub fn db_connector_mut(&mut self) -> (r: &mut DbConnector)
        ensures
            *r == old(self).db_spec(),
            final(self).db_spec() == *final(r),
            final(self).handle() == old(self).handle(),
            final(self).table_name_spec() == old(self).table_name_spec(),
    {
        &mut self.db
    }

    /// The table that the subscription follows.
    pub fn table_name(&self) -> (r: &str)
        ensures
            r@ == self.table_name_spec(),
    {
        self.table_name.as_str()
    }

    /// Closes the subscription, releasing its handle and its connection's.
    pub fn close(self, heap: &mut NativeHeap)
        requires
            old(heap).live_ids().contains(self.handle()),
            old(heap).live_ids().contains(self.db_spec().handle()),
            self.handle() != self.db_spec().handle(),
        ensures
            final(heap).live_ids() == old(heap).live_ids().remove(self.handle()).remove(self.db_spec().handle()),
    {
        heap.release(self.ptr);
        self.db.close(heap);
    }
}

/// A named table of the store.
#[derive(Debug)]
pub struct Table {
    name: String,
    ptr: usize,
    db: DbConnector,
}

impl Table {
    /// The native handle of the table.
    pub closed spec fn handle(&self) -> usize {
        self.ptr
    }

    /// The table's name.
    pub closed spec fn name_spec(&self) -> Seq<char> {
        self.name@
    }

    /// Opens the table `table_name` over `db`.
    pub fn new(heap: &mut NativeHeap, db: DbConnector, table_name: &str, status: NativeStatus) -> (r: Result<Table>)
        requires
            old(heap).spare() > 0,
            status_owned(&*old(heap), status),
        ensures
            r is Ok <==> open_error(name_error(table_name@), status) is None,
            r matches Err(e) ==> Some(e@) == open_error(name_error(table_name@), status),
            r is Err ==> final(heap).live_ids() == old(heap).live_ids().difference(status_ids(status)),
            r matches Ok(t) ==> t.name_spec() == table_name@ && !old(heap).live_ids().contains(t.handle())
                && final(heap).live_ids() == old(heap).live_ids().insert(t.handle()),
    {
        match open_handle(heap, encoding_error(table_name), status) {
            Err(e) => Err(e),
            Ok(ptr) => {
                Ok(Table { name: table_name.to_owned(), ptr, db })
            },
        }
    }

    /// The table's name.
    pub fn get_name(&self) -> (r: &str)
        ensures
            r@ == self.name_spec(),
    {
        self.name.as_str()
    }

    /// The connection the table goes through.
    pub closed spec fn db_spec(&self) -> DbConnector {
        self.db
    }

    /// Closes the table, releasing its handle and its connection's.
    pub fn close(self, heap: &mut NativeHeap)
        requires
            old(heap).live_ids().contains(self.handle()),
            old(heap).live_ids().contains(self.db_spec().handle()),
            self.handle() != self.db_spec().handle(),
        ensures
            final(heap).live_ids() == old(heap).live_ids().remove(self.handle()).remove(self.db_spec().handle()),
    {
        heap.release(self.ptr);
        self.db.close(heap);
    }
}

/// The error of encoding two names, the first one first.
pub open spec fn names_error(a: Seq<char>, b: Seq<char>) -> Option<ExceptionView> {
    if has_nul(a) {
        name_error(a)
    } else {
        name_error(b)
    }
}

fn encode_names(a: &str, b: &str) -> (r: Option<Exception>)
    ensures
        error_view(r) == names_error(a@, b@),
{
    match encoding_error(a) {
        Some(e) => Some(e),
        None => encoding_error(b),
    }
}

/// The error of a call whose names and status are given.
pub open spec fn call_error(names: Option<ExceptionView>, status: NativeStatus) -> Option<ExceptionView> {
    open_error(names, status)
}

/// Whether a native call that failed handed back no value.
pub open spec fn no_value_on_failure(status: NativeStatus, value: Option<NativeString>) -> bool {
    status.exception != RAW_EXCEPTION_NONE ==> value is None
}

/// The ids a handed-back value owns.
pub open spec fn value_ids(value: Option<NativeString>) -> Set<usize> {
    match value {
        Some(v) => set![v.id],
        None => Set::empty(),
    }
}

/// The flag that a native status code stands for.
pub open spec fn flag(reply: i32) -> bool {
    reply == 1
}

/// Decodes a call that answers with a flag.
fn flag_result(heap: &mut NativeHeap, encoding: Option<Exception>, status: NativeStatus, reply: i32) -> (r: Result<bool>)
    requires
        status_owned(&*old(heap), status),
    ensures
        r is Ok <==> open_error(error_view(encoding), status) is None,
        r matches Err(e) ==> Some(e@) == open_error(error_view(encoding), status),
        r matches Ok(b) ==> b == flag(reply),
        final(heap).live_ids() == old(heap).live_ids().difference(status_ids(status)),
{
    match call_result(heap, encoding, status) {
        Ok(()) => Ok(reply == 1),
        Err(e) => Err(e),
    }
}

/// Decodes a call that answers with a string or null.
fn value_result(
    heap: &mut NativeHeap,
    encoding: Option<Exception>,
    status: NativeStatus,
    value: Option<NativeString>,
) -> (r: Result<Option<CxxString>>)
    requires
        status_owned(&*old(heap), status),
        no_value_on_failure(status, value),
        value matches Some(v) ==> old(heap).live_ids().contains(v.id),
    ensures
        r is Ok <==> open_error(error_view(encoding), status) is None,
        r matches Err(e) ==> Some(e@) == open_error(error_view(encoding), status),
        r matches Ok(v) ==> (v is Some <==> value is Some) && (v matches Some(c) ==> c@ == value->0.bytes@),
        final(heap).live_ids() == old(heap).live_ids().difference(status_ids(status)).difference(value_ids(value)),
{
    let ghost live0 = heap.live_ids();
    let r = call_result(heap, encoding, status);
    let ghost live1 = heap.live_ids();
    let taken = CxxString::take(heap, value);
    proof {
        assert(heap.live_ids() =~= live0.difference(status_ids(status)).difference(value_ids(value)));
    }
    match r {
        Ok(()) => Ok(taken),
        Err(e) => Err(e),
    }
}

impl DbConnector {
    /// Deletes `key`; `status` and `reply` are what the native call
    /// reported. Answers whether the key existed.
    pub fn del(&self, heap: &mut NativeHeap, key: &str, status: NativeStatus, reply: i32) -> (r: Result<bool>)
        requires
            status_owned(&*old(heap), status),
        ensures
            r is Ok <==> call_error(name_error(key@), status) is None,
            r matches Err(e) ==> Some(e@) == call_error(name_error(key@), status),
            r matches Ok(b) ==> b == flag(reply),
            final(heap).live_ids() == old(heap).live_ids().difference(status_ids(status)),
    {
        flag_result(heap, encoding_error(key), status, reply)
    }

    /// Whether `key` exists; `status` and `reply` are what the native call
    /// reported.
    pub fn key_exists(&self, heap: &mut NativeHeap, key: &str, status: NativeStatus, reply: i32) -> (r: Result<bool>)
        requires
            status_owned(&*old(heap), status),
        ensures
            r is Ok <==> call_error(name_error(key@), status) is None,
            r matches Err(e) ==> Some(e@) == call_error(name_error(key@), status),
            r matches Ok(b) ==> b == flag(reply),
            final(heap).live_ids() == old(heap).live_ids().difference(status_ids(status)),
    {
        flag_result(heap, encoding_error(key), status, reply)
    }

    /// Deletes `field` of the hash `key`; answers whether it existed.
    pub fn hdel(&self, heap: &mut NativeHeap, key: &str, field: &str, status: NativeStatus, reply: i32) -> (r:
        Result<bool>)
        requires
            status_owned(&*old(heap), status),
        ensures
            r is Ok <==> call_error(names_error(key@, field@), status) is None,
            r matches Err(e) ==> Some(e@) == call_error(names_error(key@, field@), status),
            r matches Ok(b) ==> b == flag(reply),
            final(heap).live_ids() == old(heap).live_ids().difference(status_ids(status)),
    {
        flag_result(heap, encode_names(key, field), status, reply)
    }

    /// Whether the hash `key` has `field`.
    pub fn hexists(&self, heap: &mut NativeHeap, key: &str, field: &str, status: NativeStatus, reply: i32) -> (r:
        Result<bool>)
        requires
            status_owned(&*old(heap), status),
        ensures
            r is Ok <==> call_error(names_error(key@, field@), status) is None,
            r matches Err(e) ==> Some(e@) == call_error(names_error(key@, field@), status),
            r matches Ok(b) ==> b == flag(reply),
            final(heap).live_ids() == old(heap).live_ids().difference(status_ids(status)),
    {
        flag_result(heap, encode_names(key, field), status, reply)
    }

    /// Empties the database; answers whether the native side did.
    pub fn flush_db(&self, heap: &mut NativeHeap, status: NativeStatus, reply: i32) -> (r: Result<bool>)
        requires
            status_owned(&*old(heap), status),
        ensures
            r is Ok <==> status.exception == RAW_EXCEPTION_NONE,
            r matches Err(e) ==> e@ == native_failure(status),
            r matches Ok(b) ==> b == flag(reply),
            final(heap).live_ids() == old(heap).live_ids().difference(status_ids(status)),
    {
        flag_result(heap, None, status, reply)
    }

    /// Sets `key` to `val`.
    pub fn set(&self, heap: &mut NativeHeap, key: &str, val: &CxxStr, status: NativeStatus) -> (r: Result<()>)
        requires
            status_owned(&*old(heap), status),
        ensures
            r is Ok <==> call_error(name_error(key@), status) is None,
            r matches Err(e) ==> Some(e@) == call_error(name_error(key@), status),
            final(heap).live_ids() == old(heap).live_ids().difference(status_ids(status)),
    {
        call_result(heap, encoding_error(key), status)
    }

    /// Sets `field` of the hash `key` to `val`.
    pub fn hset(&self, heap: &mut NativeHeap, key: &str, field: &str, val: &CxxStr, status: NativeStatus) -> (r:
        Result<()>)
        requires
            status_owned(&*old(heap), status),
        ensures
            r is Ok <==> call_error(names_error(key@, field@), status) is None,
            r matches Err(e) ==> Some(e@) == call_error(names_error(key@, field@), status),
            final(heap).live_ids() == old(heap).live_ids().difference(status_ids(status)),
    {
        call_result(heap, encode_names(key, field), status)
    }

    /// The value of `key`, taken from what the native call handed back;
    /// `None` where it handed back null.
    pub fn get(&self, heap: &mut NativeHeap, key: &str, status: NativeStatus, value: Option<NativeString>) -> (r:
        Result<Option<CxxString>>)
        requires
            status_owned(&*old(heap), status),
            no_value_on_failure(status, value),
            value matches Some(v) ==> old(heap).live_ids().contains(v.id),
        ensures
            r is Ok <==> call_error(name_error(key@), status) is None,
            r matches Err(e) ==> Some(e@) == call_error(name_error(key@), status),
            r matches Ok(v) ==> (v is Some <==> value is Some) && (v matches Some(c) ==> c@ == value->0.bytes@),
            final(heap).live_ids() == old(heap).live_ids().difference(status_ids(status)).difference(
                value_ids(value),
            ),
    {
        value_result(heap, encoding_error(key), status, value)
    }

    /// The value of `field` of the hash `key`, taken from what the native
    /// call handed back; `None` where it handed back null.
    pub fn hget(
        &self,
        heap: &mut NativeHeap,
        key: &str,
        field: &str,
        status: NativeStatus,
        value: Option<NativeString>,
    ) -> (r: Result<Option<CxxString>>)
        requires
            status_owned(&*old(heap), status),
            no_value_on_failure(status, value),
            value matches Some(v) ==> old(heap).live_ids().contains(v.id),
        ensures
            r is Ok <==> call_error(names_error(key@, field@), status) is None,
            r matches Err(e) ==> Some(e@) == call_error(names_error(key@, field@), status),
            r matches Ok(v) ==> (v is Some <==> value is Some) && (v matches Some(c) ==> c@ == value->0.bytes@),
            final(heap).live_ids() == old(heap).live_ids().difference(status_ids(status)).difference(
                value_ids(value),
            ),
    {
        value_result(heap, encode_names(key, field), status, value)
    }

    /// Every field of the hash `key`, decoded from the array the native
    /// call handed back, which is taken whatever fails.
    pub fn hgetall(&self, heap: &mut NativeHeap, key: &str, status: NativeStatus, arr: NativeFieldValueArray) -> (r:
        Result<FieldValues>)
        requires
            status_owned(&*old(heap), status),
            status.exception != RAW_EXCEPTION_NONE ==> arr.block is None,
            old(heap).owns_all(field_value_array_ids(arr)),
        ensures
            r is Ok <==> call_error(name_error(key@), status) is None && field_value_array_error(arr) is None,
            r matches Err(e) ==> Some(e@) == (if call_error(name_error(key@), status) is Some {
                call_error(name_error(key@), status)
            } else {
                field_value_array_error(arr)
            }),
            r matches Ok(m) ==> m@ == field_value_array_map(arr),
    {
        let r = call_result(heap, encoding_error(key), status);
        proof {
            assert forall|k: int| 0 <= k < field_value_array_ids(arr).len() implies heap.live_ids().contains(
                #[trigger] field_value_array_ids(arr)[k],
            ) by {
                if status.exception != RAW_EXCEPTION_NONE {
                    assert(field_value_array_ids(arr).len() == 0);
                }
            }
        }
        let m = take_field_value_array(heap, arr);
        match r {
            Err(e) => Err(e),
            Ok(()) => m,
        }
    }
}

/// The result of a readiness wait, from what the native wait reported.
pub fn read_data_result(heap: &mut NativeHeap, status: NativeStatus, raw: u32) -> (r: Result<SelectResult>)
    requires
        status_owned(&*old(heap), status),
        status.exception == RAW_EXCEPTION_NONE ==> SelectResult::spec_from_raw(raw) is Some,
    ensures
        r is Ok <==> status.exception == RAW_EXCEPTION_NONE,
        r matches Err(e) ==> e@ == native_failure(status),
        r matches Ok(s) ==> SelectResult::spec_from_raw(raw) == Some(s),
        final(heap).live_ids() == old(heap).live_ids().difference(status_ids(status)),
{
    match call_result(heap, None, status) {
        Ok(()) => Ok(SelectResult::from_raw(raw)),
        Err(e) => Err(e),
    }
}

} // verus!
