use crate::exception::Result;
use crate::guard::{release_effect, release_outcome, DropGuard};
use crate::handles::DbConnector;
use crate::cxxstring::CxxString;
use crate::keepalive::{
    c_bytes, cstr, encoded_field_values, encoded_record, field_values_encode_error, has_nul,
    encoding_error, make_field_value_array, make_key_op_field_values_array, name_error, nul_error_of,
    read_field_values, read_key_ops,
    records_encode_error, FieldValueArrayRef, KeepAlive, KeyOpArrayRef,
};
use crate::marshal::{
    key_op_array_error, key_op_array_records, key_op_codes_known, open_error, open_handle, status_ids, status_owned,
    take_key_op_field_values_array, NativeStatus,
};
use crate::native::{key_op_array_ids, without, NativeHeap, NativeKeyOpFieldValuesArray};
use crate::record::{KeyOpFieldValues, KeyOpFieldValuesView};
use vstd::prelude::*;

verus! {

/// The handles that the retention list's own release frees: those of the
/// guards it is the last holder of.
pub open spec fn last_held_handles(g: Seq<DropGuard>) -> Set<usize> {
    Set::new(|h: usize| exists|i: int| 0 <= i < g.len() && (#[trigger] g[i]).handle() == h && g[i].holders() == 1)
}

/// Whether every guard that still has holders holds a live handle, each
/// such handle held by one guard only and none of them `server`.
pub open spec fn guards_hold(g: Seq<DropGuard>, heap: &NativeHeap, server: usize) -> bool {
    &&& forall|i: int|
        0 <= i < g.len() && (#[trigger] g[i]).holders() > 0 ==> heap.live_ids().contains(g[i].handle())
            && g[i].handle() != server
    &&& forall|i: int, j: int|
        0 <= i < g.len() && 0 <= j < g.len() && i != j && g[i].holders() > 0 && g[j].holders() > 0 ==> (
        #[trigger] g[i]).handle() != (#[trigger] g[j]).handle()
}

/// Whether `log` continues `before`.
pub open spec fn continues(before: Seq<usize>, log: Seq<usize>) -> bool {
    before.len() <= log.len() && log.subrange(0, before.len() as int) == before
}

/// The guards of the consumer tables registered with a dispatcher. The
/// list keeps each guard's holder count; it outlives the dispatcher, so a
/// table can still let go of its share after the dispatcher has stopped.
#[derive(Debug)]
pub struct RetentionList {
    guards: Vec<DropGuard>,
}

impl RetentionList {
    /// The guards, by slot.
    pub closed spec fn guards(&self) -> Seq<DropGuard> {
        self.guards@
    }

    /// An empty list.
    pub fn new() -> (r: RetentionList)
        ensures
            r.guards().len() == 0,
    {
        RetentionList { guards: Vec::new() }
    }

    /// The number of guards.
    pub fn len(&self) -> (r: usize)
        ensures
            r == self.guards().len(),
    {
        self.guards.len()
    }

    /// The number of holders of the guard in `slot`.
    pub fn holder_count(&self, slot: usize) -> (r: u32)
        requires
            slot < self.guards().len(),
        ensures
            r == self.guards()[slot as int].holders(),
    {
        self.guards[slot].holder_count()
    }

    /// Adds a guard; returns its slot.
    pub fn register(&mut self, guard: DropGuard) -> (slot: usize)
        ensures
            final(self).guards() == old(self).guards().push(guard),
            slot == old(self).guards().len(),
    {
        let slot = self.guards.len();
        self.guards.push(guard);
        slot
    }

    /// One holder of the guard in `slot` lets go; the last one releases the
    /// guarded handle. Returns whether it did.
    pub fn release(&mut self, heap: &mut NativeHeap, slot: usize) -> (freed: bool)
        requires
            slot < old(self).guards().len(),
            old(self).guards()[slot as int].holds_in(&*old(heap)),
        ensures
            final(self).guards().len() == old(self).guards().len(),
            forall|i: int|
                0 <= i < old(self).guards().len() && i != slot ==> #[trigger] final(self).guards()[i]
                    == old(self).guards()[i],
            final(self).guards()[slot as int].handle() == old(self).guards()[slot as int].handle(),
            (final(self).guards()[slot as int].holders(), final(heap).live_ids(), freed) == release_effect(
                old(self).guards()[slot as int].holders(),
                old(heap).live_ids(),
                old(self).guards()[slot as int].handle(),
            ),
            freed ==> final(heap).release_log() == old(heap).release_log().push(
                old(self).guards()[slot as int].handle(),
            ),
            !freed ==> final(heap).release_log() == old(heap).release_log(),
    {
        let mut g = self.guards[slot].copy();
        let freed = g.release(heap);
        self.guards.set(slot, g);
        freed
    }

    /// The list lets go of its share of every guard that still has
    /// holders, releasing the handles it was the last holder of. Guards
    /// that no one holds any more are left as they are.
    pub fn release_all(&mut self, heap: &mut NativeHeap, server: usize)
        requires
            guards_hold(old(self).guards(), &*old(heap), server),
        ensures
            final(self).guards().len() == old(self).guards().len(),
            forall|i: int|
                0 <= i < old(self).guards().len() ==> (#[trigger] final(self).guards()[i]).handle() == old(
                    self,
                ).guards()[i].handle() && final(self).guards()[i].holders() == (if old(self).guards()[i].holders()
                    > 0 {
                    old(self).guards()[i].holders() - 1
                } else {
                    0
                }),
            final(heap).live_ids() == old(heap).live_ids().difference(last_held_handles(old(self).guards())),
            continues(old(heap).release_log(), final(heap).release_log()),
    {
        let ghost g0 = self.guards@;
        let ghost live0 = heap.live_ids();
        let ghost log0 = heap.release_log();
        let mut i: usize = 0;
        assert(heap.release_log().subrange(0, log0.len() as int) =~= log0);
        while i < self.guards.len()
            invariant
                i <= self.guards@.len(),
                self.guards@.len() == g0.len(),
                forall|j: int| i <= j < g0.len() ==> self.guards@[j] == g0[j],
                forall|j: int|
                    0 <= j < i ==> (#[trigger] self.guards@[j]).handle() == g0[j].handle() && self.guards@[j].holders()
                        == (if g0[j].holders() > 0 {
                        g0[j].holders() - 1
                    } else {
                        0
                    }),
                forall|j: int| 0 <= j < g0.len() && (#[trigger] g0[j]).holders() > 0 ==> live0.contains(g0[j].handle()),
                forall|j: int, k: int|
                    0 <= j < g0.len() && 0 <= k < g0.len() && j != k && g0[j].holders() > 0 && g0[k].holders() > 0
                        ==> (#[trigger] g0[j]).handle() != (#[trigger] g0[k]).handle(),
                heap.live_ids() == live0.difference(last_held_handles(g0.subrange(0, i as int))),
                continues(log0, heap.release_log()),
            decreases self.guards@.len() - i,
        {
            let ghost p = g0.subrange(0, i as int);
            let ghost q = g0.subrange(0, i + 1);
            let ghost log_before = heap.release_log();
            proof {
                assert forall|h: usize| last_held_handles(q).contains(h) == (last_held_handles(p).contains(h) || (
                g0[i as int].handle() == h && g0[i as int].holders() == 1)) by {
                    if last_held_handles(q).contains(h) {
                        let j = choose|j: int| 0 <= j < q.len() && (#[trigger] q[j]).handle() == h && q[j].holders() == 1;
                        if j < i {
                            assert(p[j] == q[j]);
                        }
                    }
                    if last_held_handles(p).contains(h) {
                        let j = choose|j: int| 0 <= j < p.len() && (#[trigger] p[j]).handle() == h && p[j].holders() == 1;
                        assert(q[j] == p[j]);
                    }
                    if g0[i as int].handle() == h && g0[i as int].holders() == 1 {
                        assert(q[i as int] == g0[i as int]);
                    }
                }
            }
            if self.guards[i].holder_count() > 0 {
                proof {
                    assert(!last_held_handles(p).contains(g0[i as int].handle())) by {
                        if last_held_handles(p).contains(g0[i as int].handle()) {
                            let j = choose|j: int| 0 <= j < p.len() && (#[trigger] p[j]).handle() == g0[i as int].handle()
                                && p[j].holders() == 1;
                            assert(p[j] == g0[j]);
                        }
                    }
                }
                let mut g = self.guards[i].copy();
                g.release(heap);
                self.guards.set(i, g);
                proof {
                    assert(heap.release_log().subrange(0, log0.len() as int) =~= log_before.subrange(
                        0,
                        log0.len() as int,
                    ));
                }
            }
            proof {
                assert(heap.live_ids() =~= live0.difference(last_held_handles(q)));
            }
            i = i + 1;
        }
        proof {
            assert(g0.subrange(0, g0.len() as int) =~= g0);
        }
    }
}

/// The message-transport server: a dispatcher that delivers messages to the
/// consumer tables registered with it from a background thread.
#[derive(Debug)]
pub struct ZmqServer {
    ptr: usize,
    endpoint: String,
    /// Consumer tables must outlive the dispatcher thread that may call into
    /// them: the server holds a share of each one's guard.
    message_handler_guards: RetentionList,
}

impl ZmqServer {
    /// The native handle of the server.
    pub closed spec fn handle(&self) -> usize {
        self.ptr
    }

    /// The retention list of the server.
    pub closed spec fn handlers_spec(&self) -> RetentionList {
        self.message_handler_guards
    }

    /// The guards of the consumer tables registered with the server.
    pub open spec fn guards(&self) -> Seq<DropGuard> {
        self.handlers_spec().guards()
    }

    /// The endpoint the server listens on.
    pub closed spec fn endpoint_spec(&self) -> Seq<char> {
        self.endpoint@
    }

    /// Starts a server listening on `endpoint`; `status` is what the native
    /// start reported.
    pub fn new(heap: &mut NativeHeap, endpoint: &str, status: NativeStatus) -> (r: Result<ZmqServer>)
        requires
            old(heap).spare() > 0,
            status_owned(&*old(heap), status),
        ensures
            r is Ok <==> open_error(name_error(endpoint@), status) is None,
            r matches Err(e) ==> Some(e@) == open_error(name_error(endpoint@), status),
            r is Err ==> final(heap).live_ids() == old(heap).live_ids().difference(status_ids(status)),
            r matches Ok(s) ==> s.guards().len() == 0 && s.endpoint_spec() == endpoint@ && !old(
                heap,
            ).live_ids().contains(s.handle()) && final(heap).live_ids() == old(heap).live_ids().insert(
                s.handle(),
            ),
    {
        match open_handle(heap, encoding_error(endpoint), status) {
            Err(e) => Err(e),
            Ok(ptr) => {
                Ok(ZmqServer { ptr, endpoint: endpoint.to_owned(), message_handler_guards: RetentionList::new() })
            },
        }
    }

    /// The native handle of the server.
    pub fn handle_id(&self) -> (r: usize)
        ensures
            r == self.handle(),
    {
        self.ptr
    }

    /// The number of guards in the retention list.
    pub fn guard_count(&self) -> (r: usize)
        ensures
            r == self.guards().len(),
    {
        self.message_handler_guards.len()
    }

    /// The retention list, for a consumer table to let go of its share.
    pub fn handlers(&mut self) -> (r: &mut RetentionList)
        ensures
            *r == old(self).handlers_spec(),
            final(self).handlers_spec() == *final(r),
            final(self).handle() == old(self).handle(),
            final(self).endpoint_spec() == old(self).endpoint_spec(),
    {
        &mut self.message_handler_guards
    }

    /// Adds a consumer table's guard to the retention list; returns its
    /// slot.
    pub fn register_consumer_state_table(&mut self, guard: DropGuard) -> (slot: usize)
        ensures
            final(self).guards() == old(self).guards().push(guard),
            slot == old(self).guards().len(),
            final(self).handle() == old(self).handle(),
            final(self).endpoint_spec() == old(self).endpoint_spec(),
    {
        self.message_handler_guards.register(guard)
    }

    /// Stops the server. The dispatcher stops first: the server's own
    /// handle is released before anything else. Then the retention list lets
    /// go of its share of every guard that still has holders, releasing the
    /// handles it was the last holder of. The list is handed back, so the
    /// tables that still hold a share can let go of it later.
    pub fn close(self, heap: &mut NativeHeap) -> (r: RetentionList)
        requires
            old(heap).live_ids().contains(self.handle()),
            guards_hold(self.guards(), &*old(heap), self.handle()),
        ensures
            final(heap).live_ids() == old(heap).live_ids().remove(self.handle()).difference(
                last_held_handles(self.guards()),
            ),
            continues(old(heap).release_log().push(self.handle()), final(heap).release_log()),
            r.guards().len() == self.guards().len(),
            forall|i: int|
                0 <= i < self.guards().len() ==> (#[trigger] r.guards()[i]).handle() == self.guards()[i].handle()
                    && r.guards()[i].holders() == (if self.guards()[i].holders() > 0 {
                    self.guards()[i].holders() - 1
                } else {
                    0
                }),
    {
        let ghost g0 = self.guards();
        let ghost live0 = heap.live_ids();
        heap.release(self.ptr);
        let mut list = self.message_handler_guards;
        proof {
            assert forall|i: int| 0 <= i < g0.len() && (#[trigger] g0[i]).holders() > 0 implies heap.live_ids().contains(
                g0[i].handle(),
            ) && g0[i].handle() != self.ptr by {}
        }
        list.release_all(heap, self.ptr);
        proof {
            assert(!last_held_handles(g0).contains(self.ptr)) by {
                if last_held_handles(g0).contains(self.ptr) {
                    let j = choose|j: int| 0 <= j < g0.len() && (#[trigger] g0[j]).handle() == self.ptr
                        && g0[j].holders() == 1;
                }
            }
            assert(heap.live_ids() =~= live0.remove(self.ptr).difference(last_held_handles(g0)));
        }
        list
    }
}

/// A consumer table that receives its records through a message-transport
/// server.
#[derive(Debug)]
pub struct ZmqConsumerStateTable {
    ptr: usize,
    db: DbConnector,
    guard_slot: usize,
}

impl ZmqConsumerStateTable {
    /// The native handle of the table.
    pub closed spec fn handle(&self) -> usize {
        self.ptr
    }

    /// The slot of the table's guard in its server's retention list.
    pub closed spec fn guard_slot_spec(&self) -> usize {
        self.guard_slot
    }

    /// Opens a consumer of `table_name` that `zmqs` delivers to.
    ///
    /// The table's guard is registered with the server before this returns,
    /// with two holders: the table and the server's retention list.
    pub fn new(
        heap: &mut NativeHeap,
        db: DbConnector,
        table_name: &str,
        zmqs: &mut ZmqServer,
        pop_batch_size: Option<i32>,
        pri: Option<i32>,
        status: NativeStatus,
    ) -> (r: Result<ZmqConsumerStateTable>)
        requires
            old(heap).spare() > 0,
            status_owned(&*old(heap), status),
        ensures
            r is Ok <==> open_error(name_error(table_name@), status) is None,
            r matches Err(e) ==> Some(e@) == open_error(name_error(table_name@), status),
            r is Err ==> final(heap).live_ids() == old(heap).live_ids().difference(status_ids(status))
                && final(zmqs).guards() == old(zmqs).guards(),
            r matches Ok(t) ==> !old(heap).live_ids().contains(t.handle()) && final(heap).live_ids() == old(
                heap,
            ).live_ids().insert(t.handle()) && t.guard_slot_spec() == old(zmqs).guards().len()
                && final(zmqs).guards().len() == old(zmqs).guards().len() + 1 && final(zmqs).guards().subrange(
                0,
                old(zmqs).guards().len() as int,
            ) == old(zmqs).guards() && final(zmqs).guards()[t.guard_slot_spec() as int].handle() == t.handle()
                && final(zmqs).guards()[t.guard_slot_spec() as int].holders() == 2,
            final(zmqs).handle() == old(zmqs).handle(),
    {
        match open_handle(heap, encoding_error(table_name), status) {
            Err(e) => Err(e),
            Ok(ptr) => {
                let mut guard = DropGuard::new(ptr);
                guard.share();
                let guard_slot = zmqs.register_consumer_state_table(guard);
                assert(zmqs.guards().subrange(0, old(zmqs).guards().len() as int) =~= old(zmqs).guards());
                Ok(ZmqConsumerStateTable { ptr, db, guard_slot })
            },
        }
    }

    /// The native handle of the table.
    pub fn handle_id(&self) -> (r: usize)
        ensures
            r == self.handle(),
    {
        self.ptr
    }

    /// Decodes the records that the native pop returned; nothing pending
    /// gives an empty batch, not an error.
    pub fn pops(&self, heap: &mut NativeHeap, arr: NativeKeyOpFieldValuesArray) -> (r: Result<
        Vec<KeyOpFieldValues>,
    >)
        requires
            old(heap).owns_all(key_op_array_ids(arr)),
            key_op_codes_known(arr),
        ensures
            final(heap).live_ids() == without(old(heap).live_ids(), key_op_array_ids(arr)),
            r is Ok <==> key_op_array_error(arr) is None,
            r matches Ok(v) ==> v@.map_values(|k: KeyOpFieldValues| k@) == key_op_array_records(arr),
            r matches Err(e) ==> Some(e@) == key_op_array_error(arr),
    {
        take_key_op_field_values_array(heap, arr)
    }

    /// The table lets go of its share of the guard, through its server's
    /// retention list or through the list a closed server handed back. The
    /// handle is released only if the list already let go. Returns whether
    /// it was.
    pub fn close(self, heap: &mut NativeHeap, handlers: &mut RetentionList) -> (freed: bool)
        requires
            self.guard_slot_spec() < old(handlers).guards().len(),
            old(handlers).guards()[self.guard_slot_spec() as int].holds_in(&*old(heap)),
        ensures
            (
                final(handlers).guards()[self.guard_slot_spec() as int].holders(),
                final(heap).live_ids(),
                freed,
            ) == release_effect(
                old(handlers).guards()[self.guard_slot_spec() as int].holders(),
                old(heap).live_ids(),
                old(handlers).guards()[self.guard_slot_spec() as int].handle(),
            ),
            final(handlers).guards().len() == old(handlers).guards().len(),
            forall|i: int|
                0 <= i < old(handlers).guards().len() && i != self.guard_slot_spec() ==> (#[trigger] final(handlers).guards()[i])
                    == old(handlers).guards()[i],
    {
        handlers.release(heap, self.guard_slot)
    }
}

/// The message-transport client that producers send through.
#[derive(Debug)]
pub struct ZmqClient {
    ptr: usize,
    endpoint: String,
}

impl ZmqClient {
    /// The native handle of the client.
    pub closed spec fn handle(&self) -> usize {
        self.ptr
    }

    /// Creates a client of the server at `endpoint`.
    pub fn new(heap: &mut NativeHeap, endpoint: &str, status: NativeStatus) -> (r: Result<ZmqClient>)
        requires
            old(heap).spare() > 0,
            status_owned(&*old(heap), status),
        ensures
            r is Ok <==> open_error(name_error(endpoint@), status) is None,
            r matches Err(e) ==> Some(e@) == open_error(name_error(endpoint@), status),
            r is Err ==> final(heap).live_ids() == old(heap).live_ids().difference(status_ids(status)),
            r matches Ok(c) ==> !old(heap).live_ids().contains(c.handle()) && final(heap).live_ids() == old(
                heap,
            ).live_ids().insert(c.handle()),
    {
        match open_handle(heap, encoding_error(endpoint), status) {
            Err(e) => Err(e),
            Ok(ptr) => {
                Ok(ZmqClient { ptr, endpoint: endpoint.to_owned() })
            },
        }
    }

    /// Encodes a batch of records for the native send: the database and
    /// table names as native strings, and the record array with the arena
    /// that keeps its buffers alive until the send has returned.
    pub fn send_msg(&self, db_name: &str, table_name: &str, kfvs: &Vec<KeyOpFieldValues>) -> (r: Result<
        (Vec<u8>, Vec<u8>, KeyOpArrayRef, KeepAlive),
    >)
        ensures
            r is Ok <==> !has_nul(db_name@) && !has_nul(table_name@) && records_encode_error(kfvs@) is None,
            r matches Err(e) ==> (if has_nul(db_name@) {
                e@ == nul_error_of(db_name@)
            } else if has_nul(table_name@) {
                e@ == nul_error_of(table_name@)
            } else {
                Some(e@) == records_encode_error(kfvs@)
            }),
            r matches Ok((d, t, a, keep)) ==> d@ == c_bytes(db_name@) && t@ == c_bytes(table_name@) && read_key_ops(
                keep@,
                a,
            ) == Some(Seq::new(kfvs@.len(), |i: int| encoded_record(kfvs@[i]))),
    {
        let d = match cstr(db_name) {
            Ok(d) => d,
            Err(e) => {
                return Err(e);
            },
        };
        let t = match cstr(table_name) {
            Ok(t) => t,
            Err(e) => {
                return Err(e);
            },
        };
        match make_key_op_field_values_array(kfvs) {
            Ok((a, keep)) => Ok((d, t, a, keep)),
            Err(e) => Err(e),
        }
    }
}

/// A producer that writes a table's records through a message-transport
/// client.
#[derive(Debug)]
pub struct ZmqProducerStateTable {
    ptr: usize,
    db: DbConnector,
    zmqc: ZmqClient,
    db_persistence: bool,
}

impl ZmqProducerStateTable {
    /// The native handle of the producer.
    pub closed spec fn handle(&self) -> usize {
        self.ptr
    }

    /// Opens a producer of `table_name` that sends through `zmqc`.
    pub fn new(heap: &mut NativeHeap, db: DbConnector, table_name: &str, zmqc: ZmqClient, db_persistence: bool, status: NativeStatus) -> (r:
        Result<ZmqProducerStateTable>)
        requires
            old(heap).spare() > 0,
            status_owned(&*old(heap), status),
        ensures
            r is Ok <==> open_error(name_error(table_name@), status) is None,
            r matches Err(e) ==> Some(e@) == open_error(name_error(table_name@), status),
            r is Err ==> final(heap).live_ids() == old(heap).live_ids().difference(status_ids(status)),
            r matches Ok(p) ==> !old(heap).live_ids().contains(p.handle()) && final(heap).live_ids() == old(
                heap,
            ).live_ids().insert(p.handle()),
    {
        match open_handle(heap, encoding_error(table_name), status) {
            Err(e) => Err(e),
            Ok(ptr) => {
                Ok(ZmqProducerStateTable { ptr, db, zmqc, db_persistence })
            },
        }
    }

    /// Encodes a write of `fvs` under `key` for the native write call, with
    /// the arena that keeps its buffers alive until the call has returned.
    pub fn set(&self, key: &str, fvs: &Vec<(String, CxxString)>) -> (r: Result<(Vec<u8>, FieldValueArrayRef, KeepAlive)>)
        ensures
            r is Ok <==> !has_nul(key@) && field_values_encode_error(fvs@) is None,
            r matches Err(e) ==> (if has_nul(key@) {
                e@ == nul_error_of(key@)
            } else {
                Some(e@) == field_values_encode_error(fvs@)
            }),
            r matches Ok((k, a, keep)) ==> k@ == c_bytes(key@) && read_field_values(keep@, a) == Some(
                encoded_field_values(fvs@),
            ),
    {
        encode_write(key, fvs)
    }

    /// Encodes a delete of `key` for the native delete call.
    pub fn del(&self, key: &str) -> (r: Result<Vec<u8>>)
        ensures
            r is Ok <==> !has_nul(key@),
            r matches Err(e) ==> e@ == nul_error_of(key@),
            r matches Ok(k) ==> k@ == c_bytes(key@),
    {
        cstr(key)
    }
}

/// A producer of a table's change queue.
#[derive(Debug)]
pub struct ProducerStateTable {
    ptr: usize,
    db: DbConnector,
}

impl ProducerStateTable {
    /// The native handle of the producer.
    pub closed spec fn handle(&self) -> usize {
        self.ptr
    }

    /// The connection the producer writes through.
    pub closed spec fn db_spec(&self) -> DbConnector {
        self.db
    }

    /// Opens a producer of `table_name` over `db`.
    pub fn new(heap: &mut NativeHeap, db: DbConnector, table_name: &str, status: NativeStatus) -> (r: Result<ProducerStateTable>)
        requires
            old(heap).spare() > 0,
            status_owned(&*old(heap), status),
        ensures
            r is Ok <==> open_error(name_error(table_name@), status) is None,
            r matches Err(e) ==> Some(e@) == open_error(name_error(table_name@), status),
            r is Err ==> final(heap).live_ids() == old(heap).live_ids().difference(status_ids(status)),
            r matches Ok(p) ==> !old(heap).live_ids().contains(p.handle()) && final(heap).live_ids() == old(
                heap,
            ).live_ids().insert(p.handle()),
    {
        match open_handle(heap, encoding_error(table_name), status) {
            Err(e) => Err(e),
            Ok(ptr) => {
                Ok(ProducerStateTable { ptr, db })
            },
        }
    }

    /// Encodes a write of `fvs` under `key` for the native write call: the
    /// key as a native string, and the field array with the arena that keeps
    /// its buffers alive until the call has returned.
    pub fn set(&self, key: &str, fvs: &Vec<(String, CxxString)>) -> (r: Result<(Vec<u8>, FieldValueArrayRef, KeepAlive)>)
        ensures
            r is Ok <==> !has_nul(key@) && field_values_encode_error(fvs@) is None,
            r matches Err(e) ==> (if has_nul(key@) {
                e@ == nul_error_of(key@)
            } else {
                Some(e@) == field_values_encode_error(fvs@)
            }),
            r matches Ok((k, a, keep)) ==> k@ == c_bytes(key@) && read_field_values(keep@, a) == Some(
                encoded_field_values(fvs@),
            ),
    {
        encode_write(key, fvs)
    }

    /// Encodes a delete of `key` for the native delete call.
    pub fn del(&self, key: &str) -> (r: Result<Vec<u8>>)
        ensures
            r is Ok <==> !has_nul(key@),
            r matches Err(e) ==> e@ == nul_error_of(key@),
            r matches Ok(k) ==> k@ == c_bytes(key@),
    {
        cstr(key)
    }

    /// Closes the producer, releasing its handle and its connection's.
    pub fn close(self, heap: &mut NativeHeap)
        requires
            old(heap).live_ids().contains(self.handle()),
            old(heap).live_ids().contains(self.db_spec().handle()),
            self.handle() != self.db_spec().handle(),
        ensures
            final(heap).live_ids() == old(heap).live_ids().remove(self.handle()).remove(self.db_spec().handle()),
    {
        heap.release(self.ptr);
        self.db.close(heap);
    }
}

/// Encodes a write: the key, then the fields.
fn encode_write(key: &str, fvs: &Vec<(String, CxxString)>) -> (r: Result<(Vec<u8>, FieldValueArrayRef, KeepAlive)>)
    ensures
        r is Ok <==> !has_nul(key@) && field_values_encode_error(fvs@) is None,
        r matches Err(e) ==> (if has_nul(key@) {
            e@ == nul_error_of(key@)
        } else {
            Some(e@) == field_values_encode_error(fvs@)
        }),
        r matches Ok((k, a, keep)) ==> k@ == c_bytes(key@) && read_field_values(keep@, a) == Some(
            encoded_field_values(fvs@),
        ),
{
    let k = match cstr(key) {
        Ok(k) => k,
        Err(e) => {
            return Err(e);
        },
    };
    match make_field_value_array(fvs) {
        Ok((a, keep)) => Ok((k, a, keep)),
        Err(e) => Err(e),
    }
}

} // verus!
