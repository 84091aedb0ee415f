use crate::exception::Result;
use crate::keepalive::{encoding_error, name_error};
use crate::marshal::{open_error, open_handle, status_ids, status_owned, NativeStatus};
use crate::native::NativeHeap;
use crate::record::KeyOpFieldValues;
use vstd::prelude::*;

verus! {

/// The namespace a connector is opened in: the given one, or the default
/// (empty) one.
pub open spec fn namespace_or_default(namespace: Option<String>) -> Seq<char> {
    match namespace {
        Some(n) => n@,
        None => Seq::empty(),
    }
}

fn unwrap_namespace(namespace: Option<String>) -> (r: String)
    ensures
        r@ == namespace_or_default(namespace),
{
    match namespace {
        Some(n) => n,
        None => String::new(),
    }
}

/// A connector to every database of a namespace.
#[derive(Debug)]
pub struct SonicV2Connector {
    ptr: usize,
    use_unix_socket_path: bool,
    netns: String,
}

impl SonicV2Connector {
    /// The native handle of the connector.
    pub closed spec fn handle(&self) -> usize {
        self.ptr
    }

    /// Whether the connector reaches its databases through unix sockets.
    pub closed spec fn use_unix_socket_path_spec(&self) -> bool {
        self.use_unix_socket_path
    }

    /// The namespace of the connector.
    pub closed spec fn netns_spec(&self) -> Seq<char> {
        self.netns@
    }

    /// Creates a connector in `namespace`, or in the default namespace.
    pub fn new(heap: &mut NativeHeap, use_unix_socket_path: bool, namespace: Option<String>, status: NativeStatus) -> (r: Result<
        SonicV2Connector,
    >)
        requires
            old(heap).spare() > 0,
            status_owned(&*old(heap), status),
        ensures
            r is Ok <==> open_error(name_error(namespace_or_default(namespace)), status) is None,
            r matches Err(e) ==> Some(e@) == open_error(name_error(namespace_or_default(namespace)), status),
            r is Err ==> final(heap).live_ids() == old(heap).live_ids().difference(status_ids(status)),
            r matches Ok(c) ==> c.use_unix_socket_path_spec() == use_unix_socket_path && c.netns_spec()
                == namespace_or_default(namespace) && !old(heap).live_ids().contains(c.handle())
                && final(heap).live_ids() == old(heap).live_ids().insert(c.handle()),
    {
        let netns = unwrap_namespace(namespace);
        match open_handle(heap, encoding_error(netns.as_str()), status) {
            Err(e) => Err(e),
            Ok(ptr) => {
                Ok(SonicV2Connector { ptr, use_unix_socket_path, netns })
            },
        }
    }

    /// Whether the connector reaches its databases through unix sockets.
    pub fn use_unix_socket_path(&self) -> (r: bool)
        ensures
            r == self.use_unix_socket_path_spec(),
    {
        self.use_unix_socket_path
    }

    /// The namespace of the connector.
    pub fn netns(&self) -> (r: &str)
        ensures
            r@ == self.netns_spec(),
    {
        self.netns.as_str()
    }
}

/// A connector to the configuration database of a namespace.
#[derive(Debug)]
pub struct ConfigDBConnector {
    ptr: usize,
    use_unix_socket_path: bool,
    netns: String,
}

impl ConfigDBConnector {
    /// The native handle of the connector.
    pub closed spec fn handle(&self) -> usize {
        self.ptr
    }

    /// Whether the connector reaches the database through a unix socket.
    pub closed spec fn use_unix_socket_path_spec(&self) -> bool {
        self.use_unix_socket_path
    }

    /// The namespace of the connector.
    pub closed spec fn netns_spec(&self) -> Seq<char> {
        self.netns@
    }

    /// Creates a connector in `netns`, or in the default namespace.
    pub fn new(heap: &mut NativeHeap, use_unix_socket_path: bool, netns: Option<String>, status: NativeStatus) -> (r: Result<
        ConfigDBConnector,
    >)
        requires
            old(heap).spare() > 0,
            status_owned(&*old(heap), status),
        ensures
            r is Ok <==> open_error(name_error(namespace_or_default(netns)), status) is None,
            r matches Err(e) ==> Some(e@) == open_error(name_error(namespace_or_default(netns)), status),
            r is Err ==> final(heap).live_ids() == old(heap).live_ids().difference(status_ids(status)),
            r matches Ok(c) ==> c.use_unix_socket_path_spec() == use_unix_socket_path && c.netns_spec()
                == namespace_or_default(netns) && !old(heap).live_ids().contains(c.handle())
                && final(heap).live_ids() == old(heap).live_ids().insert(c.handle()),
    {
        let netns = unwrap_namespace(netns);
        match open_handle(heap, encoding_error(netns.as_str()), status) {
            Err(e) => Err(e),
            Ok(ptr) => {
                Ok(ConfigDBConnector { ptr, use_unix_socket_path, netns })
            },
        }
    }

    /// Whether the connector reaches the database through a unix socket.
    pub fn use_unix_socket_path(&self) -> (r: bool)
        ensures
            r == self.use_unix_socket_path_spec(),
    {
        self.use_unix_socket_path
    }

    /// The namespace of the connector.
    pub fn netns(&self) -> (r: &str)
        ensures
            r@ == self.netns_spec(),
    {
        self.netns.as_str()
    }
}

/// A connection that belongs to another connector and is not closed by
/// whoever borrows it.
#[derive(Debug)]
pub struct BorrowedDbConnector {
    ptr: usize,
}

impl BorrowedDbConnector {
    /// Borrows the connection with native handle `ptr`.
    pub fn new(ptr: usize) -> (r: BorrowedDbConnector)
        ensures
            r.handle() == ptr,
    {
        BorrowedDbConnector { ptr }
    }

    /// The native handle of the connection.
    pub closed spec fn handle(&self) -> usize {
        self.ptr
    }
}

/// A publisher of structured events of one source.
#[derive(Debug)]
pub struct EventPublisher {
    ptr: usize,
    event_source: String,
}

impl EventPublisher {
    /// The native handle of the publisher.
    pub closed spec fn handle(&self) -> usize {
        self.ptr
    }

    /// The event source of the publisher.
    pub closed spec fn event_source_spec(&self) -> Seq<char> {
        self.event_source@
    }

    /// Creates a publisher for `event_source`.
    pub fn new(heap: &mut NativeHeap, event_source: &str, status: NativeStatus) -> (r: Result<EventPublisher>)
        requires
            old(heap).spare() > 0,
            status_owned(&*old(heap), status),
        ensures
            r is Ok <==> open_error(name_error(event_source@), status) is None,
            r matches Err(e) ==> Some(e@) == open_error(name_error(event_source@), status),
            r is Err ==> final(heap).live_ids() == old(heap).live_ids().difference(status_ids(status)),
            r matches Ok(p) ==> p.event_source_spec() == event_source@ && !old(heap).live_ids().contains(
                p.handle(),
            ) && final(heap).live_ids() == old(heap).live_ids().insert(p.handle()),
    {
        match open_handle(heap, encoding_error(event_source), status) {
            Err(e) => Err(e),
            Ok(ptr) => {
                Ok(EventPublisher { ptr, event_source: event_source.to_owned() })
            },
        }
    }

    /// The event source of the publisher.
    pub fn event_source(&self) -> (r: &str)
        ensures
            r@ == self.event_source_spec(),
    {
        self.event_source.as_str()
    }
}

/// Receives the log level and output as the store's configuration changes
/// them.
pub trait LoggerConfigChangeHandler {
    fn on_log_level_change(&mut self, level: &str);

    fn on_log_output_change(&mut self, output: &str);
}

/// The current log configuration.
#[derive(Debug)]
pub struct Logger {
    level: String,
    output: String,
}

impl Logger {
    /// The current log level.
    pub closed spec fn level_spec(&self) -> Seq<char> {
        self.level@
    }

    /// The current log output.
    pub closed spec fn output_spec(&self) -> Seq<char> {
        self.output@
    }

    /// The current log level.
    pub fn level(&self) -> (r: &str)
        ensures
            r@ == self.level_spec(),
    {
        self.level.as_str()
    }

    /// The current log output.
    pub fn output(&self) -> (r: &str)
        ensures
            r@ == self.output_spec(),
    {
        self.output.as_str()
    }

    /// A new level arrived: the handler hears of it, then the logger keeps it.
    pub fn change_level<H: LoggerConfigChangeHandler>(&mut self, handler: &mut H, level: &str)
        ensures
            final(self).level_spec() == level@,
            final(self).output_spec() == old(self).output_spec(),
    {
        handler.on_log_level_change(level);
        self.level = level.to_owned();
    }

    /// A new output arrived: the handler hears of it, then the logger keeps
    /// it.
    pub fn change_output<H: LoggerConfigChangeHandler>(&mut self, handler: &mut H, output: &str)
        ensures
            final(self).output_spec() == output@,
            final(self).level_spec() == old(self).level_spec(),
    {
        handler.on_log_output_change(output);
        self.output = output.to_owned();
    }
}

impl Default for Logger {
    fn default() -> (r: Logger)
        ensures
            r.level_spec() == "INFO"@,
            r.output_spec() == "STDOUT"@,
    {
        Logger { level: "INFO".to_owned(), output: "STDOUT".to_owned() }
    }
}

/// A record type stored in a table of the store: the table, the database and
/// the separator between the parts of its keys.
pub trait SonicDbTable {
    fn key_separator() -> char;

    fn table_name() -> &'static str;

    fn db_name() -> &'static str;

    fn is_proto() -> bool {
        false
    }

    fn convert_pb_to_json(kfv: &mut KeyOpFieldValues) {
    }

    fn is_dpu() -> bool;
}

} // verus!
