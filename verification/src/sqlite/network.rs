//! The embedded server with its clients: who is connected, and to whom messages
//! are delivered.
//!
//! A [`SqliteServer`] holds the server and a registry of connections. Outgoing
//! messages are routed to connections by their `poll://` address. A
//! [`SqliteNetwork`] is a single connection; many can share one server.
use std::time::Duration;
use vstd::prelude::*;
use vstd::string::*;

use super::address::{
    destination_of, parse_address, url_of, Address, Destination, PollCast, UrlText,
};
use super::persistence::{OutgoingExecute, OutgoingUnblock, StorageError};
use super::processing::{process_all_timeouts, TimeoutRun, TimeoutStage};
use super::server::{Config, Server};
use super::types::PromiseRecord;
use crate::error::Error;
use crate::json::{find_entry, Json, JsonTree};
use crate::text::{joined, same_text};

verus! {

/// Selects how the database of the embedded server is opened.
#[derive(Debug, Clone)]
pub enum SqliteBackend {
    /// A local database file, or `":memory:"` for an ephemeral in-memory DB.
    Local(String),
    /// A remote Turso/sqld database addressed by URL with an auth token.
    Remote { url: String, auth_token: String },
    /// An embedded replica: a local file kept in sync with a remote database.
    RemoteReplica {
        path: String,
        url: String,
        auth_token: String,
        /// Optional background sync interval. `None` syncs only on open.
        sync_interval: Option<Duration>,
    },
}

/// A database to be opened for a server with this configuration.
#[derive(Debug)]
pub struct Opening {
    pub backend: SqliteBackend,
    pub config: Config,
}

/// A single client connection that is registered with a server.
#[derive(Debug)]
pub struct Connection {
    /// Tells the connection apart from all others of its server, before and after.
    pub key: u64,
    pub group: String,
    pub pid: String,
}

/// The connections of a server, in the order in which they were made.
#[derive(Debug)]
pub struct Registry {
    connections: Vec<Connection>,
    next_key: u64,
}

impl View for Registry {
    type V = Seq<Connection>;

    closed spec fn view(&self) -> Seq<Connection> {
        self.connections@
    }
}

/// Whether no two connections have the same key, and all keys are below `next_key`.
pub open spec fn keyed(connections: Seq<Connection>, next_key: int) -> bool {
    &&& forall|i: int| 0 <= i < connections.len() ==> (#[trigger] connections[i]).key < next_key
    &&& forall|i: int, j: int|
        0 <= i < j < connections.len() ==> (#[trigger] connections[i]).key != (
        #[trigger] connections[j]).key
}

/// The connections other than the one with this key.
pub open spec fn without(connections: Seq<Connection>, key: u64) -> Seq<Connection>
    decreases connections.len(),
{
    if connections.len() == 0 {
        connections
    } else if connections.last().key == key {
        without(connections.drop_last(), key)
    } else {
        without(connections.drop_last(), key).push(connections.last())
    }
}

impl Registry {
    /// The key of the next connection to be made.
    pub closed spec fn fresh_key(self) -> u64 {
        self.next_key
    }

    /// Whether every connection has a key of its own that is not given again.
    pub open spec fn well_keyed(self) -> bool {
        keyed(self@, self.fresh_key() as int)
    }

    /// No connections.
    pub fn new() -> (registry: Registry)
        ensures
            registry@ == Seq::<Connection>::empty(),
            registry.fresh_key() == 0,
            registry.well_keyed(),
    {
        Registry { connections: Vec::new(), next_key: 0 }
    }

    /// Whether every key is taken.
    pub fn is_full(&self) -> (full: bool)
        ensures
            full == (self.fresh_key() == u64::MAX),
    {
        self.next_key == u64::MAX
    }

    /// The connections, in the order in which they were made.
    pub fn connections(&self) -> (connections: &Vec<Connection>)
        ensures
            connections@ == self@,
    {
        &self.connections
    }

    /// Add a connection and give it a key of its own.
    pub fn add(&mut self, group: String, pid: String) -> (key: u64)
        requires
            old(self).fresh_key() < u64::MAX,
        ensures
            key == old(self).fresh_key(),
            final(self).fresh_key() == key + 1,
            final(self)@ == old(self)@.push((Connection { key, group, pid })),
            old(self).well_keyed() ==> final(self).well_keyed(),
    {
        let key: u64 = self.next_key;
        self.next_key = key + 1;
        self.connections.push(Connection { key, group, pid });
        key
    }

    /// Remove the connection with this key, if it is there.
    pub fn remove(&mut self, key: u64)
        ensures
            final(self)@ == without(old(self)@, key),
            final(self).fresh_key() == old(self).fresh_key(),
            old(self).well_keyed() ==> final(self).well_keyed(),
    {
        let ghost all = self.connections@;
        let ghost seen: int = 0;
        let mut i: usize = 0;
        assert(all.take(0) =~= Seq::<Connection>::empty());
        assert(all.take(0) + all.skip(0) =~= all);
        while i < self.connections.len()
            invariant
                0 <= seen <= all.len(),
                i == without(all.take(seen), key).len(),
                self.connections@ == without(all.take(seen), key) + all.skip(seen),
                self.next_key == old(self).next_key,
                all == old(self)@,
            decreases self.connections@.len() - i,
        {
            let ghost kept = without(all.take(seen), key);
            proof {
                assert(self.connections@[i as int] == all.skip(seen)[0]);
                assert(all.take(seen + 1).drop_last() =~= all.take(seen));
                assert(all.take(seen + 1).last() == all[seen]);
            }
            if self.connections[i].key == key {
                self.connections.remove(i);
                assert(self.connections@ =~= kept + all.skip(seen + 1));
            } else {
                i = i + 1;
                assert(self.connections@ =~= kept.push(all[seen]) + all.skip(seen + 1));
            }
            proof {
                seen = seen + 1;
            }
        }
        proof {
            assert(all.skip(seen).len() == 0);
            assert(all.take(seen) =~= all);
            assert(self.connections@ =~= without(all, key));
            if keyed(all, self.next_key as int) {
                lemma_without_keyed(all, key, self.next_key as int);
            }
        }
    }
}

/// Removing a connection leaves the keys distinct.
proof fn lemma_without_keyed(connections: Seq<Connection>, key: u64, next_key: int)
    requires
        keyed(connections, next_key),
    ensures
        keyed(without(connections, key), next_key),
    decreases connections.len(),
{
    if connections.len() > 0 {
        let before = connections.drop_last();
        let last = connections.last();
        let kept = without(before, key);
        assert(keyed(before, next_key)) by {
            assert forall|i: int| 0 <= i < before.len() implies (#[trigger] before[i]).key
                < next_key by {
                assert(before[i] == connections[i]);
            }
            assert forall|i: int, j: int| 0 <= i < j < before.len() implies (
            #[trigger] before[i]).key != (#[trigger] before[j]).key by {
                assert(before[i] == connections[i] && before[j] == connections[j]);
            }
        }
        lemma_without_keyed(before, key, next_key);
        lemma_without(before, key);
        assert(connections[connections.len() - 1] == last);
        if last.key != key {
            assert forall|i: int| 0 <= i < kept.len() implies (#[trigger] kept[i]).key
                != last.key by {
                assert(before.contains(kept[i]));
                let k = choose|k: int| 0 <= k < before.len() && before[k] == kept[i];
                assert(connections[k] == kept[i]);
            }
            let all = without(connections, key);
            assert(all == kept.push(last));
            assert forall|i: int, j: int| 0 <= i < j < all.len() implies (#[trigger] all[i]).key
                != (#[trigger] all[j]).key by {
                assert(all[i] == kept[i]);
                if j < kept.len() {
                    assert(all[j] == kept[j]);
                }
            }
        }
    }
}

/// What is left after a connection is removed are the others, in order, with their
/// keys.
pub proof fn lemma_without(connections: Seq<Connection>, key: u64)
    ensures
        forall|j: int|
            0 <= j < without(connections, key).len() ==> {
                &&& (#[trigger] without(connections, key)[j]).key != key
                &&& connections.contains(without(connections, key)[j])
            },
        forall|c: Connection|
            connections.contains(c) && c.key != key ==> #[trigger] without(
                connections,
                key,
            ).contains(c),
    decreases connections.len(),
{
    if connections.len() > 0 {
        let before = connections.drop_last();
        let last = connections.last();
        let kept = without(before, key);
        lemma_without(before, key);
        assert(connections =~= before.push(last));
        assert forall|j: int| 0 <= j < without(connections, key).len() implies {
            &&& (#[trigger] without(connections, key)[j]).key != key
            &&& connections.contains(without(connections, key)[j])
        } by {
            if j < kept.len() {
                assert(without(connections, key)[j] == kept[j]);
                assert(before.contains(kept[j]));
                let i = choose|i: int| 0 <= i < before.len() && before[i] == kept[j];
                assert(connections[i] == kept[j]);
            } else {
                assert(connections[connections.len() - 1] == last);
            }
        }
        assert forall|c: Connection| connections.contains(c) && c.key != key implies #[trigger] without(
            connections,
            key,
        ).contains(c) by {
            let i = choose|i: int| 0 <= i < connections.len() && connections[i] == c;
            if i < before.len() {
                assert(before[i] == c);
                assert(before.contains(c));
                assert(kept.contains(c));
                let k = choose|k: int| 0 <= k < kept.len() && kept[k] == c;
                assert(without(connections, key)[k] == c);
            } else {
                assert(without(connections, key)[kept.len() as int] == c);
            }
        }
    }
}

/// An embedded server with its connections.
pub struct SqliteServer<S> {
    pub server: Server<S>,
    pub registry: Registry,
    /// Whether the background loops run.
    pub started: bool,
}

/// How often the background loops run, in milliseconds.
#[derive(Debug, Clone, Copy, PartialEq, Eq, Structural)]
pub struct Intervals {
    pub timeouts: u64,
    pub messages: u64,
}

/// An interval of at least a millisecond.
pub open spec fn at_least_one(interval: u64) -> u64 {
    if interval == 0 {
        1
    } else {
        interval
    }
}

/// An interval of at least a millisecond.
fn positive(interval: u64) -> (positive: u64)
    ensures
        positive == at_least_one(interval),
        positive >= 1,
{
    if interval == 0 {
        1
    } else {
        interval
    }
}

/// The name of a group or process, or the one that stands in for it.
pub open spec fn named_or(name: Option<String>, default: Seq<char>) -> Seq<char> {
    match name {
        Some(name) => name@,
        None => default,
    }
}

/// The address of a process in a group.
pub open spec fn process_address(scheme: Seq<char>, group: Seq<char>, pid: Seq<char>) -> Seq<char> {
    scheme + group + "/"@ + pid
}

/// The address of a process in a group.
fn address_text(scheme: &str, group: &str, pid: &str) -> (address: String)
    ensures
        address@ == process_address(scheme@, group@, pid@),
{
    let lead = joined(scheme, group);
    let with_slash = joined(lead.as_str(), "/");
    joined(with_slash.as_str(), pid)
}

impl<S> SqliteServer<S> {
    /// Open (or create) a local database at `path` (use `":memory:"` for an
    /// ephemeral DB) with the default configuration.
    pub fn open(path: &str) -> (opening: Opening)
        ensures
            opening.backend matches SqliteBackend::Local(p) && p@ == path@,
            opening.config.is_default(),
    {
        Opening { backend: SqliteBackend::Local(path.to_owned()), config: Config::default() }
    }

    /// Like [`SqliteServer::open`], but with an explicit configuration.
    pub fn open_with_config(path: &str, config: Config) -> (opening: Opening)
        ensures
            opening.backend matches SqliteBackend::Local(p) && p@ == path@,
            opening.config == config,
    {
        Opening { backend: SqliteBackend::Local(path.to_owned()), config }
    }

    /// Open against a remote database (URL and auth token).
    pub fn open_remote(url: String, auth_token: String, config: Config) -> (opening: Opening)
        ensures
            opening == (Opening { backend: SqliteBackend::Remote { url, auth_token }, config }),
    {
        Opening { backend: SqliteBackend::Remote { url, auth_token }, config }
    }

    /// Open an embedded replica: a local file at `path` kept in sync with a
    /// remote database (URL and auth token), optionally syncing on
    /// `sync_interval`.
    pub fn open_remote_replica(
        path: String,
        url: String,
        auth_token: String,
        sync_interval: Option<Duration>,
        config: Config,
    ) -> (opening: Opening)
        ensures
            opening == (Opening {
                backend: SqliteBackend::RemoteReplica { path, url, auth_token, sync_interval },
                config,
            }),
    {
        Opening {
            backend: SqliteBackend::RemoteReplica { path, url, auth_token, sync_interval },
            config,
        }
    }

    /// The server over the storage that was opened for it, or the error that
    /// reports why it was not.
    pub fn open_backend(opened: Result<S, StorageError>, config: Config) -> (server: Result<
        SqliteServer<S>,
        Error,
    >)
        ensures
            match opened {
                Ok(storage) => {
                    &&& server matches Ok(s)
                    &&& s.server == (Server { config, storage, debug_mode: false })
                    &&& s.registry@.len() == 0
                    &&& s.registry.fresh_key() == 0
                    &&& s.registry.well_keyed()
                    &&& !s.started
                },
                Err(e) => {
                    &&& server matches Err(Error::ServerError { code, message })
                    &&& code == 500
                    &&& message@ == "failed to open sqlite database: "@ + e.words()
                },
            },
    {
        match opened {
            Ok(storage) => Ok(
                SqliteServer {
                    server: Server::new(config, storage),
                    registry: Registry::new(),
                    started: false,
                },
            ),
            Err(e) => {
                let words = e.message();
                let message = joined("failed to open sqlite database: ", words.as_str());
                Err(Error::ServerError { code: 500, message })
            },
        }
    }

    /// Create a client connection to this server.
    ///
    /// - `pid`: process id of the worker; where there is none, `generated` is it.
    /// - `group`: group name for routing (default: `"default"`).
    pub fn connect(
        &mut self,
        pid: Option<String>,
        group: Option<String>,
        generated: String,
    ) -> (network: SqliteNetwork)
        requires
            old(self).registry.fresh_key() < u64::MAX,
        ensures
            network.connection.pid@ == named_or(pid, generated@),
            network.connection.group@ == named_or(group, "default"@),
            network.connection.key == old(self).registry.fresh_key(),
            network.unicast@ == process_address(
                "poll://uni@"@,
                network.connection.group@,
                network.connection.pid@,
            ),
            network.anycast@ == process_address(
                "poll://any@"@,
                network.connection.group@,
                network.connection.pid@,
            ),
            final(self).registry@ == old(self).registry@.push(network.connection),
            final(self).registry.fresh_key() == network.connection.key + 1,
            old(self).registry.well_keyed() ==> final(self).registry.well_keyed(),
            final(self).server == old(self).server,
            final(self).started == old(self).started,
    {
        let pid = match pid {
            Some(pid) => pid,
            None => generated,
        };
        let group = match group {
            Some(group) => group,
            None => "default".to_owned(),
        };
        let unicast = address_text("poll://uni@", group.as_str(), pid.as_str());
        let anycast = address_text("poll://any@", group.as_str(), pid.as_str());
        let key: u64 = self.registry.add(group.clone(), pid.clone());
        SqliteNetwork { connection: Connection { key, group, pid }, unicast, anycast }
    }

    /// Start the background loops once: the intervals at which they are to run,
    /// or `None` where they run already.
    pub fn ensure_started(&mut self) -> (intervals: Option<Intervals>)
        ensures
            final(self).started,
            intervals == if old(self).started {
                None
            } else {
                Some(
                    (Intervals {
                        timeouts: at_least_one(old(self).server.config.timeouts.poll_interval),
                        messages: at_least_one(old(self).server.config.messages.poll_interval),
                    }),
                )
            },
            final(self).server == old(self).server,
            final(self).registry == old(self).registry,
    {
        if self.started {
            return None;
        }
        self.started = true;
        Some(
            Intervals {
                timeouts: positive(self.server.config.timeouts.poll_interval),
                messages: positive(self.server.config.messages.poll_interval),
            },
        )
    }

    /// What the background loop for timeouts does at a time: nothing in debug mode.
    pub fn timeout_tick(&self, now: i64) -> (run: Option<TimeoutRun>)
        ensures
            run == if self.server.debug_mode {
                None
            } else {
                Some((TimeoutRun { time: now, stage: TimeoutStage::Timeouts }))
            },
    {
        if self.server.debug_mode {
            None
        } else {
            Some(process_all_timeouts(now))
        }
    }

    /// How many messages the background loop for messages claims: none in debug
    /// mode.
    pub fn message_tick(&self) -> (batch: Option<i64>)
        ensures
            batch == if self.server.debug_mode {
                None
            } else {
                Some(self.server.config.messages.batch_size)
            },
    {
        if self.server.debug_mode {
            None
        } else {
            Some(self.server.config.messages.batch_size)
        }
    }
}

// Messages

/// A message to a worker.
#[derive(Debug)]
pub enum Message {
    /// A task is to be executed; with the URL of the server to turn to.
    Execute { server_url: String, id: String, version: i64 },
    /// A promise that was listened for is settled.
    Unblock { promise: PromiseRecord },
}

/// The message that has a task executed, as JSON.
pub open spec fn execute_tree(server_url: Seq<char>, id: Seq<char>, version: i64) -> JsonTree {
    JsonTree::Object(
        seq![
            ("kind"@, JsonTree::Text("execute"@)),
            ("head"@, JsonTree::Object(seq![("serverUrl"@, JsonTree::Text(server_url))])),
            (
                "data"@,
                JsonTree::Object(
                    seq![
                        (
                            "task"@,
                            JsonTree::Object(
                                seq![
                                    ("id"@, JsonTree::Text(id)),
                                    ("version"@, JsonTree::Int(version as int)),
                                ],
                            ),
                        ),
                    ],
                ),
            ),
        ],
    )
}

/// The message that unblocks a listener, as JSON, given the promise as JSON.
pub open spec fn unblock_tree(promise: JsonTree) -> JsonTree {
    JsonTree::Object(
        seq![
            ("kind"@, JsonTree::Text("unblock"@)),
            ("head"@, JsonTree::Object(Seq::empty())),
            ("data"@, JsonTree::Object(seq![("promise"@, promise)])),
        ],
    )
}

/// The object with a single field.
fn single(key: &str, value: Json) -> (object: Json)
    ensures
        object.tree() == JsonTree::Object(seq![(key@, value.tree())]),
{
    let mut fields: Vec<(String, Json)> = Vec::new();
    fields.push((key.to_owned(), value));
    let object = Json::object(fields);
    assert(object.tree()->Object_0 =~= seq![(key@, value.tree())]);
    object
}

/// The envelope of a message.
fn envelope(kind: &str, head: Json, data: Json) -> (object: Json)
    ensures
        object.tree() == JsonTree::Object(
            seq![
                ("kind"@, JsonTree::Text(kind@)),
                ("head"@, head.tree()),
                ("data"@, data.tree()),
            ],
        ),
{
    let mut fields: Vec<(String, Json)> = Vec::new();
    fields.push(("kind".to_owned(), Json::text(kind)));
    fields.push(("head".to_owned(), head));
    fields.push(("data".to_owned(), data));
    let object = Json::object(fields);
    assert(object.tree()->Object_0 =~= seq![
        ("kind"@, JsonTree::Text(kind@)),
        ("head"@, head.tree()),
        ("data"@, data.tree()),
    ]);
    object
}

/// The message that has a task executed, as JSON.
pub fn execute_json(server_url: &str, id: &str, version: i64) -> (message: Json)
    ensures
        message.tree() == execute_tree(server_url@, id@, version),
{
    let mut fields: Vec<(String, Json)> = Vec::new();
    fields.push(("id".to_owned(), Json::text(id)));
    let number = Json::Int(version);
    assert(number.tree() == JsonTree::Int(version as int));
    fields.push(("version".to_owned(), number));
    let task = Json::object(fields);
    assert(task.tree()->Object_0 =~= seq![
        ("id"@, JsonTree::Text(id@)),
        ("version"@, JsonTree::Int(version as int)),
    ]);
    envelope("execute", single("serverUrl", Json::text(server_url)), single("task", task))
}

/// The message that unblocks a listener, as JSON, given the promise as JSON.
pub fn unblock_json(promise: Json) -> (message: Json)
    ensures
        message.tree() == unblock_tree(promise.tree()),
{
    let head = Json::object(Vec::new());
    assert(head.tree()->Object_0 =~= Seq::<(Seq<char>, JsonTree)>::empty());
    envelope("unblock", head, single("promise", promise))
}

/// A message with the keys of the connections that it goes to.
#[derive(Debug)]
pub struct Delivery {
    pub keys: Vec<u64>,
    pub message: Message,
}

/// Whether a connection is meant by a destination: by `uni` exactly where group
/// and process match, by `any` where the group does. Other destinations cannot be
/// reached in-process.
pub open spec fn meant(c: Connection, d: Option<Destination>) -> bool {
    match d {
        Some(Destination::Poll { cast, group, id }) => {
            &&& c.group@ == group
            &&& match cast {
                PollCast::Any => true,
                PollCast::Uni => id == Some(c.pid@),
            }
        },
        _ => false,
    }
}

/// The keys of the connections that are meant by a destination, in order.
pub open spec fn recipients(connections: Seq<Connection>, d: Option<Destination>) -> Seq<u64>
    decreases connections.len(),
{
    if connections.len() == 0 {
        Seq::empty()
    } else {
        let before = recipients(connections.drop_last(), d);
        if meant(connections.last(), d) {
            before.push(connections.last().key)
        } else {
            before
        }
    }
}

/// What a parsed address stands for.
pub open spec fn parsed_destination(address: Option<Address>) -> Option<Destination> {
    match address {
        Some(a) => Some(a@),
        None => None,
    }
}

/// The keys of the connections that a message for `address` goes to.
///
/// - `poll://uni@group/pid`: the connection with that exact group and pid.
/// - `poll://any@group`: every connection in that group.
/// - Other addresses are not deliverable in-process, and the message is dropped.
pub fn deliver(connections: &Vec<Connection>, address: &str) -> (keys: Vec<u64>)
    ensures
        keys@ == recipients(connections@, destination_of(address@)),
{
    let parsed = parse_address(address);
    deliver_to(connections, &parsed)
}

/// The keys of the connections that a message for a parsed address goes to.
pub fn deliver_to(connections: &Vec<Connection>, address: &Option<Address>) -> (keys: Vec<u64>)
    ensures
        keys@ == recipients(connections@, parsed_destination(*address)),
{
    let ghost d = parsed_destination(*address);
    let mut keys: Vec<u64> = Vec::new();
    let count: usize = connections.len();
    let mut i: usize = 0;
    assert(connections@.take(0) =~= Seq::<Connection>::empty());
    while i < count
        invariant
            i <= count == connections@.len(),
            d == parsed_destination(*address),
            keys@ == recipients(connections@.take(i as int), d),
        decreases count - i,
    {
        let c = &connections[i];
        proof {
            let upto = connections@.take(i + 1);
            assert(upto.drop_last() =~= connections@.take(i as int));
            assert(upto.last() == *c);
        }
        if is_meant(c, address) {
            keys.push(c.key);
        }
        i = i + 1;
    }
    assert(connections@.take(count as int) =~= connections@);
    keys
}

/// Whether a connection is meant by a parsed address.
fn is_meant(c: &Connection, address: &Option<Address>) -> (yes: bool)
    ensures
        yes == meant(*c, parsed_destination(*address)),
{
    match address {
        Some(Address::Poll(p)) => same_text(c.group.as_str(), p.group.as_str()) && match p.cast {
            PollCast::Any => true,
            PollCast::Uni => match &p.id {
                Some(id) => same_text(id.as_str(), c.pid.as_str()),
                None => false,
            },
        },
        _ => false,
    }
}

/// Whether a delivery is that of a message to execute a task.
pub open spec fn delivers_execute(
    d: Delivery,
    connections: Seq<Connection>,
    server_url: Seq<char>,
    msg: OutgoingExecute,
) -> bool {
    &&& d.keys@ == recipients(connections, destination_of(msg.address@))
    &&& d.message matches Message::Execute { server_url: url, id, version }
    &&& url@ == server_url
    &&& id@ == msg.id@
    &&& version == msg.version
}

/// Whether a delivery is that of a message to unblock a listener.
pub open spec fn delivers_unblock(
    d: Delivery,
    connections: Seq<Connection>,
    msg: OutgoingUnblock,
) -> bool {
    &&& d.keys@ == recipients(connections, destination_of(msg.address@))
    &&& d.message == (Message::Unblock { promise: msg.promise })
}

/// Route the messages that were claimed: first those that have tasks executed,
/// then those that unblock listeners, each in the order in which they were claimed.
pub fn route_outgoing(
    connections: &Vec<Connection>,
    config: &Config,
    executes: Vec<OutgoingExecute>,
    unblocks: Vec<OutgoingUnblock>,
) -> (deliveries: Vec<Delivery>)
    ensures
        deliveries@.len() == executes@.len() + unblocks@.len(),
        forall|i: int|
            0 <= i < executes@.len() ==> delivers_execute(
                #[trigger] deliveries@[i],
                connections@,
                named_or(config.server.url, ""@),
                executes@[i],
            ),
        forall|i: int|
            executes@.len() <= i < deliveries@.len() ==> delivers_unblock(
                #[trigger] deliveries@[i],
                connections@,
                unblocks@[i - executes@.len()],
            ),
{
    let mut deliveries: Vec<Delivery> = Vec::new();
    let url = match &config.server.url {
        Some(url) => url.as_str(),
        None => "",
    };
    let ghost all = executes@;
    let count: usize = executes.len();
    let mut i: usize = 0;
    while i < count
        invariant
            i <= count == executes@.len(),
            executes@ == all,
            url@ == named_or(config.server.url, ""@),
            deliveries@.len() == i,
            forall|j: int|
                0 <= j < i ==> delivers_execute(
                    #[trigger] deliveries@[j],
                    connections@,
                    url@,
                    all[j],
                ),
        decreases count - i,
    {
        let msg = &executes[i];
        let keys = deliver(connections, msg.address.as_str());
        let message = Message::Execute {
            server_url: url.to_owned(),
            id: msg.id.clone(),
            version: msg.version,
        };
        deliveries.push(Delivery { keys, message });
        i = i + 1;
    }
    let ghost told = unblocks@;
    let mut rest = unblocks;
    assert(told.skip(0) =~= told);
    while rest.len() > 0
        invariant
            executes@ == all,
            all.len() <= deliveries@.len(),
            deliveries@.len() - all.len() <= told.len(),
            rest@ == told.skip(deliveries@.len() - all.len()),
            forall|j: int|
                0 <= j < all.len() ==> delivers_execute(
                    #[trigger] deliveries@[j],
                    connections@,
                    url@,
                    all[j],
                ),
            forall|j: int|
                all.len() <= j < deliveries@.len() ==> delivers_unblock(
                    #[trigger] deliveries@[j],
                    connections@,
                    told[j - all.len()],
                ),
        decreases rest@.len(),
    {
        let ghost done = deliveries@.len() - all.len();
        let ghost before = rest@;
        let msg = rest.remove(0);
        assert(msg == told[done]);
        let keys = deliver(connections, msg.address.as_str());
        deliveries.push(Delivery { keys, message: Message::Unblock { promise: msg.promise } });
        assert(rest@ =~= told.skip(done + 1));
    }
    deliveries
}

// A connection

/// One client connection to a [`SqliteServer`].
#[derive(Debug)]
pub struct SqliteNetwork {
    pub connection: Connection,
    pub unicast: String,
    pub anycast: String,
}

impl SqliteNetwork {
    /// Open a private server over the storage that was opened for it, with a
    /// single connection to it.
    pub fn with_backend<S>(
        opened: Result<S, StorageError>,
        pid: Option<String>,
        group: Option<String>,
        config: Config,
        generated: String,
    ) -> (connected: Result<(SqliteServer<S>, SqliteNetwork), Error>)
        ensures
            match opened {
                Ok(storage) => {
                    &&& connected matches Ok((server, network))
                    &&& server.server == (Server { config, storage, debug_mode: false })
                    &&& server.registry@ == seq![network.connection]
                    &&& server.registry.well_keyed()
                    &&& !server.started
                    &&& network.connection.pid@ == named_or(pid, generated@)
                    &&& network.connection.group@ == named_or(group, "default"@)
                    &&& network.unicast@ == process_address(
                        "poll://uni@"@,
                        network.connection.group@,
                        network.connection.pid@,
                    )
                    &&& network.anycast@ == process_address(
                        "poll://any@"@,
                        network.connection.group@,
                        network.connection.pid@,
                    )
                },
                Err(e) => {
                    &&& connected matches Err(Error::ServerError { code, message })
                    &&& code == 500
                    &&& message@ == "failed to open sqlite database: "@ + e.words()
                },
            },
    {
        match SqliteServer::open_backend(opened, config) {
            Ok(mut server) => {
                let network = server.connect(pid, group, generated);
                assert(server.registry@ =~= seq![network.connection]);
                Ok((server, network))
            },
            Err(e) => Err(e),
        }
    }

    pub fn pid(&self) -> (pid: &str)
        ensures
            pid@ == self.connection.pid@,
    {
        self.connection.pid.as_str()
    }

    pub fn group(&self) -> (group: &str)
        ensures
            group@ == self.connection.group@,
    {
        self.connection.group.as_str()
    }

    pub fn unicast(&self) -> (address: &str)
        ensures
            address@ == self.unicast@,
    {
        self.unicast.as_str()
    }

    pub fn anycast(&self) -> (address: &str)
        ensures
            address@ == self.anycast@,
    {
        self.anycast.as_str()
    }

    /// The address of a target: any process of the group with its name.
    pub fn target_resolver(&self, target: &str) -> (address: String)
        ensures
            address@ == "poll://any@"@ + target@,
    {
        joined("poll://any@", target)
    }

    /// Deregister this connection. The background loops belong to the server and
    /// go on.
    pub fn stop<S>(&self, server: &mut SqliteServer<S>)
        ensures
            final(server).registry@ == without(old(server).registry@, self.connection.key),
            final(server).registry.fresh_key() == old(server).registry.fresh_key(),
            old(server).registry.well_keyed() ==> final(server).registry.well_keyed(),
            final(server).server == old(server).server,
            final(server).started == old(server).started,
    {
        server.registry.remove(self.connection.key);
    }
}

/// The error for a request that is not JSON, with the decoder's message.
pub fn undecodable_request(e: &str) -> (error: Error)
    ensures
        error matches Error::DecodingError(m) && m@ == "invalid JSON request: "@ + e@,
{
    Error::DecodingError(joined("invalid JSON request: ", e))
}

// Laws

/// A message reaches exactly the connections that its destination means.
pub proof fn lemma_recipients(connections: Seq<Connection>, d: Option<Destination>, key: u64)
    ensures
        recipients(connections, d).contains(key) <==> exists|i: int|
            0 <= i < connections.len() && (#[trigger] connections[i]).key == key && meant(
                connections[i],
                d,
            ),
    decreases connections.len(),
{
    if connections.len() > 0 {
        let before = connections.drop_last();
        let last = connections.last();
        lemma_recipients(before, d, key);
        let sent = recipients(before, d);
        if sent.contains(key) {
            let i = choose|i: int|
                0 <= i < before.len() && (#[trigger] before[i]).key == key && meant(before[i], d);
            assert(connections[i] == before[i]);
            let k = choose|k: int| 0 <= k < sent.len() && sent[k] == key;
            assert(recipients(connections, d)[k] == key);
        }
        if meant(last, d) && last.key == key {
            assert(recipients(connections, d)[sent.len() as int] == key);
            assert(connections[connections.len() - 1] == last);
        }
        if exists|i: int|
            0 <= i < connections.len() && (#[trigger] connections[i]).key == key && meant(
                connections[i],
                d,
            ) {
            let i = choose|i: int|
                0 <= i < connections.len() && (#[trigger] connections[i]).key == key && meant(
                    connections[i],
                    d,
                );
            if i < before.len() {
                assert(before[i] == connections[i]);
            }
        }
        if recipients(connections, d).contains(key) && !sent.contains(key) {
            let k = choose|k: int|
                0 <= k < recipients(connections, d).len() && recipients(connections, d)[k] == key;
            if k < sent.len() {
                assert(sent[k] == key);
            }
        }
    }
}

/// After a connection has stopped, no message reaches it, and all others are
/// reached as before.
pub proof fn lemma_stopped_is_not_reached(
    connections: Seq<Connection>,
    stopped: u64,
    d: Option<Destination>,
    key: u64,
)
    ensures
        !recipients(without(connections, stopped), d).contains(stopped),
        key != stopped ==> (recipients(without(connections, stopped), d).contains(key)
            <==> recipients(connections, d).contains(key)),
{
    let left = without(connections, stopped);
    lemma_without(connections, stopped);
    lemma_recipients(left, d, stopped);
    lemma_recipients(left, d, key);
    lemma_recipients(connections, d, key);
    if key != stopped {
        if recipients(left, d).contains(key) {
            let j = choose|j: int|
                0 <= j < left.len() && (#[trigger] left[j]).key == key && meant(left[j], d);
            assert(connections.contains(left[j]));
            let i = choose|i: int| 0 <= i < connections.len() && connections[i] == left[j];
            assert(connections[i].key == key && meant(connections[i], d));
        }
        if recipients(connections, d).contains(key) {
            let i = choose|i: int|
                0 <= i < connections.len() && (#[trigger] connections[i]).key == key && meant(
                    connections[i],
                    d,
                );
            assert(connections.contains(connections[i]));
            assert(left.contains(connections[i]));
            let j = choose|j: int| 0 <= j < left.len() && left[j] == connections[i];
            assert(left[j].key == key && meant(left[j], d));
        }
    }
}

/// A connection is reached by `uni` under its own group and pid, and by `any` under
/// its group, for every address whose URL has those parts. A connection of another
/// group is reached by neither.
pub proof fn lemma_connection_is_reached(
    connections: Seq<Connection>,
    i: int,
    address: Seq<char>,
    url: UrlText,
)
    requires
        0 <= i < connections.len(),
        url_of(address) == Some(url),
        url.scheme == "poll"@,
        url.username == "uni"@ || url.username == "any"@,
    ensures
        meant(connections[i], destination_of(address)) <==> {
            &&& url.host == Some(connections[i].group@)
            &&& url.username == "any"@ || (url.path.len() > 1 && url.path.skip(1)
                == connections[i].pid@)
        },
        meant(connections[i], destination_of(address)) ==> recipients(
            connections,
            destination_of(address),
        ).contains(connections[i].key),
{
    reveal_strlit("http");
    reveal_strlit("https");
    reveal_strlit("poll");
    reveal_strlit("uni");
    reveal_strlit("any");
    assert("http"@[0] == 'h' && "poll"@[0] == 'p');
    assert("https"@.len() == 5 && "poll"@.len() == 4);
    assert("uni"@[0] == 'u' && "any"@[0] == 'a');
    lemma_recipients(connections, destination_of(address), connections[i].key);
}

/// Whether a connection is meant by an address: by `uni` where group and process are its
/// own, by `any` where the group is. No other address means a connection.
pub open spec fn addressed(c: Connection, address: Option<Address>) -> bool {
    &&& address matches Some(Address::Poll(p))
    &&& c.group@ == p.group@
    &&& p.cast == PollCast::Uni ==> p.id is Some && p.id->Some_0@ == c.pid@
}

/// A message goes to the connections that its address means and to no others, once to
/// each and in the order in which they were made.
pub proof fn lemma_delivered_to_those_meant(
    connections: &Vec<Connection>,
    address: &Option<Address>,
    keys: Vec<u64>,
)
    requires
        call_ensures(deliver_to, (connections, address), keys),
    ensures
        keys@ == connections@.filter(|c: Connection| addressed(c, *address)).map_values(
            |c: Connection| c.key,
        ),
{
    lemma_recipients_are_filtered(connections@, *address);
}

/// The recipients are the connections that are meant, in order.
proof fn lemma_recipients_are_filtered(connections: Seq<Connection>, address: Option<Address>)
    ensures
        recipients(connections, parsed_destination(address)) == connections.filter(
            |c: Connection| addressed(c, address),
        ).map_values(|c: Connection| c.key),
    decreases connections.len(),
{
    reveal(Seq::filter);
    let meets = |c: Connection| addressed(c, address);
    let key = |c: Connection| c.key;
    if connections.len() == 0 {
        assert(connections.filter(meets).map_values(key) =~= Seq::<u64>::empty());
    } else {
        let before = connections.drop_last();
        let last = connections.last();
        lemma_recipients_are_filtered(before, address);
        assert(meant(last, parsed_destination(address)) == addressed(last, address));
        let kept = before.filter(meets);
        if addressed(last, address) {
            assert(connections.filter(meets) == kept.push(last));
            assert(kept.push(last).map_values(key) =~= kept.map_values(key).push(last.key));
        } else {
            assert(connections.filter(meets) == kept);
        }
    }
}

/// Removing a connection leaves all others, in order.
pub proof fn lemma_others_are_left(connections: Seq<Connection>, key: u64)
    ensures
        without(connections, key) == connections.filter(|c: Connection| c.key != key),
    decreases connections.len(),
{
    reveal(Seq::filter);
    if connections.len() > 0 {
        lemma_others_are_left(connections.drop_last(), key);
    } else {
        assert(connections.filter(|c: Connection| c.key != key) =~= connections);
    }
}

/// Each message that was claimed is delivered, first those that have tasks executed and
/// then those that unblock listeners, to those whom its address means, and with the task
/// or the promise that it is about.
pub proof fn lemma_all_messages_are_delivered(
    connections: &Vec<Connection>,
    config: &Config,
    executes: Vec<OutgoingExecute>,
    unblocks: Vec<OutgoingUnblock>,
    deliveries: Vec<Delivery>,
    i: int,
)
    requires
        call_ensures(route_outgoing, (connections, config, executes, unblocks), deliveries),
    ensures
        deliveries@.len() == executes@.len() + unblocks@.len(),
        0 <= i < executes@.len() ==> {
            let d = deliveries@[i];
            &&& d.keys@ == recipients(connections@, destination_of(executes@[i].address@))
            &&& d.message matches Message::Execute { server_url, id, version }
            &&& id@ == executes@[i].id@
            &&& version == executes@[i].version
            &&& server_url@ == match config.server.url {
                Some(url) => url@,
                None => Seq::empty(),
            }
        },
        0 <= i < unblocks@.len() ==> {
            let d = deliveries@[executes@.len() + i];
            &&& d.keys@ == recipients(connections@, destination_of(unblocks@[i].address@))
            &&& d.message == (Message::Unblock { promise: unblocks@[i].promise })
        },
{
    reveal_strlit("");
    assert(""@ =~= Seq::<char>::empty());
    if 0 <= i < executes@.len() {
        assert(delivers_execute(
            deliveries@[i],
            connections@,
            named_or(config.server.url, ""@),
            executes@[i],
        ));
    }
    if 0 <= i < unblocks@.len() {
        let k = executes@.len() + i;
        assert(delivers_unblock(deliveries@[k], connections@, unblocks@[k - executes@.len()]));
    }
}

/// A message goes to those whom its parsed address means.
pub proof fn lemma_delivered_by_address(
    connections: &Vec<Connection>,
    address: &str,
    parsed: Option<Address>,
    keys: Vec<u64>,
)
    requires
        call_ensures(deliver, (connections, address), keys),
        call_ensures(parse_address, (address,), parsed),
    ensures
        keys@ == connections@.filter(|c: Connection| addressed(c, parsed)).map_values(
            |c: Connection| c.key,
        ),
{
    lemma_recipients_are_filtered(connections@, parsed);
    assert(parsed_destination(parsed) == destination_of(address@));
}

/// The address of a process names its group before a slash, and the process behind it.
pub proof fn lemma_process_address(scheme: Seq<char>, group: Seq<char>, pid: Seq<char>)
    ensures
        process_address(scheme, group, pid) == scheme + group + seq!['/'] + pid,
{
    reveal_strlit("/");
    assert("/"@ =~= seq!['/']);
}

/// The message that has a task executed tells its kind, the server, the task and the
/// version to acquire it at.
pub proof fn lemma_execute_message(server_url: &str, id: &str, version: i64, message: Json)
    requires
        call_ensures(execute_json, (server_url, id, version), message),
    ensures
        ({
            let tree = message.tree();
            &&& tree.field("kind"@) == Some(JsonTree::Text("execute"@))
            &&& tree.field("head"@) is Some
            &&& tree.field("head"@)->Some_0.field("serverUrl"@) == Some(JsonTree::Text(server_url@))
            &&& tree.field("data"@) is Some
            &&& tree.field("data"@)->Some_0.field("task"@) is Some
            &&& tree.field("data"@)->Some_0.field("task"@)->Some_0.field("id"@) == Some(
                JsonTree::Text(id@),
            )
            &&& tree.field("data"@)->Some_0.field("task"@)->Some_0.field("version"@) == Some(
                JsonTree::Int(version as int),
            )
        }),
{
    lemma_message_keys();
    reveal_with_fuel(find_entry, 4);
    let fields = message.tree()->Object_0;
    assert(fields.skip(1)[0] == fields[1]);
    assert(fields.skip(1).skip(1)[0] == fields[2]);
    let task = fields[2].1->Object_0[0].1->Object_0;
    assert(task.skip(1)[0] == task[1]);
}

/// The message that unblocks a listener tells its kind and the promise.
pub proof fn lemma_unblock_message(promise: Json, message: Json)
    requires
        call_ensures(unblock_json, (promise,), message),
    ensures
        ({
            let tree = message.tree();
            &&& tree.field("kind"@) == Some(JsonTree::Text("unblock"@))
            &&& tree.field("head"@) == Some(JsonTree::Object(Seq::empty()))
            &&& tree.field("data"@) is Some
            &&& tree.field("data"@)->Some_0.field("promise"@) == Some(promise.tree())
        }),
{
    lemma_message_keys();
    reveal_with_fuel(find_entry, 4);
    let fields = message.tree()->Object_0;
    assert(fields.skip(1)[0] == fields[1]);
    assert(fields.skip(1).skip(1)[0] == fields[2]);
}

/// The keys of a message differ.
proof fn lemma_message_keys()
    ensures
        "kind"@ != "head"@,
        "kind"@ != "data"@,
        "head"@ != "data"@,
        "id"@ != "version"@,
{
    reveal_strlit("kind");
    reveal_strlit("head");
    reveal_strlit("data");
    reveal_strlit("id");
    reveal_strlit("version");
    assert("kind"@[0] == 'k' && "head"@[0] == 'h' && "data"@[0] == 'd');
    assert("id"@.len() == 2 && "version"@.len() == 7);
}

/// The background loops pause in debug mode, and otherwise process what has timed out by
/// now and claim a batch as large as configured.
pub proof fn lemma_loops_pause<S>(
    server: SqliteServer<S>,
    now: i64,
    run: Option<TimeoutRun>,
    batch: Option<i64>,
)
    requires
        call_ensures(SqliteServer::<S>::timeout_tick, (&server, now), run),
        call_ensures(SqliteServer::<S>::message_tick, (&server,), batch),
    ensures
        run is Some <==> !server.server.debug_mode,
        batch is Some <==> !server.server.debug_mode,
        run matches Some(r) ==> r.time == now && r.stage is Timeouts,
        batch matches Some(n) ==> n == server.server.config.messages.batch_size,
{
}

/// An interval is as configured, but never zero.
pub proof fn lemma_intervals_are_positive(interval: u64)
    ensures
        at_least_one(interval) >= 1,
        interval >= 1 ==> at_least_one(interval) == interval,
        at_least_one(0) == 1,
{
}

/// A connection has the process id and the group that were asked for, or else the one that
/// was generated and the group `default`; its addresses name both; and it is added behind
/// the others under a key that none of them has.
pub proof fn lemma_connected<S>(
    server: &mut SqliteServer<S>,
    pid: Option<String>,
    group: Option<String>,
    generated: String,
    network: SqliteNetwork,
)
    requires
        call_ensures(SqliteServer::<S>::connect, (server, pid, group, generated), network),
    ensures
        pid matches Some(p) ==> network.connection.pid@ == p@,
        pid is None ==> network.connection.pid@ == generated@,
        group matches Some(g) ==> network.connection.group@ == g@,
        group is None ==> network.connection.group@ == "default"@,
        network.unicast@ == "poll://uni@"@ + network.connection.group@ + seq!['/']
            + network.connection.pid@,
        network.anycast@ == "poll://any@"@ + network.connection.group@ + seq!['/']
            + network.connection.pid@,
        final(server).registry@ == old(server).registry@.push(network.connection),
        old(server).registry.well_keyed() ==> final(server).registry.well_keyed() && forall|i: int|
            0 <= i < old(server).registry@.len() ==> (#[trigger] old(server).registry@[i]).key
                != network.connection.key,
        final(server).server == old(server).server,
        final(server).started == old(server).started,
{
    lemma_process_address("poll://uni@"@, network.connection.group@, network.connection.pid@);
    lemma_process_address("poll://any@"@, network.connection.group@, network.connection.pid@);
}

/// Stopping a connection takes it, and nothing else, off the server.
pub proof fn lemma_stopped<S>(network: SqliteNetwork, server: &mut SqliteServer<S>)
    requires
        call_ensures(SqliteNetwork::stop::<S>, (&network, server), ()),
    ensures
        final(server).registry@ == old(server).registry@.filter(
            |c: Connection| c.key != network.connection.key,
        ),
        final(server).server == old(server).server,
        final(server).started == old(server).started,
{
    lemma_others_are_left(old(server).registry@, network.connection.key);
}

/// The background loops are started by the first call alone, at the intervals that are
/// configured, or every millisecond where the interval is zero.
pub proof fn lemma_started_once<S>(server: &mut SqliteServer<S>, intervals: Option<Intervals>)
    requires
        call_ensures(SqliteServer::<S>::ensure_started, (server,), intervals),
    ensures
        final(server).started,
        intervals is Some <==> !old(server).started,
        intervals matches Some(x) ==> {
            let config = old(server).server.config;
            &&& x.timeouts == if config.timeouts.poll_interval == 0 {
                1
            } else {
                config.timeouts.poll_interval
            }
            &&& x.messages == if config.messages.poll_interval == 0 {
                1
            } else {
                config.messages.poll_interval
            }
        },
        final(server).server == old(server).server,
        final(server).registry == old(server).registry,
{
}

/// A server over storage that was opened has no connections and is not in debug mode; and
/// a failure to open it is a server error that tells why.
pub proof fn lemma_opened<S>(
    opened: Result<S, StorageError>,
    config: Config,
    server: Result<SqliteServer<S>, Error>,
)
    requires
        call_ensures(SqliteServer::<S>::open_backend, (opened, config), server),
    ensures
        server is Ok <==> opened is Ok,
        server matches Ok(s) ==> {
            &&& s.server.storage == opened->Ok_0
            &&& s.server.config == config
            &&& !s.server.debug_mode
            &&& s.registry@.len() == 0
            &&& s.registry.well_keyed()
            &&& !s.started
        },
        server matches Err(e) ==> {
            &&& e matches Error::ServerError { code, message }
            &&& code == 500
            &&& message@ == "failed to open sqlite database: "@ + match opened->Err_0 {
                StorageError::Backend(m) => "Storage error: "@ + m@,
                StorageError::Serialization => "Serialization conflict"@,
                StorageError::InvalidInput(m) => "Invalid input: "@ + m@,
            }
        },
{
}

/// A target is addressed as any process of the group with its name, and a request that is
/// no JSON is reported with the decoder's words.
pub proof fn lemma_target_and_report(
    network: SqliteNetwork,
    target: &str,
    address: String,
    e: &str,
    error: Error,
)
    requires
        call_ensures(SqliteNetwork::target_resolver, (&network, target), address),
        call_ensures(undecodable_request, (e,), error),
    ensures
        address@ == "poll://any@"@ + target@,
        error matches Error::DecodingError(m) && m@ == "invalid JSON request: "@ + e@,
{
}

/// A private server has the one connection that was asked for.
pub proof fn lemma_private_server<S>(
    opened: Result<S, StorageError>,
    pid: Option<String>,
    group: Option<String>,
    config: Config,
    generated: String,
    connected: Result<(SqliteServer<S>, SqliteNetwork), Error>,
)
    requires
        call_ensures(
            SqliteNetwork::with_backend::<S>,
            (opened, pid, group, config, generated),
            connected,
        ),
    ensures
        connected is Ok <==> opened is Ok,
        connected matches Err(e) ==> (e matches Error::ServerError { code, .. } && code == 500),
        connected matches Ok((server, network)) ==> {
            &&& server.server.storage == opened->Ok_0
            &&& server.server.config == config
            &&& server.registry@ == seq![network.connection]
            &&& pid matches Some(p) ==> network.connection.pid@ == p@
            &&& pid is None ==> network.connection.pid@ == generated@
            &&& group matches Some(g) ==> network.connection.group@ == g@
            &&& group is None ==> network.connection.group@ == "default"@
            &&& network.unicast@ == "poll://uni@"@ + network.connection.group@ + seq!['/']
                + network.connection.pid@
            &&& network.anycast@ == "poll://any@"@ + network.connection.group@ + seq!['/']
                + network.connection.pid@
        },
{
    if let Ok((_, network)) = connected {
        lemma_process_address("poll://uni@"@, network.connection.group@, network.connection.pid@);
        lemma_process_address("poll://any@"@, network.connection.group@, network.connection.pid@);
    }
}

/// What a connection tells of itself is what it was made with.
pub proof fn lemma_identity(
    network: SqliteNetwork,
    pid: &str,
    group: &str,
    unicast: &str,
    anycast: &str,
)
    requires
        call_ensures(SqliteNetwork::pid, (&network,), pid),
        call_ensures(SqliteNetwork::group, (&network,), group),
        call_ensures(SqliteNetwork::unicast, (&network,), unicast),
        call_ensures(SqliteNetwork::anycast, (&network,), anycast),
    ensures
        pid@ == network.connection.pid@,
        group@ == network.connection.group@,
        unicast@ == network.unicast@,
        anycast@ == network.anycast@,
{
}

/// A database is opened where, and with the configuration, that was asked for.
pub proof fn lemma_opening<S>(
    path: &str,
    owned: String,
    url: String,
    auth_token: String,
    sync_interval: Option<Duration>,
    config: Config,
    a: Opening,
    b: Opening,
    c: Opening,
    d: Opening,
)
    requires
        call_ensures(SqliteServer::<S>::open, (path,), a),
        call_ensures(SqliteServer::<S>::open_with_config, (path, config), b),
        call_ensures(SqliteServer::<S>::open_remote, (url, auth_token, config), c),
        call_ensures(
            SqliteServer::<S>::open_remote_replica,
            (owned, url, auth_token, sync_interval, config),
            d,
        ),
    ensures
        a.backend matches SqliteBackend::Local(p) && p@ == path@,
        b.backend matches SqliteBackend::Local(p) && p@ == path@,
        b.config == config,
        c.backend matches SqliteBackend::Remote { url: u, auth_token: k } && u == url && k
            == auth_token,
        c.config == config,
        d.backend matches SqliteBackend::RemoteReplica {
            path: p,
            url: u,
            auth_token: k,
            sync_interval: i,
        } && p == owned && u == url && k == auth_token && i == sync_interval,
        d.config == config,
{
}

} // verus!
