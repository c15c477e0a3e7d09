//! The connection manager: the adapter's one component.
//!
//! A [`RedisClusterConnectionManager`] holds the cluster configuration — the
//! validated seed endpoints, an optional credential, and an optional
//! read-only routing preference — and exposes the three operations a generic
//! pool consumes: produce a new connection, check whether a connection is
//! still usable, and report whether a connection is unconditionally broken.
//! It is a factory and validator only: it never retains a connection.

use vstd::prelude::*;
use redis_cluster_rs::Connection;
use redis_cluster_rs::redis::RedisError;
use crate::addr::{
    NodeAddress, NodeAddressView, ResolvedAddr, resolve_spec, resolve_node, seed_views,
    uniform_credential,
};
use crate::cluster;
use crate::errors::{ConfigError, ConnectionError, ValidationError};

verus! {

/// The abstract state of a manager: the resolved seed endpoints in input
/// order, the routing preference, and the credential.
pub struct ManagerView {
    pub nodes: Seq<NodeAddressView>,
    pub readonly: bool,
    pub password: Option<Seq<char>>,
}

/// The parameters a cluster session is opened with: the seed endpoints it is
/// built against, whether it requests read-only routing, and the credential
/// it authenticates with.
pub struct SessionParams {
    pub nodes: Seq<NodeAddressView>,
    pub readonly: bool,
    pub password: Option<Seq<char>>,
}

/// Whether every raw descriptor resolves to a TCP endpoint; only then does
/// construction succeed.
pub open spec fn all_resolve(inputs: Seq<String>) -> bool {
    forall|i: int| 0 <= i < inputs.len() ==> resolve_spec(#[trigger] inputs[i]@) is Endpoint
}

/// The endpoints a fully resolved input sequence yields, in input order.
pub open spec fn resolved_nodes(inputs: Seq<String>) -> Seq<NodeAddressView> {
    inputs.map_values(|s: String| resolve_spec(s@)->Endpoint_0)
}

/// What a construction failure must say of the input: it names the first
/// offending element, with the kind matching what the resolver made of it.
pub open spec fn describes_first_offender(e: ConfigError, inputs: Seq<String>) -> bool {
    let index = match e {
        ConfigError::Malformed { index, .. } => index,
        ConfigError::Unsupported { index } => index,
    };
    &&& 0 <= index < inputs.len()
    &&& (e is Malformed ==> resolve_spec(inputs[index as int]@) is Malformed)
    &&& (e is Unsupported ==> resolve_spec(inputs[index as int]@) is NotTcp)
    &&& forall|j: int| 0 <= j < index ==> resolve_spec(#[trigger] inputs[j]@) is Endpoint
}

/// The seed endpoints a session opened for a manager in state `m` is built
/// against.
pub open spec fn session_nodes(m: ManagerView) -> Seq<NodeAddressView> {
    m.nodes
}

/// The credential the manager itself supplies to the client when opening a
/// session; `None` means the manager supplies none.
pub open spec fn session_credential(m: ManagerView) -> Option<Seq<char>> {
    m.password
}

/// Whether a session opened for a manager in state `m` requests read-only
/// routing.
pub open spec fn session_readonly(m: ManagerView) -> bool {
    m.readonly
}

/// The credential a session opened for a manager in state `m` actually
/// authenticates with: the one the manager supplies, or else the client's
/// fallback — the credential embedded in the first seed descriptor, if any.
pub open spec fn effective_credential(m: ManagerView) -> Option<Seq<char>> {
    match m.password {
        Some(p) => Some(p),
        None => if m.nodes.len() > 0 {
            m.nodes[0].passwd
        } else {
            None
        },
    }
}

/// Whether the client accepts the manager's configuration when asked to open:
/// it refuses only when the manager supplies no credential and the seed
/// descriptors carry differing embedded credentials.
pub open spec fn open_accepts(m: ManagerView) -> bool {
    m.password is Some || uniform_credential(m.nodes)
}

/// The parameters every session opened for a manager in state `m` carries.
pub open spec fn opened_session(m: ManagerView) -> SessionParams {
    SessionParams {
        nodes: session_nodes(m),
        readonly: session_readonly(m),
        password: effective_credential(m),
    }
}

/// The manager state after a credential is stored.
pub open spec fn with_password(m: ManagerView, p: Seq<char>) -> ManagerView {
    ManagerView { password: Some(p), ..m }
}

/// The manager state after the routing preference is stored.
pub open spec fn with_readonly(m: ManagerView, readonly: bool) -> ManagerView {
    ManagerView { readonly: readonly, ..m }
}

/// A live cluster session, owned exclusively by whichever pool borrower
/// currently holds it; the manager never retains one. Besides the
/// connection it records, as ghost state, the parameters it was opened with,
/// so that contracts can tie a session to the configuration that produced it.
pub struct ClusterConnection {
    conn: Connection,
    params: Ghost<SessionParams>,
}

impl ClusterConnection {
    /// The parameters this session was opened with.
    pub closed spec fn session(&self) -> SessionParams {
        self.params@
    }

    /// The command-execution interface of the session: the live connection of
    /// the underlying client, on which arbitrary requests can be run. Using
    /// it does not change what the session was opened with.
    pub fn raw_connection(&mut self) -> (r: &mut Connection)
        ensures
            final(self).session() == old(self).session(),
    {
        &mut self.conn
    }
}

/// A connection manager for a sharded key-value store cluster, fit for a
/// generic connection pool.
#[derive(Debug)]
pub struct RedisClusterConnectionManager {
    nodes: Vec<NodeAddress>,
    readonly: bool,
    password: Option<String>,
}

impl View for RedisClusterConnectionManager {
    type V = ManagerView;

    closed spec fn view(&self) -> ManagerView {
        ManagerView {
            nodes: seed_views(self.nodes@),
            readonly: self.readonly,
            password: match self.password {
                Some(p) => Some(p@),
                None => None,
            },
        }
    }
}

impl RedisClusterConnectionManager {
    /// Create a new manager from raw seed descriptors.
    ///
    /// Each descriptor is passed through the address resolver; any failure
    /// aborts construction with a [`ConfigError`] naming the offending
    /// element — partial success is not permitted. On success the manager
    /// holds one endpoint per descriptor, in input order, with an empty
    /// credential and default (read-write) routing. No network I/O occurs.
    pub fn new(input_nodes: Vec<String>) -> (r: Result<RedisClusterConnectionManager, ConfigError>)
        ensures
            r is Ok <==> all_resolve(input_nodes@),
            r is Ok ==> r->Ok_0@.nodes == resolved_nodes(input_nodes@),
            r is Ok ==> r->Ok_0@.nodes.len() == input_nodes@.len(),
            r is Ok ==> r->Ok_0@.readonly == false && r->Ok_0@.password is None,
            r is Err ==> describes_first_offender(r->Err_0, input_nodes@),
    {
        let mut nodes: Vec<NodeAddress> = Vec::new();
        let mut i: usize = 0;
        while i < input_nodes.len()
            invariant
                i <= input_nodes@.len(),
                nodes@.len() == i,
                forall|j: int| 0 <= j < i ==> resolve_spec(#[trigger] input_nodes@[j]@) is Endpoint,
                forall|j: int| 0 <= j < i ==> #[trigger] nodes@[j]@ == resolve_spec(input_nodes@[j]@)->Endpoint_0,
            decreases input_nodes@.len() - i,
        {
            match resolve_node(input_nodes[i].as_str()) {
                Err(cause) => {
                    return Err(ConfigError::Malformed { index: i, cause });
                }
                Ok(None) => {
                    return Err(ConfigError::Unsupported { index: i });
                }
                Ok(Some(node)) => {
                    nodes.push(node);
                }
            }
            i = i + 1;
        }
        let manager = RedisClusterConnectionManager { nodes, readonly: false, password: None };
        proof {
            assert(manager@.nodes =~= resolved_nodes(input_nodes@));
        }
        Ok(manager)
    }

    /// Create a new manager that will authenticate with `password`.
    ///
    /// Equivalent to [`Self::new`] followed by [`Self::set_password`]; kept
    /// for callers of the older construction style.
    pub fn new_with_auth(input_nodes: Vec<String>, password: String) -> (r: Result<
        RedisClusterConnectionManager,
        ConfigError,
    >)
        ensures
            r is Ok <==> all_resolve(input_nodes@),
            r is Ok ==> r->Ok_0@.nodes == resolved_nodes(input_nodes@),
            r is Ok ==> r->Ok_0@.nodes.len() == input_nodes@.len(),
            r is Ok ==> r->Ok_0@.readonly == false && r->Ok_0@.password == Some(password@),
            r is Err ==> describes_first_offender(r->Err_0, input_nodes@),
    {
        match Self::new(input_nodes) {
            Ok(mut manager) => {
                manager.set_password(password);
                Ok(manager)
            }
            Err(e) => Err(e),
        }
    }

    /// Create a new manager from endpoints that are already validated —
    /// the structured form of construction, which cannot fail: there is
    /// nothing left to resolve.
    pub fn from_endpoints(nodes: Vec<NodeAddress>) -> (r: RedisClusterConnectionManager)
        ensures
            r@.nodes == seed_views(nodes@),
            r@.readonly == false,
            r@.password is None,
    {
        RedisClusterConnectionManager { nodes, readonly: false, password: None }
    }

    /// Take the manager apart into its validated seed endpoints, in order.
    pub fn into_endpoints(self) -> (r: Vec<NodeAddress>)
        ensures
            seed_views(r@) == self@.nodes,
    {
        self.nodes
    }

    /// Request read-only routing for connections created after this call.
    ///
    /// Well-defined only before the manager's first use: the preference does
    /// not propagate to sessions already opened.
    pub fn set_readonly(&mut self, readonly: bool)
        ensures
            final(self)@ == with_readonly(old(self)@, readonly),
    {
        self.readonly = readonly;
    }

    /// Store the credential for connections created after this call.
    ///
    /// Well-defined only before the manager's first use: the credential does
    /// not propagate to sessions already opened.
    pub fn set_password(&mut self, password: String)
        ensures
            final(self)@ == with_password(old(self)@, password@),
    {
        self.password = Some(password);
    }

    /// The validated seed endpoints, in the order their descriptors were
    /// given.
    pub fn nodes(&self) -> (r: &Vec<NodeAddress>)
        ensures
            seed_views(r@) == self@.nodes,
    {
        &self.nodes
    }

    /// Whether connections will request read-only routing.
    pub fn readonly(&self) -> (r: bool)
        ensures
            r == session_readonly(self@),
    {
        self.readonly
    }

    /// The stored credential, if any.
    pub fn password(&self) -> (r: &Option<String>)
        ensures
            (*r) is Some <==> session_credential(self@) is Some,
            (*r) is Some ==> (*r)->0@ == session_credential(self@)->0,
    {
        &self.password
    }

    /// Open a cluster session and obtain one connection from it.
    ///
    /// The session is built from the stored seed endpoints, credential and
    /// routing preference: a connection this returns carries exactly
    /// [`opened_session`]`(self@)` — the stored seeds, the stored routing
    /// flag, and the effective credential (the stored one, or else the
    /// client's fallback to the first seed's embedded one). A single attempt
    /// is made, with no retry at this layer. Whether the network round trip
    /// succeeds is the collaborator's decision, but when the client refuses
    /// the configuration outright — no stored credential over seeds with
    /// differing embedded ones — the call fails; every failure, on opening
    /// the client ([`Self::classify_open`]) or on obtaining the connection
    /// ([`Self::finish_connect`]), comes back as a [`ConnectionError`]
    /// wrapping the client's report unchanged.
    ///
    /// The manager itself is read-only here, so any number of callers may
    /// invoke this concurrently; each call produces an independent
    /// connection.
    pub fn connect(&self) -> (r: Result<ClusterConnection, ConnectionError>)
        ensures
            r is Ok ==> r->Ok_0.session() == opened_session(self@),
            !open_accepts(self@) ==> r is Err,
    {
        let opened = match &self.password {
            Some(p) => cluster::open_client_auth(&self.nodes, self.readonly, p.clone()),
            None => cluster::open_client(&self.nodes, self.readonly),
        };
        let client = match Self::classify_open(opened) {
            Ok(client) => client,
            Err(e) => {
                return Err(e);
            }
        };
        match Self::finish_connect(cluster::client_connection(&client)) {
            Ok(conn) => Ok(ClusterConnection { conn, params: Ghost(opened_session(self@)) }),
            Err(e) => Err(e),
        }
    }

    /// How [`Self::connect`] answers for each outcome of opening the client:
    /// the client is passed through as it came, and a refusal is wrapped in a
    /// [`ConnectionError`] unchanged — so the attempt goes on to request a
    /// connection exactly when the client accepted the configuration.
    pub fn classify_open(outcome: Result<redis_cluster_rs::Client, RedisError>) -> (r: Result<
        redis_cluster_rs::Client,
        ConnectionError,
    >)
        ensures
            r is Ok <==> outcome is Ok,
            outcome is Ok ==> r->Ok_0 == outcome->Ok_0,
            outcome is Err ==> r->Err_0.cause == outcome->Err_0,
    {
        match outcome {
            Ok(client) => Ok(client),
            Err(cause) => Err(ConnectionError { cause }),
        }
    }

    /// How [`Self::connect`] answers for each outcome the client reports on
    /// requesting a connection: a connection is passed through as it came,
    /// and a failure is wrapped in a [`ConnectionError`] unchanged — so a
    /// connection object is produced exactly when the client produced one.
    pub fn finish_connect(outcome: Result<Connection, RedisError>) -> (r: Result<
        Connection,
        ConnectionError,
    >)
        ensures
            r is Ok <==> outcome is Ok,
            outcome is Ok ==> r->Ok_0 == outcome->Ok_0,
            outcome is Err ==> r->Err_0.cause == outcome->Err_0,
    {
        match outcome {
            Ok(conn) => Ok(conn),
            Err(cause) => Err(ConnectionError { cause }),
        }
    }

    /// Check whether a connection is still usable, by a round-trip liveness
    /// probe rather than a bare socket check: cluster connections can go
    /// stale through topology changes a socket check cannot see.
    ///
    /// Success and failure follow the probe exactly — see
    /// [`Self::classify_probe`]. Neither the manager nor what the session
    /// was opened with changes.
    pub fn is_valid(&self, conn: &mut ClusterConnection) -> (r: Result<(), ValidationError>)
        ensures
            final(conn).session() == old(conn).session(),
    {
        let alive = cluster::probe_connection(conn.raw_connection());
        Self::classify_probe(alive)
    }

    /// How [`Self::is_valid`] answers for each probe outcome: success exactly
    /// when the probe answered, and a [`ValidationError`] of I/O kind exactly
    /// when it did not.
    pub fn classify_probe(alive: bool) -> (r: Result<(), ValidationError>)
        ensures
            r == if alive {
                Result::<(), ValidationError>::Ok(())
            } else {
                Result::<(), ValidationError>::Err(ValidationError::Io)
            },
    {
        if alive {
            Ok(())
        } else {
            Err(ValidationError::Io)
        }
    }

    /// Report whether a connection is unconditionally broken: never, by
    /// design. Brokenness detection is deferred wholly to
    /// [`Self::is_valid`], which the pool calls at checkout; answering false
    /// here avoids duplicate validation work. The connection is not touched.
    pub fn has_broken(&self, conn: &mut ClusterConnection) -> (r: bool)
        ensures
            r == false,
            *final(conn) == *old(conn),
    {
        false
    }
}

/// Law: when every descriptor of an input sequence resolves, construction
/// yields exactly one seed endpoint per descriptor, in input order: the
/// endpoint at each position is what the resolver made of the descriptor at
/// that position.
pub proof fn lemma_seeds_preserve_count_and_order(inputs: Seq<String>)
    requires
        all_resolve(inputs),
    ensures
        resolved_nodes(inputs).len() == inputs.len(),
        forall|i: int|
            0 <= i < inputs.len() ==> resolved_nodes(inputs)[i] == resolve_spec(
                #[trigger] inputs[i]@,
            )->Endpoint_0,
{
}

/// Law: a credential stored by [`RedisClusterConnectionManager::set_password`]
/// is the credential every session opened afterwards authenticates with,
/// whatever the manager held before and whatever the seed descriptors embed;
/// the seeds and the routing preference are untouched, and the client cannot
/// refuse to open.
pub proof fn lemma_set_password_reaches_session(m: ManagerView, p: Seq<char>)
    ensures
        session_credential(with_password(m, p)) == Some(p),
        effective_credential(with_password(m, p)) == Some(p),
        opened_session(with_password(m, p)).password == Some(p),
        session_nodes(with_password(m, p)) == session_nodes(m),
        session_readonly(with_password(m, p)) == session_readonly(m),
        open_accepts(with_password(m, p)),
{
}

/// Law: a routing preference stored by
/// [`RedisClusterConnectionManager::set_readonly`] is the routing every
/// session opened afterwards requests, whatever the manager held before; the
/// seeds and the credential are untouched.
pub proof fn lemma_set_readonly_reaches_session(m: ManagerView, readonly: bool)
    ensures
        session_readonly(with_readonly(m, readonly)) == readonly,
        opened_session(with_readonly(m, readonly)).readonly == readonly,
        session_nodes(with_readonly(m, readonly)) == session_nodes(m),
        session_credential(with_readonly(m, readonly)) == session_credential(m),
        effective_credential(with_readonly(m, readonly)) == effective_credential(m),
{
}

/// Law: when the manager supplies no credential of its own, the session
/// authenticates with the client's fallback — the credential embedded in the
/// first seed descriptor, or none at all when the seeds embed none.
pub proof fn lemma_credential_fallback(m: ManagerView)
    requires
        session_credential(m) is None,
    ensures
        m.nodes.len() > 0 ==> effective_credential(m) == m.nodes[0].passwd,
        m.nodes.len() == 0 ==> effective_credential(m) is None,
{
}

} // verus!
