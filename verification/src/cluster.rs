//! Trusted boundary around the cluster client.
//!
//! The collaborator that opens sessions and probes connections is the
//! `redis_cluster_rs` crate. Everything the adapter asks of it goes through
//! the wrappers in this module; their contracts state only what the crate's
//! own source and documentation show. A session's success or failure depends
//! on the network and the cluster, so nothing here promises success: the
//! verified logic states what holds of every outcome.

use vstd::prelude::*;
use redis_cluster_rs::{Builder, Client, Connection};
use redis_cluster_rs::redis::RedisError;
use crate::addr::{NodeAddress, seed_views, uniform_credential};

verus! {

#[verifier::external_type_specification]
#[verifier::external_body]
pub struct ExClient(Client);

#[verifier::external_type_specification]
#[verifier::external_body]
pub struct ExConnection(Connection);

/// Relies on `Builder::new`, `Builder::readonly` and `Builder::open` of the
/// cluster client crate: `open` validates the seed endpoints and returns a
/// client that will open its sessions against them, with read-only routing
/// iff `readonly` and authenticating with the credential embedded in the
/// first seed descriptor, if any. It performs no network I/O; with no
/// credential of its own it rejects the seeds exactly when their descriptors
/// carry differing embedded credentials (this library's endpoints are all
/// TCP, so the client's other rejection, of unix-socket seeds, cannot fire).
#[verifier::external_body]
pub(crate) fn open_client(nodes: &Vec<NodeAddress>, readonly: bool) -> (r: Result<Client, RedisError>)
    ensures
        r is Ok <==> uniform_credential(seed_views(nodes@)),
{
    let infos: Vec<_> = nodes.iter().map(|n| n.info.clone()).collect();
    Builder::new(infos).readonly(readonly).open()
}

/// Relies additionally on `Builder::password`: the client returned by `open`
/// will authenticate every session with the given credential, overriding any
/// embedded in the seed descriptors. With a credential supplied, `open`
/// performs no check that could fail, so it always returns a client.
#[verifier::external_body]
pub(crate) fn open_client_auth(
    nodes: &Vec<NodeAddress>,
    readonly: bool,
    password: String,
) -> (r: Result<Client, RedisError>)
    ensures
        r is Ok,
{
    let infos: Vec<_> = nodes.iter().map(|n| n.info.clone()).collect();
    Builder::new(infos).readonly(readonly).password(password).open()
}

/// Relies on `Client::get_connection`: it opens connections to the seed
/// nodes, discovers the cluster's slots, and hands back one live connection,
/// or the client's error when that fails. Its outcome depends on the network.
#[verifier::external_body]
pub(crate) fn client_connection(client: &Client) -> (r: Result<Connection, RedisError>)
{
    client.get_connection()
}

/// Relies on `Connection::check_connection`: a round-trip health check that
/// reports whether every node connection the session holds still answers.
/// Its outcome depends on the state of the cluster, so nothing is promised
/// of it.
#[verifier::external_body]
pub(crate) fn probe_connection(conn: &mut Connection) -> (r: bool)
{
    conn.check_connection()
}

} // verus!
