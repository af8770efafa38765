//! The one Redis client of a replica and the connection that is kept for it.

use crate::error::Error;
use vstd::prelude::*;

verus! {

#[verifier::external_type_specification]
#[verifier::external_body]
pub struct ExRedisClient(redis::Client);

#[verifier::external_type_specification]
#[verifier::external_body]
pub struct ExRedisError(redis::RedisError);

/// Whether `redis::Client::open` accepts an address.
pub uninterp spec fn redis_url_reads(url: Seq<char>) -> bool;

/// The client that `redis::Client::open` makes for an address that it accepts.
pub uninterp spec fn redis_client(url: Seq<char>) -> redis::Client;

/// `redis::Client::open`: reads the address without connecting, and fails on
/// what it cannot read as an address. Which those are, and the client for the
/// others, is a function of the text alone.
#[verifier::external_body]
fn open_client(url: &str) -> (client: Result<redis::Client, redis::RedisError>)
    ensures
        client is Ok == redis_url_reads(url@),
        client is Ok ==> client->Ok_0 == redis_client(url@),
{
    redis::Client::open(url)
}

/// The derived `Clone` of `redis::Client`: the same client settings.
pub assume_specification[ <redis::Client as std::clone::Clone>::clone ](
    client: &redis::Client,
) -> (copy: redis::Client)
    ensures
        copy == *client,
;

/// Reads the address of a Redis server.
pub fn open(url: &str) -> (client: Result<redis::Client, Error>)
    ensures
        client is Ok == redis_url_reads(url@),
        client is Ok ==> client->Ok_0 == redis_client(url@),
        client is Err ==> client->Err_0 is Redis,
{
    match open_client(url) {
        Ok(client) => Ok(client),
        Err(err) => Err(Error::from(err)),
    }
}

/// What a replica knows of Redis: the client, once an address was given, and a
/// connection for it, once one was made. `M` is the type of the connection.
pub struct RedisConn<M> {
    pub client: Option<redis::Client>,
    pub manager: Option<M>,
}

impl<M> RedisConn<M> {
    /// A connection is kept only for a client.
    pub open spec fn wf(&self) -> bool {
        self.manager is Some ==> self.client is Some
    }

    /// Nothing known yet.
    pub fn new() -> (conn: Self)
        ensures
            conn.wf(),
            conn.client is None,
            conn.manager is None,
    {
        RedisConn { client: None, manager: None }
    }
}

/// Opens the client for the address in the settings. Without an address there is
/// nothing to do, and a client that is there already is kept. Only an address that
/// does not read is an error.
pub fn init<M>(conn: &mut RedisConn<M>, url: Option<&str>) -> (result: Result<(), Error>)
    requires
        old(conn).wf(),
    ensures
        final(conn).wf(),
        final(conn).manager == old(conn).manager,
        url is None ==> result is Ok && *final(conn) == *old(conn),
        url is Some && !redis_url_reads(url->0@) ==> result is Err && result->Err_0 is Redis
            && *final(conn) == *old(conn),
        url is Some && redis_url_reads(url->0@) && old(conn).client is Some ==> result is Ok
            && *final(conn) == *old(conn),
        url is Some && redis_url_reads(url->0@) && old(conn).client is None ==> result is Ok
            && final(conn).client == Some(redis_client(url->0@)),
{
    let url = match url {
        Some(url) => url,
        None => {
            return Ok(());
        },
    };
    let client = match open(url) {
        Ok(client) => client,
        Err(err) => {
            return Err(err);
        },
    };
    if conn.client.is_none() {
        conn.client = Some(client);
    }
    Ok(())
}

/// Whether Redis is configured, so that there can be other replicas.
pub fn is_enabled<M>(conn: &RedisConn<M>) -> (enabled: bool)
    ensures
        enabled == (conn.client is Some),
{
    conn.client.is_some()
}

/// The shared client, for whoever needs a connection of their own.
pub fn client<M>(conn: &RedisConn<M>) -> (client: Option<redis::Client>)
    ensures
        client == conn.client,
{
    match &conn.client {
        Some(client) => Some(client.clone()),
        None => None,
    }
}

/// How to come by a connection.
pub enum ManagerStep<M> {
    /// There is no Redis.
    Unset,
    /// One is kept.
    Ready(M),
    /// One has to be made with this client.
    Connect(redis::Client),
}

/// Whether this is how to come by a connection: there is none without a client, the
/// one that is kept is handed out, and otherwise one has to be made.
pub open spec fn is_next_step<M: Clone>(conn: RedisConn<M>, step: ManagerStep<M>) -> bool {
    match step {
        ManagerStep::Unset => conn.client is None,
        ManagerStep::Ready(copy) => conn.manager is Some && cloned(conn.manager->0, copy),
        ManagerStep::Connect(client) => conn.client == Some(client) && conn.manager is None,
    }
}

/// Says how to come by a connection for ordinary commands. One is made at the
/// first use and kept. One that is kept is handed out without asking whether Redis
/// can be reached: it reconnects by itself.
pub fn manager<M: Clone>(conn: &RedisConn<M>) -> (step: ManagerStep<M>)
    requires
        conn.wf(),
    ensures
        is_next_step(*conn, step),
{
    match &conn.client {
        None => ManagerStep::Unset,
        Some(client) => match &conn.manager {
            Some(manager) => ManagerStep::Ready(manager.clone()),
            None => ManagerStep::Connect(client.clone()),
        },
    }
}

/// Whether this is what becomes of an attempt to connect: a connection is kept and
/// handed out; a failure leaves everything as it was.
pub open spec fn is_kept<M: Clone>(
    before: RedisConn<M>,
    attempt: Result<M, redis::RedisError>,
    after: RedisConn<M>,
    given: Option<M>,
) -> bool {
    &&& after.client == before.client
    &&& match attempt {
        Ok(made) => given == Some(made) && after.manager is Some && cloned(made, after.manager->0),
        Err(_) => given is None && after.manager == before.manager,
    }
}

/// Takes the outcome of an attempt to connect. A connection is kept and handed
/// out; a failure is forgotten, so that the next use tries again.
pub fn manager_connected<M: Clone>(
    conn: &mut RedisConn<M>,
    attempt: Result<M, redis::RedisError>,
) -> (manager: Option<M>)
    requires
        old(conn).client is Some,
    ensures
        final(conn).wf(),
        is_kept(*old(conn), attempt, *final(conn), manager),
{
    match attempt {
        Ok(made) => {
            conn.manager = Some(made.clone());
            Some(made)
        },
        Err(_) => None,
    }
}

/// Once a connection was made it is handed out at every later use.
pub proof fn law_connection_is_made_once<M: Clone>(
    before: RedisConn<M>,
    made: M,
    after: RedisConn<M>,
    given: Option<M>,
    step: ManagerStep<M>,
)
    requires
        before.client is Some,
        is_kept(before, Ok(made), after, given),
        is_next_step(after, step),
    ensures
        step is Ready,
{
}

/// After a failed attempt to connect the next use tries again with the same client.
pub proof fn law_failed_connection_is_tried_again<M: Clone>(
    before: RedisConn<M>,
    failure: redis::RedisError,
    after: RedisConn<M>,
    given: Option<M>,
    step: ManagerStep<M>,
)
    requires
        before.client is Some,
        before.manager is None,
        is_kept(before, Err(failure), after, given),
        is_next_step(after, step),
    ensures
        given is None,
        step is Connect,
        before.client == Some(step->Connect_0),
{
}

/// There is no connection exactly where there is no client, the one that is kept is
/// handed out whenever there is one, and one is made, with the shared client, exactly
/// where there is a client and none is kept.
pub proof fn law_next_step_is_the_only_one<M: Clone>(conn: RedisConn<M>, step: ManagerStep<M>)
    requires
        conn.wf(),
        is_next_step(conn, step),
    ensures
        step is Unset <==> conn.client is None,
        step is Ready <==> conn.manager is Some,
        step is Connect <==> conn.client is Some && conn.manager is None,
        step matches ManagerStep::Ready(copy) ==> cloned(conn.manager->0, copy),
        step matches ManagerStep::Connect(client) ==> client == conn.client->0,
        conn.wf() <==> !(conn.client is None && conn.manager is Some),
{
}

/// An attempt that succeeded hands out the connection that was made and keeps one like
/// it; one that failed hands out nothing and changes nothing; neither touches the
/// client.
pub proof fn law_made_connection_is_kept<M: Clone>(
    before: RedisConn<M>,
    attempt: Result<M, redis::RedisError>,
    after: RedisConn<M>,
    given: Option<M>,
)
    requires
        is_kept(before, attempt, after, given),
    ensures
        after.client == before.client,
        attempt matches Ok(made) ==> given == Some(made) && after.manager is Some && cloned(
            made,
            after.manager->0,
        ),
        attempt is Err ==> given is None && after == before,
{
}

}
