//! The reliable tunnel: how it is reached, and a pool of its sessions.

use crate::transport::protocol::TransportError;
use crate::transport::session::ConnectionState;
use crate::transport::session::TransportSession;
use vstd::prelude::*;

verus! {

/// How the tunnel is reached.
#[derive(Debug, Clone, PartialEq, Eq)]
pub struct SshConfig {
    /// Host of the tunnel server.
    pub ssh_host: String,
    /// Port of the tunnel server.
    pub ssh_port: u16,
    /// User to log in as.
    pub username: String,
    /// Password, where one is used.
    pub password: Option<String>,
    /// Path of the private key, where one is used.
    pub private_key: Option<String>,
    /// Address behind the tunnel that traffic is forwarded to.
    pub remote_dest: String,
}

impl Default for SshConfig {
    fn default() -> (config: Self)
        ensures
            config.ssh_host@ == "localhost"@,
            config.ssh_port == 22,
            config.username@ == "user"@,
            config.password is None,
            config.private_key is None,
            config.remote_dest@ == "localhost:8080"@,
    {
        SshConfig {
            ssh_host: "localhost".to_string(),
            ssh_port: 22,
            username: "user".to_string(),
            password: None,
            private_key: None,
            remote_dest: "localhost:8080".to_string(),
        }
    }
}

/// How the tunnel authenticates.
#[derive(Debug, Clone, Copy, PartialEq, Eq, Structural)]
pub enum AuthMethod {
    /// With the private key.
    PublicKey,
    /// With the password.
    Password,
}

impl SshConfig {
    /// The way to authenticate: the private key where one is given, else
    /// the password; without either there is no way, which is a
    /// connection error.
    pub fn auth_method(&self) -> (method: Result<AuthMethod, TransportError>)
        ensures
            method is Ok <==> self.private_key is Some || self.password is Some,
            method is Ok ==> method->Ok_0 == if self.private_key is Some {
                AuthMethod::PublicKey
            } else {
                AuthMethod::Password
            },
            method is Err ==> (method->Err_0 matches TransportError::Connection(m) && m@
                == "No authentication method provided"@),
    {
        if self.private_key.is_some() {
            Ok(AuthMethod::PublicKey)
        } else if self.password.is_some() {
            Ok(AuthMethod::Password)
        } else {
            Err(TransportError::Connection("No authentication method provided".to_string()))
        }
    }
}

/// What the pool answers to a request for a connection.
#[derive(Debug, Clone, Copy, PartialEq, Eq, Structural)]
pub enum PoolDecision {
    /// Use the connection at this position.
    Reuse(usize),
    /// Open a new connection and add it.
    Create,
    /// The pool is full of connections that are down.
    Exhausted,
}

/// The first position from `from` on whose session is connected, or `None`.
pub open spec fn spec_first_connected(sessions: Seq<TransportSession>, from: int) -> Option<int>
    decreases sessions.len() - from,
{
    if from < 0 || from >= sessions.len() {
        None
    } else if sessions[from]@.state == ConnectionState::Connected {
        Some(from)
    } else {
        spec_first_connected(sessions, from + 1)
    }
}

/// The sessions among the first `upto` that are connected, in order.
pub open spec fn spec_connected(sessions: Seq<TransportSession>, upto: int) -> Seq<TransportSession>
    decreases upto,
{
    if upto <= 0 {
        Seq::<TransportSession>::empty()
    } else if sessions[upto - 1]@.state == ConnectionState::Connected {
        spec_connected(sessions, upto - 1).push(sessions[upto - 1])
    } else {
        spec_connected(sessions, upto - 1)
    }
}

/// A pool of tunnel sessions.
#[derive(Debug)]
pub struct SshConnectionPool {
    connections: Vec<TransportSession>,
    max_connections: usize,
}

impl SshConnectionPool {
    /// The sessions in the pool.
    pub closed spec fn sessions(&self) -> Seq<TransportSession> {
        self.connections@
    }

    /// Sessions that the pool holds at most.
    pub closed spec fn capacity(&self) -> usize {
        self.max_connections
    }

    /// An empty pool for at most `max_connections` sessions.
    pub fn new(max_connections: usize) -> (pool: Self)
        ensures
            pool.sessions().len() == 0,
            pool.capacity() == max_connections,
    {
        SshConnectionPool { connections: Vec::new(), max_connections }
    }

    /// Answers a request for a connection: the first session that is
    /// connected is used again; without one a new session is opened,
    /// unless the pool is full.
    pub fn get_connection(&self) -> (decision: PoolDecision)
        ensures
            decision == match spec_first_connected(self.sessions(), 0) {
                Some(at) => PoolDecision::Reuse(at as usize),
                None => if self.sessions().len() >= self.capacity() {
                    PoolDecision::Exhausted
                } else {
                    PoolDecision::Create
                },
            },
    {
        let mut i: usize = 0;
        while i < self.connections.len()
            invariant
                i <= self.connections@.len(),
                spec_first_connected(self.connections@, 0) == spec_first_connected(
                    self.connections@,
                    i as int,
                ),
            decreases self.connections@.len() - i,
        {
            if self.connections[i].is_connected() {
                return PoolDecision::Reuse(i);
            }
            i += 1;
        }
        if self.connections.len() >= self.max_connections {
            PoolDecision::Exhausted
        } else {
            PoolDecision::Create
        }
    }

    /// The error of a pool that is exhausted.
    pub fn exhausted_error() -> (error: TransportError)
        ensures
            error matches TransportError::Connection(m) && m@ == "Connection pool exhausted"@,
    {
        TransportError::Connection("Connection pool exhausted".to_string())
    }

    /// Adds a session that was opened for the pool.
    pub fn add(&mut self, session: TransportSession)
        ensures
            final(self).sessions() == old(self).sessions().push(session),
            final(self).capacity() == old(self).capacity(),
    {
        self.connections.push(session);
    }

    /// Drops the sessions that are not connected; the others keep their
    /// order.
    pub fn cleanup(&mut self)
        ensures
            final(self).sessions() == spec_connected(
                old(self).sessions(),
                old(self).sessions().len() as int,
            ),
            final(self).capacity() == old(self).capacity(),
    {
        let ghost all = self.connections@;
        let mut i: usize = 0;
        let mut seen: usize = 0;
        let total = self.connections.len();
        assert(self.connections@ =~= spec_connected(all, 0) + all.skip(0));
        while seen < total
            invariant
                seen <= total,
                i <= seen,
                total == all.len(),
                i == spec_connected(all, seen as int).len(),
                self.connections@ == spec_connected(all, seen as int) + all.skip(seen as int),
                self.max_connections == old(self).max_connections,
            decreases total - seen,
        {
            assert(self.connections@[i as int] == all[seen as int]);
            if self.connections[i].is_connected() {
                assert(self.connections@ =~= spec_connected(all, seen + 1) + all.skip(seen + 1));
                i += 1;
            } else {
                let _ = self.connections.remove(i);
                assert(self.connections@ =~= spec_connected(all, seen + 1) + all.skip(seen + 1));
            }
            seen += 1;
        }
        assert(self.connections@ =~= spec_connected(all, all.len() as int));
    }
}

} // verus!
