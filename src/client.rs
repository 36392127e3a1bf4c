//! The connection state of a client of the player.

use vstd::prelude::*;

verus! {

/// Where the player listens, and the connection to it while there is one. A connection that
/// failed is dropped, so that the next request connects afresh.
pub struct MpdClient<C> {
    host: String,
    port: u16,
    client: Option<C>,
}

pub struct ClientView<C> {
    pub host: Seq<char>,
    pub port: u16,
    pub connection: Option<C>,
}

impl<C> View for MpdClient<C> {
    type V = ClientView<C>;

    closed spec fn view(&self) -> ClientView<C> {
        ClientView { host: self.host@, port: self.port, connection: self.client }
    }
}

impl<C> MpdClient<C> {
    /// A client for the player at `host` and `port`, not yet connected.
    pub fn new(host: String, port: u16) -> (r: Self)
        ensures
            r@.host == host@,
            r@.port == port,
            r@.connection is None,
    {
        MpdClient { host, port, client: None }
    }

    pub fn host(&self) -> (r: &String)
        ensures
            r@ == self@.host,
            *r == self.host_string(),
    {
        &self.host
    }

    pub fn port(&self) -> (r: u16)
        ensures
            r == self@.port,
    {
        self.port
    }

    pub fn is_connected(&self) -> (r: bool)
        ensures
            r == self@.connection is Some,
    {
        self.client.is_some()
    }

    /// The host as the string that is handed to a connector.
    pub closed spec fn host_string(&self) -> String {
        self.host
    }

    /// Makes sure there is a connection. With one, nothing happens and `connect` is not called.
    /// Without one, `connect` is called once with the host and port: the connection it returns
    /// is kept, and its error is handed back with the client left as it was.
    pub fn ensure_connected<E, F: FnOnce(&String, u16) -> Result<C, E>>(&mut self, connect: F) -> (r:
        Result<(), E>)
        requires
            old(self)@.connection is None ==> connect.requires(
                (&old(self).host_string(), old(self)@.port),
            ),
        ensures
            final(self).host_string() == old(self).host_string(),
            final(self)@.host == old(self)@.host,
            final(self)@.port == old(self)@.port,
            old(self)@.connection is Some ==> r is Ok && final(self)@ == old(self)@,
            old(self)@.connection is None ==> match r {
                Ok(()) => final(self)@.connection matches Some(c) && connect.ensures(
                    (&old(self).host_string(), old(self)@.port),
                    Ok(c),
                ),
                Err(e) => final(self)@ == old(self)@ && connect.ensures(
                    (&old(self).host_string(), old(self)@.port),
                    Err(e),
                ),
            },
    {
        if self.client.is_none() {
            match connect(&self.host, self.port) {
                Ok(c) => {
                    self.client = Some(c);
                },
                Err(e) => {
                    return Err(e);
                },
            }
        }
        Ok(())
    }

    /// Takes the connection out, leaving the client unconnected until it is given one back.
    pub fn take_connection(&mut self) -> (r: Option<C>)
        ensures
            r == old(self)@.connection,
            final(self)@.connection is None,
            final(self)@.host == old(self)@.host,
            final(self)@.port == old(self)@.port,
    {
        self.client.take()
    }

    /// Settles the connection taken out for a request: it is kept when the request succeeded,
    /// and dropped when it failed, so that the next request connects afresh.
    pub fn finish_request(&mut self, connection: C, succeeded: bool)
        ensures
            final(self)@.connection == if succeeded {
                Some(connection)
            } else {
                None
            },
            final(self)@.host == old(self)@.host,
            final(self)@.port == old(self)@.port,
    {
        if succeeded {
            self.client = Some(connection);
        } else {
            self.client = None;
        }
    }

    /// Hands the client a working connection.
    pub fn attach(&mut self, connection: C)
        ensures
            final(self)@.connection == Some(connection),
            final(self)@.host == old(self)@.host,
            final(self)@.port == old(self)@.port,
    {
        self.client = Some(connection);
    }
}

} // verus!
