//! The connector: a task that hands out the current database client, and
//! reconnects lazily once a client has been reported as failed.
//!
//! The task owns a client id that names the current connection. Each client
//! handed out carries the id of the connection it belongs to, so a failure
//! report about an older connection cannot drop a newer one.

use vstd::prelude::*;

verus! {

/// A request to the connector task.
pub enum ConnectorMessage {
    /// Ask for the current client, reconnecting first if there is none.
    GetClient,
    /// Report that the client of connection `id` failed.
    ClientFail(u64),
}

/// What the connector does for a `GetClient` request.
pub enum GetClientAction {
    /// Hand out the current client, which belongs to connection `id`.
    Reply(u64),
    /// There is no client: connect anew, then report the outcome.
    Reconnect,
}

/// The connector's state as contracts see it: the current connection id and
/// the client of that connection, if it has not failed.
pub struct ConnectorState<C> {
    pub client_id: u64,
    pub client: Option<C>,
}

/// The answer to `GetClient` in state `s`.
pub open spec fn spec_get_client<C>(s: ConnectorState<C>) -> GetClientAction {
    match s.client {
        Some(_) => GetClientAction::Reply(s.client_id),
        None => GetClientAction::Reconnect,
    }
}

/// The state after a failure report about connection `id`: the client is
/// dropped only when the report is about the current connection.
pub open spec fn spec_client_failed<C>(s: ConnectorState<C>, id: u64) -> ConnectorState<C> {
    if id == s.client_id && s.client is Some {
        ConnectorState { client_id: s.client_id, client: None }
    } else {
        s
    }
}

/// The state after a successful reconnection with client `c`: a new
/// connection id.
pub open spec fn spec_reconnected<C>(s: ConnectorState<C>, c: C) -> ConnectorState<C> {
    ConnectorState { client_id: (s.client_id + 1) as u64, client: Some(c) }
}

pub struct ConnectorBackend<C> {
    client_id: u64,
    client_opt: Option<C>,
}

impl<C> View for ConnectorBackend<C> {
    type V = ConnectorState<C>;

    closed spec fn view(&self) -> ConnectorState<C> {
        ConnectorState { client_id: self.client_id, client: self.client_opt }
    }
}

impl<C> ConnectorBackend<C> {
    /// The state after the first connection succeeded: connection 1.
    pub fn new(client: C) -> (r: Self)
        ensures
            r@ == (ConnectorState { client_id: 1, client: Some(client) }),
    {
        ConnectorBackend { client_id: 1, client_opt: Some(client) }
    }

    /// The current connection id.
    pub fn client_id(&self) -> (r: u64)
        ensures
            r == self@.client_id,
    {
        self.client_id
    }

    /// The current client, if it has not failed.
    pub fn client(&self) -> (r: Option<&C>)
        ensures
            r matches Some(c) ==> self@.client == Some(*c),
            r is None <==> self@.client is None,
    {
        match &self.client_opt {
            Some(c) => Some(c),
            None => None,
        }
    }

    /// Decide how to answer a `GetClient` request.
    pub fn get_client(&self) -> (r: GetClientAction)
        ensures
            r == spec_get_client(self@),
    {
        match self.client_opt {
            Some(_) => GetClientAction::Reply(self.client_id),
            None => GetClientAction::Reconnect,
        }
    }

    /// Record a reconnection: the new client belongs to the next connection,
    /// whose id is returned.
    pub fn reconnected(&mut self, client: C) -> (r: u64)
        requires
            old(self)@.client_id < u64::MAX,
        ensures
            final(self)@ == spec_reconnected(old(self)@, client),
            r == final(self)@.client_id,
    {
        self.client_opt = Some(client);
        self.client_id = self.client_id + 1;
        self.client_id
    }

    /// Record a failure report about connection `client_id`.
    pub fn client_failed(&mut self, client_id: u64)
        ensures
            final(self)@ == spec_client_failed(old(self)@, client_id),
    {
        if client_id == self.client_id && self.client_opt.is_some() {
            self.client_opt = None;
        }
    }

    /// Handle one request; the answer to `GetClient` says whether to hand out
    /// the current client or to reconnect first, and a failure report gets no
    /// answer.
    pub fn handle(&mut self, msg: ConnectorMessage) -> (r: Option<GetClientAction>)
        ensures
            match msg {
                ConnectorMessage::GetClient => {
                    &&& r == Some(spec_get_client(old(self)@))
                    &&& final(self)@ == old(self)@
                },
                ConnectorMessage::ClientFail(id) => {
                    &&& r is None
                    &&& final(self)@ == spec_client_failed(old(self)@, id)
                },
            },
    {
        match msg {
            ConnectorMessage::GetClient => Some(self.get_client()),
            ConnectorMessage::ClientFail(id) => {
                self.client_failed(id);
                None
            },
        }
    }
}

/// A failure report about an earlier connection changes nothing.
pub proof fn lemma_stale_failure_is_ignored<C>(s: ConnectorState<C>, id: u64)
    requires
        id != s.client_id,
    ensures
        spec_client_failed(s, id) == s,
{
}

/// After the current connection is reported as failed, the next `GetClient`
/// reconnects.
pub proof fn lemma_failure_forces_reconnect<C>(s: ConnectorState<C>)
    ensures
        spec_get_client(spec_client_failed(s, s.client_id)) == GetClientAction::Reconnect,
{
}

/// After a reconnection, `GetClient` hands out the new client under a
/// connection id greater than any before it.
pub proof fn lemma_reconnect_serves_new_id<C>(s: ConnectorState<C>, c: C)
    requires
        s.client_id < u64::MAX,
    ensures
        spec_get_client(spec_reconnected(s, c)) == GetClientAction::Reply(
            (s.client_id + 1) as u64,
        ),
        spec_reconnected(s, c).client_id > s.client_id,
{
}

/// Connection ids never go down: no step of the connector lowers them.
pub proof fn lemma_client_id_monotonic<C>(s: ConnectorState<C>, id: u64, c: C)
    requires
        s.client_id < u64::MAX,
    ensures
        spec_client_failed(s, id).client_id == s.client_id,
        spec_reconnected(s, c).client_id == s.client_id + 1,
{
}

/// A client as handed out: the client of connection `client_id`, if it is
/// still held.
pub struct Client<C> {
    client: Option<C>,
    client_id: u64,
}

impl<C> Client<C> {
    /// A client of connection `client_id`.
    pub fn new(client: C, client_id: u64) -> (r: Self)
        ensures
            r.held() == Some(client),
            r.id() == client_id,
    {
        Client { client: Some(client), client_id }
    }

    pub closed spec fn held(&self) -> Option<C> {
        self.client
    }

    pub closed spec fn id(&self) -> u64 {
        self.client_id
    }

    /// Give up the client, keeping the record of its connection.
    pub fn take(&mut self) -> (r: Option<C>)
        ensures
            r == old(self).held(),
            final(self).held() is None,
            final(self).id() == old(self).id(),
    {
        self.client.take()
    }

    /// The message to send when this client goes away: a failure report
    /// about its connection if the client was given up, nothing otherwise.
    pub fn drop_notice(&self) -> (r: Option<ConnectorMessage>)
        ensures
            match self.held() {
                None => r == Some(ConnectorMessage::ClientFail(self.id())),
                Some(_) => r is None,
            },
    {
        match self.client {
            None => Some(ConnectorMessage::ClientFail(self.client_id)),
            Some(_) => None,
        }
    }

    /// The failure report that `notify_failure` sends.
    pub fn notify_failure(self) -> (r: ConnectorMessage)
        ensures
            r == ConnectorMessage::ClientFail(self.id()),
    {
        ConnectorMessage::ClientFail(self.client_id)
    }
}

} // verus!
