//! The router's message bus: the channel of each connected client and
//! querier, and the choice of where a message goes.

use dashmap::DashMap;
use tokio::sync::mpsc;
use vstd::prelude::*;

use crate::meta::{ClientId, QuerierId, WsMessage};
use crate::router::error::WsError;

verus! {

/// The channels held in a channel map, by the id of their owner.
pub uninterp spec fn registered_channels(
    m: DashMap<String, mpsc::Sender<WsMessage>>,
) -> Map<Seq<char>, mpsc::Sender<WsMessage>>;

/// `DashMap::new` for a channel map: the map starts empty.
#[verifier::external_body]
fn new_channel_map() -> (r: DashMap<String, mpsc::Sender<WsMessage>>)
    ensures
        registered_channels(r).is_empty(),
{
    DashMap::new()
}

/// `DashMap::insert` on a channel map: afterwards `id` maps to `tx` and every
/// other entry is as it was.
#[verifier::external_body]
fn insert_channel(m: &mut DashMap<String, mpsc::Sender<WsMessage>>, id: String, tx: mpsc::Sender<WsMessage>)
    ensures
        registered_channels(*final(m)) == registered_channels(*old(m)).insert(id@, tx),
{
    m.insert(id, tx);
}

/// `DashMap::get` on a channel map, cloning out the sender found; a clone
/// is a handle on the same channel, and is taken here for the sender held.
#[verifier::external_body]
fn get_channel(m: &DashMap<String, mpsc::Sender<WsMessage>>, id: &String) -> (r: Option<mpsc::Sender<WsMessage>>)
    ensures
        r == (if registered_channels(*m).contains_key(id@) {
            Some(registered_channels(*m)[id@])
        } else {
            None
        }),
{
    m.get(id).map(|entry| entry.value().clone())
}

/// What a message bus holds, as mathematics: the channel of each client and
/// of each querier, by id.
pub struct BusView {
    pub clients: Map<Seq<char>, mpsc::Sender<WsMessage>>,
    pub queriers: Map<Seq<char>, mpsc::Sender<WsMessage>>,
}

impl BusView {
    /// The view after registering `tx` as the channel of client `id`.
    pub open spec fn with_client(self, id: Seq<char>, tx: mpsc::Sender<WsMessage>) -> BusView {
        BusView { clients: self.clients.insert(id, tx), queriers: self.queriers }
    }

    /// The view after registering `tx` as the channel of querier `id`.
    pub open spec fn with_querier(self, id: Seq<char>, tx: mpsc::Sender<WsMessage>) -> BusView {
        BusView { clients: self.clients, queriers: self.queriers.insert(id, tx) }
    }

    /// The channel of the querier on `node`, where a node was chosen and a
    /// querier is registered under its name.
    pub open spec fn querier_on(self, node: Option<Seq<char>>) -> Option<mpsc::Sender<WsMessage>> {
        match node {
            Some(n) => if self.queriers.contains_key(n) {
                Some(self.queriers[n])
            } else {
                None
            },
            None => None,
        }
    }

    /// The channel of client `id`, where one is registered.
    pub open spec fn client_channel(self, id: Seq<char>) -> Option<mpsc::Sender<WsMessage>> {
        if self.clients.contains_key(id) {
            Some(self.clients[id])
        } else {
            None
        }
    }
}

/// The view of an optional node name.
pub open spec fn node_view(node: Option<String>) -> Option<Seq<char>> {
    match node {
        Some(n) => Some(n@),
        None => None,
    }
}

/// The text of the error when no querier can take a message.
pub open spec fn no_querier_message(trace_id: Seq<char>) -> Seq<char> {
    "No querier available for trace_id: "@ + trace_id
}

/// Where a message from a client with `trace_id` goes when consistent
/// hashing chose `node`: the querier's channel, or the text of the
/// connection error.
pub open spec fn client_route(v: BusView, node: Option<Seq<char>>, trace_id: Seq<char>) -> Result<
    mpsc::Sender<WsMessage>,
    Seq<char>,
> {
    match v.querier_on(node) {
        Some(tx) => Ok(tx),
        None => Err(no_querier_message(trace_id)),
    }
}

/// Routes messages between the clients and the queriers connected to the
/// router.
pub struct RouterMessageBus {
    client_channels: DashMap<String, mpsc::Sender<WsMessage>>,
    querier_channels: DashMap<String, mpsc::Sender<WsMessage>>,
}

impl View for RouterMessageBus {
    type V = BusView;

    closed spec fn view(&self) -> BusView {
        BusView {
            clients: registered_channels(self.client_channels),
            queriers: registered_channels(self.querier_channels),
        }
    }
}

impl RouterMessageBus {
    /// A bus with no client and no querier.
    pub fn new() -> (r: Self)
        ensures
            r@.clients.is_empty(),
            r@.queriers.is_empty(),
    {
        RouterMessageBus { client_channels: new_channel_map(), querier_channels: new_channel_map() }
    }

    /// The channel of the querier on `node`, the node that consistent
    /// hashing chose for the message's trace id, where there is one.
    pub fn select_querier(&self, node: Option<String>) -> (r: Option<mpsc::Sender<WsMessage>>)
        ensures
            r == self@.querier_on(node_view(node)),
            r is Some <==> (node matches Some(n) && self@.queriers.contains_key(n@)),
            node matches Some(n) ==> (self@.queriers.contains_key(n@) ==> r == Some(self@.queriers[n@])),
    {
        match node {
            Some(n) => {
                let querier_id = QuerierId::new(n);
                get_channel(&self.querier_channels, &querier_id.0)
            },
            None => None,
        }
    }

    /// Where a message from a client goes: the channel of the querier on
    /// `node`, or a connection error that names the trace id where there is
    /// none.
    pub fn route_client_message(&self, node: Option<String>, message: &WsMessage) -> (r: Result<
        mpsc::Sender<WsMessage>,
        WsError,
    >)
        ensures
            match client_route(self@, node_view(node), message.trace_id@) {
                Ok(tx) => r matches Ok(s) && s == tx,
                Err(error_text) => r matches Err(WsError::Connection(text)) && text@ == error_text,
            },
            r is Ok <==> (node matches Some(n) && self@.queriers.contains_key(n@)),
            r matches Ok(s) ==> node matches Some(n) && s == self@.queriers[n@],
            r matches Err(e) ==> e matches WsError::Connection(text) && text@
                == "No querier available for trace_id: "@ + message.trace_id@,
    {
        match self.select_querier(node) {
            Some(tx) => Ok(tx),
            None => {
                proof {
                    reveal_strlit("No querier available for trace_id: ");
                }
                let text = String::from_str("No querier available for trace_id: ").concat(
                    message.trace_id.as_str(),
                );
                Err(WsError::Connection(text))
            },
        }
    }

    /// Where a message from a querier to a client goes: the client's channel,
    /// or nowhere where the client is not registered.
    pub fn route_querier_message(&self, client_id: &ClientId) -> (r: Option<mpsc::Sender<WsMessage>>)
        ensures
            r == self@.client_channel(client_id.0@),
            r is Some <==> self@.clients.contains_key(client_id.0@),
            r matches Some(tx) ==> tx == self@.clients[client_id.0@],
    {
        get_channel(&self.client_channels, &client_id.0)
    }

    /// Registers `tx` as the channel of `client_id`, in place of any before.
    pub fn register_client(&mut self, client_id: ClientId, tx: mpsc::Sender<WsMessage>)
        ensures
            final(self)@ == old(self)@.with_client(client_id.0@, tx),
            final(self)@.clients.contains_key(client_id.0@),
            final(self)@.clients[client_id.0@] == tx,
            forall|id: Seq<char>|
                id != client_id.0@ ==> (#[trigger] final(self)@.clients.contains_key(id) == old(
                    self,
                )@.clients.contains_key(id) && final(self)@.clients[id] == old(self)@.clients[id]),
            final(self)@.queriers == old(self)@.queriers,
    {
        insert_channel(&mut self.client_channels, client_id.0, tx);
    }

    /// Registers `tx` as the channel of `querier_id`, in place of any before.
    pub fn register_querier(&mut self, querier_id: QuerierId, tx: mpsc::Sender<WsMessage>)
        ensures
            final(self)@ == old(self)@.with_querier(querier_id.0@, tx),
            final(self)@.queriers.contains_key(querier_id.0@),
            final(self)@.queriers[querier_id.0@] == tx,
            forall|id: Seq<char>|
                id != querier_id.0@ ==> (#[trigger] final(self)@.queriers.contains_key(id) == old(
                    self,
                )@.queriers.contains_key(id) && final(self)@.queriers[id] == old(self)@.queriers[id]),
            final(self)@.clients == old(self)@.clients,
    {
        insert_channel(&mut self.querier_channels, querier_id.0, tx);
    }
}

/// Registering a client or a querier leaves every other registration in
/// place, and the channel registered is the one found for its id.
pub proof fn registration_keeps_others(
    v: BusView,
    id: Seq<char>,
    tx: mpsc::Sender<WsMessage>,
    other: Seq<char>,
)
    requires
        other != id,
    ensures
        v.with_client(id, tx).client_channel(other) == v.client_channel(other),
        v.with_client(id, tx).clients.contains_key(other) == v.clients.contains_key(other),
        v.with_client(id, tx).clients.contains_key(id) && v.with_client(id, tx).clients[id] == tx,
        v.with_querier(id, tx).querier_on(Some(other)) == v.querier_on(Some(other)),
        v.with_querier(id, tx).queriers.contains_key(other) == v.queriers.contains_key(other),
        v.with_querier(id, tx).queriers.contains_key(id) && v.with_querier(id, tx).queriers[id] == tx,
        v.with_client(id, tx).queriers == v.queriers,
        v.with_querier(id, tx).clients == v.clients,
{
}

/// A message for a trace id goes to the querier registered last under the
/// node that consistent hashing chose for it; registering another querier
/// changes nothing for that node.
pub proof fn registered_querier_receives(
    v: BusView,
    node: Seq<char>,
    tx: mpsc::Sender<WsMessage>,
    other: Seq<char>,
    other_tx: mpsc::Sender<WsMessage>,
)
    ensures
        v.with_querier(node, tx).querier_on(Some(node)) == Some(tx),
        other != node ==> v.with_querier(node, tx).with_querier(other, other_tx).querier_on(Some(node))
            == Some(tx),
{
}

/// A message from a querier reaches the client registered last under its
/// client id; clients and queriers are held apart.
pub proof fn registered_client_receives(
    v: BusView,
    id: Seq<char>,
    tx: mpsc::Sender<WsMessage>,
    querier_tx: mpsc::Sender<WsMessage>,
)
    ensures
        v.with_client(id, tx).client_channel(id) == Some(tx),
        v.with_client(id, tx).with_querier(id, querier_tx).client_channel(id) == Some(tx),
        v.with_querier(id, querier_tx).client_channel(id) == v.client_channel(id),
{
}

/// Without a node, or with a node under which no querier is registered, a
/// client's message goes nowhere.
pub proof fn no_querier_without_registration(v: BusView, node: Option<Seq<char>>)
    requires
        node matches Some(n) ==> !v.queriers.contains_key(n),
    ensures
        v.querier_on(node) is None,
{
}

/// Messages with the same trace id go the same way: whatever maps trace
/// ids to nodes (the cluster's consistent hashing, `locate` here), two
/// messages with equal trace ids reach the channel of the same querier, or
/// fail with the same error, whatever else they carry.
pub proof fn same_trace_id_same_route(
    v: BusView,
    locate: spec_fn(Seq<char>) -> Option<Seq<char>>,
    m1: WsMessage,
    m2: WsMessage,
)
    requires
        m1.trace_id@ == m2.trace_id@,
    ensures
        client_route(v, locate(m1.trace_id@), m1.trace_id@) == client_route(v, locate(m2.trace_id@), m2.trace_id@),
{
}

} // verus!
