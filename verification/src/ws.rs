//! Connections: who receives a message, in which encoding, and what
//! happens when a client connects or leaves.

use crate::game::{Outbound, Recipient, RecipientModel};
use crate::world::{lemma_slot_of, Client, ClientModel, World, WorldModel};
use crate::gameobjects::{
    loot_models, EncodedModel, EncodedPlayer, LootDrop, LootDropModel, PlayerModel, PlayerState,
    ServerMessage, ServerMessageModel,
};
use vstd::prelude::*;

verus! {

/// What is put on the wire for one recipient.
#[derive(Debug)]
pub enum Frame {
    /// The message as it stands: it reads the same for every viewer.
    Verbatim,
    /// A joining player as this viewer may see it.
    PlayerJoin(EncodedPlayer),
    /// The living players as this viewer may see them, and the loot.
    GameState { players: Vec<EncodedPlayer>, loot: Vec<LootDrop> },
}

/// A frame as a mathematical value.
pub enum FrameModel {
    Verbatim,
    PlayerJoin(EncodedModel),
    GameState { players: Seq<EncodedModel>, loot: Seq<LootDropModel> },
}

/// Encoded players as mathematical values.
pub open spec fn encoded_models(players: Seq<EncodedPlayer>) -> Seq<EncodedModel> {
    players.map_values(|e: EncodedPlayer| e@)
}

impl View for Frame {
    type V = FrameModel;

    open spec fn view(&self) -> FrameModel {
        match *self {
            Frame::Verbatim => FrameModel::Verbatim,
            Frame::PlayerJoin(player) => FrameModel::PlayerJoin(player@),
            Frame::GameState { players, loot } => FrameModel::GameState {
                players: encoded_models(players@),
                loot: loot_models(loot@),
            },
        }
    }
}

/// A frame with the client it goes to.
#[derive(Debug)]
pub struct Delivery {
    pub to: String,
    pub frame: Frame,
}

/// A delivery as a mathematical value.
pub struct DeliveryModel {
    pub to: Seq<char>,
    pub frame: FrameModel,
}

impl View for Delivery {
    type V = DeliveryModel;

    open spec fn view(&self) -> DeliveryModel {
        DeliveryModel { to: self.to@, frame: self.frame@ }
    }
}

/// Deliveries as mathematical values.
pub open spec fn delivery_models(deliveries: Seq<Delivery>) -> Seq<DeliveryModel> {
    deliveries.map_values(|d: Delivery| d@)
}

/// The frame of `message` for the viewer that goes by `viewer`.  Only a
/// joining player and the game state depend on the viewer: each player in
/// them is encoded with its private fields for itself and without them for
/// everybody else.
pub open spec fn framed(message: ServerMessageModel, viewer: Seq<char>) -> FrameModel {
    match message {
        ServerMessageModel::PlayerJoin(player) => FrameModel::PlayerJoin(
            player.encoded(player.id == viewer),
        ),
        ServerMessageModel::GameState { pstates, worldloot } => FrameModel::GameState {
            players: pstates.map_values(|p: PlayerModel| p.encoded(p.id == viewer)),
            loot: worldloot,
        },
        _ => FrameModel::Verbatim,
    }
}

/// The deliveries of `message` to the connected among the first `n` clients.
pub open spec fn sent_prefix(clients: Seq<ClientModel>, message: ServerMessageModel, n: nat) -> Seq<
    DeliveryModel,
>
    decreases n,
{
    if n == 0 {
        Seq::<DeliveryModel>::empty()
    } else {
        let rest = sent_prefix(clients, message, (n - 1) as nat);
        let last = clients[n - 1];
        if last.connected {
            rest.push(DeliveryModel { to: last.state.id, frame: framed(message, last.state.id) })
        } else {
            rest
        }
    }
}

impl WorldModel {
    /// The deliveries of `message` to every connected client, in order.
    pub open spec fn broadcast(self, message: ServerMessageModel) -> Seq<DeliveryModel> {
        sent_prefix(self.clients, message, self.clients.len())
    }

    /// The deliveries that an outbound message comes to.  A message for one
    /// client is dropped where that client is unknown or not connected.
    pub open spec fn delivered(self, outbound: crate::game::OutboundModel) -> Seq<DeliveryModel> {
        match outbound.to {
            RecipientModel::Everyone => self.broadcast(outbound.message),
            RecipientModel::Only(id) => {
                if self.knows(id) && self.clients[self.slot_of(id)].connected {
                    seq![DeliveryModel { to: id, frame: framed(outbound.message, id) }]
                } else {
                    Seq::<DeliveryModel>::empty()
                }
            },
        }
    }

    /// The world with a client of the given state, not yet connected, in
    /// place of any client of the same identifier.
    pub open spec fn enrolled(self, state: PlayerModel) -> WorldModel {
        let client = ClientModel { state, connected: false };
        if self.knows(state.id) {
            WorldModel { clients: self.clients.update(self.slot_of(state.id), client), ..self }
        } else {
            WorldModel { clients: self.clients.push(client), ..self }
        }
    }

    /// The world without the client that goes by `id`.
    pub open spec fn without_client(self, id: Seq<char>) -> WorldModel {
        if self.knows(id) {
            WorldModel { clients: self.clients.remove(self.slot_of(id)), ..self }
        } else {
            self
        }
    }

    /// The world with the client that goes by `id` connected.
    pub open spec fn connected(self, id: Seq<char>) -> WorldModel {
        if self.knows(id) {
            let i = self.slot_of(id);
            WorldModel {
                clients: self.clients.update(i, ClientModel { connected: true, ..self.clients[i] }),
                ..self
            }
        } else {
            self
        }
    }
}

/// Encodes `message` for the viewer that goes by `viewer`.
pub fn frame_for(message: &ServerMessage, viewer: &String) -> (frame: Frame)
    ensures
        frame@ == framed(message@, viewer@),
{
    match message {
        ServerMessage::PlayerJoin(player) => Frame::PlayerJoin(player.encode(player.id == *viewer)),
        ServerMessage::GameState { pstates, worldloot } => {
            let mut players: Vec<EncodedPlayer> = Vec::new();
            let mut i: usize = 0;
            while i < pstates.len()
                invariant
                    i <= pstates.len(),
                    players.len() == i,
                    forall|j: int| 0 <= j < i ==> players[j]@ == pstates[j]@.encoded(pstates[j]@.id == viewer@),
                decreases pstates.len() - i,
            {
                players.push(pstates[i].encode(pstates[i].id == *viewer));
                i = i + 1;
            }
            let mut loot: Vec<LootDrop> = Vec::new();
            let mut k: usize = 0;
            while k < worldloot.len()
                invariant
                    k <= worldloot.len(),
                    loot.len() == k,
                    forall|j: int| 0 <= j < k ==> loot[j]@ == worldloot[j]@,
                decreases worldloot.len() - k,
            {
                loot.push(worldloot[k].clone());
                k = k + 1;
            }
            assert(encoded_models(players@) =~= crate::gameobjects::player_models(pstates@).map_values(
                |p: PlayerModel| p.encoded(p.id == viewer@),
            ));
            assert(loot_models(loot@) =~= loot_models(worldloot@));
            Frame::GameState { players, loot }
        },
        _ => Frame::Verbatim,
    }
}

impl Client {
    /// The frame of `message` for this client, if a connection is open for
    /// it.  The viewer is `public_id`, or the client's own identifier where
    /// none is given.
    pub fn transmit(&self, message: &ServerMessage, public_id: Option<&String>) -> (frame: Option<Frame>)
        ensures
            frame is Some <==> self.connected,
            frame matches Some(f) ==> f@ == framed(
                message@,
                match public_id {
                    Some(id) => id@,
                    None => self.state.id@,
                },
            ),
    {
        if !self.connected {
            return None;
        }
        match public_id {
            Some(id) => Some(frame_for(message, id)),
            None => Some(frame_for(message, &self.state.id)),
        }
    }
}

/// Frames `message` for every connected client of `world`, each as that
/// client may see it.
pub fn broadcast(message: &ServerMessage, world: &World) -> (out: Vec<Delivery>)
    ensures
        delivery_models(out@) == world@.broadcast(message@),
{
    let mut out: Vec<Delivery> = Vec::new();
    let mut i: usize = 0;
    while i < world.clients.len()
        invariant
            i <= world.clients.len(),
            delivery_models(out@) == sent_prefix(world@.clients, message@, i as nat),
        decreases world.clients.len() - i,
    {
        let ghost before = out@;
        match world.clients[i].transmit(message, Some(&world.clients[i].state.id)) {
            Some(frame) => {
                let delivery = Delivery { to: world.clients[i].state.id.clone(), frame };
                out.push(delivery);
                assert(delivery_models(out@) =~= delivery_models(before).push(delivery@));
            },
            None => {},
        }
        i = i + 1;
    }
    out
}

impl World {

    /// Frames an outbound message for those it goes to.
    pub fn deliver(&self, outbound: &Outbound) -> (out: Vec<Delivery>)
        ensures
            delivery_models(out@) == self@.delivered(outbound@),
    {
        match &outbound.to {
            Recipient::Everyone => broadcast(&outbound.message, self),
            Recipient::Only(id) => {
                let mut out: Vec<Delivery> = Vec::new();
                if let Some(i) = self.find(id) {
                    if let Some(frame) = self.clients[i].transmit(&outbound.message, Some(id)) {
                        let delivery = Delivery { to: id.clone(), frame };
                        out.push(delivery);
                        assert(delivery_models(out@) =~= seq![delivery@]);
                    }
                }
                assert(out@.len() == 0 ==> delivery_models(out@) =~= Seq::<DeliveryModel>::empty());
                out
            },
        }
    }

    /// Takes a player into the world, not yet connected.  A client of the
    /// same identifier is replaced.
    pub fn enroll(&mut self, state: PlayerState)
        ensures
            final(self)@ == old(self)@.enrolled(state@),
            old(self)@.wf() ==> final(self)@.wf(),
    {
        proof {
            if old(self)@.wf() {
                law_membership_keeps_wf(old(self)@, state@, state.id@);
            }
        }
        let place = self.find(&state.id);
        let client = Client { state, connected: false };
        match place {
            Some(i) => {
                self.clients[i] = client;
                assert(self@.clients =~= old(self)@.clients.update(i as int, client@));
            },
            None => {
                self.clients.push(client);
                assert(self@.clients =~= old(self)@.clients.push(client@));
            },
        }
        assert(self@.loot =~= old(self)@.loot);
    }

    /// Removes the client that goes by `public_id`, if there is one.
    pub fn unregister(&mut self, public_id: &String)
        ensures
            final(self)@ == old(self)@.without_client(public_id@),
            old(self)@.wf() ==> final(self)@.wf(),
    {
        proof {
            if old(self)@.wf() {
                law_membership_keeps_wf(old(self)@, old(self)@.clients[0].state, public_id@);
            }
        }
        if let Some(i) = self.find(public_id) {
            self.clients.remove(i);
            assert(self@.clients =~= old(self)@.clients.remove(i as int));
        }
        assert(self@.loot =~= old(self)@.loot);
    }

    /// A connection opens for the client that goes by `public_id`: those
    /// already connected are told of the player, then the client counts as
    /// connected.  Nothing happens where no such client is registered.
    pub fn connect(&mut self, public_id: &String) -> (out: Vec<Delivery>)
        ensures
            final(self)@ == old(self)@.connected(public_id@),
            old(self)@.wf() ==> final(self)@.wf(),
            delivery_models(out@) == if old(self)@.knows(public_id@) {
                old(self)@.broadcast(
                    ServerMessageModel::PlayerJoin(
                        old(self)@.clients[old(self)@.slot_of(public_id@)].state,
                    ),
                )
            } else {
                Seq::<DeliveryModel>::empty()
            },
    {
        proof {
            if old(self)@.wf() {
                law_membership_keeps_wf(old(self)@, old(self)@.clients[0].state, public_id@);
            }
        }
        match self.find(public_id) {
            Some(i) => {
                let join = ServerMessage::PlayerJoin(self.clients[i].state.clone());
                let out = broadcast(&join, self);
                self.clients[i].connected = true;
                assert(self@.clients =~= old(self)@.connected(public_id@).clients);
                assert(self@.loot =~= old(self)@.loot);
                out
            },
            None => {
                let out: Vec<Delivery> = Vec::new();
                assert(delivery_models(out@) =~= Seq::<DeliveryModel>::empty());
                out
            },
        }
    }

    /// The connection of the client that goes by `public_id` is gone:
    /// everyone connected is told that the player left, and the client is
    /// removed from the world.
    pub fn disconnect(&mut self, public_id: &String) -> (out: Vec<Delivery>)
        ensures
            final(self)@ == old(self)@.without_client(public_id@),
            old(self)@.wf() ==> final(self)@.wf(),
            delivery_models(out@) == old(self)@.broadcast(
                ServerMessageModel::PlayerLeave(public_id@),
            ),
    {
        let leave = ServerMessage::PlayerLeave(public_id.clone());
        let out = broadcast(&leave, self);
        self.unregister(public_id);
        out
    }
}

/// Enrolling, removing and connecting a client keep the world well formed.
pub proof fn law_membership_keeps_wf(world: WorldModel, state: PlayerModel, id: Seq<char>)
    requires
        world.wf(),
    ensures
        world.enrolled(state).wf(),
        world.enrolled(state).knows(state.id),
        world.without_client(id).wf(),
        !world.without_client(id).knows(id),
        world.connected(id).wf(),
{
    let joined = world.enrolled(state);
    if world.knows(state.id) {
        lemma_slot_of(world, state.id);
        let i = world.slot_of(state.id);
        assert(joined.clients[i].state.id == state.id);
        assert forall|a: int, b: int| 0 <= a < b < joined.clients.len() implies joined.clients[a].state.id
            != joined.clients[b].state.id by {
            assert(joined.clients[a].state.id == world.clients[a].state.id);
            assert(joined.clients[b].state.id == world.clients[b].state.id);
        }
    } else {
        assert(joined.clients[world.clients.len() as int].state.id == state.id);
        assert forall|a: int, b: int| 0 <= a < b < joined.clients.len() implies joined.clients[a].state.id
            != joined.clients[b].state.id by {
            if b == world.clients.len() {
                assert(world.clients[a].state.id != state.id);
            }
        }
    }
    let left = world.without_client(id);
    if world.knows(id) {
        lemma_slot_of(world, id);
        let i = world.slot_of(id);
        assert forall|a: int| 0 <= a < left.clients.len() implies #[trigger] left.clients[a].state.id
            != id by {
            let a0 = if a < i { a } else { a + 1 };
            assert(left.clients[a] == world.clients[a0]);
        }
        assert forall|a: int, b: int| 0 <= a < b < left.clients.len() implies left.clients[a].state.id
            != left.clients[b].state.id by {
            let a0 = if a < i { a } else { a + 1 };
            let b0 = if b < i { b } else { b + 1 };
            assert(left.clients[a] == world.clients[a0]);
            assert(left.clients[b] == world.clients[b0]);
        }
        let linked = world.connected(id);
        assert forall|a: int, b: int| 0 <= a < b < linked.clients.len() implies linked.clients[a].state.id
            != linked.clients[b].state.id by {
            assert(linked.clients[a].state.id == world.clients[a].state.id);
            assert(linked.clients[b].state.id == world.clients[b].state.id);
        }
    }
}

} // verus!
