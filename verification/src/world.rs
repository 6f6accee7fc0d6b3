//! The world store: every registered player and every loot object that
//! lies about, each found by its identifier.

use crate::gameobjects::{loot_models, LootDrop, LootDropModel, PlayerModel, PlayerState};
use vstd::prelude::*;

verus! {

/// A registered player and whether a connection is open for it.
#[derive(Debug)]
pub struct Client {
    pub state: PlayerState,
    pub connected: bool,
}

/// A client as a mathematical value.
pub struct ClientModel {
    pub state: PlayerModel,
    pub connected: bool,
}

impl View for Client {
    type V = ClientModel;

    open spec fn view(&self) -> ClientModel {
        ClientModel { state: self.state@, connected: self.connected }
    }
}

/// The single authoritative world: every registered player and every loot
/// object that lies about.  Both are kept in order of arrival and found by
/// their identifier, a text, from the front; `WorldModel::wf` says that no
/// identifier occurs twice.
#[derive(Debug)]
pub struct World {
    pub clients: Vec<Client>,
    pub loot: Vec<LootDrop>,
}

/// The world as a mathematical value.
pub struct WorldModel {
    pub clients: Seq<ClientModel>,
    pub loot: Seq<LootDropModel>,
}

impl View for World {
    type V = WorldModel;

    open spec fn view(&self) -> WorldModel {
        WorldModel {
            clients: self.clients@.map_values(|c: Client| c@),
            loot: loot_models(self.loot@),
        }
    }
}

impl WorldModel {
    /// No two clients share an identifier, and no two loot objects do.
    pub open spec fn wf(self) -> bool {
        &&& forall|i: int, j: int|
            0 <= i < j < self.clients.len() ==> self.clients[i].state.id != self.clients[j].state.id
        &&& forall|i: int, j: int|
            0 <= i < j < self.loot.len() ==> self.loot[i].uuid != self.loot[j].uuid
    }

    /// Whether a client goes by `id`.
    pub open spec fn knows(self, id: Seq<char>) -> bool {
        exists|i: int| 0 <= i < self.clients.len() && self.clients[i].state.id == id
    }

    /// Whether `i` is the first place of a client that goes by `id`.
    pub open spec fn holds_at(self, id: Seq<char>, i: int) -> bool {
        &&& 0 <= i < self.clients.len()
        &&& self.clients[i].state.id == id
        &&& forall|j: int| 0 <= j < i ==> self.clients[j].state.id != id
    }

    /// The place of the client that goes by `id`.
    pub open spec fn slot_of(self, id: Seq<char>) -> int {
        choose|i: int| self.holds_at(id, i)
    }

    /// Whether a loot object goes by `id`.
    pub open spec fn has_loot(self, id: Seq<char>) -> bool {
        exists|k: int| 0 <= k < self.loot.len() && self.loot[k].uuid == id
    }

    /// Whether `k` is the first place of a loot object that goes by `id`.
    pub open spec fn loot_at(self, id: Seq<char>, k: int) -> bool {
        &&& 0 <= k < self.loot.len()
        &&& self.loot[k].uuid == id
        &&& forall|j: int| 0 <= j < k ==> self.loot[j].uuid != id
    }

    /// The place of the loot object that goes by `id`.
    pub open spec fn loot_slot_of(self, id: Seq<char>) -> int {
        choose|k: int| self.loot_at(id, k)
    }

    /// The world with the state of the client at `i` replaced.
    pub open spec fn with_player(self, i: int, state: PlayerModel) -> WorldModel {
        WorldModel {
            clients: self.clients.update(i, ClientModel { state, ..self.clients[i] }),
            ..self
        }
    }

    /// The world with `drop` lying about, in place of any loot object of
    /// the same identifier.
    pub open spec fn with_loot(self, drop: LootDropModel) -> WorldModel {
        if self.has_loot(drop.uuid) {
            WorldModel { loot: self.loot.update(self.loot_slot_of(drop.uuid), drop), ..self }
        } else {
            WorldModel { loot: self.loot.push(drop), ..self }
        }
    }

    /// The world without the loot object at `k`.
    pub open spec fn without_loot(self, k: int) -> WorldModel {
        WorldModel { loot: self.loot.remove(k), ..self }
    }
}

impl World {
    /// An empty world.
    pub fn new() -> (world: World)
        ensures
            world@.clients.len() == 0,
            world@.loot.len() == 0,
            world@.wf(),
    {
        World { clients: Vec::new(), loot: Vec::new() }
    }

    /// The place of the client that goes by `id`.
    pub fn find(&self, id: &String) -> (place: Option<usize>)
        ensures
            place is Some <==> self@.knows(id@),
            place matches Some(i) ==> self@.holds_at(id@, i as int) && i == self@.slot_of(id@),
    {
        let mut i: usize = 0;
        while i < self.clients.len()
            invariant
                i <= self.clients.len(),
                forall|j: int| 0 <= j < i ==> self@.clients[j].state.id != id@,
            decreases self.clients.len() - i,
        {
            if self.clients[i].state.id == *id {
                proof {
                    lemma_first_place(self@, id@, i as int);
                }
                return Some(i);
            }
            i = i + 1;
        }
        None
    }

    /// The place of the loot object that goes by `id`.
    pub fn find_loot(&self, id: &String) -> (place: Option<usize>)
        ensures
            place is Some <==> self@.has_loot(id@),
            place matches Some(k) ==> self@.loot_at(id@, k as int) && k == self@.loot_slot_of(id@),
    {
        let mut k: usize = 0;
        while k < self.loot.len()
            invariant
                k <= self.loot.len(),
                forall|j: int| 0 <= j < k ==> self@.loot[j].uuid != id@,
            decreases self.loot.len() - k,
        {
            if self.loot[k].uuid == *id {
                proof {
                    lemma_first_loot(self@, id@, k as int);
                }
                return Some(k);
            }
            k = k + 1;
        }
        None
    }

    /// Lays `drop` about, in place of any loot object of the same identifier.
    pub fn put_loot(&mut self, drop: LootDrop)
        ensures
            final(self)@ == old(self)@.with_loot(drop@),
            old(self)@.wf() ==> final(self)@.wf(),
    {
        proof {
            if old(self)@.wf() {
                lemma_with_loot_wf(old(self)@, drop@);
            }
        }
        match self.find_loot(&drop.uuid) {
            Some(k) => {
                self.loot[k] = drop;
                assert(self@.loot =~= old(self)@.loot.update(k as int, drop@));
            },
            None => {
                self.loot.push(drop);
                assert(self@.loot =~= old(self)@.loot.push(drop@));
            },
        }
        assert(self@.clients =~= old(self)@.clients);
    }

    /// A copy of the loot that lies about.
    pub fn loot_snapshot(&self) -> (copy: Vec<LootDrop>)
        ensures
            loot_models(copy@) == self@.loot,
    {
        let mut copy: Vec<LootDrop> = Vec::new();
        let mut k: usize = 0;
        while k < self.loot.len()
            invariant
                k <= self.loot.len(),
                copy.len() == k,
                forall|j: int| 0 <= j < k ==> copy[j]@ == self.loot[j]@,
            decreases self.loot.len() - k,
        {
            copy.push(self.loot[k].clone());
            k = k + 1;
        }
        assert(loot_models(copy@) =~= self@.loot);
        copy
    }
}

/// The first place of a client that goes by `id` is the one `slot_of` names.
pub proof fn lemma_first_place(world: WorldModel, id: Seq<char>, i: int)
    requires
        world.holds_at(id, i),
    ensures
        world.knows(id),
        world.slot_of(id) == i,
{
    let j = world.slot_of(id);
    assert(world.holds_at(id, j));
    if j < i {
        assert(world.clients[j].state.id != id);
    }
    if i < j {
        assert(world.clients[i].state.id != id);
    }
}

/// The first place of a loot object that goes by `id` is the one
/// `loot_slot_of` names.
pub proof fn lemma_first_loot(world: WorldModel, id: Seq<char>, k: int)
    requires
        world.loot_at(id, k),
    ensures
        world.has_loot(id),
        world.loot_slot_of(id) == k,
{
    let j = world.loot_slot_of(id);
    assert(world.loot_at(id, j));
    if j < k {
        assert(world.loot[j].uuid != id);
    }
    if k < j {
        assert(world.loot[k].uuid != id);
    }
}

/// Where a client goes by `id`, `slot_of` names the first such client.
pub proof fn lemma_slot_of(world: WorldModel, id: Seq<char>)
    requires
        world.knows(id),
    ensures
        world.holds_at(id, world.slot_of(id)),
{
    let m = choose|i: int| 0 <= i < world.clients.len() && world.clients[i].state.id == id;
    lemma_first_client(world, id, m);
}

proof fn lemma_first_client(world: WorldModel, id: Seq<char>, m: int)
    requires
        0 <= m < world.clients.len(),
        world.clients[m].state.id == id,
    ensures
        exists|i: int| world.holds_at(id, i),
    decreases m,
{
    if exists|j: int| 0 <= j < m && world.clients[j].state.id == id {
        let j = choose|j: int| 0 <= j < m && world.clients[j].state.id == id;
        lemma_first_client(world, id, j);
    } else {
        assert(world.holds_at(id, m));
    }
}

/// Where a loot object goes by `id`, `loot_slot_of` names the first such
/// object.
pub proof fn lemma_loot_slot_of(world: WorldModel, id: Seq<char>)
    requires
        world.has_loot(id),
    ensures
        world.loot_at(id, world.loot_slot_of(id)),
{
    let m = choose|k: int| 0 <= k < world.loot.len() && world.loot[k].uuid == id;
    lemma_first_drop(world, id, m);
}

proof fn lemma_first_drop(world: WorldModel, id: Seq<char>, m: int)
    requires
        0 <= m < world.loot.len(),
        world.loot[m].uuid == id,
    ensures
        exists|k: int| world.loot_at(id, k),
    decreases m,
{
    if exists|j: int| 0 <= j < m && world.loot[j].uuid == id {
        let j = choose|j: int| 0 <= j < m && world.loot[j].uuid == id;
        lemma_first_drop(world, id, j);
    } else {
        assert(world.loot_at(id, m));
    }
}

/// Replacing a client's state by one of the same identifier keeps the
/// world well formed.
pub proof fn lemma_with_player_wf(world: WorldModel, i: int, state: PlayerModel)
    requires
        world.wf(),
        0 <= i < world.clients.len(),
        state.id == world.clients[i].state.id,
    ensures
        world.with_player(i, state).wf(),
        world.with_player(i, state).clients.len() == world.clients.len(),
        forall|j: int|
            0 <= j < world.clients.len() ==> #[trigger] world.with_player(i, state).clients[j].state.id
                == world.clients[j].state.id,
        forall|id: Seq<char>| world.with_player(i, state).knows(id) == world.knows(id),
        forall|id: Seq<char>, j: int|
            world.with_player(i, state).holds_at(id, j) == world.holds_at(id, j),
{
    let after = world.with_player(i, state);
    assert forall|id: Seq<char>| after.knows(id) == world.knows(id) by {
        if world.knows(id) {
            let j = choose|j: int| 0 <= j < world.clients.len() && world.clients[j].state.id == id;
            assert(after.clients[j].state.id == id);
        }
        if after.knows(id) {
            let j = choose|j: int| 0 <= j < after.clients.len() && after.clients[j].state.id == id;
            assert(world.clients[j].state.id == id);
        }
    }
    assert forall|id: Seq<char>, j: int| after.holds_at(id, j) == world.holds_at(id, j) by {
        if after.holds_at(id, j) {
            assert forall|m: int| 0 <= m < j implies world.clients[m].state.id != id by {
                assert(after.clients[m].state.id != id);
            }
        }
        if world.holds_at(id, j) {
            assert forall|m: int| 0 <= m < j implies after.clients[m].state.id != id by {
                assert(world.clients[m].state.id != id);
            }
        }
    }
}

/// Laying a loot object about keeps the world well formed.
pub proof fn lemma_with_loot_wf(world: WorldModel, drop: LootDropModel)
    requires
        world.wf(),
    ensures
        world.with_loot(drop).wf(),
        world.with_loot(drop).clients == world.clients,
{
    let after = world.with_loot(drop);
    if world.has_loot(drop.uuid) {
        lemma_loot_slot_of(world, drop.uuid);
        let k = world.loot_slot_of(drop.uuid);
        assert forall|a: int, b: int| 0 <= a < b < after.loot.len() implies after.loot[a].uuid
            != after.loot[b].uuid by {
            assert(after.loot[a].uuid == world.loot[a].uuid);
            assert(after.loot[b].uuid == world.loot[b].uuid);
        }
    } else {
        assert forall|a: int, b: int| 0 <= a < b < after.loot.len() implies after.loot[a].uuid
            != after.loot[b].uuid by {
            if b == world.loot.len() {
                assert(world.loot[a].uuid != drop.uuid);
            }
        }
    }
}

/// Taking a loot object away keeps the world well formed.
pub proof fn lemma_without_loot_wf(world: WorldModel, k: int)
    requires
        world.wf(),
        0 <= k < world.loot.len(),
    ensures
        world.without_loot(k).wf(),
        world.without_loot(k).clients == world.clients,
{
    let after = world.without_loot(k);
    assert forall|a: int, b: int| 0 <= a < b < after.loot.len() implies after.loot[a].uuid
        != after.loot[b].uuid by {
        let a0 = if a < k { a } else { a + 1 };
        let b0 = if b < k { b } else { b + 1 };
        assert(after.loot[a] == world.loot[a0]);
        assert(after.loot[b] == world.loot[b0]);
    }
}

} // verus!
