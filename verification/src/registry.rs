use vstd::prelude::*;

use crate::commitment::commit;
use crate::commitment::commit_of;

verus! {

/// Hard bound on how many children one record may accumulate; the record
/// layout reserves space for exactly this many child references.
pub const MAX_CHILDREN: usize = 10;

/// Largest encoded byte length accepted for an inscription reference.
pub const MAX_ORDINALS_ID_BYTES: usize = 64;

/// Largest encoded byte length accepted for a metadata URI.
pub const MAX_METADATA_URI_BYTES: usize = 128;

/// The singleton registry record: the administrator that initialized it and
/// the number of agent records ever created.
#[derive(Clone, Debug, PartialEq, Eq)]
pub struct Registry {
    pub admin: [u8; 32],
    pub agent_count: u64,
}

/// One identity record in the genealogy forest. Records are immutable after
/// creation except for `children`, `evolution_count` and `updated_at`, which
/// only grow.
#[derive(Clone, Debug, PartialEq, Eq)]
pub struct AgentRecord {
    pub owner: [u8; 32],
    pub dna_hash: [u8; 32],
    pub nft_mint: [u8; 32],
    pub ordinals_id: Option<Vec<u8>>,
    pub metadata_uri: Vec<u8>,
    pub generation: u32,
    pub created_at: i64,
    pub updated_at: i64,
    pub parent: Option<u64>,
    pub children: Vec<u64>,
    pub evolution_count: u32,
}

/// The bounded string fields a capacity failure can name.
#[derive(Clone, Copy, Debug, PartialEq, Eq)]
pub enum BoundedField {
    OrdinalsId,
    MetadataUri,
}

/// Everything a registry operation can fail with.
#[derive(Clone, Copy, Debug, PartialEq, Eq)]
pub enum RegistryError {
    AlreadyInitialized,
    NotFound,
    CapacityExceeded(BoundedField),
    ChildCapacityExceeded,
    ArithmeticOverflow,
    Unauthorized,
    /// Reported by the execution environment when it cannot allocate
    /// persistent space; the in-memory store never raises it itself.
    StorageAllocationFailure,
}

/// Notification published after a successful registration.
#[derive(Clone, Debug, PartialEq, Eq)]
pub struct AgentRegistered {
    pub agent: u64,
    pub owner: [u8; 32],
    pub dna_hash: [u8; 32],
    pub nft_mint: [u8; 32],
    pub ordinals_id: Option<Vec<u8>>,
    pub generation: u32,
}

/// Notification published after a successful evolution.
#[derive(Clone, Debug, PartialEq, Eq)]
pub struct AgentEvolved {
    pub parent: u64,
    pub child: u64,
    pub owner: [u8; 32],
    pub new_dna_hash: [u8; 32],
    pub new_nft_mint: [u8; 32],
    pub new_ordinals_id: Option<Vec<u8>>,
    pub generation: u32,
}

/// A published domain event; delivery is left to whatever subscriber reads
/// the log.
#[derive(Clone, Debug, PartialEq, Eq)]
pub enum RegistryEvent {
    Registered(AgentRegistered),
    Evolved(AgentEvolved),
}

/// The record store: the singleton registry, the append-only sequence of
/// agent records (a record's id is its position), the event log, and the
/// latest timestamp the environment's clock has handed in.
pub struct AgentRegistry {
    pub registry: Option<Registry>,
    pub agents: Vec<AgentRecord>,
    pub events: Vec<RegistryEvent>,
    pub last_time: i64,
}

/// The byte length of an optional bounded field, zero when absent.
pub open spec fn opt_bytes_len(o: Option<Vec<u8>>) -> int {
    match o {
        Some(v) => v@.len() as int,
        None => 0,
    }
}

/// The optional field's content as an abstract value.
pub open spec fn opt_bytes_view(o: Option<Vec<u8>>) -> Option<Seq<u8>> {
    match o {
        Some(v) => Some(v@),
        None => None,
    }
}

/// Every bounded field of the record fits its reserved capacity.
pub open spec fn record_fields_ok(a: AgentRecord) -> bool {
    &&& opt_bytes_len(a.ordinals_id) <= MAX_ORDINALS_ID_BYTES
    &&& a.metadata_uri@.len() <= MAX_METADATA_URI_BYTES
}

/// The record at position `i` is internally consistent and correctly linked
/// into the forest: its evolution count matches its child list, a root sits
/// at generation zero, and parent and child edges are mutual inverses.
pub open spec fn agent_ok(agents: Seq<AgentRecord>, i: int) -> bool {
    let a = agents[i];
    &&& record_fields_ok(a)
    &&& a.children@.len() <= MAX_CHILDREN
    &&& a.evolution_count == a.children@.len()
    &&& a.updated_at >= a.created_at
    &&& match a.parent {
        Some(p) => {
            &&& 0 <= p < i
            &&& a.generation == agents[p as int].generation + 1
            &&& agents[p as int].children@.contains(i as u64)
        },
        None => a.generation == 0,
    }
    &&& forall|j: int| 0 <= j < a.children@.len() ==> {
        let c = #[trigger] a.children@[j];
        &&& i < c as int
        &&& (c as int) < agents.len()
        &&& agents[c as int].parent == Some(i as u64)
    }
}

/// The first failure a registration runs into, in the order the operation
/// checks: authorization, an initialized registry, the bounded fields in
/// layout order, then the checked counter increment. `None` means the call
/// is owed success.
pub open spec fn register_error(
    s: AgentRegistry,
    authorized: bool,
    ordinals_id: Option<Vec<u8>>,
    metadata_uri: Vec<u8>,
) -> Option<RegistryError> {
    if !authorized {
        Some(RegistryError::Unauthorized)
    } else if s.registry is None {
        Some(RegistryError::NotFound)
    } else if opt_bytes_len(ordinals_id) > MAX_ORDINALS_ID_BYTES {
        Some(RegistryError::CapacityExceeded(BoundedField::OrdinalsId))
    } else if metadata_uri@.len() > MAX_METADATA_URI_BYTES {
        Some(RegistryError::CapacityExceeded(BoundedField::MetadataUri))
    } else if s.registry->Some_0.agent_count == u64::MAX {
        Some(RegistryError::ArithmeticOverflow)
    } else {
        None
    }
}

/// The first failure an evolution runs into, in the order the operation
/// checks: authorization, loading the parent, the hard child bound, the
/// checked generation increment, the bounded fields in layout order, then
/// the checked counter increment. `None` means the call is owed success.
pub open spec fn evolve_error(
    s: AgentRegistry,
    parent_id: u64,
    authorized: bool,
    ordinals_id: Option<Vec<u8>>,
    metadata_uri: Vec<u8>,
) -> Option<RegistryError> {
    if !authorized {
        Some(RegistryError::Unauthorized)
    } else if s.registry is None {
        Some(RegistryError::NotFound)
    } else if parent_id as int >= s.agents@.len() {
        Some(RegistryError::NotFound)
    } else if s.agents@[parent_id as int].children@.len() >= MAX_CHILDREN {
        Some(RegistryError::ChildCapacityExceeded)
    } else if s.agents@[parent_id as int].generation == u32::MAX {
        Some(RegistryError::ArithmeticOverflow)
    } else if opt_bytes_len(ordinals_id) > MAX_ORDINALS_ID_BYTES {
        Some(RegistryError::CapacityExceeded(BoundedField::OrdinalsId))
    } else if metadata_uri@.len() > MAX_METADATA_URI_BYTES {
        Some(RegistryError::CapacityExceeded(BoundedField::MetadataUri))
    } else if s.registry->Some_0.agent_count == u64::MAX {
        Some(RegistryError::ArithmeticOverflow)
    } else {
        None
    }
}

/// Appending to a sequence keeps every element it already contains.
proof fn lemma_push_preserves_contains<A>(s: Seq<A>, x: A, y: A)
    requires
        s.contains(y),
    ensures
        s.push(x).contains(y),
{
    let j = choose|j: int| 0 <= j < s.len() && s[j] == y;
    assert(s.push(x)[j] == y);
}

/// Byte-for-byte copy of a buffer.
fn copy_bytes(v: &Vec<u8>) -> (r: Vec<u8>)
    ensures
        r@ == v@,
{
    let mut r: Vec<u8> = Vec::new();
    let mut i: usize = 0;
    while i < v.len()
        invariant
            i <= v.len(),
            r@ == v@.subrange(0, i as int),
        decreases v.len() - i,
    {
        r.push(v[i]);
        proof {
            assert(r@ =~= v@.subrange(0, i + 1));
        }
        i = i + 1;
    }
    proof {
        assert(r@ =~= v@);
    }
    r
}

/// Copy of an optional buffer, preserving presence and content.
fn copy_opt_bytes(o: &Option<Vec<u8>>) -> (r: Option<Vec<u8>>)
    ensures
        opt_bytes_view(r) == opt_bytes_view(*o),
{
    match o {
        Some(v) => Some(copy_bytes(v)),
        None => None,
    }
}

impl AgentRegistry {
    /// The store's invariant: the counter matches the number of records ever
    /// created, no record exists before initialization, every record is
    /// consistent, and no stored timestamp lies ahead of the clock watermark.
    pub open spec fn wf(self) -> bool {
        &&& match self.registry {
            Some(r) => r.agent_count == self.agents@.len(),
            None => self.agents@.len() == 0 && self.events@.len() == 0,
        }
        &&& forall|i: int| 0 <= i < self.agents@.len() ==> #[trigger] agent_ok(self.agents@, i)
        &&& forall|i: int|
            0 <= i < self.agents@.len() ==> (#[trigger] self.agents@[i]).updated_at
                <= self.last_time
    }

    /// An empty, uninitialized store.
    pub fn new() -> (s: Self)
        ensures
            s.wf(),
            s.registry is None,
            s.agents@.len() == 0,
            s.events@.len() == 0,
            s.last_time == i64::MIN,
    {
        AgentRegistry { registry: None, agents: Vec::new(), events: Vec::new(), last_time: i64::MIN }
    }

    /// Creates the singleton registry. Succeeds exactly once: every later
    /// call fails with `AlreadyInitialized` and changes nothing.
    pub fn initialize(&mut self, admin: [u8; 32], authorized: bool) -> (r: Result<
        (),
        RegistryError,
    >)
        requires
            old(self).wf(),
        ensures
            final(self).wf(),
            !authorized ==> r == Err::<(), RegistryError>(RegistryError::Unauthorized)
                && *final(self) == *old(self),
            authorized && old(self).registry is Some ==> r == Err::<(), RegistryError>(
                RegistryError::AlreadyInitialized,
            ) && *final(self) == *old(self),
            authorized && old(self).registry is None ==> {
                &&& r == Ok::<(), RegistryError>(())
                &&& final(self).registry == Some((Registry { admin, agent_count: 0 }))
                &&& final(self).agents@ == old(self).agents@
                &&& final(self).events@ == old(self).events@
                &&& final(self).last_time == old(self).last_time
            },
    {
        if !authorized {
            return Err(RegistryError::Unauthorized);
        }
        if self.registry.is_some() {
            return Err(RegistryError::AlreadyInitialized);
        }
        self.registry = Some(Registry { admin, agent_count: 0 });
        Ok(())
    }

    /// Creates a root record: generation zero, no parent, no children, both
    /// timestamps at `now`, the defining sequence sealed into its commitment.
    /// On success the record is appended, the counter grows by one and an
    /// `AgentRegistered` event is published; on failure nothing changes.
    pub fn register_agent(
        &mut self,
        owner: [u8; 32],
        authorized: bool,
        dna_sequence: Vec<u8>,
        nft_mint: [u8; 32],
        ordinals_id: Option<Vec<u8>>,
        metadata_uri: Vec<u8>,
        now: i64,
    ) -> (r: Result<u64, RegistryError>)
        requires
            old(self).wf(),
            now >= old(self).last_time,
        ensures
            final(self).wf(),
            match register_error(*old(self), authorized, ordinals_id, metadata_uri) {
                Some(e) => r == Err::<u64, RegistryError>(e) && *final(self) == *old(self),
                None => {
                    let n = old(self).agents@.len() as int;
                    &&& r == Ok::<u64, RegistryError>(n as u64)
                    &&& final(self).agents@.len() == n + 1
                    &&& (forall|i: int|
                        0 <= i < n ==> final(self).agents@[i] == old(self).agents@[i])
                    &&& ({
                        let a = final(self).agents@[n];
                        &&& a.owner == owner
                        &&& a.dna_hash@ == commit_of(dna_sequence@)
                        &&& a.nft_mint == nft_mint
                        &&& a.ordinals_id == ordinals_id
                        &&& a.metadata_uri == metadata_uri
                        &&& a.generation == 0
                        &&& a.created_at == now
                        &&& a.updated_at == now
                        &&& a.parent is None
                        &&& a.children@.len() == 0
                        &&& a.evolution_count == 0
                    })
                    &&& final(self).registry == Some(
                        (Registry {
                            admin: old(self).registry->Some_0.admin,
                            agent_count: (old(self).registry->Some_0.agent_count + 1) as u64,
                        }),
                    )
                    &&& final(self).events@.len() == old(self).events@.len() + 1
                    &&& (forall|i: int|
                        0 <= i < old(self).events@.len() ==> final(self).events@[i] == old(
                            self,
                        ).events@[i])
                    &&& ({
                        let ev = final(self).events@.last();
                        &&& ev matches RegistryEvent::Registered(e)
                        &&& e.agent == n as u64
                        &&& e.owner == owner
                        &&& e.dna_hash@ == commit_of(dna_sequence@)
                        &&& e.nft_mint == nft_mint
                        &&& opt_bytes_view(e.ordinals_id) == opt_bytes_view(ordinals_id)
                        &&& e.generation == 0
                    })
                    &&& final(self).last_time == now
                },
            },
    {
        if !authorized {
            return Err(RegistryError::Unauthorized);
        }
        let (admin_id, count) = match &self.registry {
            None => { return Err(RegistryError::NotFound) },
            Some(reg) => (reg.admin, reg.agent_count),
        };
        if let Some(oid) = &ordinals_id {
            if oid.len() > MAX_ORDINALS_ID_BYTES {
                return Err(RegistryError::CapacityExceeded(BoundedField::OrdinalsId));
            }
        }
        if metadata_uri.len() > MAX_METADATA_URI_BYTES {
            return Err(RegistryError::CapacityExceeded(BoundedField::MetadataUri));
        }
        if count == u64::MAX {
            return Err(RegistryError::ArithmeticOverflow);
        }
        let dna_hash = commit(&dna_sequence);
        let id: u64 = count;
        let event_ordinals = copy_opt_bytes(&ordinals_id);
        let record = AgentRecord {
            owner,
            dna_hash,
            nft_mint,
            ordinals_id,
            metadata_uri,
            generation: 0,
            created_at: now,
            updated_at: now,
            parent: None,
            children: Vec::new(),
            evolution_count: 0,
        };
        self.agents.push(record);
        self.registry = Some(Registry { admin: admin_id, agent_count: count + 1 });
        self.events.push(
            RegistryEvent::Registered(
                AgentRegistered {
                    agent: id,
                    owner,
                    dna_hash,
                    nft_mint,
                    ordinals_id: event_ordinals,
                    generation: 0,
                },
            ),
        );
        self.last_time = now;
        proof {
            let olds = old(self).agents@;
            let news = self.agents@;
            assert forall|i: int| 0 <= i < news.len() implies #[trigger] agent_ok(news, i) by {
                if i < olds.len() {
                    assert(agent_ok(olds, i));
                    assert(news[i] == olds[i]);
                    assert forall|j: int| 0 <= j < news[i].children@.len() implies {
                        let c = #[trigger] news[i].children@[j];
                        &&& i < c as int
                        &&& (c as int) < news.len()
                        &&& news[c as int].parent == Some(i as u64)
                    } by {
                        assert(agent_ok(olds, i));
                    }
                }
            }
        }
        Ok(id)
    }

    /// Creates a child record linked to `parent_id`: one generation deeper,
    /// the new defining sequence sealed into its commitment. On success the
    /// child is appended, the parent gains exactly one child reference and
    /// one evolution, the counter grows by one and an `AgentEvolved` event
    /// is published; on failure nothing changes.
    pub fn evolve_agent(
        &mut self,
        parent_id: u64,
        owner: [u8; 32],
        authorized: bool,
        new_dna_sequence: Vec<u8>,
        new_nft_mint: [u8; 32],
        new_ordinals_id: Option<Vec<u8>>,
        new_metadata_uri: Vec<u8>,
        now: i64,
    ) -> (r: Result<u64, RegistryError>)
        requires
            old(self).wf(),
            now >= old(self).last_time,
        ensures
            final(self).wf(),
            match evolve_error(*old(self), parent_id, authorized, new_ordinals_id,
            new_metadata_uri) {
                Some(e) => r == Err::<u64, RegistryError>(e) && *final(self) == *old(self),
                None => {
                    let n = old(self).agents@.len() as int;
                    let p0 = old(self).agents@[parent_id as int];
                    &&& r == Ok::<u64, RegistryError>(n as u64)
                    &&& final(self).agents@.len() == n + 1
                    &&& (forall|i: int|
                        0 <= i < n && i != parent_id as int ==> final(self).agents@[i] == old(
                            self,
                        ).agents@[i])
                    &&& ({
                        let p1 = final(self).agents@[parent_id as int];
                        &&& p1.children@ == p0.children@.push(n as u64)
                        &&& p1.evolution_count == p0.evolution_count + 1
                        &&& p1.updated_at == now
                        &&& p1.owner == p0.owner
                        &&& p1.dna_hash == p0.dna_hash
                        &&& p1.nft_mint == p0.nft_mint
                        &&& p1.ordinals_id == p0.ordinals_id
                        &&& p1.metadata_uri == p0.metadata_uri
                        &&& p1.generation == p0.generation
                        &&& p1.created_at == p0.created_at
                        &&& p1.parent == p0.parent
                    })
                    &&& ({
                        let c = final(self).agents@[n];
                        &&& c.owner == owner
                        &&& c.dna_hash@ == commit_of(new_dna_sequence@)
                        &&& c.nft_mint == new_nft_mint
                        &&& c.ordinals_id == new_ordinals_id
                        &&& c.metadata_uri == new_metadata_uri
                        &&& c.generation == p0.generation + 1
                        &&& c.created_at == now
                        &&& c.updated_at == now
                        &&& c.parent == Some(parent_id)
                        &&& c.children@.len() == 0
                        &&& c.evolution_count == 0
                    })
                    &&& final(self).registry == Some(
                        (Registry {
                            admin: old(self).registry->Some_0.admin,
                            agent_count: (old(self).registry->Some_0.agent_count + 1) as u64,
                        }),
                    )
                    &&& final(self).events@.len() == old(self).events@.len() + 1
                    &&& (forall|i: int|
                        0 <= i < old(self).events@.len() ==> final(self).events@[i] == old(
                            self,
                        ).events@[i])
                    &&& ({
                        let ev = final(self).events@.last();
                        &&& ev matches RegistryEvent::Evolved(e)
                        &&& e.parent == parent_id
                        &&& e.child == n as u64
                        &&& e.owner == owner
                        &&& e.new_dna_hash@ == commit_of(new_dna_sequence@)
                        &&& e.new_nft_mint == new_nft_mint
                        &&& opt_bytes_view(e.new_ordinals_id) == opt_bytes_view(new_ordinals_id)
                        &&& e.generation == p0.generation + 1
                    })
                    &&& final(self).last_time == now
                },
            },
    {
        if !authorized {
            return Err(RegistryError::Unauthorized);
        }
        let (admin_id, count) = match &self.registry {
            None => { return Err(RegistryError::NotFound) },
            Some(reg) => (reg.admin, reg.agent_count),
        };
        if parent_id >= self.agents.len() as u64 {
            return Err(RegistryError::NotFound);
        }
        let pidx = parent_id as usize;
        proof {
            assert(agent_ok(self.agents@, pidx as int));
        }
        let parent_children_len = self.agents[pidx].children.len();
        let parent_generation = self.agents[pidx].generation;
        if parent_children_len >= MAX_CHILDREN {
            return Err(RegistryError::ChildCapacityExceeded);
        }
        if parent_generation == u32::MAX {
            return Err(RegistryError::ArithmeticOverflow);
        }
        if let Some(oid) = &new_ordinals_id {
            if oid.len() > MAX_ORDINALS_ID_BYTES {
                return Err(RegistryError::CapacityExceeded(BoundedField::OrdinalsId));
            }
        }
        if new_metadata_uri.len() > MAX_METADATA_URI_BYTES {
            return Err(RegistryError::CapacityExceeded(BoundedField::MetadataUri));
        }
        if count == u64::MAX {
            return Err(RegistryError::ArithmeticOverflow);
        }
        let new_dna_hash = commit(&new_dna_sequence);
        let child_id: u64 = count;
        let event_ordinals = copy_opt_bytes(&new_ordinals_id);
        let child = AgentRecord {
            owner,
            dna_hash: new_dna_hash,
            nft_mint: new_nft_mint,
            ordinals_id: new_ordinals_id,
            metadata_uri: new_metadata_uri,
            generation: parent_generation + 1,
            created_at: now,
            updated_at: now,
            parent: Some(parent_id),
            children: Vec::new(),
            evolution_count: 0,
        };
        self.agents.push(child);
        let parent_rec = &mut self.agents[pidx];
        parent_rec.children.push(child_id);
        parent_rec.evolution_count = parent_rec.evolution_count + 1;
        parent_rec.updated_at = now;
        self.registry = Some(Registry { admin: admin_id, agent_count: count + 1 });
        self.events.push(
            RegistryEvent::Evolved(
                AgentEvolved {
                    parent: parent_id,
                    child: child_id,
                    owner,
                    new_dna_hash,
                    new_nft_mint,
                    new_ordinals_id: event_ordinals,
                    generation: parent_generation + 1,
                },
            ),
        );
        self.last_time = now;
        proof {
            let olds = old(self).agents@;
            let news = self.agents@;
            let pi = parent_id as int;
            let n = olds.len() as int;
            assert(news.len() == n + 1);
            assert(agent_ok(olds, pi));
            assert(news[pi].children@ == olds[pi].children@.push(n as u64));
            assert(news[pi].children@[olds[pi].children@.len() as int] == n as u64);
            assert(news[pi].children@.contains(n as u64));
            assert forall|i: int| 0 <= i < news.len() implies #[trigger] agent_ok(news, i) by {
                if i == n {
                    assert(agent_ok(news, i));
                } else if i == pi {
                    assert(agent_ok(olds, pi));
                    assert forall|j: int| 0 <= j < news[pi].children@.len() implies {
                        let c = #[trigger] news[pi].children@[j];
                        &&& pi < c as int
                        &&& (c as int) < news.len()
                        &&& news[c as int].parent == Some(pi as u64)
                    } by {
                        if j < olds[pi].children@.len() {
                            assert(news[pi].children@[j] == olds[pi].children@[j]);
                        } else {
                            assert(news[pi].children@[j] == n as u64);
                        }
                    }
                    match news[pi].parent {
                        Some(pp) => {
                            assert(news[pp as int] == olds[pp as int]);
                        },
                        None => {},
                    }
                    assert(agent_ok(news, pi));
                } else {
                    assert(agent_ok(olds, i));
                    assert(news[i] == olds[i]);
                    match olds[i].parent {
                        Some(pp) => {
                            if pp as int == pi {
                                lemma_push_preserves_contains(
                                    olds[pi].children@,
                                    n as u64,
                                    i as u64,
                                );
                            } else {
                                assert(news[pp as int] == olds[pp as int]);
                            }
                        },
                        None => {},
                    }
                    assert forall|j: int| 0 <= j < news[i].children@.len() implies {
                        let c = #[trigger] news[i].children@[j];
                        &&& i < c as int
                        &&& (c as int) < news.len()
                        &&& news[c as int].parent == Some(i as u64)
                    } by {
                        assert(olds[i].children@[j] == news[i].children@[j]);
                        let c = news[i].children@[j];
                        if c as int == pi {
                            assert(news[pi].parent == olds[pi].parent);
                        } else {
                            assert(news[c as int] == olds[c as int]);
                        }
                    }
                    assert(agent_ok(news, i));
                }
            }
        }
        Ok(child_id)
    }

    /// Looks a record up by its id; fails with `NotFound` exactly when no
    /// record carries that id.
    pub fn get_agent(&self, id: u64) -> (r: Result<&AgentRecord, RegistryError>)
        ensures
            match r {
                Ok(a) => id < self.agents@.len() && *a == self.agents@[id as int],
                Err(e) => e == RegistryError::NotFound && id >= self.agents@.len(),
            },
    {
        if id < self.agents.len() as u64 {
            Ok(&self.agents[id as usize])
        } else {
            Err(RegistryError::NotFound)
        }
    }
}

impl Registry {
    /// Bytes the execution environment reserves for the registry record:
    /// discriminator, admin identity, counter.
    pub const LEN: usize = 8 + 32 + 8;
}

impl AgentRecord {
    /// Bytes the execution environment reserves for one agent record, with
    /// every bounded field at its capacity: discriminator, owner,
    /// commitment, asset reference, inscription reference, metadata URI,
    /// generation, the two timestamps, parent, children, evolution count.
    pub const LEN: usize = 8 + 32 + 32 + 32 + (4 + 64) + (4 + 128) + 4 + 8 + 8 + (1 + 32) + (4 + (32
        * 10)) + 4;
}

/// Bytes the record occupies under the layout: fixed fields at their fixed
/// widths, each variable field behind a four-byte length prefix, the
/// optional parent behind a one-byte presence flag.
pub open spec fn encoded_record_size(a: AgentRecord) -> int {
    8 + 32 + 32 + 32 + (4 + opt_bytes_len(a.ordinals_id)) + (4 + a.metadata_uri@.len()) + 4 + 8 + 8
        + (1 + 32) + (4 + 32 * a.children@.len()) + 4
}

/// A record whose bounded fields passed their capacity checks and whose
/// child list respects the hard bound always fits the reserved space.
pub proof fn lemma_record_fits_reserved_space(a: AgentRecord)
    requires
        record_fields_ok(a),
        a.children@.len() <= MAX_CHILDREN,
    ensures
        encoded_record_size(a) <= AgentRecord::LEN,
{
}

/// A record's evolution count always equals the length of its child list.
pub proof fn lemma_evolution_count_matches_children(s: AgentRegistry, i: int)
    requires
        s.wf(),
        0 <= i < s.agents@.len(),
    ensures
        s.agents@[i].evolution_count == s.agents@[i].children@.len(),
{
    assert(agent_ok(s.agents@, i));
}

/// Parent and child edges are mutual inverses: a record created by
/// evolution points at an earlier parent, sits one generation deeper, and
/// appears in that parent's child list; a root sits at generation zero.
pub proof fn lemma_lineage_edges(s: AgentRegistry, i: int)
    requires
        s.wf(),
        0 <= i < s.agents@.len(),
    ensures
        s.agents@[i].parent matches Some(p) ==> {
            &&& 0 <= p < i
            &&& s.agents@[i].generation == s.agents@[p as int].generation + 1
            &&& s.agents@[p as int].children@.contains(i as u64)
        },
        s.agents@[i].parent is None ==> s.agents@[i].generation == 0,
{
    assert(agent_ok(s.agents@, i));
}

/// Once initialized, the registry's counter equals the number of records
/// ever created: the store is append-only and never deletes.
pub proof fn lemma_agent_count_is_total(s: AgentRegistry)
    requires
        s.wf(),
        s.registry is Some,
    ensures
        s.registry->Some_0.agent_count == s.agents@.len(),
{
}

} // verus!
