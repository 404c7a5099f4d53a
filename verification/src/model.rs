//! Mathematical model of the resource manager.
//!
//! Every executable state transition of [`crate::types::RxState`] is pinned,
//! in its `ensures` clause, to one of the transition functions below, so the
//! laws about the lifecycle (reseeding, rebinding, trash retirement) are
//! proved once, here, over plain mathematical values.
//!
//! Handles are modelled as integers: each successful allocation consumes the
//! manager's next handle value, so a freshly installed generation is distinct
//! from every generation that existed before it.

use vstd::prelude::*;

use crate::types::CacheGrant;
use crate::types::DatasetGrant;
use crate::types::JoinOutcome;
use crate::types::RxAction;
use crate::types::RxError;
use crate::types::VmGrant;
use crate::types::RANDOMX_FLAG_DEFAULT;
use crate::types::RANDOMX_FLAG_FULL_MEM;
use crate::types::RANDOMX_FLAG_HARD_AES;
use crate::types::RANDOMX_FLAG_JIT;
use crate::types::RANDOMX_FLAG_LARGE_PAGES;

verus! {

/// One allocated cache generation: its handle, the seed its content was
/// initialized from, and the flags the allocation was granted with.
#[verifier::ext_equal]
pub struct CacheModel {
    pub handle: int,
    pub seed: Seq<u8>,
    pub flags: u32,
}

/// One allocated dataset generation, derived from the cache generation
/// `cache` at population time.
pub struct DatasetModel {
    pub handle: int,
    pub cache: int,
    pub flags: u32,
}

/// One live virtual machine: its handle, the cache (and optional dataset)
/// generation it is currently bound to, and the flags it was created with.
pub struct VmModel {
    pub handle: int,
    pub cache: int,
    pub dataset: Option<int>,
    pub flags: u32,
}

/// The retirement bin: at most one superseded cache and one superseded
/// dataset generation, held until the next rebind empties it.
#[verifier::ext_equal]
pub struct TrashModel {
    pub cache: Option<CacheModel>,
    pub dataset: Option<DatasetModel>,
}

/// The whole manager state.
#[verifier::ext_equal]
pub struct StateModel {
    pub seed: Seq<u8>,
    pub hard_aes: bool,
    pub full_mem: bool,
    pub large_pages: bool,
    pub jit_compiler: bool,
    pub cache: Option<CacheModel>,
    pub dataset: Option<DatasetModel>,
    pub vms: Seq<VmModel>,
    pub trash: TrashModel,
    pub next_handle: int,
}

/// The capability flag set requested for the given configuration: the
/// maximal set, before any large-pages fallback.
pub open spec fn flags_of(jit: bool, hard_aes: bool, full_mem: bool, large_pages: bool) -> u32 {
    let f0 = RANDOMX_FLAG_DEFAULT;
    let f1 = if jit {
        f0 | RANDOMX_FLAG_JIT
    } else {
        f0
    };
    let f2 = if hard_aes {
        f1 | RANDOMX_FLAG_HARD_AES
    } else {
        f1
    };
    let f3 = if full_mem {
        f2 | RANDOMX_FLAG_FULL_MEM
    } else {
        f2
    };
    if large_pages {
        f3 | RANDOMX_FLAG_LARGE_PAGES
    } else {
        f3
    }
}

impl StateModel {
    /// The flag set the manager's current configuration asks for.
    pub open spec fn configured_flags(self) -> u32 {
        flags_of(self.jit_compiler, self.hard_aes, self.full_mem, self.large_pages)
    }

    /// The handle counter can still hand out `n` fresh handles without
    /// leaving the machine's integer range.
    pub open spec fn handles_available(self, n: int) -> bool {
        self.next_handle + n <= u64::MAX
    }

    /// Well-formedness of a manager state:
    /// - the recorded seed is 32 bytes, and is the seed of the active cache;
    /// - every handle in the state was drawn from the handle counter;
    /// - a dataset or a live VM exists only while a cache does.
    pub open spec fn wf(self) -> bool {
        &&& self.seed.len() == 32
        &&& (self.cache is Some ==> {
            &&& self.cache->Some_0.handle < self.next_handle
            &&& self.cache->Some_0.seed == self.seed
        })
        &&& (self.dataset is Some ==> {
            &&& self.dataset->Some_0.handle < self.next_handle
            &&& self.cache is Some
        })
        &&& (self.trash.cache is Some ==> self.trash.cache->Some_0.handle < self.next_handle)
        &&& (self.trash.dataset is Some ==> self.trash.dataset->Some_0.handle < self.next_handle)
        &&& (forall|i: int|
            0 <= i < self.vms.len() ==> {
                &&& (#[trigger] self.vms[i]).handle < self.next_handle
                &&& self.vms[i].cache < self.next_handle
            })
        &&& (self.vms.len() > 0 ==> self.cache is Some)
    }
}

/// The state a freshly constructed manager is in: zero seed, no optional
/// capability requested, nothing allocated.
pub open spec fn initial_model() -> StateModel {
    StateModel {
        seed: Seq::new(32, |i: int| 0u8),
        hard_aes: false,
        full_mem: false,
        large_pages: false,
        jit_compiler: false,
        cache: None,
        dataset: None,
        vms: Seq::empty(),
        trash: TrashModel { cache: None, dataset: None },
        next_handle: 0,
    }
}

/// Transition of `init_cache`.
///
/// If a cache is active and already bound to `seed`, nothing happens and the
/// call reports `NotChanged` — the host is not consulted at all.  Otherwise
/// the host's answer to the two-step allocation protocol (configured flags
/// with large pages first, then without) decides: a refusal leaves the state
/// untouched and fails with `AllocationRefused`; a grant installs a fresh
/// cache generation initialized from `seed`, records `seed`, and moves the
/// superseded cache, if any, into the trash.
pub open spec fn init_cache_model(m: StateModel, seed: Seq<u8>, grant: CacheGrant) -> (
    StateModel,
    Result<RxAction, RxError>,
) {
    if m.cache is Some && m.seed == seed {
        (m, Ok(RxAction::NotChanged))
    } else if grant is Refused {
        (m, Err(RxError::AllocationRefused))
    } else {
        let flags = if grant is WithLargePages {
            m.configured_flags() | RANDOMX_FLAG_LARGE_PAGES
        } else {
            m.configured_flags()
        };
        let fresh = CacheModel { handle: m.next_handle, seed: seed, flags: flags };
        (
            StateModel {
                seed: seed,
                cache: Some(fresh),
                trash: TrashModel { cache: m.cache, dataset: m.trash.dataset },
                next_handle: m.next_handle + 1,
                ..m
            },
            Ok(RxAction::Changed),
        )
    }
}

/// Transition of `init_dataset`.
///
/// Requires an active cache (`NotInitialized` otherwise, state untouched).
/// The host's single-attempt allocation answer and the population workers'
/// join outcome decide: on success a fresh dataset generation derived from
/// the active cache is installed and the superseded dataset, if any, moves
/// into the trash; on any failure the state is untouched, so a previously
/// active dataset stays active and valid.
pub open spec fn init_dataset_model(m: StateModel, grant: DatasetGrant, join: JoinOutcome) -> (
    StateModel,
    Result<(), RxError>,
) {
    if m.cache is None {
        (m, Err(RxError::NotInitialized))
    } else if grant is Refused {
        (m, Err(RxError::AllocationRefused))
    } else if join is Failed {
        (m, Err(RxError::WorkerJoinFailure))
    } else {
        let fresh = DatasetModel {
            handle: m.next_handle,
            cache: m.cache->Some_0.handle,
            flags: m.configured_flags(),
        };
        (
            StateModel {
                dataset: Some(fresh),
                trash: TrashModel { cache: m.trash.cache, dataset: m.dataset },
                next_handle: m.next_handle + 1,
                ..m
            },
            Ok(()),
        )
    }
}

/// The flag set requested for a new VM: the configured flags, with
/// `FULL_MEM` forced in whenever a dataset is active, since a VM bound to a
/// dataset must operate in full-memory mode.
pub open spec fn vm_requested_flags(m: StateModel) -> u32 {
    if m.dataset is Some {
        m.configured_flags() | RANDOMX_FLAG_FULL_MEM
    } else {
        m.configured_flags()
    }
}

/// Transition of `create_vm`.
///
/// Requires an active cache (`NotInitialized` otherwise).  The host's answer
/// to the three-step creation protocol (requested flags with large pages,
/// then without, then the bare default flag set) decides; on a grant a fresh
/// VM bound to the active cache and dataset is appended to the pool.
pub open spec fn create_vm_model(m: StateModel, grant: VmGrant) -> (
    StateModel,
    Result<VmModel, RxError>,
) {
    if m.cache is None {
        (m, Err(RxError::NotInitialized))
    } else if grant is Refused {
        (m, Err(RxError::AllocationRefused))
    } else {
        let flags = if grant is WithLargePages {
            vm_requested_flags(m) | RANDOMX_FLAG_LARGE_PAGES
        } else if grant is Configured {
            vm_requested_flags(m)
        } else {
            RANDOMX_FLAG_DEFAULT
        };
        let fresh = VmModel {
            handle: m.next_handle,
            cache: m.cache->Some_0.handle,
            dataset: if m.dataset is Some {
                Some(m.dataset->Some_0.handle)
            } else {
                None
            },
            flags: flags,
        };
        (
            StateModel { vms: m.vms.push(fresh), next_handle: m.next_handle + 1, ..m },
            Ok(fresh),
        )
    }
}

/// Transition of `get_or_create_vm`: the most recently created live VM if
/// one exists (state untouched), else `create_vm`.
pub open spec fn get_or_create_vm_model(m: StateModel, grant: VmGrant) -> (
    StateModel,
    Result<VmModel, RxError>,
) {
    if m.vms.len() > 0 {
        (m, Ok(m.vms.last()))
    } else {
        create_vm_model(m, grant)
    }
}

/// Transition of `update_vms`: every live VM is rebound to the active cache
/// and dataset, then the trash is emptied.  Rebinding changes only the
/// binding of each VM, never its handle or flags.
pub open spec fn update_vms_model(m: StateModel) -> StateModel {
    if m.cache is None {
        StateModel { trash: TrashModel { cache: None, dataset: None }, ..m }
    } else {
        let ch = m.cache->Some_0.handle;
        let dh = if m.dataset is Some {
            Some(m.dataset->Some_0.handle)
        } else {
            None
        };
        StateModel {
            vms: Seq::new(
                m.vms.len(),
                |i: int| VmModel { cache: ch, dataset: dh, ..m.vms[i] },
            ),
            trash: TrashModel { cache: None, dataset: None },
            ..m
        }
    }
}

/// Transition of `reseed`: `init_cache`, then — only when the seed actually
/// changed — `init_dataset` (in full-memory mode) and `update_vms`.
pub open spec fn reseed_model(
    m: StateModel,
    seed: Seq<u8>,
    cache_grant: CacheGrant,
    dataset_grant: DatasetGrant,
    join: JoinOutcome,
) -> (StateModel, Result<RxAction, RxError>) {
    let step = init_cache_model(m, seed, cache_grant);
    match step.1 {
        Err(e) => (step.0, Err(e)),
        Ok(RxAction::NotChanged) => (step.0, Ok(RxAction::NotChanged)),
        Ok(RxAction::Changed) => {
            if m.full_mem {
                let step2 = init_dataset_model(step.0, dataset_grant, join);
                match step2.1 {
                    Err(e) => (step2.0, Err(e)),
                    Ok(()) => (update_vms_model(step2.0), Ok(RxAction::Changed)),
                }
            } else {
                (update_vms_model(step.0), Ok(RxAction::Changed))
            }
        },
    }
}

/// `init_cache` preserves well-formedness.
pub proof fn lemma_init_cache_wf(m: StateModel, seed: Seq<u8>, grant: CacheGrant)
    requires
        m.wf(),
        seed.len() == 32,
    ensures
        init_cache_model(m, seed, grant).0.wf(),
{
}

/// `init_dataset` preserves well-formedness.
pub proof fn lemma_init_dataset_wf(m: StateModel, grant: DatasetGrant, join: JoinOutcome)
    requires
        m.wf(),
    ensures
        init_dataset_model(m, grant, join).0.wf(),
{
}

/// `create_vm` preserves well-formedness.
pub proof fn lemma_create_vm_wf(m: StateModel, grant: VmGrant)
    requires
        m.wf(),
    ensures
        create_vm_model(m, grant).0.wf(),
{
    let post = create_vm_model(m, grant).0;
    assert forall|i: int| 0 <= i < post.vms.len() implies {
        &&& (#[trigger] post.vms[i]).handle < post.next_handle
        &&& post.vms[i].cache < post.next_handle
    } by {
        if i < m.vms.len() {
            assert(m.vms[i].handle < m.next_handle);
        }
    }
}

/// `update_vms` preserves well-formedness.
pub proof fn lemma_update_vms_wf(m: StateModel)
    requires
        m.wf(),
    ensures
        update_vms_model(m).wf(),
{
    let post = update_vms_model(m);
    assert forall|i: int| 0 <= i < post.vms.len() implies {
        &&& (#[trigger] post.vms[i]).handle < post.next_handle
        &&& post.vms[i].cache < post.next_handle
    } by {
        assert(m.vms[i].handle < m.next_handle);
    }
}

} // verus!
