//! The resource manager and its owned resources.
//!
//! [`RxState`] orchestrates the lifecycle of one cache, at most one dataset,
//! and a pool of virtual machines, all owned by the native hashing engine.
//! The engine's side of each operation — whether the host granted or refused
//! an allocation, whether the population workers joined — enters through the
//! grant/outcome parameters, and every method's `ensures` pins its result
//! and its new state to the corresponding transition function in
//! [`crate::model`], for every possible answer of the host.

use vstd::prelude::*;

use crate::model::CacheModel;
use crate::model::DatasetModel;
use crate::model::StateModel;
use crate::model::TrashModel;
use crate::model::VmModel;
use crate::model::create_vm_model;
use crate::model::get_or_create_vm_model;
use crate::model::init_cache_model;
use crate::model::init_dataset_model;
use crate::model::initial_model;
use crate::model::lemma_create_vm_wf;
use crate::model::lemma_init_cache_wf;
use crate::model::lemma_init_dataset_wf;
use crate::model::lemma_update_vms_wf;
use crate::model::reseed_model;
use crate::model::update_vms_model;

verus! {

/// No optional capability: the engine's baseline feature set.
pub const RANDOMX_FLAG_DEFAULT: u32 = 0;

/// Back the allocation with large (huge) memory pages.
pub const RANDOMX_FLAG_LARGE_PAGES: u32 = 1;

/// Use hardware-accelerated AES primitives.
pub const RANDOMX_FLAG_HARD_AES: u32 = 2;

/// Operate on a full memory dataset instead of the light-mode cache.
pub const RANDOMX_FLAG_FULL_MEM: u32 = 4;

/// Compile programs just-in-time instead of interpreting them.
pub const RANDOMX_FLAG_JIT: u32 = 8;

/// What `init_cache` did: installed a new cache generation, or kept the
/// existing one because the seed was unchanged.
#[derive(Clone, Copy, Debug, PartialEq, Eq)]
pub enum RxAction {
    Changed,
    NotChanged,
}

/// Why an operation failed.
#[derive(Clone, Copy, Debug, PartialEq, Eq)]
pub enum RxError {
    /// The host refused every flag combination the operation may attempt.
    AllocationRefused,
    /// A dataset or VM was requested before any cache was initialized.
    NotInitialized,
    /// A dataset population worker terminated abnormally.
    WorkerJoinFailure,
}

/// The host's answer to the two-step cache allocation protocol: the
/// configured flags together with `LARGE_PAGES` are attempted first, and on
/// refusal the configured flags alone.  The value reports the first attempt
/// the host accepted, or that it refused both.
#[derive(Clone, Copy, Debug, PartialEq, Eq)]
pub enum CacheGrant {
    WithLargePages,
    WithoutLargePages,
    Refused,
}

/// The host's answer to the single dataset allocation attempt, made with
/// the configured flags.
#[derive(Clone, Copy, Debug, PartialEq, Eq)]
pub enum DatasetGrant {
    Granted,
    Refused,
}

/// The host's answer to the three-step VM creation protocol: the requested
/// flags with `LARGE_PAGES`, then without, then the bare default flag set —
/// VM creation is the one allocation the manager does not give up on early.
#[derive(Clone, Copy, Debug, PartialEq, Eq)]
pub enum VmGrant {
    WithLargePages,
    Configured,
    DefaultFlags,
    Refused,
}

/// Whether every dataset population worker ran to completion.
#[derive(Clone, Copy, Debug, PartialEq, Eq)]
pub enum JoinOutcome {
    AllJoined,
    Failed,
}

/// One allocated, seed-initialized cache generation.  Immutable once
/// initialized: a different seed requires a new cache, never an in-place
/// change.
#[derive(Clone, Copy, Debug)]
pub struct RxCache {
    pub handle: u64,
    pub seed: [u8; 32],
    pub flags: u32,
}

/// One allocated, populated dataset generation, derived from the cache
/// generation recorded in `cache_handle`.
#[derive(Clone, Copy, Debug)]
pub struct RxDataset {
    pub handle: u64,
    pub cache_handle: u64,
    pub flags: u32,
}

/// One live virtual machine: bound to exactly one cache and at most one
/// dataset, rebindable to a newer generation without recreation.
#[derive(Clone, Copy, Debug, PartialEq, Eq)]
pub struct RxVM {
    pub handle: u64,
    pub cache_handle: u64,
    pub dataset_handle: Option<u64>,
    pub flags: u32,
}

/// Holds at most one superseded cache and one superseded dataset generation
/// until every dependent VM has been rebound, then drops them.
#[derive(Clone, Debug)]
pub struct Trash {
    cache: Option<RxCache>,
    dataset: Option<RxDataset>,
}

/// The resource manager: current seed, capability configuration, the active
/// cache and dataset, the live VM pool in creation order, and the trash.
///
/// The interface is non-reentrant: callers serialize the structural
/// operations (`init_cache`, `init_dataset`, `create_vm`, `update_vms`)
/// against each other and against hash computations on live VMs.  Once
/// built, a cache or dataset is only ever read, so any number of VMs may
/// consume it concurrently between structural operations.
#[derive(Clone, Debug)]
pub struct RxState {
    pub seed: [u8; 32],
    pub hard_aes: bool,
    pub full_mem: bool,
    pub large_pages: bool,
    pub jit_compiler: bool,
    cache: Option<RxCache>,
    dataset: Option<RxDataset>,
    vms: Vec<RxVM>,
    trash: Trash,
    next_handle: u64,
}

/// Copies a 32-byte slice into an owned 32-byte array.
fn seed_array(seed: &[u8]) -> (r: [u8; 32])
    requires
        seed@.len() == 32,
    ensures
        r@ == seed@,
{
    let mut r = [0u8; 32];
    let mut i: usize = 0;
    while i < 32
        invariant
            0 <= i <= 32,
            seed@.len() == 32,
            r@.len() == 32,
            forall|j: int| 0 <= j < i ==> r@[j] == seed@[j],
        decreases 32 - i,
    {
        r[i] = seed[i];
        i = i + 1;
    }
    proof {
        assert(r@ =~= seed@);
    }
    r
}

impl View for RxCache {
    type V = CacheModel;

    open spec fn view(&self) -> CacheModel {
        CacheModel { handle: self.handle as int, seed: self.seed@, flags: self.flags }
    }
}

impl View for RxDataset {
    type V = DatasetModel;

    open spec fn view(&self) -> DatasetModel {
        DatasetModel {
            handle: self.handle as int,
            cache: self.cache_handle as int,
            flags: self.flags,
        }
    }
}

impl View for RxVM {
    type V = VmModel;

    open spec fn view(&self) -> VmModel {
        VmModel {
            handle: self.handle as int,
            cache: self.cache_handle as int,
            dataset: match self.dataset_handle {
                Some(h) => Some(h as int),
                None => None,
            },
            flags: self.flags,
        }
    }
}

impl View for Trash {
    type V = TrashModel;

    closed spec fn view(&self) -> TrashModel {
        TrashModel {
            cache: match self.cache {
                Some(c) => Some(c@),
                None => None,
            },
            dataset: match self.dataset {
                Some(d) => Some(d@),
                None => None,
            },
        }
    }
}

impl View for RxState {
    type V = StateModel;

    closed spec fn view(&self) -> StateModel {
        StateModel {
            seed: self.seed@,
            hard_aes: self.hard_aes,
            full_mem: self.full_mem,
            large_pages: self.large_pages,
            jit_compiler: self.jit_compiler,
            cache: match self.cache {
                Some(c) => Some(c@),
                None => None,
            },
            dataset: match self.dataset {
                Some(d) => Some(d@),
                None => None,
            },
            vms: self.vms@.map_values(|v: RxVM| v@),
            trash: self.trash@,
            next_handle: self.next_handle as int,
        }
    }
}

impl Trash {
    /// Drops whatever superseded generations are held; both slots are empty
    /// afterwards.
    pub fn empty(&mut self)
        ensures
            final(self)@ == (TrashModel { cache: None, dataset: None }),
    {
        self.cache = None;
        self.dataset = None;
    }
}

impl Default for Trash {
    fn default() -> (r: Self)
        ensures
            r@ == (TrashModel { cache: None, dataset: None }),
    {
        Trash { cache: None, dataset: None }
    }
}

impl RxState {
    /// A fresh manager: zero seed, every optional capability off, nothing
    /// allocated yet.
    pub fn new() -> (r: Self)
        ensures
            r@ == initial_model(),
            r@.wf(),
    {
        let r = RxState {
            seed: [0; 32],
            hard_aes: false,
            full_mem: false,
            large_pages: false,
            jit_compiler: false,
            cache: None,
            dataset: None,
            vms: Vec::new(),
            trash: Trash { cache: None, dataset: None },
            next_handle: 0,
        };
        proof {
            assert(r@ =~= initial_model());
        }
        r
    }

    /// A cache is active; holds from the first successful `init_cache` on.
    pub fn is_initialized(&self) -> (r: bool)
        ensures
            r == (self@.cache is Some),
    {
        if let Some(_) = self.cache {
            true
        } else {
            false
        }
    }

    /// The capability flag set the current configuration asks for — always
    /// recomputed, never stored, so it can never go stale.
    pub fn get_flags(&self) -> (r: u32)
        ensures
            r == self@.configured_flags(),
    {
        let mut flags = RANDOMX_FLAG_DEFAULT;

        if self.jit_compiler {
            flags = flags | RANDOMX_FLAG_JIT;
        }

        if self.hard_aes {
            flags = flags | RANDOMX_FLAG_HARD_AES;
        }

        if self.full_mem {
            flags = flags | RANDOMX_FLAG_FULL_MEM;
        }

        if self.large_pages {
            flags = flags | RANDOMX_FLAG_LARGE_PAGES;
        }

        flags
    }

    /// Installs the cache generation for `seed`, negotiating flags with the
    /// host.
    ///
    /// If the active cache is already bound to `seed`, this is a no-op
    /// returning `NotChanged` — the common case of repeated hashing within
    /// one epoch.  Otherwise `grant`, the host's answer to the two-step
    /// allocation protocol (configured flags with large pages first, then
    /// without), decides: on a grant the new cache is installed, the new
    /// seed recorded and the superseded cache moved into the trash, and the
    /// call returns `Changed`; on refusal of both attempts the state is left
    /// untouched and the call fails with `AllocationRefused`.
    pub fn init_cache(&mut self, seed: &[u8], grant: CacheGrant) -> (r: Result<RxAction, RxError>)
        requires
            old(self)@.wf(),
            old(self)@.handles_available(1),
            seed@.len() == 32,
        ensures
            ({
                let t = init_cache_model(old(self)@, seed@, grant);
                final(self)@ == t.0 && r == t.1
            }),
            final(self)@.wf(),
    {
        proof {
            lemma_init_cache_wf(old(self)@, seed@, grant);
        }
        if self.is_initialized() && self.is_same_seed(seed) {
            return Ok(RxAction::NotChanged);
        }

        match grant {
            CacheGrant::Refused => Err(RxError::AllocationRefused),
            _ => {
                let flags = if let CacheGrant::WithLargePages = grant {
                    self.get_flags() | RANDOMX_FLAG_LARGE_PAGES
                } else {
                    self.get_flags()
                };
                let new_seed = seed_array(seed);
                let handle = self.next_handle;
                let superseded = self.cache.take();
                self.trash.cache = superseded;
                self.cache = Some(RxCache { handle, seed: new_seed, flags });
                self.seed = new_seed;
                self.next_handle = handle + 1;
                proof {
                    assert(self@ =~= init_cache_model(old(self)@, seed@, grant).0);
                }
                Ok(RxAction::Changed)
            },
        }
    }

    /// Installs a freshly populated dataset generation derived from the
    /// active cache.
    ///
    /// Population is partitioned over `thread_count` concurrent workers (see
    /// [`crate::partition::partition_ranges`] for the index ranges each one
    /// covers); the call completes only once every worker has joined.
    /// Without an active cache it fails with `NotInitialized`; `grant`
    /// reports the host's answer to the single allocation attempt with the
    /// configured flags, and `join` whether every worker ran to completion.
    /// On any failure the state is left untouched, so a previously active
    /// dataset stays active and valid.
    pub fn init_dataset(
        &mut self,
        thread_count: u8,
        grant: DatasetGrant,
        join: JoinOutcome,
    ) -> (r: Result<(), RxError>)
        requires
            old(self)@.wf(),
            old(self)@.handles_available(1),
            thread_count >= 1,
        ensures
            ({
                let t = init_dataset_model(old(self)@, grant, join);
                final(self)@ == t.0 && r == t.1
            }),
            final(self)@.wf(),
    {
        proof {
            lemma_init_dataset_wf(old(self)@, grant, join);
        }
        let cache_handle = match &self.cache {
            Some(c) => c.handle,
            None => {
                return Err(RxError::NotInitialized);
            },
        };

        if let DatasetGrant::Refused = grant {
            return Err(RxError::AllocationRefused);
        }
        if let JoinOutcome::Failed = join {
            return Err(RxError::WorkerJoinFailure);
        }

        let flags = self.get_flags();
        let handle = self.next_handle;
        let superseded = self.dataset.take();
        self.trash.dataset = superseded;
        self.dataset = Some(RxDataset { handle, cache_handle, flags });
        self.next_handle = handle + 1;
        proof {
            assert(self@ =~= init_dataset_model(old(self)@, grant, join).0);
        }
        Ok(())
    }

    /// Creates a new VM bound to the active cache and, if present, the
    /// active dataset, appends it to the live pool, and returns it.
    ///
    /// With a dataset bound, `FULL_MEM` is forced into the flag request
    /// regardless of configuration.  `grant` reports the host's answer to
    /// the three-step creation protocol (requested flags with large pages,
    /// then without, then the bare default set — creation is not given up on
    /// while any flag combination is left).  Without an active cache the
    /// call fails with `NotInitialized`; if all three attempts were refused,
    /// with `AllocationRefused`.
    pub fn create_vm(&mut self, grant: VmGrant) -> (r: Result<RxVM, RxError>)
        requires
            old(self)@.wf(),
            old(self)@.handles_available(1),
        ensures
            ({
                let t = create_vm_model(old(self)@, grant);
                final(self)@ == t.0 && (match (r, t.1) {
                    (Ok(vm), Ok(vmm)) => vm@ == vmm,
                    (Err(e), Err(em)) => e == em,
                    _ => false,
                })
            }),
            final(self)@.wf(),
    {
        proof {
            lemma_create_vm_wf(old(self)@, grant);
        }
        let cache_handle = match &self.cache {
            Some(c) => c.handle,
            None => {
                return Err(RxError::NotInitialized);
            },
        };

        if let VmGrant::Refused = grant {
            return Err(RxError::AllocationRefused);
        }

        let dataset_handle = match &self.dataset {
            Some(d) => Some(d.handle),
            None => None,
        };
        let requested = if dataset_handle.is_some() {
            self.get_flags() | RANDOMX_FLAG_FULL_MEM
        } else {
            self.get_flags()
        };
        let flags = match grant {
            VmGrant::WithLargePages => requested | RANDOMX_FLAG_LARGE_PAGES,
            VmGrant::Configured => requested,
            _ => RANDOMX_FLAG_DEFAULT,
        };
        let vm = RxVM { handle: self.next_handle, cache_handle, dataset_handle, flags };
        self.vms.push(vm);
        self.next_handle = self.next_handle + 1;
        proof {
            assert(self@.vms =~= create_vm_model(old(self)@, grant).0.vms);
            assert(self@ =~= create_vm_model(old(self)@, grant).0);
        }
        Ok(vm)
    }

    /// Returns the most recently created live VM, creating one first only
    /// if the pool is empty.  Reuse is the default path: creation binds
    /// large memory regions, and one VM is adequate for sequential hashing.
    pub fn get_or_create_vm(&mut self, grant: VmGrant) -> (r: Result<RxVM, RxError>)
        requires
            old(self)@.wf(),
            old(self)@.handles_available(1),
        ensures
            ({
                let t = get_or_create_vm_model(old(self)@, grant);
                final(self)@ == t.0 && (match (r, t.1) {
                    (Ok(vm), Ok(vmm)) => vm@ == vmm,
                    (Err(e), Err(em)) => e == em,
                    _ => false,
                })
            }),
            final(self)@.wf(),
    {
        if self.vms.len() == 0 {
            self.create_vm(grant)
        } else {
            let vm = self.vms[self.vms.len() - 1];
            Ok(vm)
        }
    }

    /// Rebinds every live VM to the active cache and dataset — a metadata
    /// update on the existing VM, not a recreation — then empties the trash,
    /// dropping the superseded generations.  Rebinding before emptying is
    /// mandatory: emptied first, a VM could still reference a freed
    /// generation.
    pub fn update_vms(&mut self)
        requires
            old(self)@.wf(),
        ensures
            final(self)@ == update_vms_model(old(self)@),
            final(self)@.wf(),
    {
        proof {
            lemma_update_vms_wf(old(self)@);
        }
        let (cache_handle, rebind) = match &self.cache {
            Some(c) => (c.handle, true),
            None => (0u64, false),
        };
        if rebind {
            let dataset_handle = match &self.dataset {
                Some(d) => Some(d.handle),
                None => None,
            };
            let n = self.vms.len();
            let mut i: usize = 0;
            while i < n
                invariant
                    0 <= i <= n,
                    n == self.vms.len(),
                    old(self)@.vms.len() == n,
                    self@.vms.len() == n,
                    self@ == (StateModel { vms: self@.vms, ..old(self)@ }),
                    forall|j: int|
                        0 <= j < i ==> self@.vms[j] == (VmModel {
                            cache: cache_handle as int,
                            dataset: match dataset_handle {
                                Some(h) => Some(h as int),
                                None => None,
                            },
                            ..old(self)@.vms[j]
                        }),
                    forall|j: int| i <= j < n ==> self@.vms[j] == old(self)@.vms[j],
                decreases n - i,
            {
                let mut vm = self.vms[i];
                proof {
                    assert(vm@ == old(self)@.vms[i as int]);
                }
                vm.cache_handle = cache_handle;
                vm.dataset_handle = dataset_handle;
                let ghost pre = self@.vms;
                self.vms.set(i, vm);
                proof {
                    assert(self@.vms =~= pre.update(i as int, vm@));
                }
                i = i + 1;
            }
        }
        self.trash.empty();
        proof {
            assert(self@.vms =~= update_vms_model(old(self)@).vms);
            assert(self@ =~= update_vms_model(old(self)@));
        }
    }

    /// One full epoch change, the way a hashing caller drives it:
    /// `init_cache` for `seed`; then, only when the seed actually changed,
    /// `init_dataset` over `thread_count` workers (in full-memory mode
    /// only) and `update_vms`.  Returns `Changed` exactly when a new
    /// generation is installed and every live VM has been rebound to it,
    /// `NotChanged` when the seed was already active, and the first failure
    /// otherwise.
    pub fn reseed(
        &mut self,
        seed: &[u8],
        thread_count: u8,
        cache_grant: CacheGrant,
        dataset_grant: DatasetGrant,
        join: JoinOutcome,
    ) -> (r: Result<RxAction, RxError>)
        requires
            old(self)@.wf(),
            old(self)@.handles_available(2),
            seed@.len() == 32,
            thread_count >= 1,
        ensures
            ({
                let t = reseed_model(old(self)@, seed@, cache_grant, dataset_grant, join);
                final(self)@ == t.0 && r == t.1
            }),
            final(self)@.wf(),
    {
        let full_mem = self.full_mem;
        let step = self.init_cache(seed, cache_grant)?;
        if let RxAction::NotChanged = step {
            return Ok(RxAction::NotChanged);
        }
        if full_mem {
            self.init_dataset(thread_count, dataset_grant, join)?;
        }
        self.update_vms();
        Ok(RxAction::Changed)
    }

    /// Both trash slots are empty: no superseded generation is awaiting
    /// retirement.
    pub fn trash_is_empty(&self) -> (r: bool)
        ensures
            r == (self@.trash.cache is None && self@.trash.dataset is None),
    {
        self.trash.cache.is_none() && self.trash.dataset.is_none()
    }

    /// The handle of the active cache generation, if one is installed.
    pub fn cache_handle(&self) -> (r: Option<u64>)
        ensures
            match r {
                Some(h) => self@.cache is Some && self@.cache->Some_0.handle == h as int,
                None => self@.cache is None,
            },
    {
        match &self.cache {
            Some(c) => Some(c.handle),
            None => None,
        }
    }

    /// The handle of the active dataset generation, if one is installed.
    pub fn dataset_handle(&self) -> (r: Option<u64>)
        ensures
            match r {
                Some(h) => self@.dataset is Some && self@.dataset->Some_0.handle == h as int,
                None => self@.dataset is None,
            },
    {
        match &self.dataset {
            Some(d) => Some(d.handle),
            None => None,
        }
    }

    /// How many live VMs the pool holds.
    pub fn vm_count(&self) -> (r: usize)
        ensures
            r == self@.vms.len(),
    {
        self.vms.len()
    }

    /// Whether `seed` is exactly the currently recorded seed.
    pub fn is_same_seed(&self, seed: &[u8]) -> (r: bool)
        ensures
            r == (self@.seed == seed@),
    {
        if seed.len() != 32 {
            proof {
                assert(self@.seed.len() == 32);
            }
            return false;
        }
        let mut i: usize = 0;
        while i < 32
            invariant
                0 <= i <= 32,
                seed@.len() == 32,
                forall|j: int| 0 <= j < i ==> self.seed@[j] == seed@[j],
            decreases 32 - i,
        {
            if self.seed[i] != seed[i] {
                return false;
            }
            i = i + 1;
        }
        proof {
            assert(self@.seed =~= seed@);
        }
        true
    }
}

} // verus!
