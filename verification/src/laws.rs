//! Laws of the resource lifecycle, proved over the transition model.
//!
//! Each law quantifies over every well-formed manager state and every
//! possible host answer; since each executable method's `ensures` pins its
//! behaviour to the same transition functions, the laws carry over to any
//! sequence of calls.

use vstd::prelude::*;

use crate::model::create_vm_model;
use crate::model::get_or_create_vm_model;
use crate::model::init_cache_model;
use crate::model::init_dataset_model;
use crate::model::update_vms_model;
use crate::model::StateModel;
use crate::types::CacheGrant;
use crate::types::DatasetGrant;
use crate::types::JoinOutcome;
use crate::types::RxAction;
use crate::types::RxError;
use crate::types::VmGrant;

verus! {

/// Law: once `init_cache` has succeeded for a seed, initializing the cache
/// again with the same seed is a no-op: it reports `NotChanged`, consumes
/// no handle, and leaves the whole state — including the trash — untouched,
/// whatever the host would have answered.
pub proof fn lemma_init_cache_same_seed(
    m: StateModel,
    seed: Seq<u8>,
    g1: CacheGrant,
    g2: CacheGrant,
)
    requires
        init_cache_model(m, seed, g1).1 is Ok,
    ensures
        ({
            let m1 = init_cache_model(m, seed, g1).0;
            init_cache_model(m1, seed, g2) == (m1, Ok::<RxAction, RxError>(RxAction::NotChanged))
        }),
{
}

/// Law: reseeding to a different seed succeeds whenever the host grants one
/// of the two cache allocation attempts, and after `update_vms` every live
/// VM is bound to the new cache generation — which carries the new seed and
/// is distinct from the superseded generation — and the trash is empty.
pub proof fn lemma_rebind_after_reseed(m: StateModel, s2: Seq<u8>, g: CacheGrant)
    requires
        m.wf(),
        m.seed != s2,
        !(g is Refused),
    ensures
        ({
            let step = init_cache_model(m, s2, g);
            let m2 = update_vms_model(step.0);
            &&& step.1 == Ok::<RxAction, RxError>(RxAction::Changed)
            &&& m2.cache is Some
            &&& m2.cache->Some_0.seed == s2
            &&& m2.vms.len() == m.vms.len()
            &&& forall|i: int|
                0 <= i < m2.vms.len() ==> (#[trigger] m2.vms[i]).cache == m2.cache->Some_0.handle
            &&& (m.cache is Some ==> m2.cache->Some_0.handle != m.cache->Some_0.handle)
            &&& m2.trash.cache is None && m2.trash.dataset is None
        }),
{
}

/// Law: two `get_or_create_vm` calls with no intervening operation return
/// the same VM, and the second call changes nothing at all.
pub proof fn lemma_get_or_create_vm_stable(m: StateModel, g1: VmGrant, g2: VmGrant)
    requires
        get_or_create_vm_model(m, g1).1 is Ok,
    ensures
        ({
            let t1 = get_or_create_vm_model(m, g1);
            get_or_create_vm_model(t1.0, g2) == t1
        }),
{
}

/// Law: two VMs created back to back in light mode (an active cache, no
/// dataset) are bound to the same cache generation and to no dataset — the
/// binding that determines a hash is identical on both, whatever flags each
/// creation was granted.
pub proof fn lemma_independent_vms_same_binding(m: StateModel, g1: VmGrant, g2: VmGrant)
    requires
        m.wf(),
        m.cache is Some,
        m.dataset is None,
        !(g1 is Refused),
        !(g2 is Refused),
    ensures
        ({
            let t1 = create_vm_model(m, g1);
            let t2 = create_vm_model(t1.0, g2);
            &&& t1.1 is Ok
            &&& t2.1 is Ok
            &&& t1.1->Ok_0.cache == m.cache->Some_0.handle
            &&& t2.1->Ok_0.cache == m.cache->Some_0.handle
            &&& t1.1->Ok_0.dataset is None
            &&& t2.1->Ok_0.dataset is None
        }),
{
}

/// Law: a full-memory epoch swap — a new cache for a different seed, a
/// repopulated dataset, then `update_vms` — leaves every live VM bound to
/// the new dataset, which is derived from the new cache, which carries the
/// new seed; both superseded generations are gone from the trash.
pub proof fn lemma_full_memory_swap(m: StateModel, s2: Seq<u8>, cg: CacheGrant, dg: DatasetGrant)
    requires
        m.wf(),
        m.seed != s2,
        !(cg is Refused),
        dg is Granted,
    ensures
        ({
            let t1 = init_cache_model(m, s2, cg);
            let t2 = init_dataset_model(t1.0, dg, JoinOutcome::AllJoined);
            let m3 = update_vms_model(t2.0);
            &&& t1.1 == Ok::<RxAction, RxError>(RxAction::Changed)
            &&& t2.1 is Ok
            &&& m3.cache is Some
            &&& m3.cache->Some_0.seed == s2
            &&& m3.dataset is Some
            &&& m3.dataset->Some_0.cache == m3.cache->Some_0.handle
            &&& m3.vms.len() == m.vms.len()
            &&& forall|i: int|
                0 <= i < m3.vms.len() ==> (#[trigger] m3.vms[i]).cache == m3.cache->Some_0.handle
                    && m3.vms[i].dataset == Some(m3.dataset->Some_0.handle)
            &&& m3.trash.cache is None && m3.trash.dataset is None
        }),
{
}

} // verus!
