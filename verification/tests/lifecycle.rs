use randomx_state::types::CacheGrant;
use randomx_state::types::DatasetGrant;
use randomx_state::types::JoinOutcome;
use randomx_state::types::RxAction;
use randomx_state::types::RxError;
use randomx_state::types::RxState;
use randomx_state::types::VmGrant;
use randomx_state::types::RANDOMX_FLAG_DEFAULT;
use randomx_state::types::RANDOMX_FLAG_FULL_MEM;
use randomx_state::types::RANDOMX_FLAG_HARD_AES;
use randomx_state::types::RANDOMX_FLAG_JIT;
use randomx_state::types::RANDOMX_FLAG_LARGE_PAGES;

#[test]
fn test_new_state_is_uninitialized() {
    let rx = RxState::new();
    assert!(!rx.is_initialized());
    assert_eq!(rx.get_flags(), RANDOMX_FLAG_DEFAULT);
    assert_eq!(rx.vm_count(), 0);
    assert!(rx.trash_is_empty());
    assert!(rx.is_same_seed(&[0u8; 32]));
}

#[test]
fn test_get_flags_reflects_configuration() {
    let mut rx = RxState::new();
    assert_eq!(rx.get_flags(), 0);

    rx.jit_compiler = true;
    assert_eq!(rx.get_flags(), RANDOMX_FLAG_JIT);

    rx.hard_aes = true;
    assert_eq!(rx.get_flags(), RANDOMX_FLAG_JIT | RANDOMX_FLAG_HARD_AES);

    rx.full_mem = true;
    rx.large_pages = true;
    assert_eq!(
        rx.get_flags(),
        RANDOMX_FLAG_JIT | RANDOMX_FLAG_HARD_AES | RANDOMX_FLAG_FULL_MEM
            | RANDOMX_FLAG_LARGE_PAGES
    );

    rx.jit_compiler = false;
    rx.hard_aes = false;
    rx.full_mem = false;
    rx.large_pages = false;
    assert_eq!(rx.get_flags(), RANDOMX_FLAG_DEFAULT);
}

#[test]
fn test_init_cache_same_seed_is_not_changed() {
    let mut rx = RxState::new();
    let seed = [7u8; 32];

    let first = rx.init_cache(&seed, CacheGrant::WithLargePages);
    assert!(matches!(first, Ok(RxAction::Changed)));
    assert!(rx.is_initialized());
    assert!(rx.is_same_seed(&seed));

    // The host would refuse now; with an unchanged seed it is never asked.
    let second = rx.init_cache(&seed, CacheGrant::Refused);
    assert!(matches!(second, Ok(RxAction::NotChanged)));
    assert!(rx.is_initialized());
}

#[test]
fn test_init_cache_refused_leaves_state_unchanged() {
    let mut rx = RxState::new();
    let seed = [9u8; 32];

    let r = rx.init_cache(&seed, CacheGrant::Refused);
    assert!(matches!(r, Err(RxError::AllocationRefused)));
    assert!(!rx.is_initialized());
    assert!(rx.is_same_seed(&[0u8; 32]));
}

#[test]
fn test_init_cache_reseed_moves_old_generation_to_trash() {
    let mut rx = RxState::new();

    rx.init_cache(&[1u8; 32], CacheGrant::WithoutLargePages).unwrap();
    assert!(rx.trash_is_empty());

    let r = rx.init_cache(&[2u8; 32], CacheGrant::WithoutLargePages);
    assert!(matches!(r, Ok(RxAction::Changed)));
    assert!(rx.is_same_seed(&[2u8; 32]));
    // The superseded cache sits in the trash until the VMs are rebound.
    assert!(!rx.trash_is_empty());

    rx.update_vms();
    assert!(rx.trash_is_empty());
}

#[test]
fn test_init_dataset_before_cache_fails_not_initialized() {
    let mut rx = RxState::new();

    let r = rx.init_dataset(4, DatasetGrant::Granted, JoinOutcome::AllJoined);
    assert!(matches!(r, Err(RxError::NotInitialized)));
    // The manager is left exactly as it was.
    assert!(!rx.is_initialized());
    assert_eq!(rx.vm_count(), 0);
    assert!(rx.trash_is_empty());
    assert!(rx.is_same_seed(&[0u8; 32]));
}

#[test]
fn test_init_dataset_refused() {
    let mut rx = RxState::new();
    rx.init_cache(&[1u8; 32], CacheGrant::WithoutLargePages).unwrap();

    let r = rx.init_dataset(2, DatasetGrant::Refused, JoinOutcome::AllJoined);
    assert!(matches!(r, Err(RxError::AllocationRefused)));
}

#[test]
fn test_init_dataset_worker_join_failure_keeps_old_dataset() {
    let mut rx = RxState::new();
    rx.full_mem = true;
    rx.init_cache(&[1u8; 32], CacheGrant::WithoutLargePages).unwrap();
    rx.init_dataset(2, DatasetGrant::Granted, JoinOutcome::AllJoined).unwrap();

    let vm_before = rx.get_or_create_vm(VmGrant::Configured).unwrap();
    let bound_dataset = vm_before.dataset_handle;
    assert!(bound_dataset.is_some());

    let r = rx.init_dataset(2, DatasetGrant::Granted, JoinOutcome::Failed);
    assert!(matches!(r, Err(RxError::WorkerJoinFailure)));

    // No new dataset was installed: a VM created now binds to the old one.
    let vm_after = rx.create_vm(VmGrant::Configured).unwrap();
    assert_eq!(vm_after.dataset_handle, bound_dataset);
}

#[test]
fn test_create_vm_before_cache_fails_not_initialized() {
    let mut rx = RxState::new();
    let r = rx.create_vm(VmGrant::Configured);
    assert!(matches!(r, Err(RxError::NotInitialized)));
}

#[test]
fn test_create_vm_refused() {
    let mut rx = RxState::new();
    rx.init_cache(&[1u8; 32], CacheGrant::WithoutLargePages).unwrap();
    let r = rx.create_vm(VmGrant::Refused);
    assert!(matches!(r, Err(RxError::AllocationRefused)));
    assert_eq!(rx.vm_count(), 0);
}

#[test]
fn test_create_vm_flag_negotiation() {
    let mut rx = RxState::new();
    rx.jit_compiler = true;
    rx.init_cache(&[1u8; 32], CacheGrant::WithoutLargePages).unwrap();

    // Light mode: the configured flags, large pages granted on top.
    let vm1 = rx.create_vm(VmGrant::WithLargePages).unwrap();
    assert_eq!(vm1.flags, RANDOMX_FLAG_JIT | RANDOMX_FLAG_LARGE_PAGES);
    assert_eq!(vm1.dataset_handle, None);

    // Second attempt accepted: the configured flags alone.
    let vm2 = rx.create_vm(VmGrant::Configured).unwrap();
    assert_eq!(vm2.flags, RANDOMX_FLAG_JIT);

    // Terminal fallback: the bare default set.
    let vm3 = rx.create_vm(VmGrant::DefaultFlags).unwrap();
    assert_eq!(vm3.flags, RANDOMX_FLAG_DEFAULT);

    assert_eq!(rx.vm_count(), 3);
}

#[test]
fn test_create_vm_with_dataset_forces_full_mem() {
    let mut rx = RxState::new();
    rx.init_cache(&[1u8; 32], CacheGrant::WithoutLargePages).unwrap();
    rx.init_dataset(1, DatasetGrant::Granted, JoinOutcome::AllJoined).unwrap();

    // full_mem was never switched on in the configuration, yet a VM bound
    // to a dataset must run in full-memory mode.
    let vm = rx.create_vm(VmGrant::Configured).unwrap();
    assert_eq!(vm.flags, RANDOMX_FLAG_FULL_MEM);
    assert!(vm.dataset_handle.is_some());
}

#[test]
fn test_get_or_create_vm_returns_same_vm_twice() {
    let mut rx = RxState::new();
    rx.init_cache(&[3u8; 32], CacheGrant::WithoutLargePages).unwrap();

    let vm1 = rx.get_or_create_vm(VmGrant::Configured).unwrap();
    assert_eq!(rx.vm_count(), 1);

    let vm2 = rx.get_or_create_vm(VmGrant::Configured).unwrap();
    assert_eq!(rx.vm_count(), 1);
    assert_eq!(vm1.handle, vm2.handle);
    assert_eq!(vm1, vm2);
}

#[test]
fn test_two_vms_share_the_cache_binding() {
    let mut rx = RxState::new();
    rx.init_cache(&[5u8; 32], CacheGrant::WithoutLargePages).unwrap();

    let vm1 = rx.create_vm(VmGrant::Configured).unwrap();
    let vm2 = rx.create_vm(VmGrant::DefaultFlags).unwrap();

    // Independently created VMs read from the very same cache generation,
    // so the engine hashes identical inputs identically on either.
    assert_ne!(vm1.handle, vm2.handle);
    assert_eq!(vm1.cache_handle, vm2.cache_handle);
    assert_eq!(vm1.dataset_handle, None);
    assert_eq!(vm2.dataset_handle, None);
}

#[test]
fn test_update_vms_rebinds_to_new_generation() {
    let mut rx = RxState::new();
    rx.init_cache(&[1u8; 32], CacheGrant::WithoutLargePages).unwrap();
    let vm_old = rx.get_or_create_vm(VmGrant::Configured).unwrap();

    rx.init_cache(&[2u8; 32], CacheGrant::WithoutLargePages).unwrap();
    assert!(!rx.trash_is_empty());
    rx.update_vms();

    let vm_new = rx.get_or_create_vm(VmGrant::Configured).unwrap();
    // Same VM, new cache generation.
    assert_eq!(vm_new.handle, vm_old.handle);
    assert_ne!(vm_new.cache_handle, vm_old.cache_handle);
    // The superseded generation has been dropped.
    assert!(rx.trash_is_empty());
}

#[test]
fn test_reseed_light_mode() {
    let mut rx = RxState::new();
    let r = rx.reseed(
        &[1u8; 32],
        1,
        CacheGrant::WithLargePages,
        DatasetGrant::Granted,
        JoinOutcome::AllJoined,
    );
    assert!(matches!(r, Ok(RxAction::Changed)));
    assert!(rx.is_initialized());
    assert!(rx.trash_is_empty());

    let again = rx.reseed(
        &[1u8; 32],
        1,
        CacheGrant::Refused,
        DatasetGrant::Refused,
        JoinOutcome::Failed,
    );
    assert!(matches!(again, Ok(RxAction::NotChanged)));
}

#[test]
fn test_reseed_full_memory_swap() {
    let mut rx = RxState::new();
    rx.full_mem = true;

    rx.reseed(
        &[1u8; 32],
        2,
        CacheGrant::WithoutLargePages,
        DatasetGrant::Granted,
        JoinOutcome::AllJoined,
    )
    .unwrap();
    let vm_a = rx.get_or_create_vm(VmGrant::Configured).unwrap();

    let r = rx.reseed(
        &[2u8; 32],
        2,
        CacheGrant::WithoutLargePages,
        DatasetGrant::Granted,
        JoinOutcome::AllJoined,
    );
    assert!(matches!(r, Ok(RxAction::Changed)));

    let vm_b = rx.get_or_create_vm(VmGrant::Configured).unwrap();
    // The same VM survived the epoch change and was rebound to the new
    // cache and the new dataset.
    assert_eq!(vm_b.handle, vm_a.handle);
    assert_ne!(vm_b.cache_handle, vm_a.cache_handle);
    assert_ne!(vm_b.dataset_handle, vm_a.dataset_handle);
    assert!(vm_b.dataset_handle.is_some());
    assert!(rx.trash_is_empty());
}

#[test]
fn test_reseed_same_seed_skips_dataset_and_rebind() {
    let mut rx = RxState::new();
    rx.full_mem = true;
    rx.reseed(
        &[4u8; 32],
        1,
        CacheGrant::WithoutLargePages,
        DatasetGrant::Granted,
        JoinOutcome::AllJoined,
    )
    .unwrap();
    let vm = rx.get_or_create_vm(VmGrant::Configured).unwrap();

    // Same seed again: neither the dataset nor the VM bindings change,
    // whatever the host would have answered.
    let r = rx.reseed(
        &[4u8; 32],
        1,
        CacheGrant::Refused,
        DatasetGrant::Refused,
        JoinOutcome::Failed,
    );
    assert!(matches!(r, Ok(RxAction::NotChanged)));
    let vm_again = rx.get_or_create_vm(VmGrant::Refused).unwrap();
    assert_eq!(vm_again, vm);
}

#[test]
fn test_reseed_propagates_dataset_failure() {
    let mut rx = RxState::new();
    rx.full_mem = true;

    let r = rx.reseed(
        &[1u8; 32],
        1,
        CacheGrant::WithoutLargePages,
        DatasetGrant::Refused,
        JoinOutcome::AllJoined,
    );
    assert!(matches!(r, Err(RxError::AllocationRefused)));
    // The cache was installed before the dataset allocation was refused.
    assert!(rx.is_initialized());
}

#[test]
fn test_is_same_seed_length_mismatch() {
    let rx = RxState::new();
    assert!(!rx.is_same_seed(&[0u8; 31]));
    assert!(!rx.is_same_seed(&[]));
    let mut almost = [0u8; 32];
    almost[31] = 1;
    assert!(!rx.is_same_seed(&almost));
}
