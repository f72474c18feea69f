use axhal::{
    cpu_num, get_bootarg, init_early, init_early_secondary, init_later, init_later_secondary,
    init_percpu, init_percpu_secondary, is_bootarg_set, Hal, Phase,
};

fn boot_primary(hal: &mut Hal, cpu: usize, arg: usize, declared: usize) -> axhal::CpuCountReport {
    init_percpu(hal, cpu);
    init_early(hal, cpu, arg);
    init_later(hal, cpu, declared)
}

#[test]
fn new_state_has_no_core_started() {
    let hal = Hal::new(true, 4);
    assert_eq!(hal.primary_cpu(), None);
    assert_eq!(hal.max_cpu_num(), 4);
    assert!(hal.is_smp());
    for c in 0..4 {
        assert_eq!(hal.phase(c), Phase::Off);
    }
    assert!(!is_bootarg_set(&hal));
}

#[test]
fn percpu_step_comes_first_on_each_core() {
    let mut hal = Hal::new(true, 4);
    init_percpu(&mut hal, 0);
    assert_eq!(hal.primary_cpu(), Some(0));
    assert_eq!(hal.phase(0), Phase::PercpuReady);
    init_early(&mut hal, 0, 0x8000_0000);
    assert_eq!(hal.phase(0), Phase::EarlyDone);
    init_later(&mut hal, 0, 4);
    assert_eq!(hal.phase(0), Phase::LaterDone);
    init_percpu_secondary(&mut hal, 2);
    assert_eq!(hal.phase(2), Phase::PercpuReady);
    assert_eq!(hal.phase(1), Phase::Off);
    init_early_secondary(&mut hal, 2);
    assert_eq!(hal.phase(2), Phase::EarlyDone);
    init_later_secondary(&mut hal, 2);
    assert_eq!(hal.phase(2), Phase::LaterDone);
}

#[test]
fn bootarg_round_trip() {
    for arg in [0usize, 1, 0x4000_0000, usize::MAX] {
        let mut hal = Hal::new(false, 1);
        init_percpu(&mut hal, 0);
        assert!(!is_bootarg_set(&hal));
        init_early(&mut hal, 0, arg);
        assert!(is_bootarg_set(&hal));
        assert_eq!(get_bootarg(&hal), arg);
        init_later(&mut hal, 0, 1);
        assert_eq!(get_bootarg(&hal), arg);
    }
}

#[test]
fn cpu_num_is_one_before_finalization() {
    let mut hal = Hal::new(true, 8);
    assert_eq!(cpu_num(&hal), 1);
    init_percpu(&mut hal, 0);
    assert_eq!(cpu_num(&hal), 1);
    init_early(&mut hal, 0, 7);
    assert_eq!(cpu_num(&hal), 1);
}

#[test]
fn cpu_num_clamped_to_configured_max() {
    let mut hal = Hal::new(true, 3);
    let r = boot_primary(&mut hal, 0, 0, 5);
    assert_eq!(cpu_num(&hal), 3);
    assert!(r.clamped);
    assert_eq!((r.declared, r.max, r.cpu_num), (5, 3, 3));
}

#[test]
fn cpu_num_below_configured_max_not_warned() {
    let mut hal = Hal::new(true, 8);
    let r = boot_primary(&mut hal, 0, 0, 2);
    assert_eq!(cpu_num(&hal), 2);
    assert!(!r.clamped);
}

#[test]
fn cpu_num_equal_to_max_not_warned() {
    let mut hal = Hal::new(true, 4);
    let r = boot_primary(&mut hal, 0, 0, 4);
    assert_eq!(cpu_num(&hal), 4);
    assert!(!r.clamped);
}

#[test]
fn cpu_num_over_declared_warns_with_both_numbers() {
    let mut hal = Hal::new(true, 4);
    let r = boot_primary(&mut hal, 0, 0, 6);
    assert_eq!(cpu_num(&hal), 4);
    assert!(r.clamped);
    assert_eq!(r.declared, 6);
    assert_eq!(r.max, 4);
}

#[test]
fn cpu_num_without_smp_is_one() {
    let mut hal = Hal::new(false, 4);
    let r = boot_primary(&mut hal, 0, 0, 4);
    assert_eq!(cpu_num(&hal), 1);
    assert_eq!(r.cpu_num, 1);
    assert!(!r.clamped);
}

#[test]
fn cpu_num_stable_after_secondary_steps() {
    let mut hal = Hal::new(true, 4);
    boot_primary(&mut hal, 1, 0, 4);
    let first = cpu_num(&hal);
    for c in [0usize, 2, 3] {
        init_percpu_secondary(&mut hal, c);
        assert_eq!(cpu_num(&hal), first);
        init_early_secondary(&mut hal, c);
        assert_eq!(cpu_num(&hal), first);
        init_later_secondary(&mut hal, c);
        assert_eq!(cpu_num(&hal), first);
    }
    assert_eq!(first, 4);
}
