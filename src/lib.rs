//! Hardware abstraction core: the boot sequence of the primary and secondary
//! cores, the write-once boot argument, the published CPU count, and the
//! register map and interrupt protocol of the PL061 GPIO controller.

pub mod boot;
mod cell;
pub mod pl061;

pub use boot::{
    cpu_num, get_bootarg, init_early, init_early_secondary, init_later, init_later_secondary,
    init_percpu, init_percpu_secondary, is_bootarg_set, CpuCountReport, Hal, Phase, Stage,
};
