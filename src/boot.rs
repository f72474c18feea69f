//! The boot sequence of each core, the boot argument it captures, and the
//! CPU count that the primary core publishes.
//!
//! `Hal` holds this state. Each entry point is a step of the sequence: its
//! `requires` says when the step is allowed, and its `ensures` gives the new
//! state as one of the step functions over `HalModel`. The caller performs
//! the matching platform or per-CPU work around the step.

use crate::cell::{lazy_slot, word_cell_get, word_cell_init_once, word_cell_new};
use lazyinit::LazyInit;
use vstd::prelude::*;

verus! {

/// How far one core has come in its bring-up.
#[derive(Clone, Copy, Debug, PartialEq, Eq, Structural)]
pub enum Phase {
    Off,
    PercpuReady,
    EarlyDone,
    LaterDone,
}

/// One step of a core's bring-up, as recorded in the boot trace.
#[derive(Clone, Copy, Debug, PartialEq, Eq, Structural)]
pub enum Stage {
    Percpu,
    Early,
    Later,
}

/// What finalizing the CPU count decided.
#[derive(Clone, Copy, Debug, PartialEq, Eq, Structural)]
pub struct CpuCountReport {
    /// The count that the platform declared.
    pub declared: usize,
    /// The configured maximum.
    pub max: usize,
    /// The count that is used from now on.
    pub cpu_num: usize,
    /// The platform declared more cores than the maximum: a warning is due.
    pub clamped: bool,
}

/// The abstract state of the boot sequence.
pub ghost struct HalModel {
    pub smp: bool,
    pub max_cpu_num: usize,
    pub primary: Option<usize>,
    pub phases: Seq<Phase>,
    pub boot_arg: Option<usize>,
    pub cpu_count: usize,
    pub finalized: bool,
    /// Every step taken so far, in order: the core and the stage.
    pub trace: Seq<(usize, Stage)>,
}

/// The state of the boot sequence of all cores.
pub struct Hal {
    smp: bool,
    max_cpu_num: usize,
    primary: Option<usize>,
    phases: Vec<Phase>,
    boot_arg: LazyInit<usize>,
    cpu_count: usize,
    finalized: bool,
    trace: Ghost<Seq<(usize, Stage)>>,
}

impl View for Hal {
    type V = HalModel;

    closed spec fn view(&self) -> HalModel {
        HalModel {
            smp: self.smp,
            max_cpu_num: self.max_cpu_num,
            primary: self.primary,
            phases: self.phases@,
            boot_arg: lazy_slot(self.boot_arg),
            cpu_count: self.cpu_count,
            finalized: self.finalized,
            trace: self.trace@,
        }
    }
}

/// In the trace, every early or later step of a core comes after the
/// per-CPU step of that core.
pub open spec fn percpu_precedes(trace: Seq<(usize, Stage)>) -> bool {
    forall|j: int|
        0 <= j < trace.len() && trace[j].1 != Stage::Percpu ==> exists|i: int|
            0 <= i < j && trace[i] == (trace[j].0, Stage::Percpu)
}

/// The core took its per-CPU step somewhere in the trace.
pub open spec fn percpu_recorded(trace: Seq<(usize, Stage)>, cpu: usize) -> bool {
    exists|i: int| 0 <= i < trace.len() && trace[i] == (cpu, Stage::Percpu)
}

/// The core has completed at least its early step.
pub open spec fn phase_at_least_early(p: Phase) -> bool {
    p == Phase::EarlyDone || p == Phase::LaterDone
}

impl HalModel {
    /// The invariant of the boot state.
    pub open spec fn inv(self) -> bool {
        &&& self.phases.len() == self.max_cpu_num
        &&& self.primary is None ==> self.trace.len() == 0
        &&& forall|c: int| 0 <= c < self.phases.len() && self.phases[c] != Phase::Off
            ==> self.primary is Some && percpu_recorded(self.trace, c as usize)
        &&& self.primary matches Some(p) ==> p < self.max_cpu_num && self.phases[p as int]
            != Phase::Off
        &&& (self.boot_arg is Some) == (self.primary matches Some(p) && phase_at_least_early(
            self.phases[p as int],
        ))
        &&& self.finalized == (self.primary matches Some(p) && self.phases[p as int]
            == Phase::LaterDone)
        &&& !self.finalized ==> self.cpu_count == 1
        &&& self.finalized ==> self.cpu_count <= self.max_cpu_num
        &&& !self.smp ==> self.cpu_count == 1
        &&& forall|j: int| 0 <= j < self.trace.len() ==> self.trace[j].0 < self.max_cpu_num
        &&& percpu_precedes(self.trace)
    }

    /// `cpu` moves to `phase`, and the step is recorded.
    pub open spec fn advance(self, cpu: usize, phase: Phase, stage: Stage) -> HalModel {
        HalModel {
            phases: self.phases.update(cpu as int, phase),
            trace: self.trace.push((cpu, stage)),
            ..self
        }
    }
}

/// The count that finalization publishes, and whether it warns.
pub open spec fn count_report(declared: usize, max: usize, smp: bool) -> CpuCountReport {
    if smp {
        CpuCountReport {
            declared,
            max,
            cpu_num: if declared < max { declared } else { max },
            clamped: declared > max,
        }
    } else {
        CpuCountReport { declared, max, cpu_num: 1, clamped: false }
    }
}

/// The state before any core has started.
pub open spec fn initial_model(smp: bool, max_cpu_num: usize) -> HalModel {
    HalModel {
        smp,
        max_cpu_num,
        primary: None,
        phases: Seq::new(max_cpu_num as nat, |i: int| Phase::Off),
        boot_arg: None,
        cpu_count: 1,
        finalized: false,
        trace: Seq::empty(),
    }
}

/// The primary core's per-CPU step is allowed: it is the first step of all.
pub open spec fn can_init_percpu(m: HalModel, cpu: usize) -> bool {
    m.primary is None && cpu < m.max_cpu_num
}

/// The state after the primary core's per-CPU step.
pub open spec fn percpu_step(m: HalModel, cpu: usize) -> HalModel {
    HalModel { primary: Some(cpu), ..m.advance(cpu, Phase::PercpuReady, Stage::Percpu) }
}

/// A secondary core's per-CPU step is allowed: with SMP, after the primary
/// core has started, once per core.
pub open spec fn can_init_percpu_secondary(m: HalModel, cpu: usize) -> bool {
    m.smp && m.primary is Some && cpu < m.max_cpu_num && m.phases[cpu as int] == Phase::Off
}

/// The state after a secondary core's per-CPU step.
pub open spec fn percpu_secondary_step(m: HalModel, cpu: usize) -> HalModel {
    m.advance(cpu, Phase::PercpuReady, Stage::Percpu)
}

/// The primary core's early step is allowed: right after its per-CPU step,
/// once.
pub open spec fn can_init_early(m: HalModel, cpu: usize) -> bool {
    m.primary == Some(cpu) && m.phases[cpu as int] == Phase::PercpuReady
}

/// The state after the primary core's early step: the boot argument is
/// captured.
pub open spec fn early_step(m: HalModel, cpu: usize, arg: usize) -> HalModel {
    HalModel { boot_arg: Some(arg), ..m.advance(cpu, Phase::EarlyDone, Stage::Early) }
}

/// The primary core's later step is allowed: right after its early step,
/// once.
pub open spec fn can_init_later(m: HalModel, cpu: usize) -> bool {
    m.primary == Some(cpu) && m.phases[cpu as int] == Phase::EarlyDone
}

/// The state after the primary core's later step: the CPU count is
/// published.
pub open spec fn later_step(m: HalModel, cpu: usize, declared: usize) -> HalModel {
    HalModel {
        finalized: true,
        cpu_count: count_report(declared, m.max_cpu_num, m.smp).cpu_num,
        ..m.advance(cpu, Phase::LaterDone, Stage::Later)
    }
}

/// A secondary core's early step is allowed: right after its per-CPU step.
pub open spec fn can_init_early_secondary(m: HalModel, cpu: usize) -> bool {
    m.smp && cpu < m.max_cpu_num && m.primary != Some(cpu) && m.phases[cpu as int]
        == Phase::PercpuReady
}

/// The state after a secondary core's early step.
pub open spec fn early_secondary_step(m: HalModel, cpu: usize) -> HalModel {
    m.advance(cpu, Phase::EarlyDone, Stage::Early)
}

/// A secondary core's later step is allowed: right after its early step.
pub open spec fn can_init_later_secondary(m: HalModel, cpu: usize) -> bool {
    m.smp && cpu < m.max_cpu_num && m.primary != Some(cpu) && m.phases[cpu as int]
        == Phase::EarlyDone
}

/// The state after a secondary core's later step.
pub open spec fn later_secondary_step(m: HalModel, cpu: usize) -> HalModel {
    m.advance(cpu, Phase::LaterDone, Stage::Later)
}

/// `b` follows from `a` by one step of the boot sequence on some core.
pub open spec fn next(a: HalModel, b: HalModel) -> bool {
    ||| exists|c: usize| can_init_percpu(a, c) && b == percpu_step(a, c)
    ||| exists|c: usize| can_init_percpu_secondary(a, c) && b == percpu_secondary_step(a, c)
    ||| exists|c: usize, arg: usize| can_init_early(a, c) && b == early_step(a, c, arg)
    ||| exists|c: usize, d: usize| can_init_later(a, c) && b == later_step(a, c, d)
    ||| exists|c: usize| can_init_early_secondary(a, c) && b == early_secondary_step(a, c)
    ||| exists|c: usize| can_init_later_secondary(a, c) && b == later_secondary_step(a, c)
}

/// `run` is a sequence of boot states, each one step after the one before,
/// from a state that meets the invariant.
pub open spec fn is_run(run: Seq<HalModel>) -> bool {
    &&& run.len() > 0
    &&& run[0].inv()
    &&& forall|i: int| 0 <= i < run.len() - 1 ==> next(#[trigger] run[i], run[i + 1])
}

proof fn lemma_trace_push(t: Seq<(usize, Stage)>, cpu: usize, stage: Stage, max: usize)
    requires
        percpu_precedes(t),
        forall|j: int| 0 <= j < t.len() ==> t[j].0 < max,
        cpu < max,
        stage == Stage::Percpu || percpu_recorded(t, cpu),
    ensures
        percpu_precedes(t.push((cpu, stage))),
        forall|j: int| 0 <= j < t.push((cpu, stage)).len() ==> t.push((cpu, stage))[j].0 < max,
        forall|c: usize| percpu_recorded(t, c) ==> percpu_recorded(t.push((cpu, stage)), c),
        stage == Stage::Percpu ==> percpu_recorded(t.push((cpu, stage)), cpu),
{
    let u = t.push((cpu, stage));
    assert forall|c: usize| percpu_recorded(t, c) implies percpu_recorded(u, c) by {
        let i = choose|i: int| 0 <= i < t.len() && t[i] == (c, Stage::Percpu);
        assert(u[i] == t[i]);
    }
    if stage == Stage::Percpu {
        assert(u[t.len() as int] == (cpu, stage));
    }
    assert forall|j: int| 0 <= j < u.len() && u[j].1 != Stage::Percpu implies exists|i: int|
        0 <= i < j && u[i] == (u[j].0, Stage::Percpu) by {
        if j < t.len() {
            assert(u[j] == t[j]);
            let i = choose|i: int| 0 <= i < j && t[i] == (t[j].0, Stage::Percpu);
            assert(u[i] == t[i]);
        } else {
            let i = choose|i: int| 0 <= i < t.len() && t[i] == (cpu, Stage::Percpu);
            assert(u[i] == t[i]);
        }
    }
}

proof fn lemma_advance_inv(m: HalModel, cpu: usize, phase: Phase, stage: Stage)
    requires
        m.inv(),
        m.primary is Some,
        cpu < m.max_cpu_num,
        phase != Phase::Off,
        stage == Stage::Percpu || percpu_recorded(m.trace, cpu),
    ensures
        percpu_precedes(m.advance(cpu, phase, stage).trace),
        forall|j: int|
            0 <= j < m.advance(cpu, phase, stage).trace.len() ==> m.advance(
                cpu,
                phase,
                stage,
            ).trace[j].0 < m.max_cpu_num,
        forall|c: int|
            0 <= c < m.phases.len() && m.advance(cpu, phase, stage).phases[c] != Phase::Off
                ==> percpu_recorded(m.advance(cpu, phase, stage).trace, c as usize),
{
    lemma_trace_push(m.trace, cpu, stage, m.max_cpu_num);
}

proof fn lemma_percpu_step_inv(m: HalModel, cpu: usize)
    requires
        m.inv(),
        can_init_percpu(m, cpu),
    ensures
        percpu_step(m, cpu).inv(),
{
    let n = percpu_step(m, cpu);
    lemma_trace_push(m.trace, cpu, Stage::Percpu, m.max_cpu_num);
    assert forall|c: int| 0 <= c < n.phases.len() && n.phases[c] != Phase::Off implies n.primary is Some
        && percpu_recorded(n.trace, c as usize) by {
        if c != cpu as int {
            assert(m.phases[c] != Phase::Off);
        }
    }
}

proof fn lemma_percpu_secondary_step_inv(m: HalModel, cpu: usize)
    requires
        m.inv(),
        can_init_percpu_secondary(m, cpu),
    ensures
        percpu_secondary_step(m, cpu).inv(),
{
    lemma_advance_inv(m, cpu, Phase::PercpuReady, Stage::Percpu);
}

proof fn lemma_early_step_inv(m: HalModel, cpu: usize, arg: usize)
    requires
        m.inv(),
        can_init_early(m, cpu),
    ensures
        early_step(m, cpu, arg).inv(),
{
    lemma_advance_inv(m, cpu, Phase::EarlyDone, Stage::Early);
}

proof fn lemma_later_step_inv(m: HalModel, cpu: usize, declared: usize)
    requires
        m.inv(),
        can_init_later(m, cpu),
    ensures
        later_step(m, cpu, declared).inv(),
{
    lemma_advance_inv(m, cpu, Phase::LaterDone, Stage::Later);
}

proof fn lemma_early_secondary_step_inv(m: HalModel, cpu: usize)
    requires
        m.inv(),
        can_init_early_secondary(m, cpu),
    ensures
        early_secondary_step(m, cpu).inv(),
{
    lemma_advance_inv(m, cpu, Phase::EarlyDone, Stage::Early);
}

proof fn lemma_later_secondary_step_inv(m: HalModel, cpu: usize)
    requires
        m.inv(),
        can_init_later_secondary(m, cpu),
    ensures
        later_secondary_step(m, cpu).inv(),
{
    lemma_advance_inv(m, cpu, Phase::LaterDone, Stage::Later);
}

/// Every step of the boot sequence keeps the invariant, and never changes a
/// captured boot argument or a published CPU count.
pub proof fn lemma_next_keeps_inv(a: HalModel, b: HalModel)
    requires
        a.inv(),
        next(a, b),
    ensures
        b.inv(),
        a.boot_arg is Some ==> b.boot_arg == a.boot_arg,
        a.finalized ==> b.finalized && b.cpu_count == a.cpu_count,
        a.smp == b.smp && a.max_cpu_num == b.max_cpu_num,
{
    if exists|c: usize| can_init_percpu(a, c) && b == percpu_step(a, c) {
        let c = choose|c: usize| can_init_percpu(a, c) && b == percpu_step(a, c);
        lemma_percpu_step_inv(a, c);
    } else if exists|c: usize| can_init_percpu_secondary(a, c) && b == percpu_secondary_step(a, c) {
        let c = choose|c: usize|
            can_init_percpu_secondary(a, c) && b == percpu_secondary_step(a, c);
        lemma_percpu_secondary_step_inv(a, c);
    } else if exists|c: usize, arg: usize| can_init_early(a, c) && b == early_step(a, c, arg) {
        let (c, arg) = choose|c: usize, arg: usize|
            can_init_early(a, c) && b == early_step(a, c, arg);
        lemma_early_step_inv(a, c, arg);
    } else if exists|c: usize, d: usize| can_init_later(a, c) && b == later_step(a, c, d) {
        let (c, d) = choose|c: usize, d: usize| can_init_later(a, c) && b == later_step(a, c, d);
        lemma_later_step_inv(a, c, d);
    } else if exists|c: usize| can_init_early_secondary(a, c) && b == early_secondary_step(a, c) {
        let c = choose|c: usize| can_init_early_secondary(a, c) && b == early_secondary_step(a, c);
        lemma_early_secondary_step_inv(a, c);
    } else {
        let c = choose|c: usize| can_init_later_secondary(a, c) && b == later_secondary_step(a, c);
        lemma_later_secondary_step_inv(a, c);
    }
}

/// Along a run, every state meets the invariant, a captured boot argument
/// never changes, and a published CPU count never changes.
proof fn lemma_run_facts(run: Seq<HalModel>)
    requires
        is_run(run),
    ensures
        forall|i: int| 0 <= i < run.len() ==> (#[trigger] run[i]).inv(),
        forall|i: int|
            0 <= i < run.len() && run[0].boot_arg is Some ==> (#[trigger] run[i]).boot_arg
                == run[0].boot_arg,
        forall|i: int|
            0 <= i < run.len() && run[0].finalized ==> (#[trigger] run[i]).finalized
                && run[i].cpu_count == run[0].cpu_count,
    decreases run.len(),
{
    if run.len() > 1 {
        let prefix = run.drop_last();
        assert forall|i: int| 0 <= i < prefix.len() - 1 implies next(
            #[trigger] prefix[i],
            prefix[i + 1],
        ) by {
            assert(next(run[i], run[i + 1]));
        }
        lemma_run_facts(prefix);
        let k = run.len() - 2;
        assert(prefix[k] == run[k]);
        assert(next(run[k], run[k + 1]));
        lemma_next_keeps_inv(run[k], run[k + 1]);
        assert forall|i: int| 0 <= i < run.len() implies (#[trigger] run[i]).inv() by {
            if i < run.len() - 1 {
                assert(prefix[i] == run[i]);
            }
        }
        assert forall|i: int|
            0 <= i < run.len() && run[0].boot_arg is Some implies (#[trigger] run[i]).boot_arg
                == run[0].boot_arg by {
            if i < run.len() - 1 {
                assert(prefix[i] == run[i]);
            }
        }
        assert forall|i: int|
            0 <= i < run.len() && run[0].finalized implies (#[trigger] run[i]).finalized
                && run[i].cpu_count == run[0].cpu_count by {
            if i < run.len() - 1 {
                assert(prefix[i] == run[i]);
            }
        }
    }
}

/// On every core, the per-CPU step comes before any early or later step of
/// that core: in every state of a run, each such step in the trace has the
/// core's per-CPU step before it.
pub proof fn lemma_percpu_comes_first(run: Seq<HalModel>)
    requires
        is_run(run),
    ensures
        forall|i: int| 0 <= i < run.len() ==> percpu_precedes((#[trigger] run[i]).trace),
{
    lemma_run_facts(run);
}

/// The boot argument is unset until the primary core's early step, which
/// stores exactly the word it is given; every later state of the run holds
/// that same word.
pub proof fn lemma_bootarg_round_trip(run: Seq<HalModel>, cpu: usize, arg: usize)
    requires
        is_run(run),
        can_init_early(run[0], cpu),
    ensures
        run[0].boot_arg is None,
        early_step(run[0], cpu, arg).boot_arg == Some(arg),
        run.len() > 1 && run[1] == early_step(run[0], cpu, arg) ==> forall|i: int|
            1 <= i < run.len() ==> (#[trigger] run[i]).boot_arg == Some(arg),
{
    if run.len() > 1 && run[1] == early_step(run[0], cpu, arg) {
        let tail = run.subrange(1, run.len() as int);
        lemma_early_step_inv(run[0], cpu, arg);
        assert forall|i: int| 0 <= i < tail.len() - 1 implies next(
            #[trigger] tail[i],
            tail[i + 1],
        ) by {
            assert(next(run[i + 1], run[i + 2]));
        }
        lemma_run_facts(tail);
        assert forall|i: int| 1 <= i < run.len() implies (#[trigger] run[i]).boot_arg == Some(
            arg,
        ) by {
            assert(tail[i - 1] == run[i]);
        }
    }
}

/// Once the CPU count is published, every later state of the run is
/// finalized with the same count, so every read returns that count.
pub proof fn lemma_count_fixed_once_published(run: Seq<HalModel>)
    requires
        is_run(run),
        run[0].finalized,
    ensures
        forall|i: int|
            0 <= i < run.len() ==> (#[trigger] run[i]).finalized && run[i].cpu_count
                == run[0].cpu_count,
{
    lemma_run_facts(run);
}

impl Hal {
    /// The invariant of the boot state.
    pub open spec fn wf(&self) -> bool {
        self@.inv()
    }

    /// A boot state in which no core has started. `smp` says whether
    /// secondary cores are supported; `max_cpu_num` is the configured
    /// maximum number of cores.
    pub fn new(smp: bool, max_cpu_num: usize) -> (r: Hal)
        ensures
            r@ == initial_model(smp, max_cpu_num),
            r.wf(),
    {
        let mut phases: Vec<Phase> = Vec::new();
        let mut i: usize = 0;
        while i < max_cpu_num
            invariant
                i <= max_cpu_num,
                phases@ == Seq::new(i as nat, |k: int| Phase::Off),
            decreases max_cpu_num - i,
        {
            phases.push(Phase::Off);
            i = i + 1;
            assert(phases@ =~= Seq::new(i as nat, |k: int| Phase::Off));
        }
        Hal {
            smp,
            max_cpu_num,
            primary: None,
            phases,
            boot_arg: word_cell_new(),
            cpu_count: 1,
            finalized: false,
            trace: Ghost(Seq::empty()),
        }
    }

    /// The phase that `cpu` has reached.
    pub fn phase(&self, cpu: usize) -> (r: Phase)
        requires
            self.wf(),
            cpu < self@.max_cpu_num,
        ensures
            r == self@.phases[cpu as int],
    {
        self.phases[cpu]
    }

    /// The primary core, once its per-CPU step has run.
    pub fn primary_cpu(&self) -> (r: Option<usize>)
        ensures
            r == self@.primary,
    {
        self.primary
    }

    /// Whether secondary cores are supported.
    pub fn is_smp(&self) -> (r: bool)
        ensures
            r == self@.smp,
    {
        self.smp
    }

    /// The configured maximum number of cores.
    pub fn max_cpu_num(&self) -> (r: usize)
        ensures
            r == self@.max_cpu_num,
    {
        self.max_cpu_num
    }

    fn advance(&mut self, cpu: usize, phase: Phase, stage: Stage)
        requires
            cpu < old(self)@.phases.len(),
        ensures
            final(self)@ == old(self)@.advance(cpu, phase, stage),
    {
        self.phases[cpu] = phase;
        self.trace = Ghost(self.trace@.push((cpu, stage)));
    }
}

/// Records that the per-CPU data of the primary core `cpu_id` is set up.
/// This is the first step of the whole sequence.
pub fn init_percpu(hal: &mut Hal, cpu_id: usize)
    requires
        old(hal).wf(),
        can_init_percpu(old(hal)@, cpu_id),
    ensures
        final(hal)@ == percpu_step(old(hal)@, cpu_id),
        final(hal).wf(),
{
    proof {
        lemma_percpu_step_inv(hal@, cpu_id);
    }
    hal.advance(cpu_id, Phase::PercpuReady, Stage::Percpu);
    hal.primary = Some(cpu_id);
}

/// Records that the per-CPU data of the secondary core `cpu_id` is set up.
pub fn init_percpu_secondary(hal: &mut Hal, cpu_id: usize)
    requires
        old(hal).wf(),
        can_init_percpu_secondary(old(hal)@, cpu_id),
    ensures
        final(hal)@ == percpu_secondary_step(old(hal)@, cpu_id),
        final(hal).wf(),
{
    proof {
        lemma_percpu_secondary_step_inv(hal@, cpu_id);
    }
    hal.advance(cpu_id, Phase::PercpuReady, Stage::Percpu);
}

/// Captures the boot argument, once, on the primary core `cpu_id`, and
/// records its early step.
pub fn init_early(hal: &mut Hal, cpu_id: usize, arg: usize)
    requires
        old(hal).wf(),
        can_init_early(old(hal)@, cpu_id),
    ensures
        final(hal)@ == early_step(old(hal)@, cpu_id, arg),
        final(hal).wf(),
{
    proof {
        lemma_early_step_inv(hal@, cpu_id, arg);
    }
    word_cell_init_once(&mut hal.boot_arg, arg);
    hal.advance(cpu_id, Phase::EarlyDone, Stage::Early);
}

/// Records the later step of the primary core `cpu_id` and finalizes the CPU
/// count from the count `declared` by the platform.
pub fn init_later(hal: &mut Hal, cpu_id: usize, declared: usize) -> (r: CpuCountReport)
    requires
        old(hal).wf(),
        can_init_later(old(hal)@, cpu_id),
    ensures
        final(hal)@ == later_step(old(hal)@, cpu_id, declared),
        r == count_report(declared, old(hal)@.max_cpu_num, old(hal)@.smp),
        final(hal).wf(),
{
    proof {
        lemma_later_step_inv(hal@, cpu_id, declared);
    }
    hal.advance(cpu_id, Phase::LaterDone, Stage::Later);
    init_cpu_num(hal, declared)
}

/// Computes the CPU count, the smaller of the declared count and the
/// configured maximum, publishes it, and reports whether it was clamped.
/// Without SMP the count stays 1.
fn init_cpu_num(hal: &mut Hal, declared: usize) -> (r: CpuCountReport)
    ensures
        r == count_report(declared, old(hal)@.max_cpu_num, old(hal)@.smp),
        final(hal)@ == (HalModel {
            finalized: true,
            cpu_count: r.cpu_num,
            ..old(hal)@
        }),
{
    let max = hal.max_cpu_num;
    if hal.smp {
        let cpu_num = if declared < max {
            declared
        } else {
            max
        };
        let clamped = declared > max;
        hal.cpu_count = cpu_num;
        hal.finalized = true;
        CpuCountReport { declared, max, cpu_num, clamped }
    } else {
        hal.cpu_count = 1;
        hal.finalized = true;
        CpuCountReport { declared, max, cpu_num: 1, clamped: false }
    }
}

/// Records the early step of the secondary core `cpu_id`.
pub fn init_early_secondary(hal: &mut Hal, cpu_id: usize)
    requires
        old(hal).wf(),
        can_init_early_secondary(old(hal)@, cpu_id),
    ensures
        final(hal)@ == early_secondary_step(old(hal)@, cpu_id),
        final(hal).wf(),
{
    proof {
        lemma_early_secondary_step_inv(hal@, cpu_id);
    }
    hal.advance(cpu_id, Phase::EarlyDone, Stage::Early);
}

/// Records the later step of the secondary core `cpu_id`.
pub fn init_later_secondary(hal: &mut Hal, cpu_id: usize)
    requires
        old(hal).wf(),
        can_init_later_secondary(old(hal)@, cpu_id),
    ensures
        final(hal)@ == later_secondary_step(old(hal)@, cpu_id),
        final(hal).wf(),
{
    proof {
        lemma_later_secondary_step_inv(hal@, cpu_id);
    }
    hal.advance(cpu_id, Phase::LaterDone, Stage::Later);
}

/// Whether the boot argument has been captured.
pub fn is_bootarg_set(hal: &Hal) -> (r: bool)
    ensures
        r == (hal@.boot_arg is Some),
{
    word_cell_get(&hal.boot_arg).is_some()
}

/// The boot argument: the word captured by `init_early`. Reading it before
/// it is captured is ruled out by `requires`.
pub fn get_bootarg(hal: &Hal) -> (r: usize)
    requires
        hal@.boot_arg is Some,
    ensures
        hal@.boot_arg == Some(r),
{
    word_cell_get(&hal.boot_arg).unwrap()
}

/// The number of cores in use: 1 until the primary core's later step, then
/// the published count.
pub fn cpu_num(hal: &Hal) -> (r: usize)
    requires
        hal.wf(),
    ensures
        r == hal@.cpu_count,
        !hal@.finalized ==> r == 1,
{
    hal.cpu_count
}

} // verus!
