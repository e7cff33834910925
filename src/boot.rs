use vstd::prelude::*;

verus! {

/// The boot steps, in the one order in which they may run.
#[derive(Clone, Copy, Debug, PartialEq, Eq)]
pub enum Stage {
    Start,
    GlobalsReady,
    Provisioned,
    Settled,
    StoreReady,
    SchedulerReady,
    Running,
}

pub open spec fn rank(s: Stage) -> nat {
    match s {
        Stage::Start => 0,
        Stage::GlobalsReady => 1,
        Stage::Provisioned => 2,
        Stage::Settled => 3,
        Stage::StoreReady => 4,
        Stage::SchedulerReady => 5,
        Stage::Running => 6,
    }
}

/// The long-running tasks of the firmware.
#[derive(Clone, Copy, Debug, PartialEq, Eq)]
pub enum Task {
    Network,
    Protocol,
    Imu,
    Logger,
}

/// A request made of the boot sequence.
#[derive(Clone, Copy, Debug, PartialEq, Eq)]
pub enum BootStep {
    SetupGlobals,
    Provision,
    Settle,
    InitStore,
    InitScheduler,
    Spawn(Task),
    Run,
}

/// Why the boot sequence refused a step.
#[derive(Clone, Copy, Debug, PartialEq, Eq)]
pub enum BootError {
    /// The step was already taken; each runs once per process.
    Repeated,
    /// A step that must come first has not been taken.
    OutOfOrder,
    /// The task was already spawned.
    AlreadySpawned,
    /// The task is not part of this build.
    NotConfigured,
    /// The scheduler was asked to run before every task was spawned.
    TasksMissing,
    /// The scheduler already runs: the task set is fixed.
    AlreadyRunning,
}

/// The state of the boot sequence, as plain values.
pub struct BootView {
    pub stage: Stage,
    pub with_logger: bool,
    pub network: bool,
    pub protocol: bool,
    pub imu: bool,
    pub logger: bool,
}

/// The stage that a step other than `Spawn` and `Run` completes.
pub open spec fn target(step: BootStep) -> Stage {
    match step {
        BootStep::SetupGlobals => Stage::GlobalsReady,
        BootStep::Provision => Stage::Provisioned,
        BootStep::Settle => Stage::Settled,
        BootStep::InitStore => Stage::StoreReady,
        BootStep::InitScheduler => Stage::SchedulerReady,
        _ => Stage::Running,
    }
}

pub open spec fn is_spawned(v: BootView, t: Task) -> bool {
    match t {
        Task::Network => v.network,
        Task::Protocol => v.protocol,
        Task::Imu => v.imu,
        Task::Logger => v.logger,
    }
}

pub open spec fn with_spawned(v: BootView, t: Task) -> BootView {
    match t {
        Task::Network => BootView { network: true, ..v },
        Task::Protocol => BootView { protocol: true, ..v },
        Task::Imu => BootView { imu: true, ..v },
        Task::Logger => BootView { logger: true, ..v },
    }
}

pub open spec fn all_spawned(v: BootView) -> bool {
    v.network && v.protocol && v.imu && (v.with_logger ==> v.logger)
}

/// What `step` does to the boot state `v`: the new state, or why it was
/// refused (the state then stays as it was).
pub open spec fn boot_next(v: BootView, step: BootStep) -> Result<BootView, BootError> {
    if v.stage == Stage::Running {
        Err(BootError::AlreadyRunning)
    } else {
        match step {
            BootStep::Spawn(t) => if v.stage != Stage::SchedulerReady {
                Err(BootError::OutOfOrder)
            } else if t == Task::Logger && !v.with_logger {
                Err(BootError::NotConfigured)
            } else if is_spawned(v, t) {
                Err(BootError::AlreadySpawned)
            } else {
                Ok(with_spawned(v, t))
            },
            BootStep::Run => if v.stage != Stage::SchedulerReady {
                Err(BootError::OutOfOrder)
            } else if !all_spawned(v) {
                Err(BootError::TasksMissing)
            } else {
                Ok(BootView { stage: Stage::Running, ..v })
            },
            _ => if rank(v.stage) >= rank(target(step)) {
                Err(BootError::Repeated)
            } else if rank(v.stage) + 1 < rank(target(step)) {
                Err(BootError::OutOfOrder)
            } else {
                Ok(BootView { stage: target(step), ..v })
            },
        }
    }
}

/// The boot sequence of the firmware: globals, peripherals, settle delay,
/// packet store and scheduler, each once and in that order, then the fixed
/// task set, then the scheduler runs for good.
pub struct Boot {
    stage: Stage,
    with_logger: bool,
    network: bool,
    protocol: bool,
    imu: bool,
    logger: bool,
}

impl View for Boot {
    type V = BootView;

    closed spec fn view(&self) -> BootView {
        BootView {
            stage: self.stage,
            with_logger: self.with_logger,
            network: self.network,
            protocol: self.protocol,
            imu: self.imu,
            logger: self.logger,
        }
    }
}

fn stage_rank(s: Stage) -> (r: u8)
    ensures
        r == rank(s),
{
    match s {
        Stage::Start => 0,
        Stage::GlobalsReady => 1,
        Stage::Provisioned => 2,
        Stage::Settled => 3,
        Stage::StoreReady => 4,
        Stage::SchedulerReady => 5,
        Stage::Running => 6,
    }
}

fn step_target(step: BootStep) -> (r: Stage)
    ensures
        r == target(step),
{
    match step {
        BootStep::SetupGlobals => Stage::GlobalsReady,
        BootStep::Provision => Stage::Provisioned,
        BootStep::Settle => Stage::Settled,
        BootStep::InitStore => Stage::StoreReady,
        BootStep::InitScheduler => Stage::SchedulerReady,
        _ => Stage::Running,
    }
}

impl Boot {
    /// A sequence that has taken no step; `with_logger` says whether this
    /// build has the log-draining task.
    pub fn new(with_logger: bool) -> (r: Self)
        ensures
            r@ == (BootView {
                stage: Stage::Start,
                with_logger,
                network: false,
                protocol: false,
                imu: false,
                logger: false,
            }),
    {
        Boot { stage: Stage::Start, with_logger, network: false, protocol: false, imu: false, logger: false }
    }

    pub fn stage(&self) -> (r: Stage)
        ensures
            r == self@.stage,
    {
        self.stage
    }

    /// Whether task `t` has been spawned.
    pub fn spawned(&self, t: Task) -> (r: bool)
        ensures
            r == is_spawned(self@, t),
    {
        match t {
            Task::Network => self.network,
            Task::Protocol => self.protocol,
            Task::Imu => self.imu,
            Task::Logger => self.logger,
        }
    }

    /// Takes `step` if it is the next one allowed, else refuses it and keeps
    /// the state.
    pub fn step(&mut self, step: BootStep) -> (r: Result<(), BootError>)
        ensures
            match boot_next(old(self)@, step) {
                Ok(v) => r is Ok && final(self)@ == v,
                Err(e) => r == Err::<(), BootError>(e) && final(self)@ == old(self)@,
            },
    {
        if let Stage::Running = self.stage {
            return Err(BootError::AlreadyRunning);
        }
        match step {
            BootStep::Spawn(t) => {
                if !matches!(self.stage, Stage::SchedulerReady) {
                    return Err(BootError::OutOfOrder);
                }
                if matches!(t, Task::Logger) && !self.with_logger {
                    return Err(BootError::NotConfigured);
                }
                if self.spawned(t) {
                    return Err(BootError::AlreadySpawned);
                }
                match t {
                    Task::Network => self.network = true,
                    Task::Protocol => self.protocol = true,
                    Task::Imu => self.imu = true,
                    Task::Logger => self.logger = true,
                }
                Ok(())
            },
            BootStep::Run => {
                if !matches!(self.stage, Stage::SchedulerReady) {
                    return Err(BootError::OutOfOrder);
                }
                if !(self.network && self.protocol && self.imu && (!self.with_logger || self.logger)) {
                    return Err(BootError::TasksMissing);
                }
                self.stage = Stage::Running;
                Ok(())
            },
            _ => {
                let tgt = step_target(step);
                let cur = stage_rank(self.stage);
                let want = stage_rank(tgt);
                if cur >= want {
                    return Err(BootError::Repeated);
                }
                if cur + 1 < want {
                    return Err(BootError::OutOfOrder);
                }
                self.stage = tgt;
                Ok(())
            },
        }
    }
}

/// No task is spawned before the peripherals are provisioned: a spawn is taken
/// only once the scheduler, and so everything before it, is in place.
pub proof fn lemma_spawn_after_provision(v: BootView, t: Task)
    requires
        boot_next(v, BootStep::Spawn(t)) is Ok,
    ensures
        rank(v.stage) > rank(Stage::Provisioned),
{
}

/// The packet store and the scheduler are set up once per process: asking a
/// second time, in any later state, is refused.
pub proof fn lemma_init_once(v: BootView)
    requires
        rank(v.stage) >= rank(Stage::StoreReady),
    ensures
        boot_next(v, BootStep::InitStore) is Err,
        rank(v.stage) >= rank(Stage::SchedulerReady) ==> boot_next(v, BootStep::InitScheduler) is Err,
{
}

/// A step that is taken moves the sequence forward and never back: the stage
/// rises by one, or stays while a task is added.
pub proof fn lemma_step_forward(v: BootView, step: BootStep)
    requires
        boot_next(v, step) is Ok,
    ensures
        rank(boot_next(v, step)->Ok_0.stage) == rank(v.stage) + 1 || (boot_next(v, step)->Ok_0.stage == v.stage
            && step is Spawn),
{
}

/// The state after trying each step of `steps` in turn; a refused step leaves
/// the state as it was.
pub open spec fn run_steps(v: BootView, steps: Seq<BootStep>) -> BootView
    decreases steps.len(),
{
    if steps.len() == 0 {
        v
    } else {
        let next = match boot_next(v, steps[0]) {
            Ok(w) => w,
            Err(_) => v,
        };
        run_steps(next, steps.drop_first())
    }
}

/// How many times `step` is taken, not refused, while `steps` are tried from `v`.
pub open spec fn times_taken(v: BootView, steps: Seq<BootStep>, step: BootStep) -> nat
    decreases steps.len(),
{
    if steps.len() == 0 {
        0
    } else {
        let r = boot_next(v, steps[0]);
        let next = match r {
            Ok(w) => w,
            Err(_) => v,
        };
        (if steps[0] == step && r is Ok { 1nat } else { 0nat }) + times_taken(next, steps.drop_first(), step)
    }
}

/// Whatever steps are tried, in whatever order, from a state where the store
/// (or the scheduler) is not yet set up, it is set up at most once; from a
/// state where it is, never again.
pub proof fn lemma_set_up_at_most_once(v: BootView, steps: Seq<BootStep>)
    ensures
        times_taken(v, steps, BootStep::InitStore) + (if rank(v.stage) >= rank(Stage::StoreReady) { 1nat } else { 0nat }) <= 1,
        times_taken(v, steps, BootStep::InitScheduler) + (if rank(v.stage) >= rank(Stage::SchedulerReady) { 1nat } else { 0nat }) <= 1,
    decreases steps.len(),
{
    if steps.len() > 0 {
        let r = boot_next(v, steps[0]);
        let next = match r {
            Ok(w) => w,
            Err(_) => v,
        };
        if r is Ok {
            lemma_step_forward(v, steps[0]);
        }
        lemma_set_up_at_most_once(next, steps.drop_first());
    }
}

} // verus!
