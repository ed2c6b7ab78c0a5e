//! The units of the system wired to one scheduler and one bus.

use vstd::prelude::*;
use crate::cpu::{ArmCpu, CpuTask};
use crate::memory::Memory;
use crate::scheduler::{GeneratorState, ScheduledTask, Task, TaskScheduler, WaitCycles};
use crate::system::Bus;

verus! {

/// Task id of the core in a machine.
pub const CORE_TASK: usize = 0;

/// Task id of the memory unit in a machine.
pub const MEMORY_TASK: usize = 1;

/// The units of the system as one type of task.
pub enum Unit {
    Core(CpuTask),
    Memory(Memory),
}

impl Task<Bus> for Unit {
    open spec fn resumable(&self) -> bool {
        match self {
            Unit::Core(core) => core.resumable(),
            Unit::Memory(memory) => memory.resumable(),
        }
    }

    /// Runs the unit as the task that it is.
    fn step(&mut self, bus: &mut Bus) -> (r: GeneratorState<WaitCycles, ()>)
        ensures
            *old(self) is Core <==> *final(self) is Core,
            r is Yielded,
            *old(self) matches Unit::Core(before) ==> ((*final(self))->Core_0.cpu, *final(bus)) == CpuTask::cycle(
                before.cpu,
                *old(bus),
            ) && (*final(self))->Core_0.last_outcome == Some(CpuTask::cycle_outcome(before.cpu, *old(bus)))
                && r->Yielded_0.cycles == 1,
            *old(self) matches Unit::Memory(before) ==> ((*final(self))->Memory_0@, *final(bus), r->Yielded_0.cycles)
                == before@.step(*old(bus)),
    {
        match self {
            Unit::Core(core) => core.step(bus),
            Unit::Memory(memory) => memory.step(bus),
        }
    }
}

/// A scheduler at cycle 0 that holds a core at reset and `memory`, and an
/// idle bus for them. The core is enqueued first, so that in every cycle it
/// puts its request on the bus before the memory unit looks at the bus.
pub fn new_machine(memory: Memory) -> (r: (TaskScheduler<Bus, Unit>, Bus))
    requires
        memory@.wf(),
    ensures
        r.0.wf(),
        r.0.now() == 0,
        r.0.tasks() == seq![
            Some(Unit::Core(CpuTask { cpu: ArmCpu::reset(), last_outcome: None })),
            Some(Unit::Memory(memory)),
        ],
        r.0.next_id() == 2,
        r.0.queue() == seq![
            ScheduledTask { scheduled_at: 0, scheduling_id: 0, task_id: CORE_TASK },
            ScheduledTask { scheduled_at: 0, scheduling_id: 1, task_id: MEMORY_TASK },
        ],
        r.1 == (Bus { request: None, busy: false, dma_active: false, data: 0xFFFF_FFFF }),
{
    let mut scheduler: TaskScheduler<Bus, Unit> = TaskScheduler::new();
    scheduler.add_new_task(Unit::Core(CpuTask::new(ArmCpu::new())));
    proof {
        reveal_with_fuel(crate::scheduler::insertion_point, 3);
    }
    scheduler.add_new_task(Unit::Memory(memory));
    proof {
        assert(scheduler.tasks() =~= seq![
            Some(Unit::Core(CpuTask { cpu: ArmCpu::reset(), last_outcome: None })),
            Some(Unit::Memory(memory)),
        ]);
        assert(scheduler.queue() =~= seq![
            ScheduledTask { scheduled_at: 0, scheduling_id: 0, task_id: CORE_TASK },
            ScheduledTask { scheduled_at: 0, scheduling_id: 1, task_id: MEMORY_TASK },
        ]);
    }
    (scheduler, Bus::default())
}

} // verus!
