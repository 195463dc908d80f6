//! The system-call probe: an event for every `execve`.

use vstd::prelude::*;
use crate::common::event::{EbpfEvent, EVENT_EXECVE};
use super::agreement;
use super::verdict;
use super::verdict::{task_event, FlowFields, TaskContext};

verus! {

/// The event for an `execve` call of `task`: it names the task and no flow.
pub fn execve_monitor(task: TaskContext, now_ns: u64) -> (event: EbpfEvent)
    ensures
        verdict::reports(
            event,
            (FlowFields { src_ip: 0, dst_ip: 0, src_port: 0, dst_port: 0, protocol: 0 }),
            now_ns,
            EVENT_EXECVE,
        ),
        verdict::names_task(event, task),
{
    let no_flow = FlowFields { src_ip: 0, dst_ip: 0, src_port: 0, dst_port: 0, protocol: 0 };
    task_event(no_flow, task, now_ns, EVENT_EXECVE)
}

/// The event of an `execve` call holds the low halves of the task's two words,
/// its command name or zeros, the time, type 3, and zeros for the flow.
pub proof fn execve_event_names_the_task(task: TaskContext, now_ns: u64, e: EbpfEvent)
    requires
        call_ensures(execve_monitor, (task, now_ns), e),
    ensures
        e.timestamp_ns == now_ns,
        e.pid == task.pid_tgid & 0xffff_ffff,
        e.uid == task.uid_gid & 0xffff_ffff,
        e.event_type == 3,
        task.comm is Some ==> e.comm == task.comm->0,
        task.comm is None ==> forall|i: int| 0 <= i < 16 ==> e.comm@[i] == 0,
        e.src_ip == 0,
        e.dst_ip == 0,
        e.src_port == 0,
        e.dst_port == 0,
        e.protocol == 0,
        forall|i: int| 0 <= i < 2 ==> e._pad@[i] == 0,
{
    agreement::low_half(task.pid_tgid);
    agreement::low_half(task.uid_gid);
}

} // verus!
