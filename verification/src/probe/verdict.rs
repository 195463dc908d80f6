//! What a tracing probe hands back: an action on the packet and an event.

use vstd::prelude::*;
use crate::common::event::EbpfEvent;

verus! {

/// The action that drops a packet.
pub const XDP_DROP: u32 = 1;

/// The action that hands a packet on.
pub const XDP_PASS: u32 = 2;

/// A probe's answer to a packet: what to do with it, and the event to write
/// into the event ring, if any.
#[derive(Clone, Copy, Debug)]
pub struct Verdict {
    pub action: u32,
    pub event: Option<EbpfEvent>,
}

impl Verdict {
    /// The packet goes on and nothing is reported.
    pub open spec fn is_silent_pass(self) -> bool {
        self.action == XDP_PASS && self.event is None
    }

    /// Hands the packet on without an event.
    pub fn silent_pass() -> (verdict: Verdict)
        ensures
            verdict.is_silent_pass(),
    {
        Verdict { action: XDP_PASS, event: None }
    }
}

/// The fields of an event that say which flow it is about.
#[derive(Clone, Copy, Debug)]
pub struct FlowFields {
    pub src_ip: u32,
    pub dst_ip: u32,
    pub src_port: u16,
    pub dst_port: u16,
    pub protocol: u8,
}

/// `event` reports the flow `flow`, with the given time and type.
pub open spec fn reports(event: EbpfEvent, flow: FlowFields, now_ns: u64, event_type: u8) -> bool {
    &&& event.timestamp_ns == now_ns
    &&& event.src_ip == flow.src_ip
    &&& event.dst_ip == flow.dst_ip
    &&& event.src_port == flow.src_port
    &&& event.dst_port == flow.dst_port
    &&& event.protocol == flow.protocol
    &&& event.event_type == event_type
    &&& event._pad@ == Seq::new(2, |i: int| 0u8)
}

/// `event` names no process.
pub open spec fn names_no_process(event: EbpfEvent) -> bool {
    &&& event.pid == 0
    &&& event.uid == 0
    &&& event.comm@ == Seq::new(16, |i: int| 0u8)
}

/// What the kernel says of the running task: the raw process and user words
/// and the command name, if it can be had.
#[derive(Clone, Copy, Debug)]
pub struct TaskContext {
    pub pid_tgid: u64,
    pub uid_gid: u64,
    pub comm: Option<[u8; 16]>,
}

/// `event` names the task `task`: the low halves of its two words, and its
/// command name or zeros.
pub open spec fn names_task(event: EbpfEvent, task: TaskContext) -> bool {
    &&& event.pid == task.pid_tgid % 0x1_0000_0000
    &&& event.uid == task.uid_gid % 0x1_0000_0000
    &&& match task.comm {
        Some(comm) => event.comm == comm,
        None => event.comm@ == Seq::new(16, |i: int| 0u8),
    }
}

/// An event about a flow, from a probe that runs without a task.
pub fn flow_event(flow: FlowFields, now_ns: u64, event_type: u8) -> (event: EbpfEvent)
    ensures
        reports(event, flow, now_ns, event_type),
        names_no_process(event),
{
    let event = EbpfEvent {
        timestamp_ns: now_ns,
        pid: 0,
        uid: 0,
        src_ip: flow.src_ip,
        dst_ip: flow.dst_ip,
        src_port: flow.src_port,
        dst_port: flow.dst_port,
        protocol: flow.protocol,
        event_type,
        _pad: [0u8; 2],
        comm: [0u8; 16],
    };
    assert(event._pad@ =~= Seq::new(2, |i: int| 0u8));
    assert(event.comm@ =~= Seq::new(16, |i: int| 0u8));
    event
}

/// An event about a flow, from a probe that runs on behalf of a task.
pub fn task_event(flow: FlowFields, task: TaskContext, now_ns: u64, event_type: u8) -> (event:
    EbpfEvent)
    ensures
        reports(event, flow, now_ns, event_type),
        names_task(event, task),
{
    let mut event = flow_event(flow, now_ns, event_type);
    event.pid = (task.pid_tgid % 0x1_0000_0000) as u32;
    event.uid = (task.uid_gid % 0x1_0000_0000) as u32;
    if let Some(comm) = task.comm {
        event.comm = comm;
    }
    event
}

} // verus!
