//! Alerts that go to the SIEM forwarder.

use vstd::prelude::*;
use super::layout::CacheLine;
use super::packet::{FlowKey, FlowScore};

verus! {

/// How urgent an alert is.
#[derive(Clone, Copy, Debug, PartialEq, Eq, Structural)]
pub enum AlertLevel {
    Low,
    Medium,
    High,
    Critical,
}

/// What is to be done about the flow.
#[derive(Clone, Copy, Debug, PartialEq, Eq, Structural)]
pub enum Action {
    Observe,
    TarPit,
    Honeypot,
    Drop,
}

/// Bytes that an alert keeps of its kind tag.
pub const KIND_TAG_LEN: usize = 32;

/// One alert about one flow.
#[derive(Clone, Copy, Debug)]
pub struct Alert {
    pub timestamp_ns: u64,
    pub flow: FlowKey,
    pub score: FlowScore,
    pub level: AlertLevel,
    pub action: Action,
    /// The kind tag, zero-padded.
    pub kind_tag: [u8; 32],
    /// Bytes of `kind_tag` in use.
    pub kind_len: u8,
    pub line: CacheLine,
}

/// What an alert keeps of `tag`: its first bytes, as many as fit.
pub open spec fn kept_tag(tag: Seq<u8>) -> Seq<u8> {
    if tag.len() <= KIND_TAG_LEN {
        tag
    } else {
        tag.subrange(0, KIND_TAG_LEN as int)
    }
}

impl Alert {
    /// An alert whose kind tag is `tag`, cut to the bytes that fit and padded
    /// with zeros.
    pub fn write_kind(
        timestamp_ns: u64,
        flow: FlowKey,
        score: FlowScore,
        level: AlertLevel,
        action: Action,
        tag: &[u8],
    ) -> (alert: Alert)
        ensures
            alert.timestamp_ns == timestamp_ns,
            alert.flow == flow,
            alert.score == score,
            alert.level == level,
            alert.action == action,
            alert.kind_len == kept_tag(tag@).len(),
            alert.kind_tag@ == kept_tag(tag@) + Seq::new(
                (KIND_TAG_LEN - kept_tag(tag@).len()) as nat,
                |i: int| 0u8,
            ),
    {
        let len: usize = if tag.len() < KIND_TAG_LEN {
            tag.len()
        } else {
            KIND_TAG_LEN
        };
        let mut kind_tag: [u8; 32] = [0u8; 32];
        let mut i: usize = 0;
        while i < len
            invariant
                i <= len,
                len == kept_tag(tag@).len(),
                len <= KIND_TAG_LEN,
                len <= tag@.len(),
                kind_tag@.len() == KIND_TAG_LEN,
                forall|j: int| 0 <= j < i ==> kind_tag@[j] == tag@[j],
                forall|j: int| i <= j < KIND_TAG_LEN ==> kind_tag@[j] == 0,
            decreases len - i,
        {
            kind_tag[i] = tag[i];
            i += 1;
        }
        assert(kind_tag@ =~= kept_tag(tag@) + Seq::new((KIND_TAG_LEN - len) as nat, |i: int| 0u8));
        Alert {
            timestamp_ns,
            flow,
            score,
            level,
            action,
            kind_tag,
            kind_len: len as u8,
            line: CacheLine::new(),
        }
    }
}

/// An alert keeps the first 32 bytes of a kind tag, or all of a shorter one,
/// says how many it keeps, and has zeros behind them. The rest of it is what
/// it was made with.
pub proof fn alerts_keep_what_fits(
    timestamp_ns: u64,
    flow: FlowKey,
    score: FlowScore,
    level: AlertLevel,
    action: Action,
    tag: &[u8],
    alert: Alert,
)
    requires
        call_ensures(
            Alert::write_kind,
            (timestamp_ns, flow, score, level, action, tag),
            alert,
        ),
    ensures
        tag@.len() <= 32 ==> alert.kind_len == tag@.len(),
        tag@.len() > 32 ==> alert.kind_len == 32,
        forall|i: int| 0 <= i < alert.kind_len ==> #[trigger] alert.kind_tag@[i] == tag@[i],
        forall|i: int| alert.kind_len <= i < 32 ==> #[trigger] alert.kind_tag@[i] == 0,
        alert.timestamp_ns == timestamp_ns,
        alert.flow == flow,
        alert.score == score,
        alert.level == level,
        alert.action == action,
{
}

} // verus!
