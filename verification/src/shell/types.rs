//! Records the shell exchanges with its front end and keeps on disk. Their
//! field layout follows the front end's interfaces.
use vstd::prelude::*;

verus! {

#[derive(Clone, Copy, Debug, PartialEq, Eq, Structural)]
pub enum JobStatus {
    Applied,
    Screening,
    Technical,
    Offer,
    Rejected,
}

/// One dated entry on a job's stage timeline.
#[derive(Clone, Debug)]
pub struct StageNote {
    pub date: String,
    pub outcome: String,
    pub notes: String,
}

#[derive(Clone, Copy, Debug, PartialEq, Eq, Structural)]
pub enum MsgRole {
    User,
    Ai,
}

/// One chat message. `streaming` is set while tokens still arrive;
/// `hidden` messages are sent to the backend but not shown.
#[derive(Clone, Debug)]
pub struct ChatMsg {
    pub role: MsgRole,
    pub content: String,
    pub logs: Vec<String>,
    pub streaming: Option<bool>,
    pub hidden: Option<bool>,
}

} // verus!
