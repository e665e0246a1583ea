use vstd::prelude::*;

verus! {

/// Why a transfer pauses to ask its caller for a decision.
#[derive(Clone, Copy, Debug, PartialEq, Eq, Hash, Structural)]
pub enum TransitState {
    Normal,
    Exists,
    NoAccess,
}

/// The decision a progress callback hands back to a transfer.
#[derive(Clone, Copy, Debug, PartialEq, Eq, Hash, Structural)]
pub enum TransitProcessResult {
    Overwrite,
    OverwriteAll,
    Skip,
    SkipAll,
    Retry,
    Abort,
    ContinueOrAbort,
}

pub open spec fn state_code(s: TransitState) -> nat {
    match s {
        TransitState::Normal => 0,
        TransitState::Exists => 1,
        TransitState::NoAccess => 2,
    }
}

pub open spec fn decision_code(d: TransitProcessResult) -> nat {
    match d {
        TransitProcessResult::Overwrite => 0,
        TransitProcessResult::OverwriteAll => 1,
        TransitProcessResult::Skip => 2,
        TransitProcessResult::SkipAll => 3,
        TransitProcessResult::Retry => 4,
        TransitProcessResult::Abort => 5,
        TransitProcessResult::ContinueOrAbort => 6,
    }
}

/// Decodes a decision code; codes outside `0..7` are a caller error.
pub fn get_enum_transit_result(num: u8) -> (r: TransitProcessResult)
    requires
        num < 7,
    ensures
        decision_code(r) == num as nat,
{
    match num {
        0 => TransitProcessResult::Overwrite,
        1 => TransitProcessResult::OverwriteAll,
        2 => TransitProcessResult::Skip,
        3 => TransitProcessResult::SkipAll,
        4 => TransitProcessResult::Retry,
        5 => TransitProcessResult::Abort,
        _ => TransitProcessResult::ContinueOrAbort,
    }
}

/// Decodes a state code; codes outside `0..3` are a caller error.
pub fn get_enum_transit_state(num: u8) -> (r: TransitState)
    requires
        num < 3,
    ensures
        state_code(r) == num as nat,
{
    match num {
        0 => TransitState::Normal,
        1 => TransitState::Exists,
        _ => TransitState::NoAccess,
    }
}

/// Encodes a state as its code.
pub fn get_int_transit_state(state: TransitState) -> (r: u8)
    ensures
        r as nat == state_code(state),
        r < 3,
{
    match state {
        TransitState::Normal => 0,
        TransitState::Exists => 1,
        TransitState::NoAccess => 2,
    }
}

/// Encoding a state and decoding the code gives the state back, and every
/// known code is the encoding of the state it decodes to.
pub proof fn lemma_state_code_round_trip(s: TransitState, num: u8)
    ensures
        state_code(s) < 3,
        forall|t: TransitState| state_code(t) == state_code(s) ==> t == s,
        num < 3 ==> exists|t: TransitState| state_code(t) == num as nat,
{
    if num < 3 {
        let t = if num == 0 {
            TransitState::Normal
        } else if num == 1 {
            TransitState::Exists
        } else {
            TransitState::NoAccess
        };
        assert(state_code(t) == num as nat);
    }
}

/// Distinct decisions have distinct codes.
pub proof fn lemma_decision_code_injective(a: TransitProcessResult, b: TransitProcessResult)
    ensures
        decision_code(a) == decision_code(b) ==> a == b,
        decision_code(a) < 7,
{
}

/// Progress of a single-file transfer.
#[derive(Clone, Copy, Debug, PartialEq, Eq, Structural)]
pub struct FileTransitProcess {
    pub copied_bytes: u64,
    pub total_bytes: u64,
}

/// Progress of a directory-tree transfer: counters over the whole tree and
/// over the current file, the file's name and the reason for the pause.
#[derive(Debug)]
pub struct DirTransitProcess {
    pub copied_bytes: u64,
    pub total_bytes: u64,
    pub file_bytes_copied: u64,
    pub file_total_bytes: u64,
    pub file_name: String,
    pub state: u8,
}

impl DirTransitProcess {
    /// The snapshot handed to a caller: counters and name as given, the state
    /// as its code.
    pub fn new(
        copied_bytes: u64,
        total_bytes: u64,
        file_bytes_copied: u64,
        file_total_bytes: u64,
        file_name: String,
        state: TransitState,
    ) -> (r: DirTransitProcess)
        ensures
            r.copied_bytes == copied_bytes,
            r.total_bytes == total_bytes,
            r.file_bytes_copied == file_bytes_copied,
            r.file_total_bytes == file_total_bytes,
            r.file_name@ == file_name@,
            r.state as nat == state_code(state),
    {
        DirTransitProcess {
            copied_bytes,
            total_bytes,
            file_bytes_copied,
            file_total_bytes,
            file_name,
            state: get_int_transit_state(state),
        }
    }

    /// The reason for the pause, decoded.
    pub fn transit_state(&self) -> (r: TransitState)
        requires
            self.state < 3,
        ensures
            state_code(r) == self.state as nat,
    {
        get_enum_transit_state(self.state)
    }
}

} // verus!
