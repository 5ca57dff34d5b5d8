use vstd::prelude::*;

verus! {

/// Why a capture attempt or a running stream came to an end.
#[derive(Debug)]
pub enum CaptureError {
    /// The external capture program could not be launched.
    ProcessSpawn(String),
    /// The capture program ran but reported failure; holds its diagnostic text.
    ProcessFailed(String),
    /// The output stream ended before a whole frame had arrived.
    ShortRead { expected: u128, got: usize },
}

impl CaptureError {
    pub open spec fn is_short_read(&self) -> bool {
        self is ShortRead
    }

    /// A one-line description of the error.
    pub fn kind_name(&self) -> (r: &'static str)
        ensures
            self is ProcessSpawn ==> r@ == "process spawn error"@,
            self is ProcessFailed ==> r@ == "process failed"@,
            self is ShortRead ==> r@ == "short read"@,
    {
        proof {
            reveal_strlit("process spawn error");
            reveal_strlit("process failed");
            reveal_strlit("short read");
        }
        match self {
            CaptureError::ProcessSpawn(_) => "process spawn error",
            CaptureError::ProcessFailed(_) => "process failed",
            CaptureError::ShortRead { .. } => "short read",
        }
    }
}

} // verus!
