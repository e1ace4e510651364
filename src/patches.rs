use vstd::prelude::*;

use crate::boards::Board;
use crate::text::{contains_text, occurs_in};
use crate::upload::UploadError;

verus! {

/// A point in time: whole seconds since the Unix epoch (UTC) and the
/// nanoseconds past that second.
#[derive(Clone, Copy, Debug, PartialEq, Eq, Structural)]
pub struct DateTime {
    pub secs: i64,
    pub nanos: u32,
}

/// Relies on `chrono::Utc::now`, read back through `timestamp` and
/// `timestamp_subsec_nanos`: the wall-clock time, which nothing here can
/// predict, built from the time since the epoch (so never before it) and the
/// nanoseconds of a `Duration` (so under a second).
#[verifier::external_body]
fn utc_now() -> (r: (i64, u32))
    ensures
        r.0 >= 0,
        r.1 < 1_000_000_000,
{
    let now = chrono::Utc::now();
    (now.timestamp(), now.timestamp_subsec_nanos())
}

impl DateTime {
    /// The moment, counted in nanoseconds since the epoch.
    pub open spec fn instant(self) -> int {
        self.secs * 1_000_000_000 + self.nanos
    }

    /// The current wall-clock time: at or after the epoch, with the
    /// nanoseconds under a second.
    pub fn now() -> (r: DateTime)
        ensures
            r.secs >= 0,
            r.nanos < 1_000_000_000,
    {
        let (secs, nanos) = utc_now();
        DateTime { secs, nanos }
    }
}

/// Where a job stands. `Uploaded` is the only initial status; `Compiled` and
/// `Failed` are terminal.
#[derive(Debug)]
pub enum PatchStatus {
    Uploaded,
    Compiling,
    Compiled,
    Failed { summary: String, details: Option<String> },
}

impl PatchStatus {
    /// How far along the status machine a status lies: 0, 1, then 2 for both
    /// terminal statuses.
    pub open spec fn rank(self) -> int {
        match self {
            PatchStatus::Uploaded => 0,
            PatchStatus::Compiling => 1,
            PatchStatus::Compiled => 2,
            PatchStatus::Failed { .. } => 2,
        }
    }

    pub open spec fn is_terminal(self) -> bool {
        self is Compiled || self is Failed
    }

    /// A copy of the status.
    pub fn duplicate(&self) -> (r: PatchStatus)
        ensures
            r == *self,
    {
        match self {
            PatchStatus::Uploaded => PatchStatus::Uploaded,
            PatchStatus::Compiling => PatchStatus::Compiling,
            PatchStatus::Compiled => PatchStatus::Compiled,
            PatchStatus::Failed { summary, details } => PatchStatus::Failed {
                summary: summary.clone(),
                details: match details {
                    Some(d) => Some(d.clone()),
                    None => None,
                },
            },
        }
    }
}

impl Clone for PatchStatus {
    fn clone(&self) -> (r: PatchStatus)
        ensures
            r == *self,
    {
        self.duplicate()
    }
}

/// The one step that the status machine allows from `from` to `to`:
/// `Uploaded` to `Compiling`, and `Compiling` to either terminal status.
pub open spec fn status_step(from: PatchStatus, to: PatchStatus) -> bool {
    ||| (from is Uploaded && to is Compiling)
    ||| (from is Compiling && to.is_terminal())
}

/// The record of one submitted patch.
#[derive(Debug)]
pub struct PatchMeta {
    pub id: String,
    pub status: PatchStatus,
    pub board: Board,
    pub filename: String,
    pub time_upload: DateTime,
    pub time_compile_start: Option<DateTime>,
    pub time_compile_end: Option<DateTime>,
}

impl PatchMeta {
    /// The timestamps that are set agree with the status: none past the upload
    /// while `Uploaded`, the start from `Compiling` on, and the end exactly when
    /// the status is terminal.
    pub open spec fn stamps_match_status(self) -> bool {
        match self.status {
            PatchStatus::Uploaded => self.time_compile_start is None && self.time_compile_end is None,
            PatchStatus::Compiling => self.time_compile_start is Some && self.time_compile_end is None,
            _ => self.time_compile_start is Some && self.time_compile_end is Some,
        }
    }

    /// The timestamps that are set never go back: upload, then start, then end.
    pub open spec fn stamps_in_order(self) -> bool {
        &&& (self.time_compile_start matches Some(s) ==> self.time_upload.instant() <= s.instant())
        &&& (self.time_compile_end matches Some(e) ==> (self.time_compile_start matches Some(s)
            && s.instant() <= e.instant()))
    }

    /// The record of a job that was just uploaded.
    pub open spec fn new_upload_spec(
        id: String,
        board: Board,
        filename: String,
        time_upload: DateTime,
    ) -> PatchMeta {
        PatchMeta {
            id,
            status: PatchStatus::Uploaded,
            board,
            filename,
            time_upload,
            time_compile_start: None,
            time_compile_end: None,
        }
    }

    /// A fresh record, as ingestion creates it.
    pub fn new_upload(id: String, board: Board, filename: String, time_upload: DateTime) -> (r:
        PatchMeta)
        ensures
            r == PatchMeta::new_upload_spec(id, board, filename, time_upload),
            r.stamps_match_status(),
            r.stamps_in_order(),
    {
        PatchMeta {
            id,
            status: PatchStatus::Uploaded,
            board,
            filename,
            time_upload,
            time_compile_start: None,
            time_compile_end: None,
        }
    }

    /// A copy of the record that shares nothing with it.
    pub fn duplicate(&self) -> (r: PatchMeta)
        ensures
            r == *self,
    {
        PatchMeta {
            id: self.id.clone(),
            status: self.status.duplicate(),
            board: self.board,
            filename: self.filename.clone(),
            time_upload: self.time_upload,
            time_compile_start: self.time_compile_start,
            time_compile_end: self.time_compile_end,
        }
    }
}

impl Clone for PatchMeta {
    fn clone(&self) -> (r: PatchMeta)
        ensures
            r == *self,
    {
        self.duplicate()
    }
}

/// The marker that every Pd patch file holds.
pub open spec fn patch_marker() -> Seq<char> {
    "#N canvas"@
}

/// Accepts the contents of a file as a Pd patch exactly when they hold the
/// canvas marker.
pub fn validate_patch_file_contents(file_contents: &str) -> (r: Result<(), UploadError>)
    ensures
        r is Ok <==> occurs_in(patch_marker(), file_contents@),
        r matches Err(e) ==> e is NotAPatch,
{
    if contains_text(file_contents, "#N canvas") {
        Ok(())
    } else {
        Err(UploadError::NotAPatch)
    }
}

} // verus!
