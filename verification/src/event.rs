//! Progress events: the records the supervisor publishes to the event sink.

use vstd::prelude::*;

use crate::progress::UpdateView;

verus! {

/// The status tag a progress event carries. `Downloading` marks an
/// intermediate snapshot; the other three are terminal, and exactly one of
/// them ends every download.
#[derive(Clone, Copy, Debug, PartialEq, Eq, Structural)]
pub enum DownloadStatus {
    Downloading,
    Completed,
    Failed,
    Cancelled,
}

/// `s` ends the event stream of its download.
pub open spec fn is_terminal(s: DownloadStatus) -> bool {
    s == DownloadStatus::Completed || s == DownloadStatus::Failed || s
        == DownloadStatus::Cancelled
}

/// The status tag as the event stream spells it.
pub open spec fn status_label(s: DownloadStatus) -> Seq<char> {
    match s {
        DownloadStatus::Downloading => "downloading"@,
        DownloadStatus::Completed => "completed"@,
        DownloadStatus::Failed => "failed"@,
        DownloadStatus::Cancelled => "cancelled"@,
    }
}

impl DownloadStatus {
    /// The status tag, spelled out for consumers of the event stream.
    pub fn label(&self) -> (r: String)
        ensures
            r@ == status_label(*self),
    {
        match self {
            DownloadStatus::Downloading => "downloading".to_owned(),
            DownloadStatus::Completed => "completed".to_owned(),
            DownloadStatus::Failed => "failed".to_owned(),
            DownloadStatus::Cancelled => "cancelled".to_owned(),
        }
    }

    /// Whether this tag ends the event stream of its download.
    pub fn is_terminal(&self) -> (r: bool)
        ensures
            r == is_terminal(*self),
    {
        match self {
            DownloadStatus::Downloading => false,
            _ => true,
        }
    }
}

/// One published snapshot of a download: its identifier, percent complete
/// in hundredths, the human-readable speed and ETA fields, the status tag,
/// and optional byte counters and resolved filename.
pub struct DownloadProgress {
    pub id: String,
    pub percent_centi: i64,
    pub speed: String,
    pub eta: String,
    pub status: DownloadStatus,
    pub downloaded_bytes: Option<i64>,
    pub total_bytes: Option<i64>,
    pub filename: Option<String>,
}

/// The mathematical content of a progress event.
pub struct DownloadProgressView {
    pub id: Seq<char>,
    pub percent_centi: int,
    pub speed: Seq<char>,
    pub eta: Seq<char>,
    pub status: DownloadStatus,
    pub downloaded_bytes: Option<i64>,
    pub total_bytes: Option<i64>,
    pub filename: Option<Seq<char>>,
}

impl View for DownloadProgress {
    type V = DownloadProgressView;

    open spec fn view(&self) -> DownloadProgressView {
        DownloadProgressView {
            id: self.id@,
            percent_centi: self.percent_centi as int,
            speed: self.speed@,
            eta: self.eta@,
            status: self.status,
            downloaded_bytes: self.downloaded_bytes,
            total_bytes: self.total_bytes,
            filename: match self.filename {
                Some(ref f) => Some(f@),
                None => None,
            },
        }
    }
}

/// A well-formed event: its percent lies in [0, 100] percent, and a
/// completed event always carries the full 100 percent.
pub open spec fn event_wf(e: DownloadProgressView) -> bool {
    &&& 0 <= e.percent_centi <= 10000
    &&& e.status == DownloadStatus::Completed ==> e.percent_centi == 10000
}

/// An intermediate snapshot built from one parsed progress line.
pub open spec fn progress_event(id: Seq<char>, u: UpdateView) -> DownloadProgressView {
    DownloadProgressView {
        id: id,
        percent_centi: u.percent_centi,
        speed: u.speed,
        eta: u.eta,
        status: DownloadStatus::Downloading,
        downloaded_bytes: None,
        total_bytes: None,
        filename: None,
    }
}

/// The snapshot published for a merge or post-processing line: pinned at
/// 99 percent with a descriptive speed field.
pub open spec fn merge_event(id: Seq<char>) -> DownloadProgressView {
    DownloadProgressView {
        id: id,
        percent_centi: 9900,
        speed: "Merging..."@,
        eta: Seq::<char>::empty(),
        status: DownloadStatus::Downloading,
        downloaded_bytes: None,
        total_bytes: None,
        filename: None,
    }
}

/// The terminal event of a cancelled download, carrying the last known
/// percent.
pub open spec fn cancelled_event(id: Seq<char>, last_percent_centi: int) -> DownloadProgressView {
    DownloadProgressView {
        id: id,
        percent_centi: last_percent_centi,
        speed: Seq::<char>::empty(),
        eta: Seq::<char>::empty(),
        status: DownloadStatus::Cancelled,
        downloaded_bytes: None,
        total_bytes: None,
        filename: None,
    }
}

/// The terminal event of a download whose process exited: completed at the
/// full 100 percent on a success exit, failed at the last known percent
/// otherwise.
pub open spec fn exit_event(id: Seq<char>, exit_ok: bool, last_percent_centi: int)
    -> DownloadProgressView {
    DownloadProgressView {
        id: id,
        percent_centi: if exit_ok {
            10000
        } else {
            last_percent_centi
        },
        speed: Seq::<char>::empty(),
        eta: Seq::<char>::empty(),
        status: if exit_ok {
            DownloadStatus::Completed
        } else {
            DownloadStatus::Failed
        },
        downloaded_bytes: None,
        total_bytes: None,
        filename: None,
    }
}

} // verus!
