//! The download supervisor, as a state machine.
//!
//! One supervisor owns the event stream of one download. The surrounding
//! runtime multiplexes the process's output lines, its exit status and the
//! cancellation signal, and hands each occurrence to `step`; the supervisor
//! decides what to publish and whether the process must be killed. The
//! decisions are total: whatever order the occurrences arrive in, at most
//! one terminal event is ever published, and it is the last.

use vstd::prelude::*;

use crate::event::{
    cancelled_event, event_wf, exit_event, is_terminal, merge_event, progress_event,
    DownloadProgress, DownloadProgressView, DownloadStatus,
};
use crate::progress::{
    classify_line, classify_progress_line, free_text_parse, is_merge_line,
    lemma_classified_percent_in_range, template_parse, LineClass, ParsedLine,
};

verus! {

/// Where a supervised download stands: still reading output lines, waiting
/// for the exit status after the output closed, or finished with its
/// terminal event published.
#[derive(Clone, Copy, Debug, PartialEq, Eq, Structural)]
pub enum SupervisorPhase {
    Streaming,
    Draining,
    Finished,
}

/// One occurrence the runtime can hand to the supervisor: the cancellation
/// signal fired, an output or error line arrived, the output stream closed,
/// or the process exited (with a success flag).
pub enum DownloadEvent {
    Cancel,
    StdoutLine(String),
    StdoutClosed,
    StderrLine(String),
    Exited(bool),
}

/// The mathematical content of a `DownloadEvent`.
pub enum DownloadEventView {
    Cancel,
    StdoutLine(Seq<char>),
    StdoutClosed,
    StderrLine(Seq<char>),
    Exited(bool),
}

impl View for DownloadEvent {
    type V = DownloadEventView;

    open spec fn view(&self) -> DownloadEventView {
        match self {
            DownloadEvent::Cancel => DownloadEventView::Cancel,
            DownloadEvent::StdoutLine(l) => DownloadEventView::StdoutLine(l@),
            DownloadEvent::StdoutClosed => DownloadEventView::StdoutClosed,
            DownloadEvent::StderrLine(l) => DownloadEventView::StderrLine(l@),
            DownloadEvent::Exited(ok) => DownloadEventView::Exited(*ok),
        }
    }
}

/// The supervisor of one download: its identifier, the last percent it
/// published, the accumulated error-stream text, and its phase.
pub struct Supervisor {
    id: String,
    last_percent_centi: i64,
    stderr_log: String,
    phase: SupervisorPhase,
}

/// The mathematical state of a supervisor.
pub struct SupervisorView {
    pub id: Seq<char>,
    pub last_percent_centi: int,
    pub stderr_log: Seq<char>,
    pub phase: SupervisorPhase,
}

impl View for Supervisor {
    type V = SupervisorView;

    closed spec fn view(&self) -> SupervisorView {
        SupervisorView {
            id: self.id@,
            last_percent_centi: self.last_percent_centi as int,
            stderr_log: self.stderr_log@,
            phase: self.phase,
        }
    }
}

/// A supervisor state the machine can actually reach: the last published
/// percent lies in the clamped range.
pub open spec fn supervisor_wf(s: SupervisorView) -> bool {
    0 <= s.last_percent_centi <= 10000
}

/// The state a supervisor starts in.
pub open spec fn spec_init(id: Seq<char>) -> SupervisorView {
    SupervisorView {
        id: id,
        last_percent_centi: 0,
        stderr_log: Seq::<char>::empty(),
        phase: SupervisorPhase::Streaming,
    }
}

/// What one step decides: the successor state, the event to publish if
/// any, and whether the process must be killed.
pub struct StepView {
    pub state: SupervisorView,
    pub emit: Option<DownloadProgressView>,
    pub kill: bool,
}

/// The transition function of the supervisor.
///
/// While streaming, cancellation finishes the run at once with a
/// `cancelled` event and a kill; each output line is classified and may
/// publish a snapshot; error lines are only logged; a closed output stream
/// moves to draining; the exit status finishes the run with the one
/// `completed` or `failed` event. After the terminal event nothing is
/// published any more.
pub open spec fn spec_step(s: SupervisorView, e: DownloadEventView) -> StepView {
    match s.phase {
        SupervisorPhase::Streaming => match e {
            DownloadEventView::Cancel => StepView {
                state: SupervisorView {
                    id: s.id,
                    last_percent_centi: s.last_percent_centi,
                    stderr_log: s.stderr_log,
                    phase: SupervisorPhase::Finished,
                },
                emit: Some(cancelled_event(s.id, s.last_percent_centi)),
                kill: true,
            },
            DownloadEventView::StdoutLine(l) => match classify_line(l) {
                LineClass::Update(u) => StepView {
                    state: SupervisorView {
                        id: s.id,
                        last_percent_centi: u.percent_centi,
                        stderr_log: s.stderr_log,
                        phase: SupervisorPhase::Streaming,
                    },
                    emit: Some(progress_event(s.id, u)),
                    kill: false,
                },
                LineClass::Merge => StepView {
                    state: s,
                    emit: Some(merge_event(s.id)),
                    kill: false,
                },
                LineClass::Ignore => StepView { state: s, emit: None, kill: false },
            },
            DownloadEventView::StderrLine(l) => StepView {
                state: SupervisorView {
                    id: s.id,
                    last_percent_centi: s.last_percent_centi,
                    stderr_log: s.stderr_log + l + "\n"@,
                    phase: SupervisorPhase::Streaming,
                },
                emit: None,
                kill: false,
            },
            DownloadEventView::StdoutClosed => StepView {
                state: SupervisorView {
                    id: s.id,
                    last_percent_centi: s.last_percent_centi,
                    stderr_log: s.stderr_log,
                    phase: SupervisorPhase::Draining,
                },
                emit: None,
                kill: false,
            },
            DownloadEventView::Exited(ok) => StepView {
                state: SupervisorView {
                    id: s.id,
                    last_percent_centi: s.last_percent_centi,
                    stderr_log: s.stderr_log,
                    phase: SupervisorPhase::Finished,
                },
                emit: Some(exit_event(s.id, ok, s.last_percent_centi)),
                kill: false,
            },
        },
        SupervisorPhase::Draining => match e {
            DownloadEventView::Exited(ok) => StepView {
                state: SupervisorView {
                    id: s.id,
                    last_percent_centi: s.last_percent_centi,
                    stderr_log: s.stderr_log,
                    phase: SupervisorPhase::Finished,
                },
                emit: Some(exit_event(s.id, ok, s.last_percent_centi)),
                kill: false,
            },
            _ => StepView { state: s, emit: None, kill: false },
        },
        SupervisorPhase::Finished => StepView { state: s, emit: None, kill: false },
    }
}

/// What one executable step hands back to the runtime.
pub struct StepOutcome {
    pub event: Option<DownloadProgress>,
    pub kill_process: bool,
}

/// The view of an optional progress event.
pub open spec fn event_opt_view(e: &Option<DownloadProgress>) -> Option<DownloadProgressView> {
    match e {
        Some(p) => Some(p@),
        None => None,
    }
}

impl Supervisor {
    /// A fresh supervisor for the download `id`, still streaming, with no
    /// progress seen yet.
    pub fn new(id: String) -> (r: Supervisor)
        ensures
            r@ == spec_init(id@),
    {
        Supervisor {
            id,
            last_percent_centi: 0,
            stderr_log: String::new(),
            phase: SupervisorPhase::Streaming,
        }
    }

    /// The identifier of the supervised download.
    pub fn id(&self) -> (r: &String)
        ensures
            r@ == self@.id,
    {
        &self.id
    }

    /// The phase the supervisor is in.
    pub fn phase(&self) -> (r: SupervisorPhase)
        ensures
            r == self@.phase,
    {
        self.phase
    }

    /// The accumulated error-stream text, for diagnostics.
    pub fn stderr_log(&self) -> (r: &String)
        ensures
            r@ == self@.stderr_log,
    {
        &self.stderr_log
    }

    /// Feeds one occurrence to the supervisor and returns what to publish
    /// and whether to kill the process, exactly as `spec_step` decides.
    pub fn step(&mut self, event: DownloadEvent) -> (r: StepOutcome)
        ensures
            final(self)@ == spec_step(old(self)@, event@).state,
            event_opt_view(&r.event) == spec_step(old(self)@, event@).emit,
            r.kill_process == spec_step(old(self)@, event@).kill,
    {
        match self.phase {
            SupervisorPhase::Streaming => match event {
                DownloadEvent::Cancel => {
                    self.phase = SupervisorPhase::Finished;
                    StepOutcome {
                        event: Some(
                            DownloadProgress {
                                id: self.id.clone(),
                                percent_centi: self.last_percent_centi,
                                speed: String::new(),
                                eta: String::new(),
                                status: DownloadStatus::Cancelled,
                                downloaded_bytes: None,
                                total_bytes: None,
                                filename: None,
                            },
                        ),
                        kill_process: true,
                    }
                },
                DownloadEvent::StdoutLine(l) => match classify_progress_line(l.as_str()) {
                    ParsedLine::Update(u) => {
                        self.last_percent_centi = u.percent_centi;
                        StepOutcome {
                            event: Some(
                                DownloadProgress {
                                    id: self.id.clone(),
                                    percent_centi: u.percent_centi,
                                    speed: u.speed,
                                    eta: u.eta,
                                    status: DownloadStatus::Downloading,
                                    downloaded_bytes: None,
                                    total_bytes: None,
                                    filename: None,
                                },
                            ),
                            kill_process: false,
                        }
                    },
                    ParsedLine::Merge => StepOutcome {
                        event: Some(
                            DownloadProgress {
                                id: self.id.clone(),
                                percent_centi: 9900,
                                speed: String::from_str("Merging..."),
                                eta: String::new(),
                                status: DownloadStatus::Downloading,
                                downloaded_bytes: None,
                                total_bytes: None,
                                filename: None,
                            },
                        ),
                        kill_process: false,
                    },
                    ParsedLine::Ignore => StepOutcome { event: None, kill_process: false },
                },
                DownloadEvent::StderrLine(l) => {
                    self.stderr_log.append(l.as_str());
                    self.stderr_log.append("\n");
                    StepOutcome { event: None, kill_process: false }
                },
                DownloadEvent::StdoutClosed => {
                    self.phase = SupervisorPhase::Draining;
                    StepOutcome { event: None, kill_process: false }
                },
                DownloadEvent::Exited(ok) => {
                    self.phase = SupervisorPhase::Finished;
                    StepOutcome { event: Some(self.make_exit_event(ok)), kill_process: false }
                },
            },
            SupervisorPhase::Draining => match event {
                DownloadEvent::Exited(ok) => {
                    self.phase = SupervisorPhase::Finished;
                    StepOutcome { event: Some(self.make_exit_event(ok)), kill_process: false }
                },
                _ => StepOutcome { event: None, kill_process: false },
            },
            SupervisorPhase::Finished => StepOutcome { event: None, kill_process: false },
        }
    }

    /// The terminal event for an exit status: completed at 100 percent on
    /// success, failed at the last known percent otherwise.
    fn make_exit_event(&self, exit_ok: bool) -> (r: DownloadProgress)
        ensures
            r@ == exit_event(self@.id, exit_ok, self@.last_percent_centi),
    {
        DownloadProgress {
            id: self.id.clone(),
            percent_centi: if exit_ok {
                10000
            } else {
                self.last_percent_centi
            },
            speed: String::new(),
            eta: String::new(),
            status: if exit_ok {
                DownloadStatus::Completed
            } else {
                DownloadStatus::Failed
            },
            downloaded_bytes: None,
            total_bytes: None,
            filename: None,
        }
    }
}

/// The state after feeding the occurrences of `evs`, in order, to a
/// supervisor in state `s`.
pub open spec fn run_state(s: SupervisorView, evs: Seq<DownloadEventView>) -> SupervisorView
    decreases evs.len(),
{
    if evs.len() == 0 {
        s
    } else {
        run_state(spec_step(s, evs[0]).state, evs.skip(1))
    }
}

/// Everything published while feeding the occurrences of `evs`, in order,
/// to a supervisor in state `s`.
pub open spec fn run_outputs(s: SupervisorView, evs: Seq<DownloadEventView>) -> Seq<
    DownloadProgressView,
>
    decreases evs.len(),
{
    if evs.len() == 0 {
        Seq::<DownloadProgressView>::empty()
    } else {
        let st = spec_step(s, evs[0]);
        (match st.emit {
            Some(o) => seq![o],
            None => Seq::<DownloadProgressView>::empty(),
        }) + run_outputs(st.state, evs.skip(1))
    }
}

/// How many terminal events a published sequence holds.
pub open spec fn count_terminals(outs: Seq<DownloadProgressView>) -> int
    decreases outs.len(),
{
    if outs.len() == 0 {
        0
    } else {
        (if is_terminal(outs[0].status) {
            1int
        } else {
            0int
        }) + count_terminals(outs.skip(1))
    }
}

proof fn lemma_step_properties(s: SupervisorView, e: DownloadEventView)
    requires
        supervisor_wf(s),
    ensures
        supervisor_wf(spec_step(s, e).state),
        spec_step(s, e).state.id == s.id,
        s.phase == SupervisorPhase::Finished ==> spec_step(s, e).state == s && spec_step(
            s,
            e,
        ).emit is None,
        match spec_step(s, e).emit {
            Some(o) => o.id == s.id && event_wf(o) && (is_terminal(o.status) <==> (spec_step(
                s,
                e,
            ).state.phase == SupervisorPhase::Finished && s.phase != SupervisorPhase::Finished)),
            None => spec_step(s, e).state.phase == SupervisorPhase::Finished ==> s.phase
                == SupervisorPhase::Finished,
        },
{
    match e {
        DownloadEventView::StdoutLine(l) => {
            lemma_classified_percent_in_range(l);
        },
        _ => {},
    }
}

proof fn lemma_run_properties(s: SupervisorView, evs: Seq<DownloadEventView>)
    requires
        supervisor_wf(s),
    ensures
        supervisor_wf(run_state(s, evs)),
        run_state(s, evs).id == s.id,
        s.phase == SupervisorPhase::Finished ==> run_outputs(s, evs).len() == 0 && run_state(
            s,
            evs,
        ).phase == SupervisorPhase::Finished,
        forall|i: int|
            0 <= i < run_outputs(s, evs).len() ==> run_outputs(s, evs)[i].id == s.id && event_wf(
                run_outputs(s, evs)[i],
            ),
        count_terminals(run_outputs(s, evs)) == (if s.phase != SupervisorPhase::Finished
            && run_state(s, evs).phase == SupervisorPhase::Finished {
            1int
        } else {
            0int
        }),
        forall|i: int|
            0 <= i < run_outputs(s, evs).len() && is_terminal(run_outputs(s, evs)[i].status) ==> i
                == run_outputs(s, evs).len() - 1,
    decreases evs.len(),
{
    if evs.len() == 0 {
    } else {
        let st = spec_step(s, evs[0]);
        let tail = run_outputs(st.state, evs.skip(1));
        let outs = run_outputs(s, evs);
        lemma_step_properties(s, evs[0]);
        lemma_run_properties(st.state, evs.skip(1));
        match st.emit {
            Some(o) => {
                assert(outs =~= seq![o] + tail);
                assert(outs[0] == o);
                assert(outs.skip(1) =~= tail);
                assert forall|i: int| 1 <= i < outs.len() implies outs[i] == tail[i - 1] by {}
                if is_terminal(o.status) {
                    assert(st.state.phase == SupervisorPhase::Finished);
                    assert(tail.len() == 0);
                    assert(outs.len() == 1);
                } else {
                    assert(st.state.phase != SupervisorPhase::Finished || s.phase
                        == SupervisorPhase::Finished);
                    assert(s.phase != SupervisorPhase::Finished);
                }
            },
            None => {
                assert(outs =~= tail);
            },
        }
    }
}

/// Law: however the run of one download unfolds, at most one terminal
/// event is published; once the supervisor has finished, exactly one was;
/// and the terminal event is always the last one published.
pub proof fn lemma_exactly_one_terminal(id: Seq<char>, evs: Seq<DownloadEventView>)
    ensures
        count_terminals(run_outputs(spec_init(id), evs)) <= 1,
        run_state(spec_init(id), evs).phase == SupervisorPhase::Finished ==> count_terminals(
            run_outputs(spec_init(id), evs),
        ) == 1,
        forall|i: int|
            0 <= i < run_outputs(spec_init(id), evs).len() && is_terminal(
                run_outputs(spec_init(id), evs)[i].status,
            ) ==> i == run_outputs(spec_init(id), evs).len() - 1,
{
    lemma_run_properties(spec_init(id), evs);
}

/// Law: every percent a run publishes lies within [0, 100] percent, and a
/// completed terminal event always carries the full 100 percent, whatever
/// intermediate percent was last observed.
pub proof fn lemma_published_percent_clamped(id: Seq<char>, evs: Seq<DownloadEventView>)
    ensures
        forall|i: int|
            0 <= i < run_outputs(spec_init(id), evs).len() ==> 0 <= #[trigger] run_outputs(
                spec_init(id),
                evs,
            )[i].percent_centi <= 10000,
        forall|i: int|
            0 <= i < run_outputs(spec_init(id), evs).len() && #[trigger] run_outputs(
                spec_init(id),
                evs,
            )[i].status == DownloadStatus::Completed ==> run_outputs(
                spec_init(id),
                evs,
            )[i].percent_centi == 10000,
{
    lemma_run_properties(spec_init(id), evs);
    assert forall|i: int| 0 <= i < run_outputs(spec_init(id), evs).len() implies 0
        <= #[trigger] run_outputs(spec_init(id), evs)[i].percent_centi <= 10000 && (run_outputs(
        spec_init(id),
        evs,
    )[i].status == DownloadStatus::Completed ==> run_outputs(spec_init(id), evs)[i].percent_centi
        == 10000) by {
        assert(event_wf(run_outputs(spec_init(id), evs)[i]));
    }
}

/// Law: every event a run publishes carries the identifier of its own
/// download, so the streams of two downloads with distinct identifiers
/// never mix.
pub proof fn lemma_streams_never_mix(
    id1: Seq<char>,
    id2: Seq<char>,
    evs1: Seq<DownloadEventView>,
    evs2: Seq<DownloadEventView>,
)
    requires
        id1 != id2,
    ensures
        forall|i: int|
            0 <= i < run_outputs(spec_init(id1), evs1).len() ==> run_outputs(
                spec_init(id1),
                evs1,
            )[i].id == id1,
        forall|i: int, j: int|
            0 <= i < run_outputs(spec_init(id1), evs1).len() && 0 <= j < run_outputs(
                spec_init(id2),
                evs2,
            ).len() ==> run_outputs(spec_init(id1), evs1)[i].id != run_outputs(
                spec_init(id2),
                evs2,
            )[j].id,
{
    lemma_run_properties(spec_init(id1), evs1);
    lemma_run_properties(spec_init(id2), evs2);
}

/// Law: while the download is streaming, a merge or post-processing line
/// that neither parsing strategy accepts publishes a snapshot pinned at 99
/// percent.
pub proof fn lemma_merge_line_pins_ninety_nine(s: SupervisorView, l: Seq<char>)
    requires
        s.phase == SupervisorPhase::Streaming,
        template_parse(l) is None,
        free_text_parse(l) is None,
        is_merge_line(l),
    ensures
        spec_step(s, DownloadEventView::StdoutLine(l)).emit == Some(merge_event(s.id)),
        merge_event(s.id).percent_centi == 9900,
{
}

/// Law: a line that neither parsing strategy accepts and that carries no
/// merge marker publishes nothing and leaves the supervisor unchanged.
pub proof fn lemma_unrelated_line_publishes_nothing(s: SupervisorView, l: Seq<char>)
    requires
        s.phase == SupervisorPhase::Streaming,
        template_parse(l) is None,
        free_text_parse(l) is None,
        !is_merge_line(l),
    ensures
        spec_step(s, DownloadEventView::StdoutLine(l)).emit is None,
        spec_step(s, DownloadEventView::StdoutLine(l)).state == s,
{
}

} // verus!
