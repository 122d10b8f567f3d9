use slasshy::event::DownloadStatus;
use slasshy::supervisor::{DownloadEvent, Supervisor, SupervisorPhase};

fn line(s: &str) -> DownloadEvent {
    DownloadEvent::StdoutLine(s.to_string())
}

#[test]
fn natural_completion_emits_exactly_one_terminal_at_full_percent() {
    let mut sup = Supervisor::new("d1".to_string());
    let mut terminals: u32 = 0;

    let r = sup.step(line("50.0%|10.5MiB/s|00:05|52.5MiB|105.0MiB"));
    let e = r.event.unwrap();
    assert_eq!(e.status, DownloadStatus::Downloading);
    assert_eq!(e.percent_centi, 5000);
    assert!(!r.kill_process);

    let r = sup.step(DownloadEvent::StdoutClosed);
    assert!(r.event.is_none());
    assert_eq!(sup.phase(), SupervisorPhase::Draining);

    let r = sup.step(DownloadEvent::Exited(true));
    let e = r.event.unwrap();
    assert_eq!(e.status, DownloadStatus::Completed);
    assert_eq!(e.percent_centi, 10000);
    assert_eq!(e.id, "d1");
    terminals += 1;
    assert_eq!(sup.phase(), SupervisorPhase::Finished);

    // Nothing more is ever published, whatever arrives late.
    assert!(sup.step(DownloadEvent::Cancel).event.is_none());
    assert!(sup.step(line("99.0%|x|y|a|b")).event.is_none());
    assert!(sup.step(DownloadEvent::Exited(false)).event.is_none());
    assert_eq!(terminals, 1);
}

#[test]
fn failure_keeps_the_last_known_percent() {
    let mut sup = Supervisor::new("d2".to_string());
    sup.step(line("[download]  37.5% of 100.00MiB at 10.00MiB/s ETA 00:05"));
    sup.step(DownloadEvent::StdoutClosed);
    let r = sup.step(DownloadEvent::Exited(false));
    let e = r.event.unwrap();
    assert_eq!(e.status, DownloadStatus::Failed);
    assert_eq!(e.percent_centi, 3750);
    assert_eq!(e.speed, "");
    assert_eq!(e.eta, "");
}

#[test]
fn cancellation_emits_cancelled_with_last_percent_and_kills() {
    let mut sup = Supervisor::new("d3".to_string());
    sup.step(line("42.0%|1.0MiB/s|01:00|a|b"));
    let r = sup.step(DownloadEvent::Cancel);
    assert!(r.kill_process);
    let e = r.event.unwrap();
    assert_eq!(e.status, DownloadStatus::Cancelled);
    assert_eq!(e.percent_centi, 4200);
    // The terminal event was published; nothing follows it.
    assert!(sup.step(DownloadEvent::Exited(false)).event.is_none());
    assert_eq!(sup.phase(), SupervisorPhase::Finished);
}

#[test]
fn merge_line_pins_ninety_nine_percent() {
    let mut sup = Supervisor::new("d4".to_string());
    let r = sup.step(line("[Merger] Merging formats into \"clip.mp4\""));
    let e = r.event.unwrap();
    assert_eq!(e.status, DownloadStatus::Downloading);
    assert_eq!(e.percent_centi, 9900);
    assert_eq!(e.speed, "Merging...");
    assert_eq!(e.eta, "");
    // The pin does not change the last observed percent.
    let r = sup.step(DownloadEvent::Exited(false));
    assert_eq!(r.event.unwrap().percent_centi, 0);
}

#[test]
fn unrelated_lines_publish_nothing() {
    let mut sup = Supervisor::new("d5".to_string());
    assert!(sup.step(line("[info] Downloading webpage")).event.is_none());
    assert!(sup.step(line("WARNING: something benign")).event.is_none());
    assert_eq!(sup.phase(), SupervisorPhase::Streaming);
}

#[test]
fn stderr_lines_are_logged_but_publish_nothing() {
    let mut sup = Supervisor::new("d6".to_string());
    let r = sup.step(DownloadEvent::StderrLine("ERROR: fragment lost".to_string()));
    assert!(r.event.is_none());
    let r = sup.step(DownloadEvent::StderrLine("retrying".to_string()));
    assert!(r.event.is_none());
    assert_eq!(sup.stderr_log(), "ERROR: fragment lost\nretrying\n");
}

#[test]
fn every_published_percent_stays_within_range() {
    let mut sup = Supervisor::new("d7".to_string());
    let lines = [
        "150.0%|fast|00:01|a|b",
        "-12%|slow|00:09|a|b",
        "[download] 250.0% of x at y ETA 00:00",
        "[Merger] merging",
    ];
    for l in lines {
        if let Some(e) = sup.step(line(l)).event {
            assert!(0 <= e.percent_centi && e.percent_centi <= 10000);
        }
    }
    let e = sup.step(DownloadEvent::Exited(true)).event.unwrap();
    assert_eq!(e.percent_centi, 10000);
}

#[test]
fn exit_while_streaming_is_terminal_too() {
    let mut sup = Supervisor::new("d8".to_string());
    let r = sup.step(DownloadEvent::Exited(true));
    let e = r.event.unwrap();
    assert_eq!(e.status, DownloadStatus::Completed);
    assert_eq!(sup.phase(), SupervisorPhase::Finished);
}

#[test]
fn status_labels_and_terminality() {
    assert_eq!(DownloadStatus::Downloading.label(), "downloading");
    assert_eq!(DownloadStatus::Completed.label(), "completed");
    assert_eq!(DownloadStatus::Failed.label(), "failed");
    assert_eq!(DownloadStatus::Cancelled.label(), "cancelled");
    assert!(!DownloadStatus::Downloading.is_terminal());
    assert!(DownloadStatus::Completed.is_terminal());
    assert!(DownloadStatus::Failed.is_terminal());
    assert!(DownloadStatus::Cancelled.is_terminal());
}

#[test]
fn two_supervisors_never_share_identifiers() {
    let mut a = Supervisor::new("left".to_string());
    let mut b = Supervisor::new("right".to_string());
    let ea = a.step(line("10.0%|s|e|x|y")).event.unwrap();
    let eb = b.step(DownloadEvent::Cancel).event.unwrap();
    assert_eq!(ea.id, "left");
    assert_eq!(eb.id, "right");
    // Cancelling one download leaves the other streaming.
    assert_eq!(a.phase(), SupervisorPhase::Streaming);
    assert_eq!(b.phase(), SupervisorPhase::Finished);
}
