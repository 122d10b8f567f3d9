use slasshy::cancel::{cancel_download, CancelError};
use slasshy::registry::CancelRegistry;

#[test]
fn register_then_cancel_returns_the_signal() {
    let mut reg: CancelRegistry<u32> = CancelRegistry::new();
    reg.register("a".to_string(), 7);
    assert!(reg.contains("a"));
    assert_eq!(reg.cancel("a"), Some(7));
    assert!(!reg.contains("a"));
}

#[test]
fn cancel_of_unknown_identifier_finds_nothing_and_changes_nothing() {
    let mut reg: CancelRegistry<u32> = CancelRegistry::new();
    assert_eq!(reg.cancel("ghost"), None);
    reg.register("a".to_string(), 1);
    assert_eq!(reg.cancel("b"), None);
    assert!(reg.contains("a"));
}

#[test]
fn cancel_twice_finds_nothing_the_second_time() {
    let mut reg: CancelRegistry<u32> = CancelRegistry::new();
    reg.register("a".to_string(), 1);
    assert_eq!(reg.cancel("a"), Some(1));
    assert_eq!(reg.cancel("a"), None);
}

#[test]
fn cancelling_one_identifier_leaves_the_other_entry_alone() {
    let mut reg: CancelRegistry<u32> = CancelRegistry::new();
    reg.register("a".to_string(), 1);
    reg.register("b".to_string(), 2);
    assert_eq!(reg.cancel("a"), Some(1));
    assert!(reg.contains("b"));
    assert_eq!(reg.cancel("b"), Some(2));
}

#[test]
fn remove_is_idempotent() {
    let mut reg: CancelRegistry<u32> = CancelRegistry::new();
    reg.register("a".to_string(), 1);
    reg.remove("a");
    assert!(!reg.contains("a"));
    reg.remove("a");
    assert!(!reg.contains("a"));
}

#[test]
fn cancel_download_fires_the_oneshot_signal() {
    let mut reg: CancelRegistry<tokio::sync::oneshot::Sender<()>> = CancelRegistry::new();
    let (tx, mut rx) = tokio::sync::oneshot::channel::<()>();
    reg.register("dl".to_string(), tx);
    assert!(cancel_download(&mut reg, "dl").is_ok());
    assert!(rx.try_recv().is_ok());
}

#[test]
fn cancel_download_of_unknown_identifier_is_not_found() {
    let mut reg: CancelRegistry<tokio::sync::oneshot::Sender<()>> = CancelRegistry::new();
    let r = cancel_download(&mut reg, "ghost");
    assert_eq!(r, Err(CancelError::NotFound));
    assert_eq!(
        CancelError::NotFound.message(),
        "Download not found or already finished"
    );
}

#[test]
fn cancel_download_twice_reports_not_found_the_second_time() {
    let mut reg: CancelRegistry<tokio::sync::oneshot::Sender<()>> = CancelRegistry::new();
    let (tx, _rx) = tokio::sync::oneshot::channel::<()>();
    reg.register("dl".to_string(), tx);
    assert!(cancel_download(&mut reg, "dl").is_ok());
    assert_eq!(cancel_download(&mut reg, "dl"), Err(CancelError::NotFound));
}

#[test]
fn cancelling_one_download_does_not_fire_the_other_signal() {
    let mut reg: CancelRegistry<tokio::sync::oneshot::Sender<()>> = CancelRegistry::new();
    let (tx1, mut rx1) = tokio::sync::oneshot::channel::<()>();
    let (tx2, mut rx2) = tokio::sync::oneshot::channel::<()>();
    reg.register("one".to_string(), tx1);
    reg.register("two".to_string(), tx2);
    assert!(cancel_download(&mut reg, "one").is_ok());
    assert!(rx1.try_recv().is_ok());
    assert!(rx2.try_recv().is_err());
    assert!(reg.contains("two"));
    assert!(!reg.contains("one"));
}
