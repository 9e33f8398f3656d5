use msc_agent::health::{bytes_to_gb, candidate_present, java_candidates, linux_ram_gb};
use msc_agent::lifecycle::{
    ReconciliationStatus, SelectionRefusal, admit_selection, reconciliation_outcome,
};

#[test]
fn java_probe_candidates() {
    assert_eq!(java_candidates("  /opt/jdk/bin/java "), vec!["/opt/jdk/bin/java", "java"]);
    assert_eq!(java_candidates("   "), vec!["java"]);
    assert!(candidate_present("java", false));
    assert!(candidate_present("/usr/bin/java", true));
    assert!(!candidate_present("/usr/bin/java", false));
}

#[test]
fn host_memory_from_meminfo() {
    assert_eq!(linux_ram_gb("MemFree: 1 kB\nMemTotal:       16318412 kB\n"), 15);
    assert_eq!(linux_ram_gb("MemTotal: 0 kB\nMemTotal: 2097152 kB\n"), 2);
    assert_eq!(linux_ram_gb("MemTotal: lots\n"), 0);
    assert_eq!(linux_ram_gb(""), 0);
    assert_eq!(bytes_to_gb(17_179_869_184), 16);
    assert_eq!(bytes_to_gb(1_073_741_823), 0);
}

#[test]
fn startup_reconciliation_keeps_the_first_failure() {
    assert_eq!(reconciliation_outcome(None, None, None, None), ReconciliationStatus::Ready);
    assert_eq!(
        reconciliation_outcome(Some("w"), Some("a"), None, None),
        ReconciliationStatus::Degraded { reason: "world reconciliation failed: w".to_string() }
    );
    assert_eq!(
        reconciliation_outcome(None, Some("a"), Some("r"), None),
        ReconciliationStatus::Degraded {
            reason: "interrupted activation recovery failed: a".to_string()
        }
    );
    assert_eq!(
        reconciliation_outcome(None, None, Some("r"), Some("x")),
        ReconciliationStatus::Degraded { reason: "interrupted restore recovery failed: r".to_string() }
    );
    assert_eq!(
        reconciliation_outcome(None, None, None, Some("x")),
        ReconciliationStatus::Degraded {
            reason: "interrupted world replacement recovery failed: x".to_string()
        }
    );
}

#[test]
fn selecting_the_active_server() {
    let ready = ReconciliationStatus::Ready;
    assert_eq!(
        admit_selection(&ReconciliationStatus::Reconciling, true, None, "s", false, false),
        Err(SelectionRefusal::Reconciliation {
            reason: "world reconciliation is still in progress".to_string()
        })
    );
    let degraded = ReconciliationStatus::Degraded { reason: "broken".to_string() };
    assert_eq!(
        admit_selection(&degraded, true, None, "s", false, false),
        Err(SelectionRefusal::Reconciliation { reason: "broken".to_string() })
    );
    assert_eq!(
        admit_selection(&ready, false, None, "s", false, false),
        Err(SelectionRefusal::ServerNotFound)
    );
    assert_eq!(
        admit_selection(&ready, true, Some("old"), "s", true, false),
        Err(SelectionRefusal::AlreadyRunning)
    );
    assert_eq!(
        admit_selection(&ready, true, Some("old"), "s", false, true),
        Err(SelectionRefusal::AlreadyRunning)
    );
    assert_eq!(admit_selection(&ready, true, Some("s"), "s", true, true), Ok(None));
    assert_eq!(
        admit_selection(&ready, true, Some("old"), "s", false, false),
        Ok(Some("old".to_string()))
    );
    assert_eq!(admit_selection(&ready, true, None, "s", false, false), Ok(None));
}
