use native_ipc::bootstrap::error::BootstrapError;
use native_ipc::bootstrap::identity::{
    captured_identity, captured_task, TaskAuditIdentity, TaskLookup,
};
use native_ipc::mach::{decode_audit_token, encode_audit_token, AuditToken};
use native_ipc::wait_status::{
    exact_target_exit, traced_stop_signal, wait_status_is_clean_exit, ExactTargetExit, SIGKILL,
    SIGSTOP,
};

#[test]
fn audit_token_decode_preserves_native_words() {
    let values = [1_u32, 2, 3, 4, 5, 6, 7, 8];
    let mut bytes = [0_u8; 32];
    for (destination, value) in bytes.chunks_exact_mut(4).zip(values) {
        destination.copy_from_slice(&value.to_ne_bytes());
    }
    assert_eq!(decode_audit_token(bytes).values, values);
}

#[test]
fn audit_token_round_trips() {
    let token = AuditToken {
        values: [0, u32::MAX, 0x0102_0304, 7, 8, 9, 10, 0x8000_0001],
    };
    let bytes = encode_audit_token(token);
    assert_eq!(&bytes[8..12], &[4, 3, 2, 1]);
    assert_eq!(decode_audit_token(bytes), token);
}

#[test]
fn terminal_status_decoder_distinguishes_exit_and_signal() {
    assert_eq!(
        exact_target_exit(23 << 8),
        Some(ExactTargetExit::Exited(23))
    );
    assert_eq!(
        exact_target_exit(SIGKILL),
        Some(ExactTargetExit::Signaled(SIGKILL))
    );
    assert_eq!(exact_target_exit((SIGSTOP << 8) | 0x7f), None);
}

#[test]
fn stops_and_ends_are_told_apart() {
    assert_eq!(traced_stop_signal((SIGSTOP << 8) | 0x7f), Some(17));
    assert_eq!(traced_stop_signal(23 << 8), None);
    assert_eq!(traced_stop_signal(SIGKILL), None);
    assert!(wait_status_is_clean_exit(0));
    assert!(!wait_status_is_clean_exit(1 << 8));
    assert!(!wait_status_is_clean_exit(SIGKILL));
}

#[test]
fn process_image_identity_requires_exact_pid_credentials_and_path() {
    let identity = TaskAuditIdentity {
        audit: AuditToken {
            values: [0, 0, 0, 0, 0, 42, 0, 7],
        },
        executable: b"/fixed-launcher".to_vec(),
    };
    assert!(identity.proves_exact_process_image(42, 0, 0, 0, 0, b"/fixed-launcher"));
    assert!(!identity.proves_exact_process_image(41, 0, 0, 0, 0, b"/fixed-launcher"));
    assert!(!identity.proves_exact_process_image(42, 501, 0, 0, 0, b"/fixed-launcher"));
    assert!(!identity.proves_exact_process_image(42, 0, 501, 0, 0, b"/fixed-launcher"));
    assert!(!identity.proves_exact_process_image(42, 0, 0, 20, 0, b"/fixed-launcher"));
    assert!(!identity.proves_exact_process_image(42, 0, 0, 0, 20, b"/fixed-launcher"));
    assert!(!identity.proves_exact_process_image(42, 0, 0, 0, 0, b"/substitute"));
}

#[test]
fn exec_identity_requires_real_and_effective_ids_and_exact_path() {
    let before = TaskAuditIdentity {
        audit: AuditToken {
            values: [0, 0, 0, 0, 0, 42, 0, 7],
        },
        executable: b"/before".to_vec(),
    };
    let partial_drop = TaskAuditIdentity {
        audit: AuditToken {
            values: [0, 501, 20, 0, 0, 42, 0, 8],
        },
        executable: b"/expected".to_vec(),
    };
    assert!(!partial_drop.proves_exec_transition_from(&before, 42, 501, 20, b"/expected"));

    let complete_drop = TaskAuditIdentity {
        audit: AuditToken {
            values: [0, 501, 20, 501, 20, 42, 0, 8],
        },
        executable: b"/expected".to_vec(),
    };
    assert!(complete_drop.proves_exec_transition_from(&before, 42, 501, 20, b"/expected"));
    assert!(!complete_drop.proves_exec_transition_from(&before, 42, 501, 20, b"/substitute"));
}

#[test]
fn a_process_is_no_exec_of_itself() {
    let identity = TaskAuditIdentity {
        audit: AuditToken {
            values: [0, 501, 20, 501, 20, 42, 0, 8],
        },
        executable: b"/expected".to_vec(),
    };
    assert!(!identity.proves_exec_transition_from(&identity, 42, 501, 20, b"/expected"));
}

fn lookup() -> TaskLookup {
    TaskLookup {
        lookup_status: 0,
        name: 0x103,
        info_status: 0,
        count: 8,
        audit: AuditToken {
            values: [1, 2, 3, 4, 5, 42, 7, 8],
        },
    }
}

#[test]
fn a_task_is_captured_only_as_its_own_process() {
    assert_eq!(captured_task(42, lookup()), Ok(lookup().audit));
    assert_eq!(
        captured_task(43, lookup()),
        Err(BootstrapError::WrongPeer {
            expected: 43,
            actual: 42
        })
    );
    let mut failed = lookup();
    failed.lookup_status = 5;
    assert_eq!(
        captured_task(42, failed),
        Err(BootstrapError::Mach {
            operation: "task_name_for_pid",
            code: 5
        })
    );
    let mut null = lookup();
    null.name = 0;
    assert_eq!(captured_task(42, null), Err(BootstrapError::InvalidMessage));
    let mut unknown = lookup();
    unknown.info_status = -3;
    assert_eq!(
        captured_task(42, unknown),
        Err(BootstrapError::Mach {
            operation: "task_info(TASK_AUDIT_TOKEN)",
            code: -3
        })
    );
    let mut short = lookup();
    short.count = 7;
    assert_eq!(captured_task(42, short), Err(BootstrapError::InvalidMessage));
}

#[test]
fn a_captured_path_ends_at_its_nul() {
    let audit = lookup().audit;
    let identity = captured_identity(audit, 5, b"/bin\0rest").ok().unwrap();
    assert_eq!(identity.executable, b"/bin");
    assert_eq!(identity.audit, audit);
    assert!(matches!(
        captured_identity(audit, 0, b"\0rest"),
        Err(BootstrapError::InvalidMessage)
    ));
    assert!(captured_identity(audit, 4, b"/bin").is_err());
}
