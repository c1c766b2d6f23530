use firecracker::cpu_config::{template_format, TemplateFormat};
use firecracker::serial::{
    after_buffer_ready, after_receive, after_registration, init_registrations, on_event,
    on_would_block, receive_capacity, single_byte_access, ReceiveError, Registration,
    RegistrationAction, SerialAction, WouldBlockAction,
};
use firecracker::vmm::{
    check_restore_input, construct_kvm_mpidrs, dump_cpu_config_outcome, restore_vcpus_outcome,
    vcpus_exit_code, vcpus_paused, vcpus_resumed, DumpCpuConfigError, FcExitCode, RestoreVcpusError,
    VcpuResponse,
};

type Answer = Option<VcpuResponse<u8, u32>>;

#[test]
fn exit_codes() {
    assert_eq!(FcExitCode::Success.code(), 0);
    assert_eq!(FcExitCode::GenericError.code(), 1);
    assert_eq!(FcExitCode::BadSyscall.code(), 148);
    assert_eq!(FcExitCode::BadConfiguration.code(), 152);
    assert_eq!(FcExitCode::SIGILL.code(), 157);
}

#[test]
fn kvm_mpidrs() {
    let mpidrs = [0x0000_0000_8000_0000u64, 0x0000_0012_0034_5678];
    assert_eq!(
        construct_kvm_mpidrs(&mpidrs),
        vec![0, 0x1234_5678_0000_0000]
    );
}

#[test]
fn serial_decisions() {
    assert_eq!(on_event(-1, 4, 4), SerialAction::ReportNoInput);
    assert_eq!(on_event(3, 4, 4), SerialAction::ConsumeBufferReady);
    assert_eq!(on_event(3, 4, 3), SerialAction::Receive);
    assert_eq!(after_buffer_ready(false), SerialAction::DetachBoth);
    assert_eq!(after_buffer_ready(true), SerialAction::Receive);
    assert_eq!(after_receive(3, 3, Ok(0)), SerialAction::DetachBoth);
    assert_eq!(after_receive(3, 4, Ok(0)), SerialAction::Done);
    assert_eq!(after_receive(3, 3, Ok(5)), SerialAction::Done);
    assert_eq!(after_receive(3, 3, Err(ReceiveError::NoBufferSpace)), SerialAction::DetachInput);
    assert_eq!(after_receive(3, 3, Err(ReceiveError::WouldBlock)), SerialAction::HandleWouldBlock);
    assert_eq!(after_receive(3, 3, Err(ReceiveError::NoInput)), SerialAction::DetachBoth);
    assert_eq!(receive_capacity(0, true), Err(ReceiveError::NoBufferSpace));
    assert_eq!(receive_capacity(64, false), Err(ReceiveError::NoInput));
    assert_eq!(receive_capacity(64, true), Ok(64));
}

#[test]
fn template_formats() {
    assert_eq!(template_format(None), TemplateFormat::Binary);
    assert_eq!(template_format(Some(b"json")), TemplateFormat::Json);
    assert_eq!(template_format(Some(b"JSON")), TemplateFormat::Json);
    assert_eq!(template_format(Some(b"yaml")), TemplateFormat::Invalid);
    assert_eq!(template_format(Some(b"jsonx")), TemplateFormat::Invalid);
}

#[test]
fn pause_and_resume_answers() {
    let paused: Vec<Answer> = vec![Some(VcpuResponse::Paused), Some(VcpuResponse::Paused)];
    assert!(vcpus_paused(&paused));
    assert!(!vcpus_resumed(&paused));
    let late: Vec<Answer> = vec![Some(VcpuResponse::Resumed), None];
    assert!(!vcpus_resumed(&late));
    let resumed: Vec<Answer> = vec![Some(VcpuResponse::Resumed)];
    assert!(vcpus_resumed(&resumed));
    let none: Vec<Answer> = vec![];
    assert!(vcpus_paused(&none));
    let exited: Vec<Answer> = vec![Some(VcpuResponse::Exited(FcExitCode::Success))];
    assert!(!vcpus_paused(&exited));
}

#[test]
fn restore_answers() {
    assert_eq!(check_restore_input(2, 3), Err(RestoreVcpusError::InvalidInput));
    assert_eq!(check_restore_input(3, 3), Ok(()));
    let ok: Vec<Answer> = vec![Some(VcpuResponse::RestoredState), Some(VcpuResponse::RestoredState)];
    assert_eq!(restore_vcpus_outcome(&ok), Ok(()));
    let refused: Vec<Answer> = vec![
        Some(VcpuResponse::RestoredState),
        Some(VcpuResponse::NotAllowed(String::from("running"))),
        Some(VcpuResponse::Error),
    ];
    assert_eq!(
        restore_vcpus_outcome(&refused),
        Err(RestoreVcpusError::NotAllowed(String::from("running")))
    );
    let failed: Vec<Answer> = vec![Some(VcpuResponse::Error), Some(VcpuResponse::Paused)];
    assert_eq!(restore_vcpus_outcome(&failed), Err(RestoreVcpusError::RestoreVcpuState));
    // An answer missing in time wins over the others.
    let late: Vec<Answer> = vec![Some(VcpuResponse::Error), None];
    assert_eq!(restore_vcpus_outcome(&late), Err(RestoreVcpusError::UnexpectedVcpuResponse));
    let odd: Vec<Answer> = vec![Some(VcpuResponse::Resumed)];
    assert_eq!(restore_vcpus_outcome(&odd), Err(RestoreVcpusError::UnexpectedVcpuResponse));
}

#[test]
fn dump_answers() {
    let ok: Vec<Answer> = vec![
        Some(VcpuResponse::DumpedCpuConfig(7)),
        Some(VcpuResponse::DumpedCpuConfig(9)),
    ];
    assert_eq!(dump_cpu_config_outcome(ok), Ok(vec![7, 9]));
    let refused: Vec<Answer> = vec![
        Some(VcpuResponse::DumpedCpuConfig(7)),
        Some(VcpuResponse::NotAllowed(String::from("paused"))),
    ];
    assert_eq!(
        dump_cpu_config_outcome(refused),
        Err(DumpCpuConfigError::NotAllowed(String::from("paused")))
    );
    let failed: Vec<Answer> = vec![Some(VcpuResponse::Error)];
    assert_eq!(dump_cpu_config_outcome(failed), Err(DumpCpuConfigError::DumpCpuConfig));
    let late: Vec<Answer> = vec![Some(VcpuResponse::DumpedCpuConfig(1)), None];
    assert_eq!(dump_cpu_config_outcome(late), Err(DumpCpuConfigError::UnexpectedResponse));
    let odd: Vec<Answer> = vec![Some(VcpuResponse::SavedState(3))];
    assert_eq!(dump_cpu_config_outcome(odd), Err(DumpCpuConfigError::UnexpectedResponse));
    let none: Vec<Answer> = vec![];
    assert_eq!(dump_cpu_config_outcome(none), Ok(vec![]));
}

#[test]
fn serial_registrations() {
    assert_eq!(on_would_block(-1, 4), WouldBlockAction::ReportNoInput);
    assert_eq!(on_would_block(3, -1), WouldBlockAction::ReportNoInput);
    assert_eq!(on_would_block(3, 4), WouldBlockAction::RegisterInput);
    assert_eq!(after_registration(Registration::Registered), RegistrationAction::SignalBufferReady);
    assert_eq!(after_registration(Registration::AlreadyRegistered), RegistrationAction::Done);
    assert_eq!(after_registration(Registration::Failed), RegistrationAction::ReportFailure);
    assert_eq!(init_registrations(true, true, 3), (true, true));
    assert_eq!(init_registrations(true, true, -1), (false, true));
    assert_eq!(init_registrations(true, false, 3), (false, false));
    assert_eq!(init_registrations(false, true, 3), (false, false));
    assert!(single_byte_access(1));
    assert!(!single_byte_access(2));
    assert!(!single_byte_access(0));
}

#[test]
fn aarch64_syscall_numbers() {
    let table = firecracker::syscall_table::syscall_entries();
    assert_eq!(table.len(), 296);
    let find = |name: &str| table.iter().find(|(n, _)| *n == name).map(|(_, v)| *v);
    assert_eq!(find("accept4"), Some(242));
    assert_eq!(find("read"), Some(63));
    assert_eq!(find("write"), Some(64));
    assert_eq!(find("exit_group"), Some(94));
    assert_eq!(find("not_a_syscall"), None);
    let mut names: Vec<&str> = table.iter().map(|(n, _)| *n).collect();
    names.sort_unstable();
    names.dedup();
    assert_eq!(names.len(), 296);
}

#[test]
fn exit_code_of_vcpus() {
    let none: Vec<Answer> = vec![];
    assert_eq!(vcpus_exit_code(&none), FcExitCode::Success);
    let answers: Vec<Answer> = vec![
        None,
        Some(VcpuResponse::Paused),
        Some(VcpuResponse::Exited(FcExitCode::SIGBUS)),
        Some(VcpuResponse::Exited(FcExitCode::GenericError)),
    ];
    assert_eq!(vcpus_exit_code(&answers), FcExitCode::SIGBUS);
    let quiet: Vec<Answer> = vec![None, Some(VcpuResponse::Resumed)];
    assert_eq!(vcpus_exit_code(&quiet), FcExitCode::Success);
}

#[test]
fn syscall_table_numbers_and_names_distinct() {
    let table = firecracker::syscall_table::syscall_entries();
    let mut numbers: Vec<i64> = table.iter().map(|(_, n)| *n).collect();
    assert!(numbers.iter().all(|n| (0..=440).contains(n)));
    numbers.sort();
    numbers.dedup();
    assert_eq!(numbers.len(), table.len());
    let mut names: Vec<&str> = table.iter().map(|(s, _)| *s).collect();
    names.sort();
    names.dedup();
    assert_eq!(names.len(), table.len());
}
