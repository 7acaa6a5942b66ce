use kcov_rs::failure::{outcome, report, Failure, Step};
use kcov_rs::protocol::{settled, Control, Event, KCOV_MAGIC};
use kcov_rs::KCOV;
use nix::errno::Errno;

#[test]
fn every_step_has_its_label() {
    assert_eq!(Step::OpenDevice.label(), "Fail to open /sys/kernel/debug/kcov");
    assert_eq!(Step::InitTrace.label(), "Fail to init kcov trace");
    assert_eq!(Step::MapBuffer.label(), "Fail to map kcov");
    assert_eq!(Step::Enable.label(), "Fail to enable kcov trace");
    assert_eq!(Step::Disable.label(), "Fail to disable kcov trace");
    assert_eq!(Step::UnmapBuffer.label(), "Fail to munmap kcov");
    assert_eq!(Step::CloseDevice.label(), "Fail to close");
}

#[test]
fn open_label_names_the_device() {
    assert_eq!(Step::OpenDevice.label(), format!("Fail to open {}", KCOV));
}

#[test]
fn report_joins_label_and_detail() {
    assert_eq!(report(Step::CloseDevice, "EBADF"), "Fail to close: EBADF");
    assert_eq!(report(Step::MapBuffer, ""), "Fail to map kcov: ");
}

#[test]
fn message_names_the_step_and_the_system_error() {
    let failure = Failure { step: Step::CloseDevice, errno: Errno::EBADF as i32 };
    assert_eq!(failure.message(), "Fail to close: EBADF: Bad file number");
    assert_eq!(failure.message(), format!("Fail to close: {}", Errno::EBADF));
    let failure = Failure { step: Step::OpenDevice, errno: Errno::ENOENT as i32 };
    assert_eq!(
        failure.message(),
        "Fail to open /sys/kernel/debug/kcov: ENOENT: No such file or directory"
    );
}

#[test]
fn message_of_an_unknown_code_still_names_the_step() {
    let failure = Failure { step: Step::Enable, errno: -7 };
    let message = failure.message();
    assert!(message.starts_with("Fail to enable kcov trace: "));
    assert!(message["Fail to enable kcov trace: ".len()..].contains(": "));
    assert_eq!(message, "Fail to enable kcov trace: UnknownErrno: Unknown errno");
}

#[test]
fn outcome_of_a_success_is_done() {
    assert_eq!(outcome(0), Event::Done);
    assert_eq!(outcome(17), Event::Done);
    assert_eq!(outcome(-2), Event::Done);
}

#[test]
fn outcome_of_the_sentinel_carries_errno() {
    Errno::EIO.set();
    assert_eq!(outcome(-1), Event::Failed { errno: Errno::EIO as i32 });
    Errno::EINVAL.set();
    assert_eq!(outcome(-1), Event::Failed { errno: 22 });
}

#[test]
fn settled_keeps_the_error_code() {
    assert_eq!(settled(Ok(0)), Event::Done);
    assert_eq!(settled(Ok(5)), Event::Done);
    assert_eq!(settled(Err(13)), Event::Failed { errno: 13 });
}

#[test]
fn control_requests_share_the_tag_and_differ_in_code() {
    let init = Control::InitTrace { capacity: 1024 };
    assert_eq!(KCOV_MAGIC, b'c');
    assert_eq!(init.magic(), b'c');
    assert_eq!(Control::Enable.magic(), b'c');
    assert_eq!(Control::Disable.magic(), b'c');
    assert_eq!(init.code(), 1);
    assert_eq!(Control::Enable.code(), 100);
    assert_eq!(Control::Disable.code(), 101);
}

#[test]
fn only_init_carries_a_word() {
    let init = Control::InitTrace { capacity: 1024 };
    assert!(init.sized());
    assert_eq!(init.argument(), 1024);
    assert!(!Control::Enable.sized());
    assert_eq!(Control::Enable.argument(), 0);
    assert!(!Control::Disable.sized());
    assert_eq!(Control::Disable.argument(), 0);
}

#[test]
fn device_path_is_the_debug_interface() {
    assert_eq!(KCOV, "/sys/kernel/debug/kcov");
}
