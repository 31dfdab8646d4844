use rencfs_winfsp::context::WinFsContext;
use rencfs_winfsp::error::{io_error, FsError};
use rencfs_winfsp::host::{HostCall, HostEvent, HostReply, HostRequest, Hosting};
use rencfs_winfsp::mount::{
    completed, MountCall, MountHandleInnerImpl, MountPointImpl, MountReply, MountStep,
};
use rencfs_winfsp::request::Step;
use rencfs_winfsp::time::SystemTime;
use rencfs_winfsp::volume::VolumeInfo;
use std::path::PathBuf;

/// A failure of opening that only the file system knows.
#[derive(Debug, PartialEq, Eq)]
enum Failure {
    WrongPassword,
}

/// Runs the thread of a volume whose attempt `failing` fails.
fn host(
    failing: Option<HostRequest>,
    event: Option<HostEvent>,
) -> (Vec<HostRequest>, Result<(), String>) {
    let mut calls: Vec<HostRequest> = Vec::new();
    let mut step = Hosting::start();
    loop {
        match step {
            Step::Call(call, state) => {
                let reply = match &call {
                    HostCall::AwaitEvent => HostReply::Event(event),
                    HostCall::Announce(_) | HostCall::Stop | HostCall::Unmount => HostReply::Done,
                    attempt => HostReply::Attempted(if failing.as_ref() == Some(attempt) {
                        Err("no driver".to_string())
                    } else {
                        Ok(())
                    }),
                };
                calls.push(call);
                step = state.step(reply);
            }
            Step::Done(outcome) => return (calls, outcome),
        }
    }
}

fn point() -> MountPointImpl<&'static str, u8> {
    let mountpoint: PathBuf = PathBuf::from("X:");
    MountPointImpl::new(mountpoint, PathBuf::from("data"), "password", 7, true, false, true)
}

#[test]
fn a_stopped_volume_is_stopped_and_unmounted() {
    let (calls, outcome) = host(None, Some(HostEvent::Stop));
    assert_eq!(
        calls,
        vec![
            HostCall::Initialize,
            HostCall::StartRuntime,
            HostCall::CreateHost,
            HostCall::Mount,
            HostCall::Start,
            HostCall::Announce(Ok(())),
            HostCall::AwaitEvent,
            HostCall::Stop,
            HostCall::Unmount,
        ]
    );
    assert_eq!(outcome, Ok(()));
}

#[test]
fn a_volume_that_windows_gave_up_is_only_unmounted() {
    for event in [Some(HostEvent::DispatcherStopped), None] {
        let (calls, outcome) = host(None, event);
        assert_eq!(calls[6], HostCall::AwaitEvent);
        assert_eq!(calls.len(), 8);
        assert_eq!(calls[7], HostCall::Unmount);
        assert_eq!(outcome, Ok(()));
    }
}

#[test]
fn the_first_failure_is_announced_and_ends_the_thread() {
    let attempts: [HostRequest; 5] = [
        HostCall::Initialize,
        HostCall::StartRuntime,
        HostCall::CreateHost,
        HostCall::Mount,
        HostCall::Start,
    ];
    for (i, attempt) in attempts.into_iter().enumerate() {
        let (calls, outcome) = host(Some(attempt), Some(HostEvent::Stop));
        assert_eq!(calls.len(), i + 2);
        assert_eq!(calls[i + 1], HostCall::Announce(Err("no driver".to_string())));
        assert_eq!(outcome, Err("no driver".to_string()));
    }
}

#[test]
fn the_dispatcher_reports_that_it_stopped() {
    let volume: WinFsContext = WinFsContext { read_only: false };
    assert_eq!(volume.dispatcher_stopped(true), HostEvent::DispatcherStopped);
    assert_eq!(volume.dispatcher_stopped(false), HostEvent::DispatcherStopped);
}

#[test]
fn mounting_opens_then_starts() {
    let (call, state) = match point().mount::<Failure>() {
        Step::Call(call, state) => (call, state),
        Step::Done(_) => panic!("did nothing"),
    };
    match call {
        MountCall::OpenFileSystem { data_dir, password_provider, cipher, read_only } => {
            assert_eq!(data_dir, PathBuf::from("data"));
            assert_eq!((password_provider, cipher, read_only), ("password", 7, true));
        }
        MountCall::StartHost { .. } => panic!("started first"),
    }
    let step: MountStep<&'static str, u8, Failure> = state.step(MountReply::Opened(Ok(())));
    match step {
        Step::Call(MountCall::StartHost { mountpoint, read_only }, state) => {
            assert_eq!((mountpoint, read_only), (PathBuf::from("X:"), true));
            let last: MountStep<&'static str, u8, Failure> =
                state.step(MountReply::Announced(Ok(Ok(()))));
            assert!(matches!(last, Step::Done(Ok(()))));
        }
        _ => panic!("did not start"),
    }
}

#[test]
fn a_file_system_that_does_not_open_is_not_mounted() {
    if let Step::Call(_, state) = point().mount::<Failure>() {
        let step: MountStep<&'static str, u8, Failure> =
            state.step(MountReply::Opened(Err(FsError::ReadOnly)));
        assert!(matches!(step, Step::Done(Err(FsError::ReadOnly))));
    } else {
        panic!("did nothing");
    }
}

#[test]
fn failures_of_opening_are_passed_on_as_they_are() {
    if let Step::Call(_, state) = point().mount::<Failure>() {
        let step: MountStep<&'static str, u8, Failure> =
            state.step(MountReply::Opened(Err(FsError::Other(Failure::WrongPassword))));
        match step {
            Step::Done(outcome) => {
                assert_eq!(outcome, Err(FsError::Other(Failure::WrongPassword)));
            }
            Step::Call(..) => panic!("went on"),
        }
    } else {
        panic!("did nothing");
    }
}

#[test]
fn failed_announcements_become_io_errors() {
    for (announcement, message) in [
        (Ok(Err("no driver".to_string())), "no driver"),
        (Err("channel closed".to_string()), "channel closed"),
    ] {
        if let Step::Call(_, state) = point().mount::<Failure>() {
            let step: MountStep<&'static str, u8, Failure> = state.step(MountReply::Opened(Ok(())));
            match step {
                Step::Call(_, state) => {
                    let last: MountStep<&'static str, u8, Failure> =
                        state.step(MountReply::Announced(announcement));
                    match last {
                        Step::Done(outcome) => {
                            assert_eq!(outcome, Err(io_error(message.to_string())));
                        }
                        Step::Call(..) => panic!("went on"),
                    }
                }
                Step::Done(_) => panic!("did not start"),
            }
        }
    }
}

/// What mounting comes to when the thread's attempt `failing` fails.
fn mounted(failing: Option<HostRequest>) -> Result<(), FsError<Failure>> {
    let (calls, _) = host(failing, Some(HostEvent::Stop));
    let mut announced = calls.into_iter().filter_map(|call| match call {
        HostCall::Announce(result) => Some(result),
        _ => None,
    });
    let announcement = announced.next().unwrap();
    assert!(announced.next().is_none());
    match point().mount::<Failure>() {
        Step::Call(_, state) => {
            let step: MountStep<&'static str, u8, Failure> = state.step(MountReply::Opened(Ok(())));
            match step {
                Step::Call(_, state) => {
                    let last: MountStep<&'static str, u8, Failure> =
                        state.step(MountReply::Announced(Ok(announcement)));
                    match last {
                        Step::Done(outcome) => outcome,
                        Step::Call(..) => panic!("went on"),
                    }
                }
                Step::Done(_) => panic!("did not start"),
            }
        }
        Step::Done(_) => panic!("did nothing"),
    }
}

#[test]
fn mounting_succeeds_if_every_attempt_does() {
    assert_eq!(mounted(None), Ok(()));
    assert_eq!(mounted(Some(HostCall::Mount)), Err(io_error("no driver".to_string())));
    assert_eq!(mounted(Some(HostCall::Initialize)), Err(io_error("no driver".to_string())));
}

#[test]
fn a_mount_point_keeps_its_settings() {
    let point: MountPointImpl<&'static str, u8> = point();
    assert_eq!(point.mountpoint, PathBuf::from("X:"));
    assert_eq!((point._allow_root, point._allow_other, point.read_only), (true, false, true));
}

#[test]
fn stop_is_sent_at_most_once() {
    let mut handle: MountHandleInnerImpl<u8, u16> = MountHandleInnerImpl::new(1, 2);
    assert_eq!(handle.stop(), Some((1, HostEvent::Stop)));
    assert_eq!(handle.stop(), None);
    assert_eq!(handle.done_rx, Some(2));
}

#[test]
fn unmounting_stops_and_waits() {
    let mut handle: MountHandleInnerImpl<u8, u16> = MountHandleInnerImpl::new(1, 2);
    assert_eq!(handle.unmount(), (Some((1, HostEvent::Stop)), Ok(2)));
    assert_eq!(handle.stop(), None);
    assert_eq!(
        handle.unmount(),
        (None, Err("mount completion receiver missing".to_string()))
    );
}

#[test]
fn the_outcome_of_the_thread_is_passed_on() {
    assert_eq!(completed(Ok(Ok(()))), Ok(()));
    assert_eq!(completed(Ok(Err("failed".to_string()))), Err("failed".to_string()));
    assert_eq!(completed(Err("gone".to_string())), Err("gone".to_string()));
}

#[test]
fn polling_waits_for_the_outcome() {
    let handle: MountHandleInnerImpl<u8, u16> = MountHandleInnerImpl::new(1, 2);
    assert_eq!(handle.poll(None), None);
    assert_eq!(handle.poll(Some(Ok(Ok(())))), Some(Ok(())));
    assert_eq!(handle.poll(Some(Err("gone".to_string()))), Some(Err("gone".to_string())));
}

#[test]
fn the_volume_has_a_fixed_size_and_label() {
    let volume: WinFsContext = WinFsContext { read_only: false };
    let mut info: VolumeInfo =
        VolumeInfo { total_size: 1, free_size: 2, volume_label: "other".to_string() };
    assert_eq!(volume.get_volume_info(&mut info), Ok(()));
    assert_eq!((info.total_size, info.free_size), (1_099_511_627_776, 549_755_813_888));
    assert_eq!(info.volume_label, "rencfs");
}

#[test]
fn the_label_cannot_be_changed() {
    let volume: WinFsContext = WinFsContext { read_only: false };
    let mut info: VolumeInfo =
        VolumeInfo { total_size: 1, free_size: 2, volume_label: "other".to_string() };
    let wanted: Vec<u16> = "mine".encode_utf16().collect();
    assert_eq!(volume.set_volume_label(&wanted, &mut info), Ok(()));
    assert_eq!(info.volume_label, "rencfs");
    assert_eq!((info.total_size, info.free_size), (1, 2));
}

#[test]
fn volume_parameters_are_fixed() {
    let now: SystemTime = SystemTime::new(1, 0).unwrap();
    let params = WinFsContext { read_only: true }.volume_params(now);
    assert_eq!((params.sector_size, params.sectors_per_allocation_unit), (512, 8));
    assert_eq!(params.max_component_length, 255);
    assert_eq!(params.volume_creation_time, 116_444_736_010_000_000);
    assert_eq!(params.volume_serial_number, 0x5245_4E43);
    assert_eq!(params.file_info_timeout, 1000);
    assert!(params.case_sensitive_search && params.case_preserved_names && params.unicode_on_disk);
    assert!(!params.persistent_acls);
    assert!(params.read_only_volume);
    assert!(!WinFsContext { read_only: false }.volume_params(now).read_only_volume);
    assert_eq!(params.filesystem_name, "rencfs");
}
