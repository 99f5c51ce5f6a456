use rpmsg_async_notify::remote_proc::{RemoteprocManager, RemoteprocManagerError};
use rpmsg_async_notify::sysfs::{SysfsOutcome, SystemFileHandlerError};

#[test]
fn manager_builds_both_attribute_paths() {
    let mgr = RemoteprocManager::new("remoteproc0", true, true).unwrap();
    assert_eq!(mgr.firmware_path_str, "/sys/class/remoteproc/remoteproc0/firmware");
    assert_eq!(mgr.state_path_str, "/sys/class/remoteproc/remoteproc0/state");
}

#[test]
fn missing_firmware_attribute_means_not_present() {
    let err = RemoteprocManager::new("remoteproc_ghost", false, true).unwrap_err();
    assert_eq!(
        err,
        RemoteprocManagerError::RemoteprocNotPresent {
            remoteproc_id: "remoteproc_ghost".to_string()
        }
    );
}

#[test]
fn missing_state_attribute_means_not_present() {
    let err = RemoteprocManager::new("remoteproc9", true, false).unwrap_err();
    assert!(matches!(err, RemoteprocManagerError::RemoteprocNotPresent { .. }));
}

#[test]
fn load_firmware_writes_the_name_to_the_firmware_attribute() {
    let mgr = RemoteprocManager::new("remoteproc0", true, true).unwrap();
    let req = mgr.load_firmware("echo_test.elf");
    assert_eq!(req.path, "/sys/class/remoteproc/remoteproc0/firmware");
    assert_eq!(req.data, b"echo_test.elf".to_vec());
    let full = req.complete(SysfsOutcome::Written { count: req.data.len() });
    assert_eq!(RemoteprocManager::load_firmware_outcome("echo_test.elf", full), Ok(()));
}

#[test]
fn firmware_short_write_is_fatal() {
    let mgr = RemoteprocManager::new("remoteproc0", true, true).unwrap();
    let req = mgr.load_firmware("echo_test.elf");
    let short = req.complete(SysfsOutcome::Written { count: req.data.len() - 1 });
    let err =
        RemoteprocManager::load_firmware_outcome("echo_test.elf", short).unwrap_err();
    assert!(matches!(
        err,
        RemoteprocManagerError::FailedToLoadFirmware {
            source: SystemFileHandlerError::SysfsWriteShort { .. },
            ..
        }
    ));
}

#[test]
fn start_and_stop_write_the_literal_commands() {
    let mgr = RemoteprocManager::new("remoteproc0", true, true).unwrap();
    let start = mgr.start();
    assert_eq!(start.path, "/sys/class/remoteproc/remoteproc0/state");
    assert_eq!(start.data, b"start".to_vec());
    let stop = mgr.stop();
    assert_eq!(stop.path, "/sys/class/remoteproc/remoteproc0/state");
    assert_eq!(stop.data, b"stop".to_vec());
}

#[test]
fn second_stop_fails_and_is_non_fatal() {
    let mgr = RemoteprocManager::new("remoteproc0", true, true).unwrap();

    // the first stop goes through: the kernel accepts all four bytes
    let stop = mgr.stop();
    let first = stop.complete(SysfsOutcome::Written { count: 4 });
    assert_eq!(RemoteprocManager::operate_outcome("stop", first), Ok(()));

    // a second stop is refused by the already-offline core
    let stop_again = mgr.stop();
    let second = stop_again.complete(SysfsOutcome::WriteFailed { errno: 22 });
    let err = RemoteprocManager::operate_outcome("stop", second).unwrap_err();
    match err {
        RemoteprocManagerError::FailedToOperateFirmware { operation, .. } => {
            assert_eq!(operation, "stop");
            // the harness treats this as a warning and carries on
        },
        other => panic!("unexpected error: {:?}", other),
    }
}
