use rpmsg_async_notify::sysfs::{SysfsOutcome, SysfsWriteRequest, SystemFileHandlerError};

#[test]
fn full_write_succeeds() {
    let req = SysfsWriteRequest::new("/sys/class/remoteproc/remoteproc0/state".to_string(),
        b"start".to_vec());
    assert_eq!(req.complete(SysfsOutcome::Written { count: 5 }), Ok(()));
}

#[test]
fn short_write_detected() {
    // a writer that accepts n-1 bytes of an n-byte input
    let data = b"echo_test.elf".to_vec();
    let n = data.len();
    let req = SysfsWriteRequest::new("/sys/class/remoteproc/remoteproc0/firmware".to_string(),
        data);
    let err = req.complete(SysfsOutcome::Written { count: n - 1 }).unwrap_err();
    assert_eq!(
        err,
        SystemFileHandlerError::SysfsWriteShort {
            fpath: "/sys/class/remoteproc/remoteproc0/firmware".to_string(),
            expected: n,
            written: n - 1,
        }
    );
}

#[test]
fn absent_attribute_reported() {
    let req = SysfsWriteRequest::new("/sys/class/remoteproc/ghost/state".to_string(),
        b"start".to_vec());
    let err = req.complete(SysfsOutcome::Absent).unwrap_err();
    assert_eq!(
        err,
        SystemFileHandlerError::SysfsAbsent {
            fpath: "/sys/class/remoteproc/ghost/state".to_string()
        }
    );
}

#[test]
fn open_and_write_failures_carry_errno() {
    let req = SysfsWriteRequest::new("/sys/x".to_string(), b"y".to_vec());
    assert_eq!(
        req.complete(SysfsOutcome::OpenFailed { errno: 13 }),
        Err(SystemFileHandlerError::SysfsOpenFailed { fpath: "/sys/x".to_string(), errno: 13 })
    );
    assert_eq!(
        req.complete(SysfsOutcome::WriteFailed { errno: 5 }),
        Err(SystemFileHandlerError::SysfsWriteFailed { fpath: "/sys/x".to_string(), errno: 5 })
    );
}
