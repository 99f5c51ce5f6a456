//! The remoteproc control plane: load a firmware name into the remote
//! processor's sysfs `firmware` attribute and drive its `state`
//! attribute between `offline` and `running` with the literal
//! commands `start` and `stop`.
//!
//! The manager holds the two attribute paths.  There is no client-side
//! state machine: the kernel is the source of truth, so each operation
//! is one sysfs write whose outcome is judged by [`crate::sysfs`].

use vstd::prelude::*;
use vstd::string::{StringExecFns, StringSliceAdditionalSpecFns};
use crate::strutil::str_bytes_to_vec;
use crate::sysfs::{SysfsWriteRequest, SystemFileHandlerError};

verus! {

/// Why a remoteproc operation failed.
#[derive(Debug, Clone, PartialEq, Eq)]
pub enum RemoteprocManagerError {
    /// The platform has no remote processor under this id: one of the
    /// two sysfs attributes is missing.
    RemoteprocNotPresent { remoteproc_id: String },
    /// Writing the firmware name failed.
    FailedToLoadFirmware { firmware_name: String, source: SystemFileHandlerError },
    /// Writing a state command (`start` or `stop`) failed.
    FailedToOperateFirmware { operation: String, source: SystemFileHandlerError },
}

/// The manager of one remote processor, identified by its
/// `remoteproc` id.  It is an immutable pair of sysfs attribute
/// paths: `firmware` accepts a firmware file name, `state` accepts
/// the literal commands `start` and `stop`.
#[derive(Debug)]
pub struct RemoteprocManager {
    pub firmware_path_str: String,
    pub state_path_str: String,
}

/// The sysfs path of the `firmware` attribute for a remoteproc id.
pub open spec fn spec_firmware_path(remoteproc_id: Seq<char>) -> Seq<char> {
    "/sys/class/remoteproc/"@ + remoteproc_id + "/firmware"@
}

/// The sysfs path of the `state` attribute for a remoteproc id.
pub open spec fn spec_state_path(remoteproc_id: Seq<char>) -> Seq<char> {
    "/sys/class/remoteproc/"@ + remoteproc_id + "/state"@
}

impl RemoteprocManager {
    /// Initialize the manager for one remoteproc id.  The runtime
    /// reports whether each of the two attribute paths exists; the
    /// manager is built only when both do, and otherwise the platform
    /// does not offer this remote processor.
    pub fn new(remoteproc_id: &str, firmware_attr_present: bool, state_attr_present: bool) -> (r:
        Result<Self, RemoteprocManagerError>)
        ensures
            r is Ok <==> firmware_attr_present && state_attr_present,
            r matches Ok(m) ==> m.firmware_path_str@ == spec_firmware_path(remoteproc_id@)
                && m.state_path_str@ == spec_state_path(remoteproc_id@),
            r matches Err(e) ==> e matches RemoteprocManagerError::RemoteprocNotPresent {
                remoteproc_id: rid,
            } && rid@ == remoteproc_id@,
    {
        if firmware_attr_present && state_attr_present {
            let mut firmware_path_str = String::from_str("/sys/class/remoteproc/");
            firmware_path_str.append(remoteproc_id);
            firmware_path_str.append("/firmware");
            let mut state_path_str = String::from_str("/sys/class/remoteproc/");
            state_path_str.append(remoteproc_id);
            state_path_str.append("/state");
            Ok(RemoteprocManager { firmware_path_str, state_path_str })
        } else {
            Err(
                RemoteprocManagerError::RemoteprocNotPresent {
                    remoteproc_id: String::from_str(remoteproc_id),
                },
            )
        }
    }

    /// The one sysfs write that loads a firmware name: the name's
    /// bytes, to the `firmware` attribute.
    pub fn load_firmware(&self, firmware_name: &str) -> (req: SysfsWriteRequest)
        ensures
            req.path@ == self.firmware_path_str@,
            req.data@ == firmware_name.spec_bytes(),
    {
        SysfsWriteRequest::new(self.firmware_path_str.clone(), str_bytes_to_vec(firmware_name))
    }

    /// The one sysfs write that starts the remote processor: the
    /// literal command `start`, to the `state` attribute.
    pub fn start(&self) -> (req: SysfsWriteRequest)
        ensures
            req.path@ == self.state_path_str@,
            req.data@ == "start".spec_bytes(),
    {
        SysfsWriteRequest::new(self.state_path_str.clone(), str_bytes_to_vec("start"))
    }

    /// The one sysfs write that stops the remote processor: the
    /// literal command `stop`, to the `state` attribute.
    pub fn stop(&self) -> (req: SysfsWriteRequest)
        ensures
            req.path@ == self.state_path_str@,
            req.data@ == "stop".spec_bytes(),
    {
        SysfsWriteRequest::new(self.state_path_str.clone(), str_bytes_to_vec("stop"))
    }

    /// Wrap the sysfs writer's verdict on a firmware load.
    pub fn load_firmware_outcome(firmware_name: &str, r: Result<(), SystemFileHandlerError>) -> (w:
        Result<(), RemoteprocManagerError>)
        ensures
            w is Ok <==> r is Ok,
            r matches Err(e) ==> w matches Err(
                RemoteprocManagerError::FailedToLoadFirmware { firmware_name: n, source },
            ) && n@ == firmware_name@ && source == e,
    {
        match r {
            Ok(()) => Ok(()),
            Err(e) => Err(
                RemoteprocManagerError::FailedToLoadFirmware {
                    firmware_name: String::from_str(firmware_name),
                    source: e,
                },
            ),
        }
    }

    /// Wrap the sysfs writer's verdict on a state command.  A failed
    /// `stop` at shutdown is reported like any other, and the caller
    /// decides that it is non-fatal.
    pub fn operate_outcome(operation: &str, r: Result<(), SystemFileHandlerError>) -> (w: Result<
        (),
        RemoteprocManagerError,
    >)
        ensures
            w is Ok <==> r is Ok,
            r matches Err(e) ==> w matches Err(
                RemoteprocManagerError::FailedToOperateFirmware { operation: o, source },
            ) && o@ == operation@ && source == e,
    {
        match r {
            Ok(()) => Ok(()),
            Err(e) => Err(
                RemoteprocManagerError::FailedToOperateFirmware {
                    operation: String::from_str(operation),
                    source: e,
                },
            ),
        }
    }
}

} // verus!
