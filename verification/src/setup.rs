//! Channel setup as a verified state machine.  Bringing a channel up
//! is a fixed sequence of interactions with the kernel: await the
//! device node, bind the character driver with two sysfs writes, find
//! and open the control interface, create the endpoint by ioctl, and
//! locate and open the endpoint device.
//!
//! Each state names the one outside action the runtime owes next
//! ([`ChannelSetup::action`]); the runtime performs it and hands the
//! outcome to [`ChannelSetup::step`], which decides the transition
//! exactly: which state follows, which tie-break picks an entry, and
//! which error ends setup.

use vstd::prelude::*;
use vstd::string::StringExecFns;
use vstd::bytes::spec_u32_to_le_bytes;
use vstd::utf8::encode_utf8;
use crate::channel::{
    control_interface_dir, dev_path, register_rpmsg_driver_for_device, rpmsg_device_name,
    rpmsg_device_path, search_control_interface, search_endpoint_path_by_name, spec_cand,
    spec_ctrl_match, spec_device_name, spec_ept_match, spec_name_encoded, spec_name_ok,
    ChannelError, OctRPMsgChannel, OpenOutcome, RPMsgEndpoint, RPMsgEndpointInfo,
    ENDPOINT_SCAN_LIMIT,
};
use crate::strutil::spec_decimal;
use crate::sysfs::{SysfsWriteRequest, SystemFileHandlerError};
use crate::RPMSG_ADDR_ANY;

verus! {

/// Everything one channel bring-up is parameterised by: the name
/// parts of the rpmsg device, the character driver to bind, and the
/// endpoint addresses for the create ioctl.
#[derive(Debug)]
pub struct SetupParams {
    pub virtio_id: String,
    pub channel_name: String,
    pub version_number: String,
    pub driver_name: String,
    pub src_addr: u32,
    pub dst_addr: u32,
}

/// The parameters the channel type uses: the legacy character driver
/// and "any address" for both endpoint addresses.
pub fn instantiate_params(channel_name: String, virtio_id: String, version_number: String) -> (r:
    SetupParams)
    ensures
        r.virtio_id == virtio_id,
        r.channel_name == channel_name,
        r.version_number == version_number,
        r.driver_name@ == "rpmsg_chrdev"@,
        r.src_addr == RPMSG_ADDR_ANY,
        r.dst_addr == RPMSG_ADDR_ANY,
{
    SetupParams {
        virtio_id,
        channel_name,
        version_number,
        driver_name: String::from_str("rpmsg_chrdev"),
        src_addr: RPMSG_ADDR_ANY,
        dst_addr: RPMSG_ADDR_ANY,
    }
}

/// Begin the bring-up the async-notify experiment performs: the
/// notifying character driver, and the "any address" sentinel for
/// both endpoint addresses of the create ioctl.  The returned state
/// machine, run to completion, yields the open channel.
pub fn prepare_environment(channel_name: String, virtio_id: String, version_number: String) -> (r:
    ChannelSetup)
    ensures
        r.wf(),
        r matches ChannelSetup::AwaitDevice { params, device_name } && params.channel_name
            == channel_name && params.virtio_id == virtio_id && params.version_number
            == version_number && params.driver_name@ == "rpmsg_char_notify"@ && params.src_addr
            == RPMSG_ADDR_ANY && params.dst_addr == RPMSG_ADDR_ANY && device_name@
            == spec_device_name(virtio_id@, channel_name@, version_number@),
{
    let params = SetupParams {
        virtio_id,
        channel_name,
        version_number,
        driver_name: String::from_str("rpmsg_char_notify"),
        src_addr: RPMSG_ADDR_ANY,
        dst_addr: RPMSG_ADDR_ANY,
    };
    ChannelSetup::begin(params)
}

/// The one outside action the runtime owes the current state.
#[derive(Debug)]
pub enum SetupAction {
    /// Report whether this sysfs node exists.
    CheckDevice { path: String },
    /// Perform this sysfs attribute write.
    WriteSysfs { request: SysfsWriteRequest },
    /// List the entries of this directory.
    ListDirectory { path: String },
    /// Open this node read/write and report the descriptor.
    OpenControl { path: String },
    /// Issue the endpoint-create ioctl on this descriptor with this
    /// argument.
    CreateEndpointIoctl { fd: i32, descriptor: Vec<u8> },
    /// Read the candidate endpoint name files of this control
    /// interface, indices zero up to the scan limit.
    ProbeEndpointNames { ctrl_interface_name: String },
    /// Open this endpoint device read/write and non-blocking.
    OpenEndpointDevice { path: String },
    /// Setup is finished; there is nothing left to do.
    Complete,
}

/// What the runtime reports back for one action.
pub enum SetupEvent {
    DevicePresent { present: bool },
    SysfsDone { result: Result<(), SystemFileHandlerError> },
    DirectoryListing { entries: Vec<String> },
    ControlOpened { result: Result<i32, i32> },
    IoctlDone { result: Result<i32, i32> },
    EndpointCandidates { candidates: Vec<Option<Vec<u8>>> },
    EndpointOpened { outcome: OpenOutcome },
}

/// The states of one channel bring-up, in the order they are passed.
#[derive(Debug)]
pub enum ChannelSetup {
    /// Await the device node under the rpmsg bus.
    AwaitDevice { params: SetupParams, device_name: String },
    /// Write the driver name into the device's `driver_override`.
    OverrideDriver { params: SetupParams, device_name: String },
    /// Write the device name into the driver's `bind`.
    BindDevice { params: SetupParams, device_name: String },
    /// Enumerate the device's `rpmsg` directory for a control
    /// interface.
    FindCtrl { params: SetupParams, device_name: String },
    /// Open the control node under `/dev`.
    OpenCtrl { params: SetupParams, device_name: String, ctrl_interface_name: String },
    /// Issue the endpoint-create ioctl on the control descriptor.
    CreateEndpoint {
        params: SetupParams,
        device_name: String,
        ctrl_interface_name: String,
        ctrl_fd: i32,
        info: RPMsgEndpointInfo,
    },
    /// Scan the control interface's name registry for the endpoint.
    LocateEndpoint {
        params: SetupParams,
        device_name: String,
        ctrl_interface_name: String,
        ctrl_fd: i32,
    },
    /// Open the resolved endpoint device.
    OpenEndpoint {
        params: SetupParams,
        device_name: String,
        ctrl_interface_name: String,
        ctrl_fd: i32,
        endpoint_path: String,
    },
    /// The channel is up.
    Ready { channel: OctRPMsgChannel },
}

/// The control-interface tie-break: `name` is the first entry, in
/// enumeration order, that contains the control prefix.
pub open spec fn spec_first_ctrl(entries: Seq<String>, name: String) -> bool {
    exists|i: int|
        0 <= i < entries.len() && name == entries[i] && #[trigger] spec_ctrl_match(
            entries[i]@,
            "rpmsg_ctrl"@,
        ) && (forall|j: int| 0 <= j < i ==> !spec_ctrl_match(entries[j]@, "rpmsg_ctrl"@))
}

/// Whether any directory entry names a control interface.
pub open spec fn spec_has_ctrl(entries: Seq<String>) -> bool {
    exists|i: int| 0 <= i < entries.len() && #[trigger] spec_ctrl_match(entries[i]@, "rpmsg_ctrl"@)
}

/// The endpoint tie-break: `path` is `/dev/rpmsg<i>` for the lowest
/// index within the scan limit whose name file advertises the name.
pub open spec fn spec_first_ept(
    candidates: Seq<Option<Vec<u8>>>,
    name_bytes: Seq<u8>,
    path: String,
) -> bool {
    exists|i: int|
        0 <= i < ENDPOINT_SCAN_LIMIT && #[trigger] spec_ept_match(
            spec_cand(candidates, i),
            name_bytes,
        ) && path@ == "/dev/rpmsg"@ + spec_decimal(i as nat) && (forall|j: int|
            0 <= j < i ==> !spec_ept_match(spec_cand(candidates, j), name_bytes))
}

/// Whether any scanned index advertises the endpoint name.
pub open spec fn spec_has_ept(candidates: Seq<Option<Vec<u8>>>, name_bytes: Seq<u8>) -> bool {
    exists|i: int|
        0 <= i < ENDPOINT_SCAN_LIMIT && #[trigger] spec_ept_match(
            spec_cand(candidates, i),
            name_bytes,
        )
}

/// Which event answers which state.
pub open spec fn spec_expects(pre: ChannelSetup, event: SetupEvent) -> bool {
    match (pre, event) {
        (ChannelSetup::AwaitDevice { .. }, SetupEvent::DevicePresent { .. }) => true,
        (ChannelSetup::OverrideDriver { .. }, SetupEvent::SysfsDone { .. }) => true,
        (ChannelSetup::BindDevice { .. }, SetupEvent::SysfsDone { .. }) => true,
        (ChannelSetup::FindCtrl { .. }, SetupEvent::DirectoryListing { .. }) => true,
        (ChannelSetup::OpenCtrl { .. }, SetupEvent::ControlOpened { .. }) => true,
        (ChannelSetup::CreateEndpoint { .. }, SetupEvent::IoctlDone { .. }) => true,
        (ChannelSetup::LocateEndpoint { .. }, SetupEvent::EndpointCandidates { .. }) => true,
        (ChannelSetup::OpenEndpoint { .. }, SetupEvent::EndpointOpened { .. }) => true,
        _ => false,
    }
}

/// The exact transition relation of channel setup.
pub open spec fn spec_setup_step(
    pre: ChannelSetup,
    event: SetupEvent,
    r: Result<ChannelSetup, ChannelError>,
) -> bool {
    match (pre, event) {
        (
            ChannelSetup::AwaitDevice { params, device_name },
            SetupEvent::DevicePresent { present },
        ) => if present {
            r == Result::<ChannelSetup, ChannelError>::Ok(
                ChannelSetup::OverrideDriver { params, device_name },
            )
        } else {
            r == Result::<ChannelSetup, ChannelError>::Err(
                ChannelError::RpmsgDeviceMissing { device_name },
            )
        },
        (
            ChannelSetup::OverrideDriver { params, device_name },
            SetupEvent::SysfsDone { result },
        ) => match result {
            Ok(()) => r == Result::<ChannelSetup, ChannelError>::Ok(
                ChannelSetup::BindDevice { params, device_name },
            ),
            Err(e) => r == Result::<ChannelSetup, ChannelError>::Err(
                ChannelError::Sysfs { source: e },
            ),
        },
        (ChannelSetup::BindDevice { params, device_name }, SetupEvent::SysfsDone { result }) => {
            match result {
                Ok(()) => r == Result::<ChannelSetup, ChannelError>::Ok(
                    ChannelSetup::FindCtrl { params, device_name },
                ),
                Err(e) => r == Result::<ChannelSetup, ChannelError>::Err(
                    ChannelError::Sysfs { source: e },
                ),
            }
        },
        (
            ChannelSetup::FindCtrl { params, device_name },
            SetupEvent::DirectoryListing { entries },
        ) => if spec_has_ctrl(entries@) {
            r matches Ok(next) && next matches ChannelSetup::OpenCtrl {
                params: p,
                device_name: d,
                ctrl_interface_name,
            } && p == params && d == device_name && spec_first_ctrl(entries@, ctrl_interface_name)
        } else {
            r == Result::<ChannelSetup, ChannelError>::Err(ChannelError::CtrlInterfaceNotFound)
        },
        (
            ChannelSetup::OpenCtrl { params, device_name, ctrl_interface_name },
            SetupEvent::ControlOpened { result },
        ) => match result {
            Err(errno) => r matches Err(ChannelError::FailedToOpenFileError { path, errno: e })
                && path@ == "/dev/"@ + ctrl_interface_name@ && e == errno,
            Ok(fd) => if spec_name_ok(encode_utf8(params.channel_name@)) {
                r matches Ok(next) && next matches ChannelSetup::CreateEndpoint {
                    params: p,
                    device_name: d,
                    ctrl_interface_name: c,
                    ctrl_fd,
                    info,
                } && p == params && d == device_name && c == ctrl_interface_name && ctrl_fd == fd
                    && info.wf() && info.src == params.src_addr && info.dst == params.dst_addr
                    && spec_name_encoded(encode_utf8(params.channel_name@), info.name@)
            } else {
                r matches Err(e) && ((e matches ChannelError::EndpointNameTooLong { length }
                    && length == encode_utf8(params.channel_name@).len() && length > 31) || (
                e matches ChannelError::EndpointNameNonAscii { num } && num > 127))
            },
        },
        (
            ChannelSetup::CreateEndpoint { params, device_name, ctrl_interface_name, ctrl_fd, info },
            SetupEvent::IoctlDone { result },
        ) => match result {
            Err(errno) => r == Result::<ChannelSetup, ChannelError>::Err(
                ChannelError::IoctlFailed { errno },
            ),
            Ok(ret) => if ret == -1 {
                r == Result::<ChannelSetup, ChannelError>::Err(
                    ChannelError::EndpointCreateFailed { endpoint_name: params.channel_name },
                )
            } else {
                r == Result::<ChannelSetup, ChannelError>::Ok(
                    ChannelSetup::LocateEndpoint {
                        params,
                        device_name,
                        ctrl_interface_name,
                        ctrl_fd,
                    },
                )
            },
        },
        (
            ChannelSetup::LocateEndpoint { params, device_name, ctrl_interface_name, ctrl_fd },
            SetupEvent::EndpointCandidates { candidates },
        ) => if spec_has_ept(candidates@, encode_utf8(params.channel_name@)) {
            r matches Ok(next) && next matches ChannelSetup::OpenEndpoint {
                params: p,
                device_name: d,
                ctrl_interface_name: c,
                ctrl_fd: f,
                endpoint_path,
            } && p == params && d == device_name && c == ctrl_interface_name && f == ctrl_fd
                && spec_first_ept(candidates@, encode_utf8(params.channel_name@), endpoint_path)
        } else {
            r matches Err(ChannelError::EndpointNotFound { endpoint_name }) && endpoint_name@
                == params.channel_name@
        },
        (
            ChannelSetup::OpenEndpoint {
                params,
                device_name,
                ctrl_interface_name,
                ctrl_fd,
                endpoint_path,
            },
            SetupEvent::EndpointOpened { outcome },
        ) => match outcome {
            OpenOutcome::Opened { fd } => r == Result::<ChannelSetup, ChannelError>::Ok(
                ChannelSetup::Ready {
                    channel: OctRPMsgChannel {
                        rpmsg_device_name: device_name,
                        ctrl_interface_name,
                        ctrl_interface_handler: ctrl_fd,
                        endpoint: RPMsgEndpoint { name: endpoint_path, endpoint_handler: fd },
                    },
                },
            ),
            OpenOutcome::Absent => r == Result::<ChannelSetup, ChannelError>::Err(
                ChannelError::EndpointNotFound { endpoint_name: endpoint_path },
            ),
            OpenOutcome::OpenFailed { errno } => r == Result::<ChannelSetup, ChannelError>::Err(
                ChannelError::EndpointOpenFailed { path: endpoint_path, errno },
            ),
        },
        _ => true,
    }
}

/// The happy path, composed: starting from the initial state, if the
/// device is present, both driver-binding writes succeed, the
/// directory listing offers a control interface, the control node
/// opens, the create ioctl succeeds, some scanned index advertises
/// the channel name, and the endpoint device opens, then the machine
/// ends `Ready`, and the channel it yields is exactly the one the
/// steps describe: the device name of the start state, the first
/// matching control interface, the lowest advertising endpoint index,
/// and the two descriptors the runtime reported.
pub proof fn lemma_setup_happy_path(
    s0: ChannelSetup,
    s1: ChannelSetup,
    s2: ChannelSetup,
    s3: ChannelSetup,
    s4: ChannelSetup,
    s5: ChannelSetup,
    s6: ChannelSetup,
    s7: ChannelSetup,
    s8: ChannelSetup,
    entries: Vec<String>,
    ctrl_fd: i32,
    ioctl_ret: i32,
    candidates: Vec<Option<Vec<u8>>>,
    endpoint_fd: i32,
)
    requires
        s0 is AwaitDevice,
        spec_setup_step(s0, SetupEvent::DevicePresent { present: true }, Ok(s1)),
        spec_setup_step(s1, SetupEvent::SysfsDone { result: Ok(()) }, Ok(s2)),
        spec_setup_step(s2, SetupEvent::SysfsDone { result: Ok(()) }, Ok(s3)),
        spec_setup_step(s3, SetupEvent::DirectoryListing { entries }, Ok(s4)),
        spec_setup_step(s4, SetupEvent::ControlOpened { result: Ok(ctrl_fd) }, Ok(s5)),
        spec_setup_step(s5, SetupEvent::IoctlDone { result: Ok(ioctl_ret) }, Ok(s6)),
        spec_setup_step(s6, SetupEvent::EndpointCandidates { candidates }, Ok(s7)),
        spec_setup_step(
            s7,
            SetupEvent::EndpointOpened { outcome: (OpenOutcome::Opened { fd: endpoint_fd }) },
            Ok(s8),
        ),
    ensures
        s0 matches ChannelSetup::AwaitDevice { params, device_name } ==> (
        s8 matches ChannelSetup::Ready { channel } && channel.rpmsg_device_name == device_name
            && channel.ctrl_interface_handler == ctrl_fd && channel.endpoint.endpoint_handler
            == endpoint_fd && spec_first_ctrl(entries@, channel.ctrl_interface_name)
            && spec_first_ept(
            candidates@,
            encode_utf8(params.channel_name@),
            channel.endpoint.name,
        )),
{
    match s0 {
        ChannelSetup::AwaitDevice { params, device_name } => {
            assert(s1 == ChannelSetup::OverrideDriver { params, device_name });
            assert(s2 == ChannelSetup::BindDevice { params, device_name });
            assert(s3 == ChannelSetup::FindCtrl { params, device_name });
            assert(s4 matches ChannelSetup::OpenCtrl {
                params: p4,
                device_name: d4,
                ctrl_interface_name,
            } && p4 == params && d4 == device_name && spec_first_ctrl(
                entries@,
                ctrl_interface_name,
            ));
            match s4 {
                ChannelSetup::OpenCtrl { ctrl_interface_name, .. } => {
                    assert(s5 matches ChannelSetup::CreateEndpoint {
                        params: p5,
                        device_name: d5,
                        ctrl_interface_name: c5,
                        ctrl_fd: f5,
                        info,
                    } && p5 == params && d5 == device_name && c5 == ctrl_interface_name && f5
                        == ctrl_fd);
                    assert(s6 == ChannelSetup::LocateEndpoint {
                        params,
                        device_name,
                        ctrl_interface_name,
                        ctrl_fd,
                    });
                    match s7 {
                        ChannelSetup::OpenEndpoint { endpoint_path, .. } => {
                            assert(spec_first_ept(
                                candidates@,
                                encode_utf8(params.channel_name@),
                                endpoint_path,
                            ));
                            assert(s8 == ChannelSetup::Ready {
                                channel: OctRPMsgChannel {
                                    rpmsg_device_name: device_name,
                                    ctrl_interface_name,
                                    ctrl_interface_handler: ctrl_fd,
                                    endpoint: RPMsgEndpoint {
                                        name: endpoint_path,
                                        endpoint_handler: endpoint_fd,
                                    },
                                },
                            });
                        },
                        _ => {
                            assert(false);
                        },
                    }
                },
                _ => {
                    assert(false);
                },
            }
        },
        _ => {},
    }
}

impl ChannelSetup {
    /// The descriptor a state carries is always well-formed.
    pub open spec fn wf(&self) -> bool {
        match self {
            ChannelSetup::CreateEndpoint { info, .. } => info.wf(),
            _ => true,
        }
    }

    /// Start one bring-up: the first thing to establish is that the
    /// kernel has advertised the device.
    pub fn begin(params: SetupParams) -> (r: ChannelSetup)
        ensures
            r.wf(),
            r matches ChannelSetup::AwaitDevice { params: p, device_name } && p == params
                && device_name@ == spec_device_name(
                params.virtio_id@,
                params.channel_name@,
                params.version_number@,
            ),
    {
        let device_name = rpmsg_device_name(
            params.virtio_id.as_str(),
            params.channel_name.as_str(),
            params.version_number.as_str(),
        );
        ChannelSetup::AwaitDevice { params, device_name }
    }

    /// Advance one state on the outcome the runtime reports.
    pub fn step(self, event: SetupEvent) -> (r: Result<ChannelSetup, ChannelError>)
        requires
            self.wf(),
            spec_expects(self, event),
        ensures
            spec_setup_step(self, event, r),
            r matches Ok(next) ==> next.wf(),
    {
        match (self, event) {
            (
                ChannelSetup::AwaitDevice { params, device_name },
                SetupEvent::DevicePresent { present },
            ) => {
                if present {
                    Ok(ChannelSetup::OverrideDriver { params, device_name })
                } else {
                    Err(ChannelError::RpmsgDeviceMissing { device_name })
                }
            },
            (
                ChannelSetup::OverrideDriver { params, device_name },
                SetupEvent::SysfsDone { result },
            ) => {
                match result {
                    Ok(()) => Ok(ChannelSetup::BindDevice { params, device_name }),
                    Err(e) => Err(ChannelError::Sysfs { source: e }),
                }
            },
            (
                ChannelSetup::BindDevice { params, device_name },
                SetupEvent::SysfsDone { result },
            ) => {
                match result {
                    Ok(()) => Ok(ChannelSetup::FindCtrl { params, device_name }),
                    Err(e) => Err(ChannelError::Sysfs { source: e }),
                }
            },
            (
                ChannelSetup::FindCtrl { params, device_name },
                SetupEvent::DirectoryListing { entries },
            ) => {
                match search_control_interface(&entries, "rpmsg_ctrl") {
                    Ok(ctrl_interface_name) => Ok(
                        ChannelSetup::OpenCtrl { params, device_name, ctrl_interface_name },
                    ),
                    Err(e) => Err(e),
                }
            },
            (
                ChannelSetup::OpenCtrl { params, device_name, ctrl_interface_name },
                SetupEvent::ControlOpened { result },
            ) => {
                match result {
                    Err(errno) => Err(
                        ChannelError::FailedToOpenFileError {
                            path: dev_path(ctrl_interface_name.as_str()),
                            errno,
                        },
                    ),
                    Ok(fd) => {
                        match RPMsgEndpointInfo::new(
                            params.channel_name.as_str(),
                            params.src_addr,
                            params.dst_addr,
                        ) {
                            Ok(info) => Ok(
                                ChannelSetup::CreateEndpoint {
                                    params,
                                    device_name,
                                    ctrl_interface_name,
                                    ctrl_fd: fd,
                                    info,
                                },
                            ),
                            Err(e) => Err(e),
                        }
                    },
                }
            },
            (
                ChannelSetup::CreateEndpoint {
                    params,
                    device_name,
                    ctrl_interface_name,
                    ctrl_fd,
                    info: _,
                },
                SetupEvent::IoctlDone { result },
            ) => {
                match result {
                    Err(errno) => Err(ChannelError::IoctlFailed { errno }),
                    Ok(ret) => {
                        if ret == -1 {
                            Err(
                                ChannelError::EndpointCreateFailed {
                                    endpoint_name: params.channel_name,
                                },
                            )
                        } else {
                            Ok(
                                ChannelSetup::LocateEndpoint {
                                    params,
                                    device_name,
                                    ctrl_interface_name,
                                    ctrl_fd,
                                },
                            )
                        }
                    },
                }
            },
            (
                ChannelSetup::LocateEndpoint { params, device_name, ctrl_interface_name, ctrl_fd },
                SetupEvent::EndpointCandidates { candidates },
            ) => {
                match search_endpoint_path_by_name(params.channel_name.as_str(), &candidates) {
                    Ok(endpoint_path) => Ok(
                        ChannelSetup::OpenEndpoint {
                            params,
                            device_name,
                            ctrl_interface_name,
                            ctrl_fd,
                            endpoint_path,
                        },
                    ),
                    Err(e) => Err(e),
                }
            },
            (
                ChannelSetup::OpenEndpoint {
                    params: _,
                    device_name,
                    ctrl_interface_name,
                    ctrl_fd,
                    endpoint_path,
                },
                SetupEvent::EndpointOpened { outcome },
            ) => {
                match RPMsgEndpoint::new(endpoint_path, outcome) {
                    Ok(endpoint) => Ok(
                        ChannelSetup::Ready {
                            channel: OctRPMsgChannel {
                                rpmsg_device_name: device_name,
                                ctrl_interface_name,
                                ctrl_interface_handler: ctrl_fd,
                                endpoint,
                            },
                        },
                    ),
                    Err(e) => Err(e),
                }
            },
            _ => {
                proof {
                    assert(false);
                }
                Err(ChannelError::CtrlInterfaceNotFound)
            },
        }
    }

    /// The one outside action the runtime owes this state.
    pub fn action(&self) -> (r: SetupAction)
        requires
            self.wf(),
        ensures
            self matches ChannelSetup::AwaitDevice { device_name, .. } ==> (
            r matches SetupAction::CheckDevice { path } && path@ == "/sys/bus/rpmsg/devices/"@
                + device_name@),
            self matches ChannelSetup::OverrideDriver { params, device_name } ==> (
            r matches SetupAction::WriteSysfs { request } && request.path@
                == "/sys/bus/rpmsg/devices/"@ + device_name@ + "/driver_override"@ && request.data@
                == encode_utf8(params.driver_name@)),
            self matches ChannelSetup::BindDevice { params, device_name } ==> (
            r matches SetupAction::WriteSysfs { request } && request.path@
                == "/sys/bus/rpmsg/drivers/"@ + params.driver_name@ + "/bind"@ && request.data@
                == encode_utf8(device_name@)),
            self matches ChannelSetup::FindCtrl { device_name, .. } ==> (
            r matches SetupAction::ListDirectory { path } && path@ == "/sys/bus/rpmsg/devices/"@
                + device_name@ + "/rpmsg"@),
            self matches ChannelSetup::OpenCtrl { ctrl_interface_name, .. } ==> (
            r matches SetupAction::OpenControl { path } && path@ == "/dev/"@
                + ctrl_interface_name@),
            self matches ChannelSetup::CreateEndpoint { ctrl_fd, info, .. } ==> (
            r matches SetupAction::CreateEndpointIoctl { fd, descriptor } && fd == ctrl_fd
                && descriptor@ == info.name@ + spec_u32_to_le_bytes(info.src)
                + spec_u32_to_le_bytes(info.dst)),
            self matches ChannelSetup::LocateEndpoint { ctrl_interface_name, .. } ==> (
            r matches SetupAction::ProbeEndpointNames { ctrl_interface_name: c } && c
                == ctrl_interface_name),
            self matches ChannelSetup::OpenEndpoint { endpoint_path, .. } ==> (
            r matches SetupAction::OpenEndpointDevice { path } && path == endpoint_path),
            self matches ChannelSetup::Ready { .. } ==> r matches SetupAction::Complete,
    {
        match self {
            ChannelSetup::AwaitDevice { device_name, .. } => SetupAction::CheckDevice {
                path: rpmsg_device_path(device_name.as_str()),
            },
            ChannelSetup::OverrideDriver { params, device_name } => {
                let (override_request, _) = register_rpmsg_driver_for_device(
                    device_name.as_str(),
                    params.driver_name.as_str(),
                );
                SetupAction::WriteSysfs { request: override_request }
            },
            ChannelSetup::BindDevice { params, device_name } => {
                let (_, bind_request) = register_rpmsg_driver_for_device(
                    device_name.as_str(),
                    params.driver_name.as_str(),
                );
                SetupAction::WriteSysfs { request: bind_request }
            },
            ChannelSetup::FindCtrl { device_name, .. } => SetupAction::ListDirectory {
                path: control_interface_dir(device_name.as_str()),
            },
            ChannelSetup::OpenCtrl { ctrl_interface_name, .. } => SetupAction::OpenControl {
                path: dev_path(ctrl_interface_name.as_str()),
            },
            ChannelSetup::CreateEndpoint { ctrl_fd, info, .. } => {
                SetupAction::CreateEndpointIoctl { fd: *ctrl_fd, descriptor: info.to_bytes() }
            },
            ChannelSetup::LocateEndpoint { ctrl_interface_name, .. } => {
                SetupAction::ProbeEndpointNames {
                    ctrl_interface_name: ctrl_interface_name.clone(),
                }
            },
            ChannelSetup::OpenEndpoint { endpoint_path, .. } => {
                SetupAction::OpenEndpointDevice { path: endpoint_path.clone() }
            },
            ChannelSetup::Ready { .. } => SetupAction::Complete,
        }
    }
}

} // verus!
