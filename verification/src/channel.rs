//! The rpmsg channel: the fixed-layout endpoint descriptor handed to
//! the endpoint-create ioctl, the endpoint handle with its byte
//! accounting, and the discovery decisions of channel setup (driver
//! binding, control-interface search, endpoint-device search).
//!
//! Discovery reads directory listings and candidate name files; the
//! runtime gathers those and the verified functions here make every
//! decision about them: which entry is picked, which index wins a
//! tie, and which error reports what was missing.

use vstd::prelude::*;
use vstd::string::{StringExecFns, StringSliceAdditionalSpecFns};
use vstd::bytes::{spec_u32_to_le_bytes, u32_to_le_bytes};
use vstd::utf8::encode_utf8;
use crate::strutil::{
    contains_subslice, matches_stripped, spec_contains_seq, spec_decimal, spec_stripped,
    usize_to_decimal,
};
use crate::sysfs::{SysfsWriteRequest, SystemFileHandlerError};

verus! {

/// The errno the kernel uses for "no data yet" on a non-blocking read.
pub const EAGAIN_ERRNO: i32 = 11;

/// Why a channel operation failed.
#[derive(Debug, Clone, PartialEq, Eq)]
pub enum ChannelError {
    /// The rpmsg device node never appeared under the bus.
    RpmsgDeviceMissing { device_name: String },
    /// A sysfs write during driver binding failed.
    Sysfs { source: SystemFileHandlerError },
    /// No entry of the device's `rpmsg` directory names a control
    /// interface.
    CtrlInterfaceNotFound,
    /// The control node under `/dev` could not be opened.
    FailedToOpenFileError { path: String, errno: i32 },
    /// The endpoint-create ioctl itself failed.
    IoctlFailed { errno: i32 },
    /// The endpoint-create ioctl returned the failure sentinel.
    EndpointCreateFailed { endpoint_name: String },
    /// No index of the control interface advertises the endpoint name.
    EndpointNotFound { endpoint_name: String },
    /// The endpoint device could not be opened.
    EndpointOpenFailed { path: String, errno: i32 },
    /// The write syscall on the endpoint failed.
    EndpointWriteFailed { errno: i32 },
    /// The kernel accepted fewer bytes than the frame holds: rpmsg
    /// never splits a valid frame, so this is a truncation.
    ShortWrite { endpoint_name: String, expected: usize, written: usize },
    /// The read syscall on the endpoint failed.
    EndpointReadFailed { errno: i32 },
    /// No data was available on the non-blocking endpoint.
    WouldBlock,
    /// The kernel delivered a larger frame than the declared capacity.
    MessageBufferOverflow { capacity: usize, message_size: usize },
    /// An endpoint name needs more than the 31 bytes the descriptor
    /// offers (one of its 32 is reserved for the terminator).
    EndpointNameTooLong { length: usize },
    /// An endpoint name byte is not plain ASCII, which would not be
    /// portable to platforms whose kernel character type is signed.
    EndpointNameNonAscii { num: u8 },
    /// A received frame does not parse as an encoded payload.
    DecodeFailed,
}

/// A name is plain ASCII: every byte fits in seven bits.
pub open spec fn spec_name_ascii(s: Seq<u8>) -> bool {
    forall|i: int| 0 <= i < s.len() ==> s[i] <= 127
}

/// A name fits the descriptor: at most 31 bytes, all plain ASCII.
pub open spec fn spec_name_ok(s: Seq<u8>) -> bool {
    s.len() <= 31 && spec_name_ascii(s)
}

/// The name's bytes laid into the fixed 32-byte field: the name
/// first, zero fill after it.
pub open spec fn spec_name_encoded(s: Seq<u8>, field: Seq<u8>) -> bool {
    &&& field.len() == 32
    &&& forall|i: int| 0 <= i < s.len() ==> field[i] == s[i]
    &&& forall|i: int| s.len() <= i < 32 ==> field[i] == 0u8
}

/// The index of the first zero byte, or the length when there is
/// none: the end of the decodable name prefix.
pub open spec fn spec_zero_index(s: Seq<u8>) -> int
    decreases s.len(),
{
    if s.len() == 0 {
        0
    } else if s[0] == 0u8 {
        0
    } else {
        1 + spec_zero_index(s.drop_first())
    }
}

/// What [`spec_zero_index`] is: the unique position with no zero
/// before it that either ends the sequence or holds a zero.
pub proof fn lemma_zero_index_charac(s: Seq<u8>)
    ensures
        0 <= spec_zero_index(s) <= s.len(),
        forall|j: int| 0 <= j < spec_zero_index(s) ==> s[j] != 0u8,
        spec_zero_index(s) < s.len() ==> s[spec_zero_index(s)] == 0u8,
    decreases s.len(),
{
    if s.len() == 0 {
    } else if s[0] == 0u8 {
    } else {
        lemma_zero_index_charac(s.drop_first());
        assert(forall|j: int|
            1 <= j < spec_zero_index(s) ==> s[j] == s.drop_first()[j - 1] && s.drop_first()[j - 1]
                != 0u8);
    }
}

/// The descriptor the endpoint-create ioctl takes: a fixed 32-byte
/// zero-padded name and a source and destination address, with
/// `0xffffffff` the "any address" sentinel.
#[derive(Debug, Clone)]
pub struct RPMsgEndpointInfo {
    pub name: Vec<u8>,
    pub src: u32,
    pub dst: u32,
}

impl RPMsgEndpointInfo {
    /// The name field always holds exactly its 32 bytes.
    pub open spec fn wf(&self) -> bool {
        self.name@.len() == 32
    }

    /// Build the descriptor for a channel name.  The name must stay
    /// plain ASCII and leave room for the terminator; the first
    /// non-ASCII byte is reported before an excessive length is.
    pub fn new(channel_name: &str, src: u32, dst: u32) -> (r: Result<
        RPMsgEndpointInfo,
        ChannelError,
    >)
        ensures
            r is Ok <==> spec_name_ok(channel_name.spec_bytes()),
            r matches Ok(info) ==> (info.wf() && info.src == src && info.dst == dst
                && spec_name_encoded(channel_name.spec_bytes(), info.name@)),
            !spec_name_ascii(channel_name.spec_bytes()) ==> r matches Err(
                ChannelError::EndpointNameNonAscii { .. },
            ),
            spec_name_ascii(channel_name.spec_bytes()) && channel_name.spec_bytes().len() > 31
                ==> (r matches Err(ChannelError::EndpointNameTooLong { length }) && length
                == channel_name.spec_bytes().len()),
            r matches Err(ChannelError::EndpointNameNonAscii { num }) ==> exists|i: int|
                0 <= i < channel_name.spec_bytes().len() && channel_name.spec_bytes()[i] == num
                    && num > 127 && (forall|j: int|
                    0 <= j < i ==> channel_name.spec_bytes()[j] <= 127),
    {
        let bytes = channel_name.as_bytes();
        let mut i: usize = 0;
        while i < bytes.len()
            invariant
                bytes@ == channel_name.spec_bytes(),
                i <= bytes@.len(),
                forall|j: int| 0 <= j < i ==> bytes@[j] <= 127,
            decreases bytes@.len() - i,
        {
            if bytes[i] > 127 {
                return Err(ChannelError::EndpointNameNonAscii { num: bytes[i] });
            }
            i = i + 1;
        }
        if bytes.len() > 31 {
            return Err(ChannelError::EndpointNameTooLong { length: bytes.len() });
        }
        let mut name: Vec<u8> = Vec::new();
        let mut k: usize = 0;
        while k < 32
            invariant
                bytes@.len() <= 31,
                k <= 32,
                name@.len() == k,
                forall|j: int| 0 <= j < k && j < bytes@.len() ==> name@[j] == bytes@[j],
                forall|j: int| bytes@.len() <= j < k ==> name@[j] == 0u8,
            decreases 32 - k,
        {
            if k < bytes.len() {
                name.push(bytes[k]);
            } else {
                name.push(0u8);
            }
            k = k + 1;
        }
        Ok(RPMsgEndpointInfo { name, src, dst })
    }

    /// The decodable part of the name field: its bytes before the
    /// first zero.
    pub fn name_prefix(&self) -> (r: Vec<u8>)
        ensures
            r@ == self.name@.take(spec_zero_index(self.name@)),
    {
        proof {
            lemma_zero_index_charac(self.name@);
        }
        let mut idx: usize = 0;
        while idx < self.name.len() && self.name[idx] != 0u8
            invariant
                idx <= self.name@.len(),
                forall|j: int| 0 <= j < idx ==> self.name@[j] != 0u8,
            decreases self.name@.len() - idx,
        {
            idx = idx + 1;
        }
        proof {
            let z = spec_zero_index(self.name@);
            if idx < z {
                assert(self.name@[idx as int] != 0u8);
            }
            if z < idx {
                assert(self.name@[z] != 0u8);
            }
            assert(idx == z);
        }
        let mut r: Vec<u8> = Vec::new();
        let mut i: usize = 0;
        while i < idx
            invariant
                idx <= self.name@.len(),
                i <= idx,
                r@ == self.name@.subrange(0, i as int),
            decreases idx - i,
        {
            r.push(self.name[i]);
            proof {
                assert(r@ =~= self.name@.subrange(0, i + 1 as int));
            }
            i = i + 1;
        }
        proof {
            assert(r@ =~= self.name@.take(spec_zero_index(self.name@)));
        }
        r
    }

    /// The exact 40 bytes the kernel expects for this descriptor: the
    /// 32-byte name field, then the source and destination addresses,
    /// each as the four little-endian bytes the targeted platforms
    /// lay a `u32` out as.
    pub fn to_bytes(&self) -> (r: Vec<u8>)
        requires
            self.wf(),
        ensures
            r@ == self.name@ + spec_u32_to_le_bytes(self.src) + spec_u32_to_le_bytes(self.dst),
            r@.len() == 40,
    {
        let mut r = self.name.clone();
        proof {
            assert(r@ =~= self.name@);
        }
        let mut src_bytes = u32_to_le_bytes(self.src);
        let mut dst_bytes = u32_to_le_bytes(self.dst);
        r.append(&mut src_bytes);
        r.append(&mut dst_bytes);
        r
    }
}

/// Decoding the name field of a descriptor built from a name without
/// zero bytes gives that name back: the encoding loses nothing.
pub proof fn lemma_name_round_trip(s: Seq<u8>, field: Seq<u8>)
    requires
        s.len() <= 31,
        forall|i: int| 0 <= i < s.len() ==> s[i] != 0u8,
        spec_name_encoded(s, field),
    ensures
        field.take(spec_zero_index(field)) == s,
{
    lemma_zero_index_charac(field);
    let z = spec_zero_index(field);
    if z < s.len() {
        assert(field[z] == s[z]);
    }
    if s.len() < z {
        assert(field[s.len() as int] == 0u8);
    }
    assert(z == s.len());
    assert(field.take(z) =~= s);
}

/// What the operating system reported for one attempted `open`.
#[derive(Debug, Clone, Copy, PartialEq, Eq)]
pub enum OpenOutcome {
    /// The path does not exist.
    Absent,
    /// The file was opened and this descriptor returned.
    Opened { fd: i32 },
    /// `open` failed with this errno.
    OpenFailed { errno: i32 },
}

/// The endpoint created by the rpmsg character driver: the path it
/// was opened under and the non-blocking read/write file descriptor.
#[derive(Debug, Clone)]
pub struct RPMsgEndpoint {
    pub name: String,
    pub endpoint_handler: i32,
}


/// The verdict the endpoint reaches for one frame write, given what
/// the `write` syscall returned: success exactly when every byte was
/// accepted, a short count reported as truncation, and an errno
/// passed through.
pub open spec fn spec_send_judgement(
    endpoint_name: String,
    message: Seq<u8>,
    write_result: Result<usize, i32>,
    r: Result<(), ChannelError>,
) -> bool {
    match write_result {
        Ok(n) => if n == message.len() {
            r is Ok
        } else {
            r == Result::<(), ChannelError>::Err(
                ChannelError::ShortWrite {
                    endpoint_name,
                    expected: message.len() as usize,
                    written: n,
                },
            )
        },
        Err(e) => r == Result::<(), ChannelError>::Err(
            ChannelError::EndpointWriteFailed { errno: e },
        ),
    }
}

/// The verdict the endpoint reaches for one frame read, given the
/// scratch buffer and count the `read` syscall returned: no data is
/// the normal would-block case, a frame over the declared capacity is
/// an overflow, and otherwise exactly the read bytes come back.
pub open spec fn spec_read_judgement(
    capacity: usize,
    raw: Result<(Vec<u8>, usize), i32>,
    r: Result<Vec<u8>, ChannelError>,
) -> bool {
    match raw {
        Err(e) => if e == EAGAIN_ERRNO {
            r == Result::<Vec<u8>, ChannelError>::Err(ChannelError::WouldBlock)
        } else {
            r == Result::<Vec<u8>, ChannelError>::Err(
                ChannelError::EndpointReadFailed { errno: e },
            )
        },
        Ok(b) => if b.1 > capacity {
            r == Result::<Vec<u8>, ChannelError>::Err(
                ChannelError::MessageBufferOverflow { capacity, message_size: b.1 },
            )
        } else {
            r matches Ok(data) && data@ == b.0@.subrange(0, b.1 as int)
        },
    }
}

impl RPMsgEndpoint {
    /// Adopt the endpoint device the runtime tried to open
    /// read/write and non-blocking under the resolved path.
    pub fn new(endpoint_name: String, opened: OpenOutcome) -> (r: Result<
        RPMsgEndpoint,
        ChannelError,
    >)
        ensures
            r is Ok <==> opened matches OpenOutcome::Opened { .. },
            opened matches OpenOutcome::Opened { fd } ==> (r matches Ok(ep) && ep.name
                == endpoint_name && ep.endpoint_handler == fd),
            opened matches OpenOutcome::Absent ==> (r matches Err(
                ChannelError::EndpointNotFound { endpoint_name: n },
            ) && n == endpoint_name),
            opened matches OpenOutcome::OpenFailed { errno } ==> (r matches Err(
                ChannelError::EndpointOpenFailed { path, errno: e },
            ) && path == endpoint_name && e == errno),
    {
        match opened {
            OpenOutcome::Opened { fd } => Ok(
                RPMsgEndpoint { name: endpoint_name, endpoint_handler: fd },
            ),
            OpenOutcome::Absent => Err(ChannelError::EndpointNotFound { endpoint_name }),
            OpenOutcome::OpenFailed { errno } => Err(
                ChannelError::EndpointOpenFailed { path: endpoint_name, errno },
            ),
        }
    }

    /// Account for one non-blocking `write` of a frame: the send
    /// succeeded only if the kernel accepted every byte, since rpmsg
    /// never performs partial sends for valid frames.
    pub fn send(&mut self, message: &[u8], write_result: Result<usize, i32>) -> (r: Result<
        (),
        ChannelError,
    >)
        ensures
            *final(self) == *old(self),
            r is Ok <==> write_result == Ok::<usize, i32>(message@.len() as usize),
            spec_send_judgement(old(self).name, message@, write_result, r),
    {
        match write_result {
            Ok(bytes_sent) => {
                if bytes_sent == message.len() {
                    Ok(())
                } else {
                    Err(
                        ChannelError::ShortWrite {
                            endpoint_name: self.name.clone(),
                            expected: message.len(),
                            written: bytes_sent,
                        },
                    )
                }
            },
            Err(errno) => Err(ChannelError::EndpointWriteFailed { errno }),
        }
    }

    /// Account for one non-blocking `read` into a scratch buffer of
    /// `raw.0` with `raw.1` bytes filled: no data is the normal
    /// would-block case, a frame over the declared capacity is an
    /// overflow, and otherwise exactly the read bytes come back.
    pub fn read(&mut self, capacity: usize, raw: Result<(Vec<u8>, usize), i32>) -> (r: Result<
        Vec<u8>,
        ChannelError,
    >)
        requires
            raw matches Ok(b) ==> b.1 <= b.0@.len(),
        ensures
            *final(self) == *old(self),
            spec_read_judgement(capacity, raw, r),
    {
        match raw {
            Err(errno) => {
                if errno == EAGAIN_ERRNO {
                    Err(ChannelError::WouldBlock)
                } else {
                    Err(ChannelError::EndpointReadFailed { errno })
                }
            },
            Ok((mut buf, size)) => {
                if size > capacity {
                    Err(ChannelError::MessageBufferOverflow { capacity, message_size: size })
                } else {
                    buf.truncate(size);
                    Ok(buf)
                }
            },
        }
    }
}

/// The rpmsg device name the kernel advertises for a channel:
/// `<virtio>.<channel>.-<version>`.
pub open spec fn spec_device_name(
    virtio_id: Seq<char>,
    channel_name: Seq<char>,
    version_number: Seq<char>,
) -> Seq<char> {
    virtio_id + "."@ + channel_name + ".-"@ + version_number
}

/// Build the rpmsg device name for a channel.
pub fn rpmsg_device_name(virtio_id: &str, channel_name: &str, version_number: &str) -> (r: String)
    ensures
        r@ == spec_device_name(virtio_id@, channel_name@, version_number@),
{
    let mut r = String::from_str(virtio_id);
    r.append(".");
    r.append(channel_name);
    r.append(".-");
    r.append(version_number);
    r
}

/// The sysfs node whose existence says the device has appeared.
pub fn rpmsg_device_path(device_name: &str) -> (r: String)
    ensures
        r@ == "/sys/bus/rpmsg/devices/"@ + device_name@,
{
    let mut r = String::from_str("/sys/bus/rpmsg/devices/");
    r.append(device_name);
    r
}

/// The two sysfs writes that bind a driver to an rpmsg device: the
/// driver's name into the device's `driver_override`, then the
/// device's name into the driver's `bind`.
pub fn register_rpmsg_driver_for_device(device_name: &str, driver_name: &str) -> (r: (
    SysfsWriteRequest,
    SysfsWriteRequest,
))
    ensures
        r.0.path@ == "/sys/bus/rpmsg/devices/"@ + device_name@ + "/driver_override"@,
        r.0.data@ == driver_name.spec_bytes(),
        r.1.path@ == "/sys/bus/rpmsg/drivers/"@ + driver_name@ + "/bind"@,
        r.1.data@ == device_name.spec_bytes(),
{
    let mut override_path = String::from_str("/sys/bus/rpmsg/devices/");
    override_path.append(device_name);
    override_path.append("/driver_override");
    let mut bind_path = String::from_str("/sys/bus/rpmsg/drivers/");
    bind_path.append(driver_name);
    bind_path.append("/bind");
    (
        SysfsWriteRequest::new(override_path, crate::strutil::str_bytes_to_vec(driver_name)),
        SysfsWriteRequest::new(bind_path, crate::strutil::str_bytes_to_vec(device_name)),
    )
}

/// The directory whose entries name the interfaces the bound driver
/// exposed for a device.
pub fn control_interface_dir(device_name: &str) -> (r: String)
    ensures
        r@ == "/sys/bus/rpmsg/devices/"@ + device_name@ + "/rpmsg"@,
{
    let mut r = String::from_str("/sys/bus/rpmsg/devices/");
    r.append(device_name);
    r.append("/rpmsg");
    r
}

/// Whether a directory entry names a control interface: the prefix
/// occurs somewhere in its UTF-8 bytes.
pub open spec fn spec_ctrl_match(entry: Seq<char>, ctrl_prefix: Seq<char>) -> bool {
    spec_contains_seq(encode_utf8(entry), encode_utf8(ctrl_prefix))
}

/// Pick the control interface from the entries of the device's
/// `rpmsg` directory: the first entry, in enumeration order, whose
/// name contains the control prefix.
pub fn search_control_interface(entries: &Vec<String>, ctrl_prefix: &str) -> (r: Result<
    String,
    ChannelError,
>)
    ensures
        r matches Ok(name) ==> exists|i: int|
            0 <= i < entries@.len() && name == entries@[i] && #[trigger] spec_ctrl_match(
                entries@[i]@,
                ctrl_prefix@,
            ) && (forall|j: int| 0 <= j < i ==> !spec_ctrl_match(entries@[j]@, ctrl_prefix@)),
        r matches Err(e) ==> (e == ChannelError::CtrlInterfaceNotFound && (forall|i: int|
            0 <= i < entries@.len() ==> !spec_ctrl_match(entries@[i]@, ctrl_prefix@))),
{
    let prefix_bytes = ctrl_prefix.as_bytes();
    let mut i: usize = 0;
    while i < entries.len()
        invariant
            i <= entries@.len(),
            prefix_bytes@ == encode_utf8(ctrl_prefix@),
            forall|j: int| 0 <= j < i ==> !spec_ctrl_match(entries@[j]@, ctrl_prefix@),
        decreases entries@.len() - i,
    {
        let entry: &String = &entries[i];
        if contains_subslice(entry.as_str().as_bytes(), prefix_bytes) {
            proof {
                assert(spec_ctrl_match(entries@[i as int]@, ctrl_prefix@));
            }
            return Ok(entry.clone());
        }
        i = i + 1;
    }
    Err(ChannelError::CtrlInterfaceNotFound)
}

/// The path of a named node under `/dev`.
pub fn dev_path(name: &str) -> (r: String)
    ensures
        r@ == "/dev/"@ + name@,
{
    let mut r = String::from_str("/dev/");
    r.append(name);
    r
}

/// The sysfs file that advertises the name of a control interface's
/// endpoint at one index.
pub fn endpoint_name_registry_path(ctrl_interface_name: &str, i: usize) -> (r: String)
    ensures
        r@ == "/sys/class/rpmsg/"@ + ctrl_interface_name@ + "/rpmsg"@ + spec_decimal(i as nat)
            + "/name"@,
{
    let mut r = String::from_str("/sys/class/rpmsg/");
    r.append(ctrl_interface_name);
    r.append("/rpmsg");
    let digits = usize_to_decimal(i);
    r.append(digits.as_str());
    r.append("/name");
    r
}

/// Whether a candidate name file's content advertises the endpoint:
/// present, and equal to the name once its trailing newline is
/// stripped.
pub open spec fn spec_ept_match(candidate: Option<Vec<u8>>, name: Seq<u8>) -> bool {
    candidate matches Some(content) && spec_stripped(content@) == name
}

/// The candidate at an index, with every index past the listing
/// absent.
pub open spec fn spec_cand(candidates: Seq<Option<Vec<u8>>>, i: int) -> Option<Vec<u8>> {
    if 0 <= i < candidates.len() {
        candidates[i]
    } else {
        None
    }
}

/// How many endpoint indices the control interface is scanned for.
pub const ENDPOINT_SCAN_LIMIT: usize = 128;

/// Resolve the device node of a created endpoint: scan the indices
/// `0..128` of the control interface's name registry and return
/// `/dev/rpmsg<i>` for the lowest index whose name file, stripped of
/// its trailing newline, equals the endpoint name.  `candidates[i]`
/// is the content of the name file at index `i`, absent where the
/// file is.
pub fn search_endpoint_path_by_name(endpoint_name: &str, candidates: &Vec<Option<Vec<u8>>>) -> (r:
    Result<String, ChannelError>)
    ensures
        r matches Ok(path) ==> exists|i: int|
            0 <= i < ENDPOINT_SCAN_LIMIT && #[trigger] spec_ept_match(
                spec_cand(candidates@, i),
                endpoint_name.spec_bytes(),
            ) && path@ == "/dev/rpmsg"@ + spec_decimal(i as nat) && (forall|j: int|
                0 <= j < i ==> !spec_ept_match(
                    spec_cand(candidates@, j),
                    endpoint_name.spec_bytes(),
                )),
        r matches Err(e) ==> (e matches ChannelError::EndpointNotFound { endpoint_name: n } && n@
            == endpoint_name@) && (forall|i: int|
            0 <= i < ENDPOINT_SCAN_LIMIT ==> !spec_ept_match(
                spec_cand(candidates@, i),
                endpoint_name.spec_bytes(),
            )),
{
    let name_bytes = endpoint_name.as_bytes();
    let mut i: usize = 0;
    while i < ENDPOINT_SCAN_LIMIT
        invariant
            i <= ENDPOINT_SCAN_LIMIT,
            name_bytes@ == endpoint_name.spec_bytes(),
            forall|j: int|
                0 <= j < i ==> !spec_ept_match(
                    #[trigger] spec_cand(candidates@, j),
                    endpoint_name.spec_bytes(),
                ),
        decreases ENDPOINT_SCAN_LIMIT - i,
    {
        if i < candidates.len() {
            let candidate: &Option<Vec<u8>> = &candidates[i];
            match candidate {
                Some(content) => {
                    if matches_stripped(content, name_bytes) {
                        proof {
                            assert(spec_cand(candidates@, i as int) == candidates@[i as int]);
                            assert(spec_ept_match(
                                spec_cand(candidates@, i as int),
                                endpoint_name.spec_bytes(),
                            ));
                        }
                        let mut path = String::from_str("/dev/rpmsg");
                        let digits = usize_to_decimal(i);
                        path.append(digits.as_str());
                        return Ok(path);
                    }
                },
                None => {},
            }
        }
        i = i + 1;
    }
    Err(ChannelError::EndpointNotFound { endpoint_name: String::from_str(endpoint_name) })
}

/// An open rpmsg channel: the device it rides on, the control
/// interface that created its endpoint, the control node's file
/// descriptor (held open for the channel's whole life to keep the
/// endpoint alive), and the endpoint itself.
#[derive(Debug)]
pub struct OctRPMsgChannel {
    pub rpmsg_device_name: String,
    pub ctrl_interface_name: String,
    pub ctrl_interface_handler: i32,
    pub endpoint: RPMsgEndpoint,
}

impl OctRPMsgChannel {
    /// Send one frame through the endpoint; the runtime's write
    /// result is judged by the endpoint's byte accounting.
    pub fn send(&mut self, message: &[u8], write_result: Result<usize, i32>) -> (r: Result<
        (),
        ChannelError,
    >)
        ensures
            *final(self) == *old(self),
            r is Ok <==> write_result == Ok::<usize, i32>(message@.len() as usize),
            spec_send_judgement(old(self).endpoint.name, message@, write_result, r),
    {
        self.endpoint.send(message, write_result)
    }

    /// Read one frame from the endpoint; the runtime's read result is
    /// judged by the endpoint's byte accounting.
    pub fn read(&mut self, capacity: usize, raw: Result<(Vec<u8>, usize), i32>) -> (r: Result<
        Vec<u8>,
        ChannelError,
    >)
        requires
            raw matches Ok(b) ==> b.1 <= b.0@.len(),
        ensures
            *final(self) == *old(self),
            spec_read_judgement(capacity, raw, r),
    {
        self.endpoint.read(capacity, raw)
    }
}

} // verus!
