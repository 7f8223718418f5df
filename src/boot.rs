use vstd::prelude::*;
use vstd::slice::slice_subrange;

use crate::args::{IDENTIFIER_TAG, open_args, open_args_spec, read_args, read_args_spec};
use crate::cbor::{MajorType, decode_header, header_spec};

verus! {

/// The host's error code for a failure with no more specific cause; an `open` that finds no file
/// ends with it.
pub const ERROR_OTHER: i32 = -12;

/// The CBOR simple value `null`, which a `read` returns at the end of the file.
pub const NULL_SIMPLE_VALUE: u64 = 22;

/// The size of the buffer for the EEPROM's data: 256 bytes of data and the CBOR around them.
pub const EEPROM_REPLY_CAPACITY: usize = 300;

/// The size of the buffer for an `open` reply: a descriptor, or a null and the path.
pub const OPEN_REPLY_CAPACITY: usize = 42;

/// The size of the buffer for a `read` reply: one chunk and the CBOR around it.
pub const READ_REPLY_CAPACITY: usize = 16416;

/// A 16-byte device address (a binary UUID).
#[derive(Clone, Copy, Debug)]
pub struct Address {
    pub bytes: [u8; 16],
}

impl Address {
    /// The address whose bytes are the 16 bytes of `s`.
    pub fn from_slice(s: &[u8]) -> (r: Address)
        requires
            s@.len() == 16,
        ensures
            r.bytes@ == s@,
    {
        let bytes: [u8; 16] = [
            s[0],
            s[1],
            s[2],
            s[3],
            s[4],
            s[5],
            s[6],
            s[7],
            s[8],
            s[9],
            s[10],
            s[11],
            s[12],
            s[13],
            s[14],
            s[15],
        ];
        assert(bytes@ =~= s@);
        Address { bytes }
    }
}

/// An open file descriptor issued by the host. It is not `Clone`: exactly one owner holds it
/// until it is handed back with `Command::Execute`.
#[derive(Debug)]
pub struct Handle {
    raw: u32,
}

impl Handle {
    pub closed spec fn view(&self) -> u32 {
        self.raw
    }

    /// Takes ownership of the descriptor `raw` that the host issued.
    pub fn from_raw(raw: u32) -> (r: Handle)
        ensures
            r@ == raw,
    {
        Handle { raw }
    }

    /// The host's number for this descriptor.
    pub fn raw(&self) -> (r: u32)
        ensures
            r == self@,
    {
        self.raw
    }
}

/// The kinds of device the firmware enumerates.
#[derive(Clone, Copy, Debug, PartialEq, Eq, Structural)]
pub enum DeviceKind {
    Eeprom,
    Filesystem,
}

/// The methods the firmware calls on devices.
#[derive(Clone, Copy, Debug, PartialEq, Eq, Structural)]
pub enum Method {
    /// `getData` on an EEPROM: its data area, which names the boot device.
    GetData,
    /// `open` on a filesystem.
    Open,
    /// `read` on a filesystem.
    Read,
}

/// Why booting stopped.
#[derive(Clone, Copy, Debug, PartialEq, Eq, Structural)]
pub enum Fault {
    /// The host broke its protocol or rejected the firmware's own request.
    Internal,
    /// No EEPROM is installed.
    NoEeprom,
    /// The EEPROM's data is not a single byte string.
    EepromDataBad,
    /// No filesystem holds a boot image.
    NoBootableMedium,
    /// An `open` reply has an unexpected shape or error.
    OpenBad,
    /// A `read` reply has an unexpected shape.
    ReadError,
}

/// Where the address of the filesystem being tried came from.
pub enum UuidSource<C> {
    /// The EEPROM names it as the boot device.
    Eeprom,
    /// An enumeration of filesystems found it; the cursor resumes the scan.
    Scan(C),
}

/// The data of the `OpeningFile` state.
pub struct OpeningFileInfo<C> {
    pub uuid: Address,
    pub source: UuidSource<C>,
}

/// The data of the `ReadingFile` state.
pub struct ReadingFileInfo {
    pub descriptor: Handle,
    pub uuid: Address,
}

/// The phases of booting. `C` is the host's enumeration cursor.
pub enum State<C> {
    /// Power-on: the EEPROM is located and its data requested.
    Init,
    /// The EEPROM's data (the boot device's address) is being read.
    ReadingBootDeviceUuid,
    /// The declared type of the device that the EEPROM names is being queried.
    CheckingBootDevice(Address),
    /// A scan of all filesystems is to begin.
    StartScan,
    /// A scan of filesystems is under way.
    Scanning(C),
    /// An `open` of the boot image is under way.
    OpeningFile(OpeningFileInfo<C>),
    /// The boot image is open and being read in chunks.
    ReadingFile(ReadingFileInfo),
    /// A terminal command was issued; nothing follows.
    Halted,
}

/// A method call on a device.
pub struct Call {
    pub address: Address,
    pub method: Method,
    /// The CBOR-encoded arguments; empty for none.
    pub args: Vec<u8>,
}

/// What the host must do next. Each command but `Execute` and `Abort` is answered by the
/// event named in its comment, handed to the next step.
pub enum Command {
    /// Nothing to do: run the next step at once with `Event::Proceed`.
    Proceed,
    /// Return to the host; on the next time slice run the next step with `Event::Proceed`.
    Yield,
    /// Enumerate devices of a kind and take the first: `Event::Found`.
    FindFirst(DeviceKind),
    /// Start an enumeration of devices of a kind: `Event::Listing`.
    StartListing(DeviceKind),
    /// Advance the cursor held by the `Scanning` state: `Event::Found`.
    AdvanceListing,
    /// Query a device's declared type: `Event::TypeQueried`.
    QueryType(Address),
    /// Start a method call: `Event::Invoked`.
    Invoke(Call),
    /// Fetch the outstanding call's result into a buffer of this many bytes: `Event::Collected`.
    Collect(usize),
    /// Append bytes to the execution buffer: `Event::Appended`.
    Append(Vec<u8>),
    /// Close the descriptor and run the execution buffer.
    Execute(Handle),
    /// Stop with a fatal error.
    Abort(Fault),
}

/// What the host reports back.
pub enum Event<C> {
    /// No news: the start, or the step after `Proceed` or `Yield`.
    Proceed,
    /// The device found, if any.
    Found(Option<Address>),
    /// A new enumeration cursor.
    Listing(C),
    /// The device's declared type, or `None` where the query failed.
    TypeQueried(Option<Vec<u8>>),
    /// The host's return code for starting a call: negative on error, zero while the call is
    /// still running, positive when its result is ready now.
    Invoked(i32),
    /// The call's result, or the host's negative error code.
    Collected(Result<Vec<u8>, i32>),
    /// Whether the bytes were appended.
    Appended(bool),
}

/// The declared type of a bootable device, `filesystem`.
pub open spec fn filesystem_type() -> Seq<u8> {
    seq![102u8, 105, 108, 101, 115, 121, 115, 116, 101, 109]
}

/// The states in which a call is outstanding until its result is collected.
pub open spec fn awaits_call<C>(s: State<C>) -> bool {
    s is ReadingBootDeviceUuid || s is OpeningFile || s is ReadingFile
}

/// The buffer size for the result of the call that state `s` awaits.
pub open spec fn reply_capacity<C>(s: State<C>) -> usize {
    if s is ReadingBootDeviceUuid {
        EEPROM_REPLY_CAPACITY
    } else if s is OpeningFile {
        OPEN_REPLY_CAPACITY
    } else {
        READ_REPLY_CAPACITY
    }
}

/// A reply must be a one-element array: its element's header and the bytes after that header.
/// An undecodable header is an internal fault; another shape is `bad`.
pub open spec fn element_of(b: Seq<u8>, bad: Fault) -> Result<(MajorType, u64, Seq<u8>), Fault> {
    match header_spec(b) {
        Err(_) => Err(Fault::Internal),
        Ok((m, c, n)) => if m != MajorType::Array || c != 1 {
            Err(bad)
        } else {
            let b2 = b.subrange(n as int, b.len() as int);
            match header_spec(b2) {
                Err(_) => Err(Fault::Internal),
                Ok((m2, c2, n2)) => Ok((m2, c2, b2.subrange(n2 as int, b2.len() as int))),
            }
        },
    }
}

/// `cmd` is a call of `method` on `address` with `args`.
pub open spec fn is_call(cmd: Command, address: Address, method: Method, args: Seq<u8>) -> bool {
    cmd is Invoke && cmd->Invoke_0.address == address && cmd->Invoke_0.method == method
        && cmd->Invoke_0.args@ == args
}

/// `cmd` is a fatal stop for `f`, and the state is `Halted`.
pub open spec fn halts<C>(ns: State<C>, cmd: Command, f: Fault) -> bool {
    ns is Halted && cmd is Abort && cmd->Abort_0 == f
}

/// The transitions of an awaiting state on the events that precede its result.
pub open spec fn awaits<C>(s: State<C>, e: Event<C>, ns: State<C>, cmd: Command) -> bool {
    match e {
        Event::Invoked(rc) => if rc < 0 {
            halts(ns, cmd, Fault::Internal)
        } else if rc == 0 {
            ns == s && cmd is Yield
        } else {
            ns == s && cmd is Collect && cmd->Collect_0 == reply_capacity(s)
        },
        Event::Proceed => ns == s && cmd is Collect && cmd->Collect_0 == reply_capacity(s),
        _ => halts(ns, cmd, Fault::Internal),
    }
}

/// The transition of `ReadingBootDeviceUuid` on the EEPROM's data `b`.
pub open spec fn on_eeprom_data<C>(b: Seq<u8>, ns: State<C>, cmd: Command) -> bool {
    match element_of(b, Fault::EepromDataBad) {
        Err(f) => halts(ns, cmd, f),
        Ok((m, c, rest)) => if m != MajorType::Bytes || rest.len() != c {
            halts(ns, cmd, Fault::EepromDataBad)
        } else if rest.len() == 16 {
            ns is CheckingBootDevice && ns->CheckingBootDevice_0.bytes@ == rest && cmd is QueryType
                && cmd->QueryType_0 == ns->CheckingBootDevice_0
        } else {
            ns is StartScan && cmd is Proceed
        },
    }
}

/// The transition of `OpeningFile(info)` on the `open` call's result `r`.
pub open spec fn on_open_result<C>(
    info: OpeningFileInfo<C>,
    r: Result<Vec<u8>, i32>,
    ns: State<C>,
    cmd: Command,
) -> bool {
    match r {
        Err(code) => if code == ERROR_OTHER {
            cmd is Proceed && match info.source {
                UuidSource::Eeprom => ns is StartScan,
                UuidSource::Scan(c) => ns == State::Scanning(c),
            }
        } else {
            halts(ns, cmd, Fault::OpenBad)
        },
        Ok(b) => match element_of(b@, Fault::OpenBad) {
            Err(f) => halts(ns, cmd, f),
            Ok((m, c, rest)) => if m != MajorType::Tag || c != IDENTIFIER_TAG {
                halts(ns, cmd, Fault::OpenBad)
            } else {
                match header_spec(rest) {
                    Err(_) => halts(ns, cmd, Fault::Internal),
                    Ok((m3, c3, _)) => if m3 != MajorType::UnsignedInteger {
                        halts(ns, cmd, Fault::OpenBad)
                    } else {
                        ns is ReadingFile && ns->ReadingFile_0.uuid == info.uuid
                            && ns->ReadingFile_0.descriptor@ == c3 as u32 && is_call(
                            cmd,
                            info.uuid,
                            Method::Read,
                            read_args_spec(c3 as u32),
                        )
                    },
                }
            },
        },
    }
}

/// The transition of `ReadingFile(info)` on the `read` call's result bytes `b`.
pub open spec fn on_read_result<C>(info: ReadingFileInfo, b: Seq<u8>, ns: State<C>, cmd: Command) -> bool {
    match element_of(b, Fault::ReadError) {
        Err(f) => halts(ns, cmd, f),
        Ok((m, c, rest)) => if m == MajorType::Bytes && c <= rest.len() {
            ns is ReadingFile && ns->ReadingFile_0.descriptor@ == info.descriptor@
                && ns->ReadingFile_0.uuid == info.uuid && cmd is Append && cmd->Append_0@
                == rest.subrange(0, c as int)
        } else if m == MajorType::Special && c == NULL_SIMPLE_VALUE {
            ns is Halted && cmd is Execute && cmd->Execute_0@ == info.descriptor@
        } else {
            halts(ns, cmd, Fault::ReadError)
        },
    }
}

/// One step of booting: from state `s` and the host's answer `e` to the previous command, the
/// state `ns` and the command `cmd` that follow.
pub open spec fn steps_to<C>(s: State<C>, e: Event<C>, ns: State<C>, cmd: Command) -> bool {
    match s {
        State::Init => match e {
            Event::Proceed => ns is Init && cmd is FindFirst && cmd->FindFirst_0
                == DeviceKind::Eeprom,
            Event::Found(found) => match found {
                None => halts(ns, cmd, Fault::NoEeprom),
                Some(a) => ns is ReadingBootDeviceUuid && is_call(
                    cmd,
                    a,
                    Method::GetData,
                    Seq::empty(),
                ),
            },
            _ => halts(ns, cmd, Fault::Internal),
        },
        State::ReadingBootDeviceUuid => match e {
            Event::Collected(r) => match r {
                Ok(b) => on_eeprom_data(b@, ns, cmd),
                Err(_) => halts(ns, cmd, Fault::Internal),
            },
            _ => awaits(s, e, ns, cmd),
        },
        State::CheckingBootDevice(a) => match e {
            Event::TypeQueried(t) => if t is Some && t->Some_0@ == filesystem_type() {
                ns is OpeningFile && ns->OpeningFile_0.uuid == a && ns->OpeningFile_0.source is Eeprom
                    && is_call(cmd, a, Method::Open, open_args_spec())
            } else {
                ns is StartScan && cmd is Proceed
            },
            _ => halts(ns, cmd, Fault::Internal),
        },
        State::StartScan => match e {
            Event::Proceed => ns is StartScan && cmd is StartListing && cmd->StartListing_0
                == DeviceKind::Filesystem,
            Event::Listing(c) => ns == State::Scanning(c) && cmd is Proceed,
            _ => halts(ns, cmd, Fault::Internal),
        },
        State::Scanning(c) => match e {
            Event::Proceed => ns == State::Scanning(c) && cmd is AdvanceListing,
            Event::Found(found) => match found {
                None => halts(ns, cmd, Fault::NoBootableMedium),
                Some(a) => ns == State::OpeningFile(
                    OpeningFileInfo { uuid: a, source: UuidSource::Scan(c) },
                ) && is_call(cmd, a, Method::Open, open_args_spec()),
            },
            _ => halts(ns, cmd, Fault::Internal),
        },
        State::OpeningFile(info) => match e {
            Event::Collected(r) => on_open_result(info, r, ns, cmd),
            _ => awaits(s, e, ns, cmd),
        },
        State::ReadingFile(info) => match e {
            Event::Collected(r) => match r {
                Ok(b) => on_read_result(info, b@, ns, cmd),
                Err(_) => halts(ns, cmd, Fault::Internal),
            },
            Event::Appended(ok) => if ok {
                ns == s && is_call(cmd, info.uuid, Method::Read, read_args_spec(info.descriptor@))
            } else {
                halts(ns, cmd, Fault::Internal)
            },
            _ => awaits(s, e, ns, cmd),
        },
        State::Halted => halts(ns, cmd, Fault::Internal),
    }
}

/// Stops booting with fault `f`.
fn halt<C>(f: Fault) -> (r: (State<C>, Command))
    ensures
        halts(r.0, r.1, f),
{
    (State::Halted, Command::Abort(f))
}

/// The bytes of `filesystem`.
fn filesystem_type_bytes() -> (r: Vec<u8>)
    ensures
        r@ == filesystem_type(),
{
    let r: Vec<u8> = vec![102u8, 105, 108, 101, 115, 121, 115, 116, 101, 109];
    assert(r@ =~= filesystem_type());
    r
}

/// Whether `t` is the declared type of a bootable device.
pub fn is_filesystem_type(t: &[u8]) -> (r: bool)
    ensures
        r == (t@ == filesystem_type()),
{
    let want = filesystem_type_bytes();
    if t.len() != want.len() {
        return false;
    }
    let mut i: usize = 0;
    while i < t.len()
        invariant
            t@.len() == want@.len(),
            want@ == filesystem_type(),
            i <= t@.len(),
            t@.subrange(0, i as int) == want@.subrange(0, i as int),
        decreases t@.len() - i,
    {
        if t[i] != want[i] {
            assert(t@[i as int] != want@[i as int]);
            return false;
        }
        assert(t@.subrange(0, i as int + 1) =~= t@.subrange(0, i as int).push(t@[i as int]));
        assert(want@.subrange(0, i as int + 1) =~= want@.subrange(0, i as int).push(
            want@[i as int],
        ));
        i = i + 1;
    }
    assert(t@ =~= t@.subrange(0, t@.len() as int));
    assert(want@ =~= want@.subrange(0, want@.len() as int));
    true
}

/// Reads a reply that must be a one-element array: the element's header and the bytes after it.
pub fn reply_element(b: &[u8], bad: Fault) -> (r: Result<(MajorType, u64, &[u8]), Fault>)
    ensures
        match element_of(b@, bad) {
            Ok((m, c, rest)) => r is Ok && r->Ok_0.0 == m && r->Ok_0.1 == c && r->Ok_0.2@ == rest,
            Err(f) => r is Err && r->Err_0 == f,
        },
{
    match decode_header(b) {
        Err(_) => Err(Fault::Internal),
        Ok((m, c, rest)) => {
            if m != MajorType::Array || c != 1 {
                Err(bad)
            } else {
                match decode_header(rest) {
                    Err(_) => Err(Fault::Internal),
                    Ok((m2, c2, rest2)) => Ok((m2, c2, rest2)),
                }
            }
        },
    }
}

/// Handles a call result in a state that awaits one, on the events that come before the result.
fn await_call<C>(s: State<C>, e: Event<C>, capacity: usize) -> (r: (State<C>, Command))
    requires
        awaits_call(s),
        capacity == reply_capacity(s),
    ensures
        awaits(s, e, r.0, r.1),
{
    match e {
        Event::Invoked(rc) => {
            if rc < 0 {
                halt(Fault::Internal)
            } else if rc == 0 {
                (s, Command::Yield)
            } else {
                (s, Command::Collect(capacity))
            }
        },
        Event::Proceed => (s, Command::Collect(capacity)),
        _ => halt(Fault::Internal),
    }
}

/// Interprets the EEPROM's data: the boot device's address, if it holds one.
fn eeprom_data<C>(b: &[u8]) -> (r: (State<C>, Command))
    ensures
        on_eeprom_data(b@, r.0, r.1),
{
    match reply_element(b, Fault::EepromDataBad) {
        Err(f) => halt(f),
        Ok((m, c, rest)) => {
            if m != MajorType::Bytes || rest.len() as u64 != c {
                halt(Fault::EepromDataBad)
            } else if rest.len() == 16 {
                let a = Address::from_slice(rest);
                (State::CheckingBootDevice(a), Command::QueryType(a))
            } else {
                (State::StartScan, Command::Proceed)
            }
        },
    }
}

/// Interprets the result of `open`: a descriptor to read from, or a fallback to the next device.
fn open_result<C>(info: OpeningFileInfo<C>, r: Result<Vec<u8>, i32>) -> (out: (State<C>, Command))
    ensures
        on_open_result(info, r, out.0, out.1),
{
    match r {
        Err(code) => {
            if code == ERROR_OTHER {
                let ns = match info.source {
                    UuidSource::Eeprom => State::StartScan,
                    UuidSource::Scan(c) => State::Scanning(c),
                };
                (ns, Command::Proceed)
            } else {
                halt(Fault::OpenBad)
            }
        },
        Ok(b) => match reply_element(b.as_slice(), Fault::OpenBad) {
            Err(f) => halt(f),
            Ok((m, c, rest)) => {
                if m != MajorType::Tag || c != IDENTIFIER_TAG {
                    halt(Fault::OpenBad)
                } else {
                    match decode_header(rest) {
                        Err(_) => halt(Fault::Internal),
                        Ok((m3, c3, _)) => {
                            if m3 != MajorType::UnsignedInteger {
                                halt(Fault::OpenBad)
                            } else {
                                let d = c3 as u32;
                                let args = read_args(d);
                                let call = Call { address: info.uuid, method: Method::Read, args };
                                (
                                    State::ReadingFile(
                                        ReadingFileInfo { descriptor: Handle::from_raw(d), uuid: info.uuid },
                                    ),
                                    Command::Invoke(call),
                                )
                            }
                        },
                    }
                }
            },
        },
    }
}

/// Interprets the result of `read`: a chunk to append, or the end of the file.
fn read_result<C>(info: ReadingFileInfo, b: &[u8]) -> (r: (State<C>, Command))
    ensures
        on_read_result(info, b@, r.0, r.1),
{
    match reply_element(b, Fault::ReadError) {
        Err(f) => halt(f),
        Ok((m, c, rest)) => {
            if m == MajorType::Bytes && c <= rest.len() as u64 {
                let chunk = vstd::slice::slice_to_vec(slice_subrange(rest, 0, c as usize));
                (State::ReadingFile(info), Command::Append(chunk))
            } else if m == MajorType::Special && c == NULL_SIMPLE_VALUE {
                (State::Halted, Command::Execute(info.descriptor))
            } else {
                halt(Fault::ReadError)
            }
        },
    }
}

/// Runs one step of booting: takes the current state and the host's answer to the previous
/// command, and gives the next state and the one command the host must carry out.
pub fn step<C>(s: State<C>, e: Event<C>) -> (r: (State<C>, Command))
    ensures
        steps_to(s, e, r.0, r.1),
{
    match s {
        State::Init => match e {
            Event::Proceed => (State::Init, Command::FindFirst(DeviceKind::Eeprom)),
            Event::Found(found) => match found {
                None => halt(Fault::NoEeprom),
                Some(a) => (
                    State::ReadingBootDeviceUuid,
                    Command::Invoke(Call { address: a, method: Method::GetData, args: Vec::new() }),
                ),
            },
            _ => halt(Fault::Internal),
        },
        State::ReadingBootDeviceUuid => match e {
            Event::Collected(r) => match r {
                Ok(b) => eeprom_data(b.as_slice()),
                Err(_) => halt(Fault::Internal),
            },
            other => await_call(State::ReadingBootDeviceUuid, other, EEPROM_REPLY_CAPACITY),
        },
        State::CheckingBootDevice(a) => match e {
            Event::TypeQueried(t) => {
                let bootable = match t {
                    Some(name) => is_filesystem_type(name.as_slice()),
                    None => false,
                };
                if bootable {
                    (
                        State::OpeningFile(OpeningFileInfo { uuid: a, source: UuidSource::Eeprom }),
                        Command::Invoke(Call { address: a, method: Method::Open, args: open_args() }),
                    )
                } else {
                    (State::StartScan, Command::Proceed)
                }
            },
            _ => halt(Fault::Internal),
        },
        State::StartScan => match e {
            Event::Proceed => (State::StartScan, Command::StartListing(DeviceKind::Filesystem)),
            Event::Listing(c) => (State::Scanning(c), Command::Proceed),
            _ => halt(Fault::Internal),
        },
        State::Scanning(c) => match e {
            Event::Proceed => (State::Scanning(c), Command::AdvanceListing),
            Event::Found(found) => match found {
                None => halt(Fault::NoBootableMedium),
                Some(a) => (
                    State::OpeningFile(OpeningFileInfo { uuid: a, source: UuidSource::Scan(c) }),
                    Command::Invoke(Call { address: a, method: Method::Open, args: open_args() }),
                ),
            },
            _ => halt(Fault::Internal),
        },
        State::OpeningFile(info) => match e {
            Event::Collected(r) => open_result(info, r),
            other => await_call(State::OpeningFile(info), other, OPEN_REPLY_CAPACITY),
        },
        State::ReadingFile(info) => match e {
            Event::Collected(r) => match r {
                Ok(b) => read_result(info, b.as_slice()),
                Err(_) => halt(Fault::Internal),
            },
            Event::Appended(ok) => {
                if ok {
                    let args = read_args(info.descriptor.raw());
                    let call = Call { address: info.uuid, method: Method::Read, args };
                    (State::ReadingFile(info), Command::Invoke(call))
                } else {
                    halt(Fault::Internal)
                }
            },
            other => await_call(State::ReadingFile(info), other, READ_REPLY_CAPACITY),
        },
        State::Halted => halt(Fault::Internal),
    }
}

/// Whether a call is outstanding when state `s` receives `e`: `s` awaits a call, and `e` comes
/// before that call's result has been collected.
pub open spec fn call_outstanding<C>(s: State<C>, e: Event<C>) -> bool {
    awaits_call(s) && (e is Proceed || e is Invoked)
}

/// At most one host call is outstanding at any time: no step starts a call while another one is
/// outstanding (such a step only collects, yields or stops), and a step that starts a call leads
/// to a state that collects its result before anything else.
pub proof fn lemma_one_call_at_a_time<C>(s: State<C>, e: Event<C>, ns: State<C>, cmd: Command)
    requires
        steps_to(s, e, ns, cmd),
    ensures
        cmd is Invoke ==> !call_outstanding(s, e) && awaits_call(ns),
        call_outstanding(s, e) ==> cmd is Collect || cmd is Yield || cmd is Abort,
{
}

} // verus!
