use vstd::prelude::*;

use vstd::string::StringSliceAdditionalSpecFns;

use crate::error::{code_of, Error};

verus! {

/// The bytes of `s` as a null-terminated string, or `InvalidData` where `s`
/// holds a null byte of its own.
pub open spec fn c_string_of(s: Seq<u8>) -> Result<Seq<u8>, Error> {
    if s.contains(0u8) {
        Err(Error::InvalidData)
    } else {
        Ok(s.push(0u8))
    }
}

/// Encodes `s` as a null-terminated byte string.
pub fn c_string(s: &str) -> (r: Result<Vec<u8>, Error>)
    ensures
        match r {
            Ok(v) => c_string_of(s.spec_bytes()) == Ok::<Seq<u8>, Error>(v@),
            Err(e) => c_string_of(s.spec_bytes()) == Err::<Seq<u8>, Error>(e),
        },
{
    let bytes = s.as_bytes();
    let mut out: Vec<u8> = Vec::new();
    let mut i: usize = 0;
    while i < bytes.len()
        invariant
            bytes@ == s.spec_bytes(),
            i <= bytes@.len(),
            out@ == bytes@.subrange(0, i as int),
            !bytes@.subrange(0, i as int).contains(0u8),
        decreases bytes@.len() - i,
    {
        if bytes[i] == 0 {
            assert(bytes@[i as int] == 0u8);
            return Err(Error::InvalidData);
        }
        out.push(bytes[i]);
        i += 1;
        assert(out@ == bytes@.subrange(0, i as int));
    }
    assert(bytes@.subrange(0, i as int) == bytes@);
    out.push(0u8);
    Ok(out)
}

/// Name and description of one device, as the native enumeration reports them.
pub struct Info {
    name: String,
    description: String,
}

impl View for Info {
    type V = (Seq<char>, Seq<char>);

    closed spec fn view(&self) -> (Seq<char>, Seq<char>) {
        (self.name@, self.description@)
    }
}

impl Info {
    /// A device record from its name and description.
    pub fn wrap(name: String, description: String) -> (r: Info)
        ensures
            r@ == (name@, description@),
    {
        Info { name, description }
    }

    /// The device's name.
    pub fn name(&self) -> (r: &str)
        ensures
            r@ == self@.0,
    {
        self.name.as_str()
    }

    /// The device's human-readable description.
    pub fn description(&self) -> (r: &str)
        ensures
            r@ == self@.1,
    {
        self.description.as_str()
    }
}

/// The devices of one enumeration, handed out front to back, each once.
pub struct DeviceIter {
    /// The devices not yet handed out, last first.
    pending: Vec<Info>,
}

impl View for DeviceIter {
    type V = Seq<(Seq<char>, Seq<char>)>;

    /// The devices not yet handed out, in enumeration order.
    closed spec fn view(&self) -> Seq<(Seq<char>, Seq<char>)> {
        let n = self.pending@.len();
        Seq::new(n, |i: int| self.pending@[n - 1 - i]@)
    }
}

/// The views of a list of devices.
pub open spec fn views_of(devices: Seq<Info>) -> Seq<(Seq<char>, Seq<char>)> {
    Seq::new(devices.len(), |i: int| devices[i]@)
}

impl DeviceIter {
    /// An iterator over `devices`, in their order.
    pub fn new(devices: Vec<Info>) -> (r: DeviceIter)
        ensures
            r@ == views_of(devices@),
    {
        let ghost all = devices@;
        let mut devices = devices;
        let mut pending: Vec<Info> = Vec::new();
        while devices.len() > 0
            invariant
                devices@.len() + pending@.len() == all.len(),
                devices@ == all.subrange(0, devices@.len() as int),
                forall|i: int|
                    0 <= i < pending@.len() ==> #[trigger] pending@[i] == all[all.len() - 1 - i],
            decreases devices@.len(),
        {
            let d = devices.pop().unwrap();
            pending.push(d);
        }
        let r = DeviceIter { pending };
        assert(r@ =~= views_of(all));
        r
    }

    /// The number of devices not yet handed out.
    pub fn len(&self) -> (r: usize)
        ensures
            r == self@.len(),
    {
        self.pending.len()
    }

    /// Hands out the next device, or `None` once all have been.
    pub fn next(&mut self) -> (r: Option<Info>)
        ensures
            old(self)@.len() == 0 ==> r is None && final(self)@ == old(self)@,
            old(self)@.len() > 0 ==> r is Some && r->0@ == old(self)@[0],
            old(self)@.len() > 0 ==> final(self)@ == old(self)@.drop_first(),
    {
        let r = self.pending.pop();
        assert(self@ =~= old(self)@.drop_first() || old(self)@.len() == 0);
        r
    }
}

/// Which side of the backends an enumeration asks about.
#[derive(Clone, Copy, Debug, PartialEq, Eq, Structural)]
pub enum Direction {
    /// Input devices (sources).
    Input,
    /// Output devices (sinks).
    Output,
}

/// A checked enumeration call, ready to be issued to the native library:
/// the direction and the backend name as a null-terminated string.
pub struct ListRequest {
    direction: Direction,
    device_name: Vec<u8>,
}

impl ListRequest {
    /// The direction to enumerate.
    pub closed spec fn spec_direction(&self) -> Direction {
        self.direction
    }

    /// The backend name, null byte included.
    pub closed spec fn spec_device_name(&self) -> Seq<u8> {
        self.device_name@
    }

    /// The direction to enumerate.
    pub fn direction(&self) -> (r: Direction)
        ensures
            r == self.spec_direction(),
    {
        self.direction
    }

    /// The backend name as a null-terminated byte string.
    pub fn device_name(&self) -> (r: &[u8])
        ensures
            r@ == self.spec_device_name(),
    {
        self.device_name.as_slice()
    }

    /// Takes the native call's status and the devices it listed, in the order
    /// listed: a negative status is an error carrying that status, any other
    /// gives the devices in that order.
    pub fn complete(self, status: i32, devices: Vec<Info>) -> (r: Result<DeviceIter, Error>)
        ensures
            listing_view(r) == listing_outcome(status, views_of(devices@)),
    {
        if status < 0 {
            Err(Error::from(status))
        } else {
            Ok(DeviceIter::new(devices))
        }
    }
}

/// The devices that a finished enumeration yields, or its error.
pub open spec fn listing_view(r: Result<DeviceIter, Error>) -> Result<
    Seq<(Seq<char>, Seq<char>)>,
    Error,
> {
    match r {
        Ok(it) => Ok(it@),
        Err(e) => Err(e),
    }
}

/// The direction and null-terminated name of a prepared request, or its error.
pub open spec fn request_view(r: Result<ListRequest, Error>) -> Result<(Direction, Seq<u8>), Error> {
    match r {
        Ok(q) => Ok((q.spec_direction(), q.spec_device_name())),
        Err(e) => Err(e),
    }
}

/// What an enumeration yields from the native status and the listed devices.
pub open spec fn listing_outcome(status: i32, devices: Seq<(Seq<char>, Seq<char>)>) -> Result<
    Seq<(Seq<char>, Seq<char>)>,
    Error,
> {
    if status < 0 {
        Err(Error::Native(status))
    } else {
        Ok(devices)
    }
}

/// The request for `device_name` in `direction`, or `InvalidData` where the
/// name holds a null byte.
pub open spec fn request_of(direction: Direction, device_name: Seq<u8>) -> Result<
    (Direction, Seq<u8>),
    Error,
> {
    match c_string_of(device_name) {
        Ok(name) => Ok((direction, name)),
        Err(e) => Err(e),
    }
}

fn request(direction: Direction, device_name: &str) -> (r: Result<ListRequest, Error>)
    ensures
        request_view(r) == request_of(direction, device_name.spec_bytes()),
{
    match c_string(device_name) {
        Ok(name) => Ok(ListRequest { direction, device_name: name }),
        Err(e) => Err(e),
    }
}

/// Prepares the enumeration of the input devices of backend `device_name`.
/// A name with a null byte fails with `InvalidData`, before any native call.
pub fn sources(device_name: &str) -> (r: Result<ListRequest, Error>)
    ensures
        request_view(r) == request_of(Direction::Input, device_name.spec_bytes()),
{
    request(Direction::Input, device_name)
}

/// Prepares the enumeration of the output devices of backend `device_name`.
/// A name with a null byte fails with `InvalidData`, before any native call.
pub fn sinks(device_name: &str) -> (r: Result<ListRequest, Error>)
    ensures
        request_view(r) == request_of(Direction::Output, device_name.spec_bytes()),
{
    request(Direction::Output, device_name)
}

/// A backend name with a null byte is refused with `InvalidData` in either
/// direction, so no request for the native library comes of it.
pub proof fn lemma_null_in_name_refused(direction: Direction, device_name: Seq<u8>)
    requires
        device_name.contains(0u8),
    ensures
        request_of(direction, device_name) == Err::<(Direction, Seq<u8>), Error>(
            Error::InvalidData,
        ),
{
}

/// A negative status from the native enumeration call fails the enumeration
/// with an error from which that status can be read back.
pub proof fn lemma_negative_status_kept(status: i32, devices: Seq<(Seq<char>, Seq<char>)>)
    requires
        status < 0,
    ensures
        listing_outcome(status, devices) is Err,
        code_of(listing_outcome(status, devices)->Err_0) == Some(status),
{
}

} // verus!
