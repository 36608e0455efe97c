//! Transport to the Embedded Controller.
//!
//! The controller is reached through ioctls on its device node. The kernel
//! offers one of two ioctl interfaces, which differ in their request number
//! and in the layout of the frame that carries a command. This module frames
//! commands for either interface, reads the replies back, and decides how a
//! session is opened: which interface is in effect and whether the device
//! answers like a genuine controller. Issuing the ioctl itself is left to the
//! caller.

use vstd::prelude::*;
use vstd::string::*;
use crate::command::{Command, Hello, HelloResponse, Wire, HELLO_OFFSET};
use crate::text::{hex, signed_decimal, to_decimal, to_hex};
use crate::wire::{
    le32, le32_value, lemma_le32_value_of_le32, put_bytes, put_le32, put_zeros, zeros,
};

verus! {

/// `errno` of an ioctl that the device does not know.
pub const ENOTTY: i32 = 25;

/// Word of the `Hello` that probes for the first interface.
pub const PROBE_WORD: u32 = 0xa0b0c0d0;

/// Word of the `Hello` that tests communication when a session is opened.
pub const HELLO_WORD: u32 = 0xaa55dead;

/// Result code that a frame carries before the controller has set it.
pub const RESULT_UNSET: u32 = 0xff;

/// Length of the header of a frame of the second interface: five words.
pub const V2_HEADER_SIZE: usize = 20;

/// The two ioctl interfaces of the controller device.
#[derive(Debug, Clone, Copy, PartialEq, Eq, Structural)]
pub enum IoctlVersion {
    V1,
    V2,
}

/// Request number of a read-write ioctl in the generic Linux encoding: the
/// direction (read and write) in the two highest bits, then 14 bits of
/// payload size, 8 bits of type and 8 bits of sequence number.
pub open spec fn spec_request_code_readwrite(ty: u8, nr: u8, size: nat) -> u32 {
    (0xc000_0000 + (size % 0x4000) * 0x1_0000 + ty * 0x100 + nr) as u32
}

/// Request number of a read-write ioctl; a size that the 14 bits of the size
/// field cannot hold is cut down to them.
pub fn request_code_readwrite(ty: u8, nr: u8, size: usize) -> (code: u32)
    ensures
        code == spec_request_code_readwrite(ty, nr, size as nat),
{
    let size_bits: u32 = (size % 0x4000) as u32;
    0xc000_0000 + size_bits * 0x1_0000 + (ty as u32) * 0x100 + (nr as u32)
}

/// Length of the header of a frame of the first interface, as C lays it out:
/// version and command (4 bytes each), the pointer to the request, its size
/// (4), the pointer to the response buffer at the next multiple of the
/// pointer width, its size (4) and the result code (4).
pub open spec fn spec_v1_header_size() -> nat {
    if usize::BITS == 64 {
        40
    } else {
        28
    }
}

impl IoctlVersion {
    /// The byte that identifies the interface in its request number.
    pub open spec fn spec_magic(self) -> u8 {
        match self {
            IoctlVersion::V1 => 0x3a,
            IoctlVersion::V2 => 0xec,
        }
    }

    /// Length of the frame header, which the request number encodes.
    pub open spec fn spec_header_size(self) -> nat {
        match self {
            IoctlVersion::V1 => spec_v1_header_size(),
            IoctlVersion::V2 => V2_HEADER_SIZE as nat,
        }
    }

    /// The request number of the interface: a read-write ioctl with the
    /// interface's identifying byte, sequence number 0 and the length of its
    /// frame header.
    pub open spec fn spec_request_code(self) -> u32 {
        spec_request_code_readwrite(self.spec_magic(), 0, self.spec_header_size())
    }

    /// The byte that identifies the interface in its request number: `':'`
    /// for the first, `0xEC` for the second.
    pub fn magic(self) -> (ty: u8)
        ensures
            ty == self.spec_magic(),
    {
        match self {
            IoctlVersion::V1 => 0x3a,
            IoctlVersion::V2 => 0xec,
        }
    }

    /// Length of the frame header.
    pub fn header_size(self) -> (n: usize)
        ensures
            n == self.spec_header_size(),
    {
        match self {
            IoctlVersion::V1 => if usize::BITS == 64 {
                40
            } else {
                28
            },
            IoctlVersion::V2 => V2_HEADER_SIZE,
        }
    }

    /// The request number of the interface.
    pub fn request_code(self) -> (code: u32)
        ensures
            code == self.spec_request_code(),
    {
        request_code_readwrite(self.magic(), 0, self.header_size())
    }
}

/// The two interfaces never share a request number, so the kernel can tell
/// which frame layout it is handed.
pub proof fn lemma_request_codes_differ()
    ensures
        IoctlVersion::V1.spec_request_code() != IoctlVersion::V2.spec_request_code(),
{
}

/// A command framed for the first interface.
///
/// The header that the kernel is handed points to two buffers: the request,
/// `outdata`, of `outsize` bytes, and a buffer of `insize` bytes that the
/// response is written to.
#[derive(Debug, PartialEq, Eq)]
pub struct FrameV1 {
    /// The ioctl request number.
    pub request: u32,
    pub version: u32,
    pub command: u32,
    pub outdata: Vec<u8>,
    pub outsize: u32,
    pub insize: u32,
    pub result: u32,
}

/// A command framed for the second interface.
///
/// `bytes` is what the kernel is handed: the header, then one region that
/// holds the request before the call and the response after it.
#[derive(Debug, PartialEq, Eq)]
pub struct FrameV2 {
    /// The ioctl request number.
    pub request: u32,
    pub bytes: Vec<u8>,
}

/// A command framed for one of the two interfaces.
#[derive(Debug, PartialEq, Eq)]
pub enum Frame {
    V1(FrameV1),
    V2(FrameV2),
}

/// The larger of two lengths.
pub open spec fn larger(a: nat, b: nat) -> nat {
    if a >= b {
        a
    } else {
        b
    }
}

/// The bytes of a frame of the second interface: the header words version,
/// command, request size, response size and result code, then the request,
/// padded with zeros to the size of the response where that is larger.
pub open spec fn v2_image(version: u32, command: u32, request: Seq<u8>, insize: nat) -> Seq<u8> {
    le32(version) + le32(command) + le32(request.len() as u32) + le32(insize as u32) + le32(
        RESULT_UNSET,
    ) + request + zeros((larger(request.len(), insize) - request.len()) as nat)
}

/// `frame` carries `cmd` as the first interface wants it.
pub open spec fn is_frame_v1<C: Command>(frame: &FrameV1, cmd: &C) -> bool {
    &&& frame.request == IoctlVersion::V1.spec_request_code()
    &&& frame.version == C::VERSION
    &&& frame.command == C::CMD.spec_code()
    &&& frame.outdata@ == cmd.to_wire()
    &&& frame.outsize == C::SIZE
    &&& frame.insize == C::Response::SIZE
    &&& frame.result == RESULT_UNSET
}

/// `frame` carries `cmd` as the second interface wants it.
pub open spec fn is_frame_v2<C: Command>(frame: &FrameV2, cmd: &C) -> bool {
    &&& frame.request == IoctlVersion::V2.spec_request_code()
    &&& frame.bytes@ == v2_image(
        C::VERSION,
        C::CMD.spec_code(),
        cmd.to_wire(),
        C::Response::SIZE as nat,
    )
}

/// `frame` carries `cmd` as the interface `version` wants it.
pub open spec fn is_frame<C: Command>(frame: &Frame, version: IoctlVersion, cmd: &C) -> bool {
    match frame {
        Frame::V1(f) => version == IoctlVersion::V1 && is_frame_v1(f, cmd),
        Frame::V2(f) => version == IoctlVersion::V2 && is_frame_v2(f, cmd),
    }
}

/// The response payload inside what came back from an ioctl of the interface
/// `version` for a command `C`, or `None` where the reply does not have the
/// size that the frame fixed. For the first interface the reply is the
/// response buffer; for the second it is the frame, whose payload region
/// starts behind the header.
pub open spec fn reply_payload<C: Command>(version: IoctlVersion, reply: Seq<u8>) -> Option<
    Seq<u8>,
> {
    match version {
        IoctlVersion::V1 => if reply.len() == C::Response::SIZE {
            Some(reply)
        } else {
            None
        },
        IoctlVersion::V2 => if reply.len() == V2_HEADER_SIZE + larger(
            C::SIZE as nat,
            C::Response::SIZE as nat,
        ) {
            Some(
                reply.subrange(
                    V2_HEADER_SIZE as int,
                    V2_HEADER_SIZE + C::Response::SIZE,
                ),
            )
        } else {
            None
        },
    }
}

/// Layout of a frame of the second interface: five header words of four
/// bytes each, then, from offset 20 on, a region as long as the larger of
/// request and response. The request lies at the start of that region, where
/// the response is read from after the call.
pub proof fn lemma_v2_layout(version: u32, command: u32, request: Seq<u8>, insize: nat)
    ensures
        v2_image(version, command, request, insize).len() == V2_HEADER_SIZE + larger(
            request.len(),
            insize,
        ),
        v2_image(version, command, request, insize).subrange(0, 4) == le32(version),
        v2_image(version, command, request, insize).subrange(4, 8) == le32(command),
        v2_image(version, command, request, insize).subrange(8, 12) == le32(request.len() as u32),
        v2_image(version, command, request, insize).subrange(12, 16) == le32(insize as u32),
        v2_image(version, command, request, insize).subrange(16, 20) == le32(RESULT_UNSET),
        v2_image(version, command, request, insize).subrange(20, 20 + request.len() as int) == request,
{
    let image = v2_image(version, command, request, insize);
    assert(image.subrange(0, 4) =~= le32(version));
    assert(image.subrange(4, 8) =~= le32(command));
    assert(image.subrange(8, 12) =~= le32(request.len() as u32));
    assert(image.subrange(12, 16) =~= le32(insize as u32));
    assert(image.subrange(16, 20) =~= le32(RESULT_UNSET));
    assert(image.subrange(20, 20 + request.len() as int) =~= request);
}

/// What comes back from an ioctl with the length of the frame that went in
/// holds a response payload of the right size, whichever interface is in
/// effect.
pub proof fn lemma_reply_of_frame_size<C: Command>(frame: Frame, cmd: C, reply: Seq<u8>)
    requires
        match frame {
            Frame::V1(f) => is_frame_v1(&f, &cmd) && reply.len() == f.insize,
            Frame::V2(f) => is_frame_v2(&f, &cmd) && reply.len() == f.bytes@.len(),
        },
    ensures
        match frame {
            Frame::V1(_) => reply_payload::<C>(IoctlVersion::V1, reply) == Some(reply),
            Frame::V2(_) => reply_payload::<C>(IoctlVersion::V2, reply) matches Some(payload)
                && payload.len() == C::Response::SIZE,
        },
{
    cmd.lemma_wire_len();
    match frame {
        Frame::V1(_) => {},
        Frame::V2(_) => {
            lemma_v2_layout(C::VERSION, C::CMD.spec_code(), cmd.to_wire(), C::Response::SIZE as nat);
        },
    }
}

/// Why a command did not yield a response.
#[derive(Debug, Clone, Copy, PartialEq, Eq, Structural)]
pub enum EcError {
    /// The ioctl failed; `errno` is the error code of the operating system.
    Transport { errno: i32 },
    /// The device answered the hello with another word than a genuine
    /// controller returns.
    Handshake { received: u32, expected: u32 },
    /// What came back from the ioctl does not have the size that the frame
    /// fixed.
    MalformedReply,
}

impl EcError {
    /// The text of `message`. The two words of a failed handshake appear in
    /// hexadecimal, ten digits each.
    pub open spec fn spec_message(self) -> Seq<char> {
        match self {
            EcError::Transport { errno } => "controller command failed (os error "@
                + signed_decimal(errno as int) + ")"@,
            EcError::Handshake { received, expected } =>
                "failed to connect to EC: invalid response to hello command (received "@ + hex(
                    received as nat,
                    10,
                ) + ", expected "@ + hex(expected as nat, 10) + ")"@,
            EcError::MalformedReply => "controller reply has an unexpected size"@,
        }
    }

    /// A description of the error for the user.
    pub fn message(&self) -> (text: String)
        ensures
            text@ == self.spec_message(),
    {
        match self {
            EcError::Transport { errno } => {
                let number = to_decimal(*errno);
                String::from_str("controller command failed (os error ").concat(
                    number.as_str(),
                ).concat(")")
            },
            EcError::Handshake { received, expected } => {
                let received = to_hex(*received, 10);
                let expected = to_hex(*expected, 10);
                String::from_str(
                    "failed to connect to EC: invalid response to hello command (received ",
                ).concat(received.as_str()).concat(", expected ").concat(expected.as_str()).concat(
                    ")",
                )
            },
            EcError::MalformedReply => String::from_str("controller reply has an unexpected size"),
        }
    }
}

/// What an ioctl gave: the bytes that came back, or the error code of the
/// operating system.
pub open spec fn reply_view(reply: Result<Vec<u8>, i32>) -> Result<Seq<u8>, i32> {
    match reply {
        Ok(bytes) => Ok(bytes@),
        Err(errno) => Err(errno),
    }
}

/// The interface that is in effect after the probe: the second where the
/// probe failed because the device does not know the first interface's
/// ioctl, the first whatever else the probe gave. A probe that failed for
/// another reason selects the first interface too, and its error is not
/// reported.
pub open spec fn spec_negotiate(probe: Result<Seq<u8>, i32>) -> IoctlVersion {
    match probe {
        Err(errno) => if errno == ENOTTY {
            IoctlVersion::V2
        } else {
            IoctlVersion::V1
        },
        Ok(_) => IoctlVersion::V1,
    }
}

/// What a hello proves: nothing is wrong where the response is the one a
/// genuine controller gives, and the error names both words otherwise.
pub open spec fn spec_check_hello(hello: Hello, response: HelloResponse) -> Result<(), EcError> {
    if response == hello.spec_expected() {
        Ok(())
    } else {
        Err(
            EcError::Handshake {
                received: response.out_data,
                expected: hello.spec_expected().out_data,
            },
        )
    }
}

/// How opening a session over the interface `version` ends, given what the
/// ioctl of the hello gave: with the interface that the session will use, or
/// with the reason for which there is no session.
pub open spec fn spec_open(version: IoctlVersion, reply: Result<Seq<u8>, i32>) -> Result<
    IoctlVersion,
    EcError,
> {
    match reply {
        Err(errno) => Err(EcError::Transport { errno }),
        Ok(bytes) => match reply_payload::<Hello>(version, bytes) {
            None => Err(EcError::MalformedReply),
            Some(payload) => match spec_check_hello(
                Hello { in_data: HELLO_WORD },
                HelloResponse { out_data: le32_value(payload) },
            ) {
                Ok(_) => Ok(version),
                Err(e) => Err(e),
            },
        },
    }
}

/// Whatever word a hello carries, exactly one response passes: the word plus
/// `HELLO_OFFSET`, reduced modulo 2^32. Any other response is an error that
/// names the word received and the word expected.
pub proof fn lemma_handshake(word: u32, response: HelloResponse)
    ensures
        spec_check_hello(Hello { in_data: word }, response) is Ok <==> response.out_data == (word
            + HELLO_OFFSET) % 0x1_0000_0000,
        spec_check_hello(Hello { in_data: word }, response) is Err ==> spec_check_hello(
            Hello { in_data: word },
            response,
        ) == Err::<(), EcError>(
            EcError::Handshake {
                received: response.out_data,
                expected: ((word + HELLO_OFFSET) % 0x1_0000_0000) as u32,
            },
        ),
{
}

/// Compares the response to a hello with the one a genuine controller gives.
pub fn check_hello(hello: &Hello, response: &HelloResponse) -> (r: Result<(), EcError>)
    ensures
        r == spec_check_hello(*hello, *response),
{
    let expected = hello.expected();
    if response.out_data == expected.out_data {
        Ok(())
    } else {
        Err(EcError::Handshake { received: response.out_data, expected: expected.out_data })
    }
}

/// A handle to the system's Embedded Controller: the ioctl interface that
/// was found when the session was opened and that every command of the
/// session is framed for.
#[derive(Debug)]
pub struct EmbeddedController {
    version: IoctlVersion,
}

impl View for EmbeddedController {
    type V = IoctlVersion;

    closed spec fn view(&self) -> IoctlVersion {
        self.version
    }
}

impl EmbeddedController {
    /// The frame that probes for the first interface: a hello in the first
    /// interface's layout.
    pub fn probe() -> (frame: Frame)
        ensures
            is_frame(&frame, IoctlVersion::V1, &Hello { in_data: PROBE_WORD }),
    {
        Frame::V1(Self::cmd_v1(&Hello { in_data: PROBE_WORD }))
    }

    /// Chooses the interface from what the ioctl of the probe gave.
    pub fn negotiate(probe: &Result<Vec<u8>, i32>) -> (version: IoctlVersion)
        ensures
            version == spec_negotiate(reply_view(*probe)),
    {
        match probe {
            Err(errno) => if *errno == ENOTTY {
                IoctlVersion::V2
            } else {
                IoctlVersion::V1
            },
            Ok(_) => IoctlVersion::V1,
        }
    }

    /// The frame that tests communication over the interface `version`.
    pub fn hello(version: IoctlVersion) -> (frame: Frame)
        ensures
            is_frame(&frame, version, &Hello { in_data: HELLO_WORD }),
    {
        let this = EmbeddedController { version };
        this.command(&Hello { in_data: HELLO_WORD })
    }

    /// Opens a session over the interface `version`, given what the ioctl of
    /// `hello(version)` gave. There is a session exactly when the device
    /// answered as a genuine controller does.
    pub fn open(version: IoctlVersion, reply: Result<Vec<u8>, i32>) -> (r: Result<Self, EcError>)
        ensures
            match spec_open(version, reply_view(reply)) {
                Ok(v) => r matches Ok(ec) && ec@ == v,
                Err(e) => r == Err::<Self, EcError>(e),
            },
    {
        let this = EmbeddedController { version };
        let hello = Hello { in_data: HELLO_WORD };
        match this.response::<Hello>(reply) {
            Err(e) => Err(e),
            Ok(response) => {
                proof {
                    lemma_le32_value_of_le32(response.out_data);
                }
                match check_hello(&hello, &response) {
                    Ok(_) => Ok(this),
                    Err(e) => Err(e),
                }
            },
        }
    }

    /// Frames `cmd` for the first interface.
    pub fn cmd_v1<C: Command>(cmd: &C) -> (frame: FrameV1)
        ensures
            is_frame_v1(&frame, cmd),
    {
        proof {
            C::lemma_wire_size();
            C::Response::lemma_wire_size();
        }
        FrameV1 {
            request: IoctlVersion::V1.request_code(),
            version: C::VERSION,
            command: C::CMD.code(),
            outdata: cmd.encode(),
            outsize: C::SIZE as u32,
            insize: C::Response::SIZE as u32,
            result: RESULT_UNSET,
        }
    }

    /// Frames `cmd` for the second interface.
    pub fn cmd_v2<C: Command>(cmd: &C) -> (frame: FrameV2)
        ensures
            is_frame_v2(&frame, cmd),
    {
        proof {
            C::lemma_wire_size();
            C::Response::lemma_wire_size();
        }
        let outsize = C::SIZE;
        let insize = C::Response::SIZE;
        let payload = cmd.encode();
        let mut bytes = Vec::new();
        put_le32(&mut bytes, C::VERSION);
        put_le32(&mut bytes, C::CMD.code());
        put_le32(&mut bytes, outsize as u32);
        put_le32(&mut bytes, insize as u32);
        put_le32(&mut bytes, RESULT_UNSET);
        put_bytes(&mut bytes, payload.as_slice());
        if insize > outsize {
            put_zeros(&mut bytes, insize - outsize);
        } else {
            assert(bytes@ + zeros(0) =~= bytes@);
        }
        FrameV2 { request: IoctlVersion::V2.request_code(), bytes }
    }

    /// The interface of this session.
    pub fn version(&self) -> (version: IoctlVersion)
        ensures
            version == self@,
    {
        self.version
    }

    /// Frames `cmd` for the interface of this session.
    pub fn command<C: Command>(&self, cmd: &C) -> (frame: Frame)
        ensures
            is_frame(&frame, self@, cmd),
    {
        match self.version {
            IoctlVersion::V1 => Frame::V1(Self::cmd_v1(cmd)),
            IoctlVersion::V2 => Frame::V2(Self::cmd_v2(cmd)),
        }
    }

    /// Reads the response to a command `C` from what the ioctl of its frame
    /// gave. A failed ioctl is handed on with its error code.
    pub fn response<C: Command>(&self, reply: Result<Vec<u8>, i32>) -> (r: Result<
        C::Response,
        EcError,
    >)
        ensures
            match reply_view(reply) {
                Err(errno) => r == Err::<C::Response, EcError>(EcError::Transport { errno }),
                Ok(bytes) => match reply_payload::<C>(self@, bytes) {
                    None => r == Err::<C::Response, EcError>(EcError::MalformedReply),
                    Some(payload) => r matches Ok(v) && v.to_wire() == payload,
                },
            },
    {
        let bytes = match reply {
            Err(errno) => {
                return Err(EcError::Transport { errno });
            },
            Ok(bytes) => bytes,
        };
        let decoded = match self.version {
            IoctlVersion::V1 => C::Response::decode(bytes.as_slice()),
            IoctlVersion::V2 => {
                proof {
                    C::lemma_wire_size();
                    C::Response::lemma_wire_size();
                }
                let outsize = C::SIZE;
                let insize = C::Response::SIZE;
                let region = if outsize >= insize {
                    outsize
                } else {
                    insize
                };
                if bytes.len() != V2_HEADER_SIZE + region {
                    None
                } else {
                    let payload = vstd::slice::slice_subrange(
                        bytes.as_slice(),
                        V2_HEADER_SIZE,
                        V2_HEADER_SIZE + insize,
                    );
                    C::Response::decode(payload)
                }
            },
        };
        match decoded {
            Some(v) => Ok(v),
            None => Err(EcError::MalformedReply),
        }
    }
}

/// A session frames every command for the interface that the probe
/// selected: for the second where the probe failed with `ENOTTY`, for the
/// first otherwise.
pub proof fn lemma_session_keeps_negotiated_interface<C: Command>(
    probe: Result<Seq<u8>, i32>,
    reply: Result<Seq<u8>, i32>,
    session: IoctlVersion,
    frame: Frame,
    cmd: C,
)
    requires
        spec_open(spec_negotiate(probe), reply) == Ok::<IoctlVersion, EcError>(session),
        is_frame(&frame, session, &cmd),
    ensures
        frame is V2 <==> probe == Err::<Seq<u8>, i32>(ENOTTY),
        frame is V1 <==> probe != Err::<Seq<u8>, i32>(ENOTTY),
{
}

} // verus!
