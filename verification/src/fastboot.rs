use vstd::prelude::*;
use vstd::slice::{slice_subrange, slice_to_vec};
use vstd::string::StringSliceAdditionalSpecFns;
use crate::buffer::{overlay, FastbootBuffer};
use crate::download::{data_ack, data_response, min_nat, step_of, Download, DownloadStep, RECEIVE_CHUNK};
use crate::error::BootError;
use crate::handoff::{
    hand_off_of,
    hand_off_sequence,
    handle_boot,
    plan_of,
    step_views,
    HandOffStep,
};
use crate::hex::{hex_number, lemma_hex_digits_u64, lemma_hex_text_len, parse_hex};
use crate::le::{byte_position, bytes_equal, find_byte, has_prefix, starts_with};
use crate::usb_device::EfiUsbDeviceEvent;

verus! {

/// Size of the buffer that commands are received into.
pub const COMMAND_BUFFER_SIZE: usize = 0x10_0000;

/// Size of the transfer buffer that carries a response.
pub const RESPONSE_BUFFER_SIZE: usize = 64;

/// A request of the host, as the session understands it.
#[derive(Clone, Copy, Debug, PartialEq, Eq, Structural)]
pub enum Command {
    /// `download:<hex-size>`: receive that many bytes.
    Download(usize),
    /// `boot`: start what was downloaded.
    Boot,
    /// `reboot`: reset the platform.
    Reboot,
    /// `continue`: leave and let the firmware boot on.
    Continue,
    /// Anything else.
    Unknown,
}

/// The size argument of a download request: what stands between the colon
/// that ends the command word and the next colon, or the end.
pub open spec fn download_argument(request: Seq<u8>) -> Seq<u8> {
    let start = "download:".spec_bytes().len() as int;
    request.subrange(start, byte_position(request, start, 0x3a))
}

/// The command that a request spells. A download request whose size is not
/// a hexadecimal number of the machine word is no command.
pub open spec fn command_of(request: Seq<u8>) -> Command {
    if has_prefix(request, "download:".spec_bytes()) {
        match hex_number(download_argument(request)) {
            Some(size) => if size <= usize::MAX {
                Command::Download(size as usize)
            } else {
                Command::Unknown
            },
            None => Command::Unknown,
        }
    } else if request == "boot".spec_bytes() {
        Command::Boot
    } else if request == "reboot".spec_bytes() {
        Command::Reboot
    } else if request == "continue".spec_bytes() {
        Command::Continue
    } else {
        Command::Unknown
    }
}

/// Reads one request of the host.
pub fn parse_command(request: &[u8]) -> (command: Command)
    ensures
        command == command_of(request@),
{
    let prefix = "download:".as_bytes();
    if starts_with(request, prefix) {
        let start: usize = prefix.len();
        let end: usize = find_byte(request, start, 0x3a);
        match parse_hex(slice_subrange(request, start, end)) {
            Some(size) => Command::Download(size),
            None => Command::Unknown,
        }
    } else if bytes_equal(request, "boot".as_bytes()) {
        Command::Boot
    } else if bytes_equal(request, "reboot".as_bytes()) {
        Command::Reboot
    } else if bytes_equal(request, "continue".as_bytes()) {
        Command::Continue
    } else {
        Command::Unknown
    }
}

/// The short reason that is reported to the host for a failed command.
pub open spec fn reason_of(e: BootError) -> &'static str {
    match e {
        BootError::AllocationFailure => "out of memory",
        BootError::OutOfBounds => "too much data",
        BootError::UnrecognizedFormat => "",
        BootError::UnsupportedHeaderVersion => "only version 2 supported",
        BootError::TruncatedPayload => "truncated boot image",
        BootError::KernelDecompressionFailed => "failed to decompress kernel",
        BootError::InvalidKernelImage => "kernel payload is not an EFI application",
        BootError::InvalidCommandLine => "invalid command line",
        BootError::TransportFailure => "transport failure",
        BootError::BufferTooSmall => "buffer too small",
    }
}

/// The short reason that is reported to the host for a failed command.
pub fn failure_reason(e: BootError) -> (reason: &'static str)
    ensures
        reason == reason_of(e),
{
    match e {
        BootError::AllocationFailure => "out of memory",
        BootError::OutOfBounds => "too much data",
        BootError::UnrecognizedFormat => "",
        BootError::UnsupportedHeaderVersion => "only version 2 supported",
        BootError::TruncatedPayload => "truncated boot image",
        BootError::KernelDecompressionFailed => "failed to decompress kernel",
        BootError::InvalidKernelImage => "kernel payload is not an EFI application",
        BootError::InvalidCommandLine => "invalid command line",
        BootError::TransportFailure => "transport failure",
        BootError::BufferTooSmall => "buffer too small",
    }
}

/// A failure response: `FAIL` and the reason.
pub open spec fn fail_text(reason: &str) -> Seq<u8> {
    "FAIL".spec_bytes() + reason.spec_bytes()
}

/// The success response.
pub fn okay_response() -> (r: Vec<u8>)
    ensures
        r@ == "OKAY".spec_bytes(),
{
    slice_to_vec("OKAY".as_bytes())
}

/// A failure response with its reason.
pub fn fail_response(reason: &str) -> (r: Vec<u8>)
    ensures
        r@ == fail_text(reason),
{
    let mut r = slice_to_vec("FAIL".as_bytes());
    let tail = reason.as_bytes();
    let mut i: usize = 0;
    while i < tail.len()
        invariant
            i <= tail@.len(),
            r@ == "FAIL".spec_bytes() + tail@.subrange(0, i as int),
        decreases tail@.len() - i,
    {
        r.push(tail[i]);
        assert(r@ =~= "FAIL".spec_bytes() + tail@.subrange(0, i + 1));
        i += 1;
    }
    assert(tail@.subrange(0, i as int) =~= tail@);
    r
}

/// Whatever the session answers fits the response buffer with its
/// terminator: the success response, the acknowledgment of a download of any
/// size, and the failure response for every error and for the two failures
/// of its own.
pub proof fn lemma_responses_fit(size: usize, e: BootError)
    ensures
        "OKAY".spec_bytes().len() < RESPONSE_BUFFER_SIZE,
        data_ack(size as nat).len() < RESPONSE_BUFFER_SIZE,
        fail_text(reason_of(e)).len() < RESPONSE_BUFFER_SIZE,
        fail_text("download something first").len() < RESPONSE_BUFFER_SIZE,
        fail_text("unknown command").len() < RESPONSE_BUFFER_SIZE,
{
    broadcast use vstd::string::is_ascii_spec_bytes;

    reveal_strlit("OKAY");
    reveal_strlit("DATA");
    reveal_strlit("FAIL");
    reveal_strlit("download something first");
    reveal_strlit("unknown command");
    reveal_strlit("out of memory");
    reveal_strlit("too much data");
    reveal_strlit("");
    reveal_strlit("only version 2 supported");
    reveal_strlit("truncated boot image");
    reveal_strlit("failed to decompress kernel");
    reveal_strlit("kernel payload is not an EFI application");
    reveal_strlit("invalid command line");
    reveal_strlit("transport failure");
    reveal_strlit("buffer too small");
    assert(vstd::string::is_ascii("OKAY"));
    assert(vstd::string::is_ascii("DATA"));
    assert(vstd::string::is_ascii("FAIL"));
    assert(vstd::string::is_ascii("download something first"));
    assert(vstd::string::is_ascii("unknown command"));
    assert(vstd::string::is_ascii(reason_of(e)));
    lemma_hex_text_len(size as nat, 8);
    lemma_hex_digits_u64(size as u64);
}

/// Frames a response for the wire: the text and a terminating zero byte.
/// A response that does not fit the response buffer is not framed.
pub fn fastboot_respond(response: &[u8]) -> (r: Option<Vec<u8>>)
    ensures
        r is Some <==> response@.len() < RESPONSE_BUFFER_SIZE,
        r is Some ==> r->Some_0@ == response@.push(0),
{
    if response.len() >= RESPONSE_BUFFER_SIZE {
        return None;
    }
    let mut payload = slice_to_vec(response);
    payload.push(0);
    Some(payload)
}

/// What booting `p` comes to: the steps of the hand-off, or the reason why
/// there is none.
pub open spec fn boot_steps(p: Seq<u8>) -> Result<Seq<crate::handoff::HandOffStepView>, BootError> {
    match plan_of(p) {
        Ok(plan) => hand_off_of(plan),
        Err(e) => Err(e),
    }
}

/// Resolves a payload and lays out its hand-off.
pub fn resolve_boot(payload: &[u8]) -> (r: Result<Vec<HandOffStep>, BootError>)
    ensures
        crate::handoff::hand_off_view(r) == boot_steps(payload@),
{
    match handle_boot(payload) {
        Ok(plan) => hand_off_sequence(plan),
        Err(e) => Err(e),
    }
}

/// The state of the link as the session sees it.
#[derive(Clone, Copy, Debug, PartialEq, Eq, Structural)]
pub enum ConnectionState {
    Disconnected,
    Connected,
    /// A download is being received.
    Streaming,
}

/// What the transport has to do next.
#[derive(Debug)]
pub enum Next {
    /// Poll for the next event.
    Poll,
    /// Queue a transfer of this many bytes into the command buffer.
    ReceiveCommand(usize),
    /// Queue a transfer of this many bytes into the scratch buffer.
    ReceiveData(usize),
    /// Take these steps in their order and stop at the first that fails.
    HandOff(Vec<HandOffStep>),
    /// Reset the platform.
    Reboot,
    /// Leave the session loop.
    Stop,
}

/// The answer of the session to one event: a response for the host, if there
/// is one, and what the transport does after it was sent.
#[derive(Debug)]
pub struct Reaction {
    pub response: Option<Vec<u8>>,
    pub next: Next,
}

impl Reaction {
    /// No response, and then `next`.
    pub open spec fn silent(&self, next: Next) -> bool {
        self.response is None && self.next == next
    }

    /// The response `text`, and then `next`.
    pub open spec fn says(&self, text: Seq<u8>, next: Next) -> bool {
        self.response is Some && self.response->Some_0@ == text && self.next == next
    }
}

/// The state of one USB attachment. Nothing of it outlives a detach.
#[derive(Debug)]
pub struct Session {
    pub connection: ConnectionState,
    /// The most recent download that was completed.
    pub payload: Option<FastbootBuffer>,
    /// The download that is being received.
    pub download: Option<Download>,
}

impl Session {
    /// While a download runs the session is streaming and holds no payload,
    /// and only then is it streaming.
    pub open spec fn wf(&self) -> bool {
        &&& self.download is Some ==> self.payload is None
        &&& self.download is Some <==> self.connection == ConnectionState::Streaming
    }

    /// What an event does while a download is being received.
    pub open spec fn streaming_step(
        self,
        event: EfiUsbDeviceEvent,
        post: Session,
        reaction: Reaction,
    ) -> bool {
        let d = self.download->Some_0;
        match step_of(d.remaining(), event) {
            DownloadStep::Wait => post == self && reaction.silent(Next::Poll),
            DownloadStep::Receive(n) => {
                &&& post.connection == ConnectionState::Streaming
                &&& post.payload is None
                &&& post.download is Some
                &&& post.download->Some_0.size() == d.size()
                &&& post.download->Some_0.received() == d.received() + event->OutData_0@.len()
                &&& post.download->Some_0.target.bytes() == overlay(
                    d.target.bytes(),
                    d.received() as int,
                    event->OutData_0@,
                )
                &&& reaction.silent(Next::ReceiveData(n))
            },
            DownloadStep::Complete => {
                &&& post.connection == ConnectionState::Connected
                &&& post.download is None
                &&& post.payload is Some
                &&& post.payload->Some_0.capacity() == d.size()
                &&& post.payload->Some_0.bytes() == overlay(
                    d.target.bytes(),
                    d.received() as int,
                    event->OutData_0@,
                )
                &&& reaction.says("OKAY".spec_bytes(), Next::ReceiveCommand(COMMAND_BUFFER_SIZE))
            },
            DownloadStep::Aborted => {
                &&& post.connection == if event is Connected {
                    ConnectionState::Connected
                } else {
                    ConnectionState::Disconnected
                }
                &&& post.download is None
                &&& post.payload is None
                &&& reaction.silent(Next::ReceiveCommand(COMMAND_BUFFER_SIZE))
            },
            DownloadStep::Overrun => {
                &&& post.connection == ConnectionState::Connected
                &&& post.download is None
                &&& post.payload is None
                &&& reaction.says(
                    fail_text(reason_of(BootError::OutOfBounds)),
                    Next::ReceiveCommand(COMMAND_BUFFER_SIZE),
                )
            },
        }
    }

    /// What a request of the host does while no download is being received.
    pub open spec fn command_step(self, request: Seq<u8>, post: Session, reaction: Reaction) -> bool {
        match command_of(request) {
            Command::Download(size) => {
                &&& post.connection == ConnectionState::Streaming
                &&& post.payload is None
                &&& post.download is Some
                &&& post.download->Some_0.size() == size
                &&& post.download->Some_0.received() == 0
                &&& post.download->Some_0.target.bytes() == Seq::new(size as nat, |i: int| 0u8)
                &&& reaction.says(
                    data_ack(size as nat),
                    Next::ReceiveData(min_nat(size as nat, RECEIVE_CHUNK as nat) as usize),
                )
            },
            Command::Boot => {
                &&& post == self
                &&& match self.payload {
                    None => reaction.says(
                        fail_text("download something first"),
                        Next::ReceiveCommand(COMMAND_BUFFER_SIZE),
                    ),
                    Some(payload) => match boot_steps(payload.bytes()) {
                        Err(e) => reaction.says(
                            fail_text(reason_of(e)),
                            Next::ReceiveCommand(COMMAND_BUFFER_SIZE),
                        ),
                        Ok(steps) => {
                            &&& reaction.response is None
                            &&& reaction.next is HandOff
                            &&& step_views(reaction.next->HandOff_0@) == steps
                        },
                    },
                }
            },
            Command::Reboot => post == self && reaction.says("OKAY".spec_bytes(), Next::Reboot),
            Command::Continue => post == self && reaction.says("OKAY".spec_bytes(), Next::Stop),
            Command::Unknown => post == self && reaction.says(
                fail_text("unknown command"),
                Next::ReceiveCommand(COMMAND_BUFFER_SIZE),
            ),
        }
    }

    /// What an event does while no download is being received.
    pub open spec fn idle_step(self, event: EfiUsbDeviceEvent, post: Session, reaction: Reaction) -> bool {
        match event {
            EfiUsbDeviceEvent::NoEvent => post == self && reaction.silent(Next::Poll),
            EfiUsbDeviceEvent::Connected => {
                &&& post == Session { connection: ConnectionState::Connected, ..self }
                &&& reaction.silent(Next::ReceiveCommand(COMMAND_BUFFER_SIZE))
            },
            EfiUsbDeviceEvent::Disconnected => {
                &&& post == Session {
                    connection: ConnectionState::Disconnected,
                    payload: None,
                    download: None,
                }
                &&& reaction.silent(Next::Poll)
            },
            EfiUsbDeviceEvent::OutData(request) => self.command_step(request@, post, reaction),
        }
    }

    /// The session before the host has attached.
    pub fn new() -> (session: Session)
        ensures
            session.wf(),
            session.connection == ConnectionState::Disconnected,
            session.payload is None,
            session.download is None,
    {
        Session { connection: ConnectionState::Disconnected, payload: None, download: None }
    }

    /// Handles one event of the transport: returns the session as it is
    /// afterwards and what the transport has to do.
    pub fn on_event(self, event: EfiUsbDeviceEvent) -> (r: (Session, Reaction))
        ensures
            self.wf() ==> r.0.wf(),
            self.download is Some ==> self.streaming_step(event, r.0, r.1),
            self.download is None ==> self.idle_step(event, r.0, r.1),
    {
        let Session { connection, payload, download } = self;
        match download {
            Some(mut d) => {
                let step = d.on_event(&event);
                match step {
                    DownloadStep::Wait => (
                        Session { connection, payload, download: Some(d) },
                        Reaction { response: None, next: Next::Poll },
                    ),
                    DownloadStep::Receive(n) => (
                        Session {
                            connection: ConnectionState::Streaming,
                            payload: None,
                            download: Some(d),
                        },
                        Reaction { response: None, next: Next::ReceiveData(n) },
                    ),
                    DownloadStep::Complete => (
                        Session {
                            connection: ConnectionState::Connected,
                            payload: Some(d.into_payload()),
                            download: None,
                        },
                        Reaction {
                            response: Some(okay_response()),
                            next: Next::ReceiveCommand(COMMAND_BUFFER_SIZE),
                        },
                    ),
                    DownloadStep::Aborted => {
                        let connection = match event {
                            EfiUsbDeviceEvent::Connected => ConnectionState::Connected,
                            _ => ConnectionState::Disconnected,
                        };
                        (
                            Session { connection, payload: None, download: None },
                            Reaction {
                                response: None,
                                next: Next::ReceiveCommand(COMMAND_BUFFER_SIZE),
                            },
                        )
                    },
                    DownloadStep::Overrun => (
                        Session {
                            connection: ConnectionState::Connected,
                            payload: None,
                            download: None,
                        },
                        Reaction {
                            response: Some(fail_response(failure_reason(BootError::OutOfBounds))),
                            next: Next::ReceiveCommand(COMMAND_BUFFER_SIZE),
                        },
                    ),
                }
            },
            None => match event {
                EfiUsbDeviceEvent::NoEvent => (
                    Session { connection, payload, download: None },
                    Reaction { response: None, next: Next::Poll },
                ),
                EfiUsbDeviceEvent::Connected => (
                    Session { connection: ConnectionState::Connected, payload, download: None },
                    Reaction { response: None, next: Next::ReceiveCommand(COMMAND_BUFFER_SIZE) },
                ),
                EfiUsbDeviceEvent::Disconnected => (
                    Session {
                        connection: ConnectionState::Disconnected,
                        payload: None,
                        download: None,
                    },
                    Reaction { response: None, next: Next::Poll },
                ),
                EfiUsbDeviceEvent::OutData(request) => {
                    let session = Session { connection, payload, download: None };
                    session.on_command(request.as_slice())
                },
            },
        }
    }

    /// Handles one request of the host while no download is being received.
    fn on_command(self, request: &[u8]) -> (r: (Session, Reaction))
        requires
            self.download is None,
        ensures
            self.wf() ==> r.0.wf(),
            self.command_step(request@, r.0, r.1),
    {
        match parse_command(request) {
            Command::Download(size) => {
                let d = Download::begin(size);
                let first = d.next_chunk();
                (
                    Session {
                        connection: ConnectionState::Streaming,
                        payload: None,
                        download: Some(d),
                    },
                    Reaction { response: Some(data_response(size)), next: Next::ReceiveData(first) },
                )
            },
            Command::Boot => {
                let reaction = match &self.payload {
                    None => Reaction {
                        response: Some(fail_response("download something first")),
                        next: Next::ReceiveCommand(COMMAND_BUFFER_SIZE),
                    },
                    Some(payload) => match resolve_boot(payload.as_slice()) {
                        Ok(steps) => Reaction { response: None, next: Next::HandOff(steps) },
                        Err(e) => Reaction {
                            response: Some(fail_response(failure_reason(e))),
                            next: Next::ReceiveCommand(COMMAND_BUFFER_SIZE),
                        },
                    },
                };
                (self, reaction)
            },
            Command::Reboot => (
                self,
                Reaction { response: Some(okay_response()), next: Next::Reboot },
            ),
            Command::Continue => (
                self,
                Reaction { response: Some(okay_response()), next: Next::Stop },
            ),
            Command::Unknown => (
                self,
                Reaction {
                    response: Some(fail_response("unknown command")),
                    next: Next::ReceiveCommand(COMMAND_BUFFER_SIZE),
                },
            ),
        }
    }
}

} // verus!
