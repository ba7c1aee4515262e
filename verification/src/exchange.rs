//! The exchange: build the frame, send it, check the status of the reply,
//! decode its payload. Each step runs once, and the first failure ends the
//! exchange.

use crate::app_info::{AppInfo, AppInfoView};
use crate::command::Commands;
use crate::device_info::{DeviceInfo, DeviceInfoView};
use crate::error::{ProtocolError, TransportError};
use crate::frame::{
    decode, encode, frame_wire, lemma_frame_round_trip, lemma_response_round_trip, response_wire,
    spec_decode, spec_encode, spec_from_wire, CommandFrame, FrameView,
};
use crate::status::StatusCode;
use crate::version::Version;
use vstd::prelude::*;

verus! {

/// The record a command was answered with.
#[derive(Debug, PartialEq, Eq)]
pub enum Response {
    /// Answer to [`Commands::DeviceInfo`]
    DeviceInfo(DeviceInfo),
    /// Answer to [`Commands::AppInfo`]
    AppInfo(AppInfo),
    /// Answer to [`Commands::AppVersion`]
    AppVersion(Version),
}

/// A response as plain values.
pub enum ResponseView {
    DeviceInfo(DeviceInfoView),
    AppInfo(AppInfoView),
    AppVersion(Version),
}

impl View for Response {
    type V = ResponseView;

    open spec fn view(&self) -> ResponseView {
        match self {
            Response::DeviceInfo(info) => ResponseView::DeviceInfo(info@),
            Response::AppInfo(info) => ResponseView::AppInfo(info@),
            Response::AppVersion(version) => ResponseView::AppVersion(*version),
        }
    }
}

impl Clone for Response {
    fn clone(&self) -> (copy: Response)
        ensures
            copy@ == self@,
    {
        match self {
            Response::DeviceInfo(info) => Response::DeviceInfo(info.clone()),
            Response::AppInfo(info) => Response::AppInfo(info.clone()),
            Response::AppVersion(version) => Response::AppVersion(*version),
        }
    }
}

impl ResponseView {
    /// Whether this is the kind of record the command asks for.
    pub open spec fn answers(self, cmd: Commands) -> bool {
        match cmd {
            Commands::DeviceInfo => self is DeviceInfo,
            Commands::AppInfo => self is AppInfo,
            Commands::AppVersion { .. } => self is AppVersion,
        }
    }
}

/// The outcome of an exchange with its record taken as plain values.
pub open spec fn outcome_view(outcome: Result<Response, ProtocolError>) -> Result<
    ResponseView,
    ProtocolError,
> {
    match outcome {
        Ok(response) => Ok(response@),
        Err(e) => Err(e),
    }
}

/// What a transport handed back, with the bytes of a reply as a sequence.
pub open spec fn reply_view(reply: Result<Vec<u8>, TransportError>) -> Result<
    Seq<u8>,
    TransportError,
> {
    match reply {
        Ok(raw) => Ok(raw@),
        Err(e) => Err(e),
    }
}

/// The frame a command is sent as: its class and instruction, both
/// parameter bytes zero, and its payload.
pub open spec fn spec_build(cmd: Commands) -> Result<FrameView, ProtocolError> {
    match spec_encode(cmd.spec_class(), cmd.spec_instruction(), cmd.spec_payload()) {
        Ok(frame) => Ok(frame),
        Err(e) => Err(ProtocolError::Encoding(e)),
    }
}

/// The wire bytes a command is sent as: five header bytes and no data.
pub open spec fn spec_request(cmd: Commands) -> Seq<u8> {
    seq![cmd.spec_class(), cmd.spec_instruction(), 0u8, 0u8, 0u8]
}

/// The payload of a reply whose status is success. A truncated reply and a
/// reply with any other status have none: the latter fails with the status
/// it carries.
pub open spec fn spec_validate(raw: Seq<u8>) -> Result<Seq<u8>, ProtocolError> {
    match spec_decode(raw) {
        Ok((payload, status)) => if status.spec_is_success() {
            Ok(payload)
        } else {
            Err(ProtocolError::DeviceError(status))
        },
        Err(e) => Err(e),
    }
}

/// The record a payload spells under the decoder that belongs to the
/// command.
pub open spec fn spec_decode_payload(cmd: Commands, payload: Seq<u8>) -> Result<
    ResponseView,
    ProtocolError,
> {
    match cmd {
        Commands::DeviceInfo => match DeviceInfo::spec_decode(payload) {
            Ok(info) => Ok(ResponseView::DeviceInfo(info)),
            Err(e) => Err(ProtocolError::Decode(e)),
        },
        Commands::AppInfo => match AppInfo::spec_decode(payload) {
            Ok(info) => Ok(ResponseView::AppInfo(info)),
            Err(e) => Err(ProtocolError::Decode(e)),
        },
        Commands::AppVersion { .. } => match Version::spec_decode(payload) {
            Ok(version) => Ok(ResponseView::AppVersion(version)),
            Err(e) => Err(ProtocolError::Decode(e)),
        },
    }
}

/// The outcome of an exchange, given what the transport handed back: a
/// transport failure is passed on, a reply is validated, and the payload of
/// a successful reply is decoded.
pub open spec fn spec_complete(cmd: Commands, reply: Result<Seq<u8>, TransportError>) -> Result<
    ResponseView,
    ProtocolError,
> {
    match reply {
        Ok(raw) => match spec_validate(raw) {
            Ok(payload) => spec_decode_payload(cmd, payload),
            Err(e) => Err(e),
        },
        Err(e) => Err(ProtocolError::Transport(e)),
    }
}

/// Builds the frame for a command. None of the commands carries data, so
/// this always succeeds.
pub fn build(cmd: Commands) -> (frame: Result<CommandFrame, ProtocolError>)
    ensures
        frame is Ok,
        spec_build(cmd) == Ok::<FrameView, ProtocolError>(frame.unwrap()@),
        frame_wire(frame.unwrap()@) == spec_request(cmd),
{
    let payload = cmd.payload();
    match encode(cmd.class(), cmd.instruction(), payload.as_slice()) {
        Ok(frame) => {
            assert(frame_wire(frame@) =~= spec_request(cmd));
            Ok(frame)
        },
        Err(e) => Err(ProtocolError::from(e)),
    }
}

/// Checks a raw reply and hands out its payload: the reply must hold a
/// status word, and the status must be success.
pub fn validate(raw: &[u8]) -> (payload: Result<Vec<u8>, ProtocolError>)
    ensures
        match payload {
            Ok(bytes) => spec_validate(raw@) == Ok::<Seq<u8>, ProtocolError>(bytes@),
            Err(e) => spec_validate(raw@) == Err::<Seq<u8>, ProtocolError>(e),
        },
{
    match decode(raw) {
        Ok((payload, status)) => {
            if status.is_success() {
                Ok(payload)
            } else {
                Err(ProtocolError::DeviceError(status))
            }
        },
        Err(e) => Err(e),
    }
}

/// Decodes a payload with the decoder that belongs to the command.
pub fn decode_payload(cmd: Commands, payload: &[u8]) -> (outcome: Result<Response, ProtocolError>)
    ensures
        outcome_view(outcome) == spec_decode_payload(cmd, payload@),
        outcome matches Ok(response) ==> response@.answers(cmd),
{
    match cmd {
        Commands::DeviceInfo => match DeviceInfo::decode(payload) {
            Ok(info) => Ok(Response::DeviceInfo(info)),
            Err(e) => Err(ProtocolError::from(e)),
        },
        Commands::AppInfo => match AppInfo::decode(payload) {
            Ok(info) => Ok(Response::AppInfo(info)),
            Err(e) => Err(ProtocolError::from(e)),
        },
        Commands::AppVersion { .. } => match Version::decode(payload) {
            Ok(version) => Ok(Response::AppVersion(version)),
            Err(e) => Err(ProtocolError::from(e)),
        },
    }
}

/// Finishes an exchange with what the transport handed back.
pub fn complete(cmd: Commands, reply: Result<Vec<u8>, TransportError>) -> (outcome: Result<
    Response,
    ProtocolError,
>)
    ensures
        outcome_view(outcome) == spec_complete(cmd, reply_view(reply)),
        outcome matches Ok(response) ==> response@.answers(cmd),
{
    match reply {
        Ok(raw) => match validate(raw.as_slice()) {
            Ok(payload) => decode_payload(cmd, payload.as_slice()),
            Err(e) => Err(e),
        },
        Err(e) => Err(ProtocolError::from(e)),
    }
}

/// Runs one exchange over a transport: builds the frame of the command,
/// hands its wire bytes to `transport` exactly once, and finishes with what
/// comes back. The outcome is the one [`spec_complete`] gives for a reply
/// that the transport may return to those bytes.
pub fn execute<T>(cmd: Commands, transport: T) -> (outcome: Result<Response, ProtocolError>) where
    T: FnOnce(Vec<u8>) -> Result<Vec<u8>, TransportError>,

    requires
        forall|wire: Vec<u8>| wire@ == spec_request(cmd) ==> transport.requires((wire,)),
    ensures
        exists|wire: Vec<u8>, reply: Result<Vec<u8>, TransportError>|
            wire@ == spec_request(cmd) && #[trigger] transport.ensures((wire,), reply)
                && outcome_view(outcome) == spec_complete(cmd, reply_view(reply)),
        outcome matches Ok(response) ==> response@.answers(cmd),
{
    let frame = match build(cmd) {
        Ok(frame) => frame,
        Err(e) => { return Err(e); },
    };
    let wire = frame.serialize();
    let ghost sent = wire;
    let reply = transport(wire);
    let ghost received = reply;
    let outcome = complete(cmd, reply);
    assert(transport.ensures((sent,), received));
    outcome
}

/// Every command has a frame, and reading the wire bytes of that frame
/// recovers the class, the instruction and the payload of the command. A
/// reply that carries those wire bytes as its payload decodes to them and
/// to its status.
pub proof fn lemma_command_round_trip(cmd: Commands, status: StatusCode)
    ensures
        spec_build(cmd) is Ok,
        frame_wire(spec_build(cmd).unwrap()) == spec_request(cmd),
        spec_from_wire(spec_request(cmd)) == Some(
            (FrameView {
                cla: cmd.spec_class(),
                ins: cmd.spec_instruction(),
                p1: 0,
                p2: 0,
                data: cmd.spec_payload(),
            }),
        ),
        spec_decode(response_wire(spec_request(cmd), status)) == Ok::<
            (Seq<u8>, StatusCode),
            ProtocolError,
        >((spec_request(cmd), status)),
{
    let frame = spec_build(cmd).unwrap();
    assert(frame_wire(frame) =~= spec_request(cmd));
    lemma_frame_round_trip(frame);
    lemma_response_round_trip(spec_request(cmd), status);
}

/// An exchange ends in a record only if the transport delivered a reply
/// that holds a status word and whose status is success, and the record is
/// then of the kind the command asks for. A transport failure is passed on,
/// a reply without a status word is truncated, and a reply with any other
/// status ends the exchange with that status, whatever its payload holds.
pub proof fn lemma_outcome_by_status(cmd: Commands, reply: Result<Seq<u8>, TransportError>)
    ensures
        spec_complete(cmd, reply) matches Ok(response) ==> reply matches Ok(raw) && spec_decode(raw)
            matches Ok((payload, status)) && status.spec_is_success() && response.answers(cmd)
            && spec_decode_payload(cmd, payload) == Ok::<ResponseView, ProtocolError>(response),
        match reply {
            Ok(raw) => match spec_decode(raw) {
                Ok((_, status)) => !status.spec_is_success() ==> spec_complete(cmd, reply)
                    == Err::<ResponseView, ProtocolError>(ProtocolError::DeviceError(status)),
                Err(_) => spec_complete(cmd, reply) == Err::<ResponseView, ProtocolError>(
                    ProtocolError::TruncatedResponse,
                ),
            },
            Err(e) => spec_complete(cmd, reply) == Err::<ResponseView, ProtocolError>(
                ProtocolError::Transport(e),
            ),
        },
{
}

} // verus!
