//! The calls into `ledger_transport` that the frame codec rests on.
//!
//! Nothing in this file is proved: each contract restates what the source of
//! the `ledger-apdu` types shows, and the verified code builds on it.

use crate::status::be_word;
use ledger_transport::{APDUAnswer, APDUCommand};
use vstd::prelude::*;

verus! {

/// `ledger_transport::APDUAnswer`, a reply that has been accepted as long
/// enough to carry a status word. Its fields are private to its crate.
#[verifier::external_type_specification]
#[verifier::external_body]
#[verifier::reject_recursive_types(B)]
pub struct ExAPDUAnswer<B>(APDUAnswer<B>);

/// The bytes an answer was made from, status word included.
pub uninterp spec fn answer_bytes(answer: APDUAnswer<Vec<u8>>) -> Seq<u8>;

/// The five header bytes of a command followed by its data, the length byte
/// being the data length reduced modulo 256.
pub open spec fn command_wire(cla: u8, ins: u8, p1: u8, p2: u8, data: Seq<u8>) -> Seq<u8> {
    seq![cla, ins, p1, p2, (data.len() % 256) as u8] + data
}

/// `APDUCommand::serialize`: the class, instruction and two parameter bytes,
/// then the data length cast to one byte, then the data.
#[verifier::external_body]
pub(crate) fn serialize_command(cla: u8, ins: u8, p1: u8, p2: u8, data: &[u8]) -> (wire: Vec<u8>)
    ensures
        wire@ == command_wire(cla, ins, p1, p2, data@),
{
    APDUCommand { cla, ins, p1, p2, data }.serialize()
}

/// `APDUAnswer::from_answer`: accepts exactly the replies of two bytes or
/// more, and keeps the bytes as they are.
#[verifier::external_body]
pub(crate) fn parse_answer(raw: Vec<u8>) -> (answer: Option<APDUAnswer<Vec<u8>>>)
    ensures
        answer is Some <==> raw@.len() >= 2,
        answer is Some ==> answer_bytes(answer.unwrap()) == raw@,
{
    APDUAnswer::from_answer(raw).ok()
}

/// `APDUAnswer::data`: the bytes before the two-byte status word.
#[verifier::external_body]
pub(crate) fn answer_payload(answer: &APDUAnswer<Vec<u8>>) -> (payload: Vec<u8>)
    requires
        answer_bytes(*answer).len() >= 2,
    ensures
        payload@ == answer_bytes(*answer).subrange(0, answer_bytes(*answer).len() - 2),
{
    answer.data().to_vec()
}

/// `APDUAnswer::retcode`: the last two bytes read as a big-endian word.
#[verifier::external_body]
pub(crate) fn answer_retcode(answer: &APDUAnswer<Vec<u8>>) -> (code: u16)
    requires
        answer_bytes(*answer).len() >= 2,
    ensures
        code == be_word(
            answer_bytes(*answer)[answer_bytes(*answer).len() - 2],
            answer_bytes(*answer)[answer_bytes(*answer).len() - 1],
        ),
{
    answer.retcode()
}

} // verus!
