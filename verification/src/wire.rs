//! What the master and the slave say to each other.
//!
//! The types hold decoded messages. How a message is laid out in bytes is the
//! transport's business, but for the body of a token reply, which is a single
//! boolean and is decoded here. An encrypted message of the master is a value of
//! the type parameter `M`, which is handed on and never looked into.
use crate::keys::PublicKey;
use bincode::Options;
use vstd::prelude::*;

verus! {

/// What the master made of a handshake.
#[derive(Clone, Copy, Debug, PartialEq, Eq, Structural)]
pub enum HandshakeResult {
    Success,
    PasswordNotMatched,
    /// Any other answer.
    Unknown,
}

/// The master's answer to a handshake.
#[derive(Debug, PartialEq, Eq)]
pub struct HandshakeResponse {
    pub result: HandshakeResult,
    pub node_id: Option<u32>,
    pub server_pubkey: Option<PublicKey>,
}

impl HandshakeResponse {
    /// A successful answer tells the slave its number and the master's key.
    pub open spec fn complete(self) -> bool {
        self.result == HandshakeResult::Success ==> self.node_id is Some && self.server_pubkey
            is Some
    }
}

/// A request to judge a submission: compile it and the checker that goes with it.
#[derive(Debug, PartialEq, Eq)]
pub struct JudgeRequestBody<M> {
    pub uuid: u128,
    pub main_lang: String,
    pub checker_lang: String,
    pub main_code: M,
    pub checker_code: M,
    pub time_limit: u64,
    pub mem_limit: u64,
}

/// One test case for the submission under judgement.
#[derive(Debug, PartialEq, Eq)]
pub struct TestCaseUpdateBody<M> {
    pub uuid: u128,
    pub test_uuid: u128,
    pub stdin: M,
    pub stdout: M,
}

/// A packet of the master. Where its body could not be decoded, it holds `None`.
#[derive(Debug, PartialEq, Eq)]
pub enum Packet<M> {
    Handshake(Option<HandshakeResponse>),
    /// The answer to a token check, with its body as it came.
    ReqVerifyToken(Vec<u8>),
    TestCaseUpdate(Option<TestCaseUpdateBody<M>>),
    GetJudge(Option<JudgeRequestBody<M>>),
    /// A command that a slave does not serve.
    Unknown,
}

/// How far a judgement has come, or why there is none.
#[derive(Debug, PartialEq, Eq)]
pub enum JudgeState {
    /// The slave is busy with another submission.
    LockedSlave,
    /// The slave is not busy with the submission that a test case is for.
    UnlockedSlave,
    /// The slave has not compiled the submission that a test case is for.
    JudgeNotFound,
    /// A language is not known. It also ends what a slave that is not busy answers
    /// to a judge request, whatever came of it.
    LanguageNotFound,
    /// The sources are being compiled.
    DoCompile,
    /// Holds what the compiler of the submission printed.
    CompleteCompile(String),
    /// Holds what the compiler of the submission complained of.
    CompileError(String),
    /// Holds what the compiler of the checker complained of, or nothing where there
    /// has been no handshake.
    InternalError(String),
    /// The test case, then the time and the memory that were measured, each as
    /// the bits of an IEEE 754 double.
    Accepted(u128, u64, u64),
    /// Holds what `Accepted` holds.
    WrongAnswer(u128, u64, u64),
}

/// The view of a `JudgeState`.
pub enum JudgeStateView {
    LockedSlave,
    UnlockedSlave,
    JudgeNotFound,
    LanguageNotFound,
    DoCompile,
    CompleteCompile(Seq<char>),
    CompileError(Seq<char>),
    InternalError(Seq<char>),
    Accepted(u128, u64, u64),
    WrongAnswer(u128, u64, u64),
}

impl View for JudgeState {
    type V = JudgeStateView;

    open spec fn view(&self) -> JudgeStateView {
        match *self {
            JudgeState::LockedSlave => JudgeStateView::LockedSlave,
            JudgeState::UnlockedSlave => JudgeStateView::UnlockedSlave,
            JudgeState::JudgeNotFound => JudgeStateView::JudgeNotFound,
            JudgeState::LanguageNotFound => JudgeStateView::LanguageNotFound,
            JudgeState::DoCompile => JudgeStateView::DoCompile,
            JudgeState::CompleteCompile(text) => JudgeStateView::CompleteCompile(text@),
            JudgeState::CompileError(text) => JudgeStateView::CompileError(text@),
            JudgeState::InternalError(text) => JudgeStateView::InternalError(text@),
            JudgeState::Accepted(test, time, mem) => JudgeStateView::Accepted(test, time, mem),
            JudgeState::WrongAnswer(test, time, mem) => JudgeStateView::WrongAnswer(
                test,
                time,
                mem,
            ),
        }
    }
}

/// The state of the judgement that `uuid` names.
#[derive(Debug, PartialEq, Eq)]
pub struct JudgeResponseBody {
    pub uuid: u128,
    pub result: JudgeState,
}

/// A request to be let in by the password of the master.
#[derive(Debug, PartialEq, Eq)]
pub struct HandshakeRequest {
    pub client_pubkey: PublicKey,
    pub pass: String,
}

/// What a slave sends once the handshake is over: its number, its key, and what
/// it has to say.
#[derive(Debug, PartialEq, Eq)]
pub struct BodyAfterHandshake<T> {
    pub node_id: u32,
    pub client_pubkey: PublicKey,
    pub req: T,
}

/// A packet for the master.
#[derive(Debug, PartialEq, Eq)]
pub enum Outgoing {
    Handshake(HandshakeRequest),
    VerifyToken(BodyAfterHandshake<()>),
    GetJudgeStateUpdate(BodyAfterHandshake<JudgeResponseBody>),
}

/// The view of an `Outgoing`.
pub enum OutgoingView {
    Handshake { client_pubkey: Seq<u8>, pass: Seq<char> },
    VerifyToken { node_id: u32, client_pubkey: Seq<u8> },
    GetJudgeStateUpdate {
        node_id: u32,
        client_pubkey: Seq<u8>,
        uuid: u128,
        result: JudgeStateView,
    },
}

impl View for Outgoing {
    type V = OutgoingView;

    open spec fn view(&self) -> OutgoingView {
        match *self {
            Outgoing::Handshake(request) => OutgoingView::Handshake {
                client_pubkey: request.client_pubkey@,
                pass: request.pass@,
            },
            Outgoing::VerifyToken(body) => OutgoingView::VerifyToken {
                node_id: body.node_id,
                client_pubkey: body.client_pubkey@,
            },
            Outgoing::GetJudgeStateUpdate(body) => OutgoingView::GetJudgeStateUpdate {
                node_id: body.node_id,
                client_pubkey: body.client_pubkey@,
                uuid: body.req.uuid,
                result: body.req.result@,
            },
        }
    }
}

/// The boolean that a body encodes: one byte, which is 0 or 1.
pub open spec fn bool_of(body: Seq<u8>) -> Option<bool> {
    if body == seq![0u8] {
        Some(false)
    } else if body == seq![1u8] {
        Some(true)
    } else {
        None
    }
}

/// Calls `deserialize::<bool>` of `bincode`'s `Options`, big endian and with
/// integers of fixed size. A boolean is one byte, 0 or 1; any other byte, no byte
/// at all, and bytes that follow are errors.
#[verifier::external_body]
pub(crate) fn bincode_bool(body: &Vec<u8>) -> (value: Option<bool>)
    ensures
        value == bool_of(body@),
{
    let options = bincode::DefaultOptions::new().with_big_endian().with_fixint_encoding();
    options.deserialize::<bool>(body).ok()
}

} // verus!
