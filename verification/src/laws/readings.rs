//! What the views say: a session, a packet or a job reads as what it holds, field
//! by field and variant by variant.
use crate::judge::{CompileJob, Job, JobView, OnJudge, RunJob};
use crate::keys::{be_value, group_order, is_secret_scalar, PublicKey};
use crate::language::table;
use crate::state::{views, Actions, Effect, EffectView, State, Step};
use crate::wire::{
    BodyAfterHandshake, HandshakeRequest, HandshakeResponse, HandshakeResult, JudgeResponseBody,
    JudgeState, JudgeStateView, Outgoing, OutgoingView,
};
use vstd::prelude::*;

verus! {

/// A session reads as what its fields hold.
pub proof fn law_session_reads_as_its_fields(state: State)
    ensures
        state@.secret == state.key@,
        state@.locked == state.locked,
        state@.node_id == state.node_id,
        state@.work == state.work,
        state@.sleep_time == state.sleep_time,
        state.shared is Some <==> state@.shared is Some,
        state.shared matches Some(shared) ==> state@.shared->0 == shared@,
        state.judge is Some <==> state@.judge is Some,
        state.judge matches Some(judge) ==> state@.judge->0 == judge@,
{
}

/// A submission reads as what its fields hold.
pub proof fn law_submission_reads_as_its_fields(judge: OnJudge)
    ensures
        judge@.uuid == judge.uuid,
        judge@.main_lang == judge.main_lang,
        judge@.checker_lang == judge.checker_lang,
        judge@.main_binary == judge.main_binary@,
        judge@.checker_binary == judge.checker_binary@,
        judge@.time_limit == judge.time_limit,
        judge@.mem_limit == judge.mem_limit,
{
}

/// A result reads as the result of the same name, with the same contents.
pub proof fn law_result_reads_as_its_name(
    text: String,
    test_uuid: u128,
    time: u64,
    mem: u64,
)
    ensures
        JudgeState::LockedSlave@ == JudgeStateView::LockedSlave,
        JudgeState::UnlockedSlave@ == JudgeStateView::UnlockedSlave,
        JudgeState::JudgeNotFound@ == JudgeStateView::JudgeNotFound,
        JudgeState::LanguageNotFound@ == JudgeStateView::LanguageNotFound,
        JudgeState::DoCompile@ == JudgeStateView::DoCompile,
        JudgeState::CompleteCompile(text)@ == JudgeStateView::CompleteCompile(text@),
        JudgeState::CompileError(text)@ == JudgeStateView::CompileError(text@),
        JudgeState::InternalError(text)@ == JudgeStateView::InternalError(text@),
        JudgeState::Accepted(test_uuid, time, mem)@ == JudgeStateView::Accepted(
            test_uuid,
            time,
            mem,
        ),
        JudgeState::WrongAnswer(test_uuid, time, mem)@ == JudgeStateView::WrongAnswer(
            test_uuid,
            time,
            mem,
        ),
{
}

/// A packet for the master reads as what its body holds.
pub proof fn law_packet_reads_as_its_body(
    node_id: u32,
    client_pubkey: PublicKey,
    pass: String,
    uuid: u128,
    result: JudgeState,
)
    ensures
        Outgoing::Handshake(HandshakeRequest { client_pubkey, pass })@ == (
        OutgoingView::Handshake { client_pubkey: client_pubkey@, pass: pass@ }),
        Outgoing::VerifyToken(BodyAfterHandshake { node_id, client_pubkey, req: () })@ == (
        OutgoingView::VerifyToken { node_id, client_pubkey: client_pubkey@ }),
        Outgoing::GetJudgeStateUpdate(
            BodyAfterHandshake {
                node_id,
                client_pubkey,
                req: JudgeResponseBody { uuid, result },
            },
        )@ == (OutgoingView::GetJudgeStateUpdate {
            node_id,
            client_pubkey: client_pubkey@,
            uuid,
            result: result@,
        }),
{
}

/// An effect reads as its signal or its packet, and effects read one by one, in
/// their order.
pub proof fn law_effects_read_in_order(effects: Seq<Effect>, action: Actions, packet: Outgoing)
    ensures
        Effect::Signal(action)@ == EffectView::Signal(action),
        Effect::Send(packet)@ == EffectView::Send(packet@),
        views(effects).len() == effects.len(),
        forall|i: int| 0 <= i < effects.len() ==> #[trigger] views(effects)[i] == effects[i]@,
{
}

/// A step reads as its effects, in their order, and its job.
pub proof fn law_step_reads_as_its_parts<M>(step: Step<M>)
    ensures
        step@.effects.len() == step.effects@.len(),
        forall|i: int|
            0 <= i < step.effects@.len() ==> #[trigger] step@.effects[i] == step.effects@[i]@,
        step@.job is Some <==> step.job is Some,
        step.job matches Some(job) ==> step@.job->0 == job@,
{
}

/// A job reads as what its fields hold.
pub proof fn law_job_reads_as_its_fields<M>(compile: CompileJob<M>, run: RunJob<M>)
    ensures
        Job::Compile(compile)@ == (JobView::Compile {
            secret: compile.secret@,
            checker_lang: compile.checker_lang,
            checker_code: compile.checker_code,
            main_lang: compile.main_lang,
            main_code: compile.main_code,
        }),
        Job::Run(run)@ == (JobView::Run {
            secret: run.secret@,
            stdin: run.stdin,
            stdout_origin: run.stdout_origin,
            binary: run.binary@,
            language: run.language,
            time_limit: run.time_limit,
            mem_limit: run.mem_limit,
        }),
{
}

/// A table of languages holds every name of the list, each in its place.
pub proof fn law_table_holds_every_name(names: Seq<String>)
    ensures
        table(names).len() == names.len(),
        forall|i: int| 0 <= i < names.len() ==> #[trigger] table(names)[i] == names[i]@,
{
}

/// The answers to a handshake that can be taken in are those that did not succeed,
/// and those that tell both a number and a key.
pub proof fn law_answers_that_are_complete(response: HandshakeResponse)
    ensures
        response.result != HandshakeResult::Success ==> response.complete(),
        response.result == HandshakeResult::Success ==> (response.complete() <==> (
        response.node_id is Some && response.server_pubkey is Some)),
{
}

/// Bytes spell a number most significant byte first: one more byte makes it 256
/// times as large and adds itself. A secret is spelled by 32 bytes, is not zero, and
/// lies below the group order, which falls short of 2 to the 256th.
pub proof fn law_secrets_are_numbers_below_the_order(bytes: Seq<u8>, last: u8)
    ensures
        be_value(Seq::<u8>::empty()) == 0,
        be_value(bytes.push(last)) == 256 * be_value(bytes) + last,
        is_secret_scalar(bytes) <==> bytes.len() == 32 && be_value(bytes) != 0 && be_value(bytes)
            < group_order(),
        group_order() + 0x1_4551_2319_50B7_5FC4_402D_A173_2FC9_BEBFnat
            == 0x1_0000_0000_0000_0000_0000_0000_0000_0000_0000_0000_0000_0000_0000_0000_0000_0000nat,
{
    assert(bytes.push(last).drop_last() =~= bytes);
}

} // verus!
