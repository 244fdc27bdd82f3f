//! What each packet, each outcome of a job and each event of the loop leads to,
//! said outright: which fields of the session are what afterwards, which packets
//! are sent with which contents, and which job is asked for.
use super::{after_all, all_possible, effects_of, law_identity_is_kept, possible, Event};
use crate::judge::{CompileResult, Compiled, JobView, Meta, Work};
use crate::keys::{is_secret_scalar, public_key_of, shared_secret_of, PublicKey};
use crate::language::lemma_find;
use crate::link::{begun, next, Link, LinkAction, LinkEvent, Phase};
use crate::state::{fresh, Actions, EffectView, StateView};
use crate::wire::{
    HandshakeResponse, HandshakeResult, JudgeRequestBody, JudgeStateView, OutgoingView, Packet,
    TestCaseUpdateBody,
};
use vstd::prelude::*;

verus! {

/// A session that has just been opened has its key and its sleep time, the highest
/// number there is, and nothing else.
pub proof fn law_fresh_session(secret: Seq<u8>, sleep_time: u64)
    ensures
        fresh(secret, sleep_time).secret == secret,
        fresh(secret, sleep_time).sleep_time == sleep_time,
        fresh(secret, sleep_time).node_id == 0xFFFF_FFFF,
        !fresh(secret, sleep_time).locked,
        fresh(secret, sleep_time).shared is None,
        fresh(secret, sleep_time).judge is None,
        fresh(secret, sleep_time).work is Idle,
{
}

/// The packets that ask to be let in and whether the session still holds bear the
/// key of the session, and the password or the number.
pub proof fn law_own_packets(s: StateView, pass: Seq<char>)
    ensures
        s.handshake_packet(pass) == (OutgoingView::Handshake {
            client_pubkey: public_key_of(s.secret),
            pass,
        }),
        s.token_packet() == (OutgoingView::VerifyToken {
            node_id: s.node_id,
            client_pubkey: public_key_of(s.secret),
        }),
{
}

/// A handshake that succeeds gives the slave the very number that the master chose
/// and the secret of its key and the master's. It changes nothing else, sends
/// nothing and asks for no job.
pub proof fn law_handshake_gives_number_and_secret<M>(
    s: StateView,
    languages: Seq<Seq<char>>,
    response: HandshakeResponse,
    n: u32,
    key: PublicKey,
)
    requires
        response.result == HandshakeResult::Success,
        response.node_id == Some(n),
        response.server_pubkey == Some(key),
    ensures
        ({
            let (t, step) = s.on_packet(languages, Packet::<M>::Handshake(Some(response)));
            &&& t.node_id == n
            &&& t.shared == Some(shared_secret_of(s.secret, key@))
            &&& t.secret == s.secret
            &&& t.locked == s.locked
            &&& t.judge == s.judge
            &&& t.work == s.work
            &&& t.sleep_time == s.sleep_time
            &&& step.effects.len() == 0
            &&& step.job is None
        }),
{
}

/// Two answers with different numbers give different numbers.
pub proof fn law_numbers_are_told_apart<M>(
    s: StateView,
    languages: Seq<Seq<char>>,
    one: HandshakeResponse,
    other: HandshakeResponse,
)
    requires
        one.result == HandshakeResult::Success,
        other.result == HandshakeResult::Success,
        one.complete(),
        other.complete(),
    ensures
        s.on_packet(languages, Packet::<M>::Handshake(Some(one))).0.node_id == s.on_packet(
            languages,
            Packet::<M>::Handshake(Some(other)),
        ).0.node_id <==> one.node_id == other.node_id,
{
}

/// Where a session is said to agree with the master, it holds the secret that the
/// master computes from its own secret and the slave's key.
pub proof fn law_agreement_is_one_secret(
    t: StateView,
    response: HandshakeResponse,
    key: PublicKey,
    master: Seq<u8>,
)
    requires
        response.result == HandshakeResult::Success,
        response.server_pubkey == Some(key),
        is_secret_scalar(master),
        public_key_of(master) == key@,
        t.agrees_with_master(response),
    ensures
        t.shared == Some(shared_secret_of(master, public_key_of(t.secret))),
{
}

/// Any other answer to a handshake leaves the session as it was. A wrong password
/// signals a shutdown, an answer that could not be decoded a new connection after
/// the sleep time, and an unknown result nothing.
pub proof fn law_other_answers_only_signal<M>(
    s: StateView,
    languages: Seq<Seq<char>>,
    answer: Option<HandshakeResponse>,
)
    requires
        answer matches Some(r) ==> r.result != HandshakeResult::Success,
    ensures
        ({
            let (t, step) = s.on_packet(languages, Packet::<M>::Handshake(answer));
            &&& t == s
            &&& step.job is None
            &&& answer is None ==> step.effects == seq![
                EffectView::Signal(Actions::Reconnect(s.sleep_time)),
            ]
            &&& answer matches Some(r) ==> if r.result == HandshakeResult::PasswordNotMatched {
                step.effects == seq![EffectView::Signal(Actions::Shutdown)]
            } else {
                step.effects.len() == 0
            }
        }),
{
}

/// The answer to a token check leaves the session as it was. The one byte 1 does
/// nothing, the one byte 0 signals a new connection at once, and anything else one
/// after the sleep time.
pub proof fn law_token_answers<M>(s: StateView, languages: Seq<Seq<char>>, body: Vec<u8>)
    ensures
        ({
            let (t, step) = s.on_packet(languages, Packet::<M>::ReqVerifyToken(body));
            let valid = body@.len() == 1 && body@[0] == 1;
            let expired = body@.len() == 1 && body@[0] == 0;
            &&& t == s
            &&& step.job is None
            &&& valid ==> step.effects.len() == 0
            &&& expired ==> step.effects == seq![EffectView::Signal(Actions::Reconnect(0))]
            &&& !valid && !expired ==> step.effects == seq![
                EffectView::Signal(Actions::Reconnect(s.sleep_time)),
            ]
        }),
{
    if body@.len() == 1 {
        assert(body@ =~= seq![body@[0]]);
        assert(body@[0] == 1 ==> body@ != seq![0u8]) by {
            assert(seq![0u8][0] == 0);
        }
    }
    assert(seq![0u8].len() == 1 && seq![0u8][0] == 0);
    assert(seq![1u8].len() == 1 && seq![1u8][0] == 1);
}

/// What could not be decoded, and what a slave does not serve, does nothing.
pub proof fn law_senseless_packets_do_nothing<M>(
    s: StateView,
    languages: Seq<Seq<char>>,
    packet: Packet<M>,
)
    requires
        packet == Packet::<M>::Unknown || packet == Packet::<M>::GetJudge(None) || packet
            == Packet::<M>::TestCaseUpdate(None),
    ensures
        s.on_packet(languages, packet).0 == s,
        s.on_packet(languages, packet).1.effects.len() == 0,
        s.on_packet(languages, packet).1.job is None,
{
}

/// A judge request is taken up if, and only if, the slave is free, both languages
/// are in the table, and there has been a handshake.
pub proof fn law_when_a_judge_request_is_taken_up<M>(
    s: StateView,
    languages: Seq<Seq<char>>,
    req: JudgeRequestBody<M>,
)
    requires
        languages.len() <= usize::MAX,
    ensures
        s.on_packet(languages, Packet::GetJudge(Some(req))).1.job is Some <==> {
            &&& !s.locked
            &&& languages.contains(req.checker_lang@)
            &&& languages.contains(req.main_lang@)
            &&& s.shared is Some
        },
{
    lemma_find(languages, req.checker_lang@);
    lemma_find(languages, req.main_lang@);
}

/// A judge request that is taken up locks the slave, is reported as being
/// compiled, and has its checker's source compiled in the checker's language and
/// its submission's source in the submission's, whichever the two are. Its uuid,
/// its languages and its limits are kept until the compilation is over.
pub proof fn law_each_source_is_compiled_in_its_language<M>(
    s: StateView,
    languages: Seq<Seq<char>>,
    req: JudgeRequestBody<M>,
)
    requires
        languages.len() <= usize::MAX,
        !s.locked,
        languages.contains(req.checker_lang@),
        languages.contains(req.main_lang@),
        s.shared is Some,
    ensures
        ({
            let (t, step) = s.on_packet(languages, Packet::GetJudge(Some(req)));
            &&& step.job matches Some(
                JobView::Compile { secret, checker_lang, checker_code, main_lang, main_code },
            ) && {
                &&& secret == s.shared->0
                &&& checker_code == req.checker_code
                &&& main_code == req.main_code
                &&& checker_lang < languages.len()
                &&& languages[checker_lang as int] == req.checker_lang@
                &&& forall|j: int| 0 <= j < checker_lang ==> languages[j] != req.checker_lang@
                &&& main_lang < languages.len()
                &&& languages[main_lang as int] == req.main_lang@
                &&& forall|j: int| 0 <= j < main_lang ==> languages[j] != req.main_lang@
                &&& t.work matches Work::Compiling(c) && {
                    &&& c.uuid == req.uuid
                    &&& c.checker_lang == checker_lang
                    &&& c.main_lang == main_lang
                    &&& c.time_limit == req.time_limit
                    &&& c.mem_limit == req.mem_limit
                }
            }
            &&& step.effects == seq![
                EffectView::Send(
                    OutgoingView::GetJudgeStateUpdate {
                        node_id: s.node_id,
                        client_pubkey: public_key_of(s.secret),
                        uuid: req.uuid,
                        result: JudgeStateView::DoCompile,
                    },
                ),
            ]
            &&& t.locked
            &&& t.secret == s.secret
            &&& t.node_id == s.node_id
            &&& t.shared == s.shared
            &&& t.judge == s.judge
            &&& t.sleep_time == s.sleep_time
        }),
{
    lemma_find(languages, req.checker_lang@);
    lemma_find(languages, req.main_lang@);
}

/// A judge request that is not taken up leaves the session as it was, and is told
/// why: the slave is locked; a language is not in the table; or there has been no
/// handshake, which is an internal error without a text and is followed by
/// `LanguageNotFound`.
pub proof fn law_why_a_judge_request_is_refused<M>(
    s: StateView,
    languages: Seq<Seq<char>>,
    req: JudgeRequestBody<M>,
)
    requires
        languages.len() <= usize::MAX,
    ensures
        ({
            let (t, step) = s.on_packet(languages, Packet::GetJudge(Some(req)));
            let told = |result: JudgeStateView|
                EffectView::Send(
                    OutgoingView::GetJudgeStateUpdate {
                        node_id: s.node_id,
                        client_pubkey: public_key_of(s.secret),
                        uuid: req.uuid,
                        result,
                    },
                );
            let known = languages.contains(req.checker_lang@) && languages.contains(
                req.main_lang@,
            );
            &&& s.locked || !known || s.shared is None ==> t == s && step.job is None
            &&& s.locked ==> step.effects == seq![told(JudgeStateView::LockedSlave)]
            &&& !s.locked && !known ==> step.effects == seq![
                told(JudgeStateView::LanguageNotFound),
            ]
            &&& !s.locked && known && s.shared is None ==> step.effects == seq![
                told(JudgeStateView::InternalError(Seq::<char>::empty())),
                told(JudgeStateView::LanguageNotFound),
            ]
        }),
{
    lemma_find(languages, req.checker_lang@);
    lemma_find(languages, req.main_lang@);
}

/// After a compilation two updates are sent, on the judgement that was compiled.
/// The first is an internal error with the checker's complaints if the checker did
/// not compile, a compile error with the submission's if only the submission did
/// not, and otherwise that the compilation is complete, with what the submission's
/// compiler printed. The second is `LanguageNotFound`.
pub proof fn law_compilation_is_reported_as_it_went(s: StateView, compiled: Compiled)
    requires
        s.work is Compiling,
    ensures
        ({
            let effects = s.on_compiled(compiled).1;
            let told = |result: JudgeStateView|
                EffectView::Send(
                    OutgoingView::GetJudgeStateUpdate {
                        node_id: s.node_id,
                        client_pubkey: public_key_of(s.secret),
                        uuid: s.work->Compiling_0.uuid,
                        result,
                    },
                );
            &&& effects.len() == 2
            &&& effects[1] == told(JudgeStateView::LanguageNotFound)
            &&& compiled.checker matches CompileResult::Error(stderr) ==> effects[0] == told(
                JudgeStateView::InternalError(stderr@),
            )
            &&& compiled.checker is Success ==> (compiled.main matches CompileResult::Error(
                stderr,
            ) ==> effects[0] == told(JudgeStateView::CompileError(stderr@)))
            &&& compiled.checker is Success ==> (compiled.main matches CompileResult::Success(
                stdout,
            ) ==> effects[0] == told(JudgeStateView::CompleteCompile(stdout@)))
        }),
{
}

/// A slave that had no submission is told to have completed a compilation if, and
/// only if, a submission then waits for test cases; and it is then locked, and
/// otherwise free.
pub proof fn law_complete_means_ready(s: StateView, compiled: Compiled)
    requires
        s.work is Compiling,
        s.judge is None,
        s.locked,
    ensures
        ({
            let (t, effects) = s.on_compiled(compiled);
            let complete = effects[0] matches EffectView::Send(
                OutgoingView::GetJudgeStateUpdate { result: JudgeStateView::CompleteCompile(_), .. },
            );
            &&& complete <==> t.judge is Some
            &&& complete <==> t.locked
            &&& complete <==> compiled.checker is Success && compiled.main is Success
        }),
{
}

/// Where both sources compiled, the submission waits for test cases with the uuid,
/// the languages and the limits of its request and the binaries that were made.
/// Where one did not, the slave is freed and the submission at hand, if any, stays.
/// Either way no job is under way any more, and nothing else changes.
pub proof fn law_what_a_compilation_leaves(s: StateView, compiled: Compiled)
    requires
        s.work is Compiling,
    ensures
        ({
            let t = s.on_compiled(compiled).0;
            let c = s.work->Compiling_0;
            let both = compiled.checker is Success && compiled.main is Success;
            &&& both ==> {
                &&& t.judge matches Some(judge) && {
                    &&& judge.uuid == c.uuid
                    &&& judge.main_lang == c.main_lang
                    &&& judge.checker_lang == c.checker_lang
                    &&& judge.main_binary == compiled.main_binary@
                    &&& judge.checker_binary == compiled.checker_binary@
                    &&& judge.time_limit == c.time_limit
                    &&& judge.mem_limit == c.mem_limit
                }
                &&& t.locked == s.locked
            }
            &&& !both ==> t.judge == s.judge && !t.locked
            &&& t.work is Idle
            &&& t.secret == s.secret
            &&& t.node_id == s.node_id
            &&& t.shared == s.shared
            &&& t.sleep_time == s.sleep_time
        }),
{
}

/// A test case for the submission at hand, on a locked slave after a handshake, is
/// run: the submission's binary in its language and its limits, on the input and
/// the expected output of the test case. Nothing is sent, and the test case is kept
/// until its check is over.
pub proof fn law_test_runs_the_submission<M>(
    s: StateView,
    languages: Seq<Seq<char>>,
    test: TestCaseUpdateBody<M>,
)
    requires
        s.judge is Some,
        s.judge->0.uuid == test.uuid,
        s.locked,
        s.shared is Some,
    ensures
        ({
            let (t, step) = s.on_packet(languages, Packet::TestCaseUpdate(Some(test)));
            &&& step.job matches Some(
                JobView::Run {
                    secret,
                    stdin,
                    stdout_origin,
                    binary,
                    language,
                    time_limit,
                    mem_limit,
                },
            ) && {
                &&& secret == s.shared->0
                &&& stdin == test.stdin
                &&& stdout_origin == test.stdout
                &&& binary == s.judge->0.main_binary
                &&& language == s.judge->0.main_lang
                &&& time_limit == s.judge->0.time_limit
                &&& mem_limit == s.judge->0.mem_limit
            }
            &&& step.effects.len() == 0
            &&& t.work matches Work::Running(trial) && trial.uuid == test.uuid
                && trial.test_uuid == test.test_uuid
            &&& t.secret == s.secret
            &&& t.locked == s.locked
            &&& t.node_id == s.node_id
            &&& t.shared == s.shared
            &&& t.judge == s.judge
            &&& t.sleep_time == s.sleep_time
        }),
{
}

/// Any other test case leaves the session as it was, and is told why it is not run:
/// there is no such judgement, or the slave is not locked. Without a handshake it
/// is passed over.
pub proof fn law_why_a_test_is_refused<M>(
    s: StateView,
    languages: Seq<Seq<char>>,
    test: TestCaseUpdateBody<M>,
)
    ensures
        ({
            let (t, step) = s.on_packet(languages, Packet::TestCaseUpdate(Some(test)));
            let told = |result: JudgeStateView|
                EffectView::Send(
                    OutgoingView::GetJudgeStateUpdate {
                        node_id: s.node_id,
                        client_pubkey: public_key_of(s.secret),
                        uuid: test.uuid,
                        result,
                    },
                );
            let known = s.judge is Some && s.judge->0.uuid == test.uuid;
            &&& !known || !s.locked || s.shared is None ==> t == s && step.job is None
            &&& !known ==> step.effects == seq![told(JudgeStateView::JudgeNotFound)]
            &&& known && !s.locked ==> step.effects == seq![told(JudgeStateView::UnlockedSlave)]
            &&& known && s.locked && s.shared is None ==> step.effects.len() == 0
        }),
{
}

/// A run that failed ends the judgement: the slave is free and has no submission,
/// and nothing is checked. A run that did not leaves the session as it was, but for
/// the check of the same test case, which is done with the checker of the
/// submission in its language. What was measured plays no part.
pub proof fn law_what_a_run_leads_to(s: StateView, failed: bool)
    requires
        s.work is Running,
        s.judge is Some,
    ensures
        ({
            let t = s.after_run(failed);
            &&& failed ==> {
                &&& s.check_after_run(failed) is None
                &&& !t.locked
                &&& t.judge is None
                &&& t.work is Idle
            }
            &&& !failed ==> {
                &&& s.check_after_run(failed) matches Some((binary, language)) && binary
                    == s.judge->0.checker_binary && language == s.judge->0.checker_lang
                &&& t.locked == s.locked
                &&& t.judge == s.judge
                &&& t.work matches Work::Checking(trial) && trial.uuid == s.work->Running_0.uuid
                    && trial.test_uuid == s.work->Running_0.test_uuid
            }
            &&& t.secret == s.secret
            &&& t.node_id == s.node_id
            &&& t.shared == s.shared
            &&& t.sleep_time == s.sleep_time
        }),
{
}

/// After a check one update is sent, on the judgement and the test case at hand: a
/// wrong answer if, and only if, the checker's run failed, and accepted if, and
/// only if, it did not, with the time and the memory that were measured. Nothing
/// but the check itself is over.
pub proof fn law_checker_alone_decides(s: StateView, meta: Meta)
    requires
        s.work is Checking,
        meta.time is Some,
        meta.cg_mem is Some,
    ensures
        ({
            let (t, effects) = s.on_checked(meta);
            let trial = s.work->Checking_0;
            let wrong = JudgeStateView::WrongAnswer(
                trial.test_uuid,
                meta.time->0,
                meta.cg_mem->0,
            );
            let right = JudgeStateView::Accepted(trial.test_uuid, meta.time->0, meta.cg_mem->0);
            &&& effects.len() == 1
            &&& effects[0] matches EffectView::Send(
                OutgoingView::GetJudgeStateUpdate { node_id, client_pubkey, uuid, result },
            ) && {
                &&& node_id == s.node_id
                &&& client_pubkey == public_key_of(s.secret)
                &&& uuid == trial.uuid
                &&& meta.failed <==> result == wrong
                &&& !meta.failed <==> result == right
            }
            &&& t.work is Idle
            &&& t.secret == s.secret
            &&& t.locked == s.locked
            &&& t.node_id == s.node_id
            &&& t.shared == s.shared
            &&& t.judge == s.judge
            &&& t.sleep_time == s.sleep_time
        }),
{
}

/// Two checks of whatever sessions give the same verdict if, and only if, their
/// checkers ended alike, whatever was measured and whoever is judged.
pub proof fn law_verdict_is_the_same_for_all(
    s: StateView,
    meta: Meta,
    other: StateView,
    other_meta: Meta,
)
    requires
        s.work is Checking,
        other.work is Checking,
        meta.time is Some,
        meta.cg_mem is Some,
        other_meta.time is Some,
        other_meta.cg_mem is Some,
    ensures
        ({
            let accepts = |effects: Seq<EffectView>|
                effects[0] matches EffectView::Send(
                    OutgoingView::GetJudgeStateUpdate {
                        result: JudgeStateView::Accepted(_, _, _),
                        ..
                    },
                );
            accepts(s.on_checked(meta).1) == accepts(other.on_checked(other_meta).1) <==> meta.failed
                == other_meta.failed
        }),
{
}

/// Whether an event is a handshake that succeeds.
pub open spec fn lets_in<M>(event: Event<M>) -> bool {
    event matches Event::Packet(Packet::Handshake(Some(r))) && r.result
        == HandshakeResult::Success
}

/// The number that the master gave is the session's until the next handshake that
/// succeeds, whatever else happens in between, and so are the key and the secret.
/// Every packet that the session sends in that time bears that number and that key.
pub proof fn law_number_lasts_until_the_next_handshake<M>(
    s: StateView,
    languages: Seq<Seq<char>>,
    response: HandshakeResponse,
    n: u32,
    key: PublicKey,
    events: Seq<Event<M>>,
    event: Event<M>,
)
    requires
        response.result == HandshakeResult::Success,
        response.node_id == Some(n),
        response.server_pubkey == Some(key),
        ({
            let t = s.on_packet(languages, Packet::<M>::Handshake(Some(response))).0;
            &&& all_possible(t, languages, events)
            &&& possible(after_all(t, languages, events), event)
        }),
        forall|i: int| 0 <= i < events.len() ==> !lets_in(#[trigger] events[i]),
    ensures
        ({
            let t = s.on_packet(languages, Packet::<M>::Handshake(Some(response))).0;
            let u = after_all(t, languages, events);
            let effects = effects_of(u, languages, event);
            &&& u.node_id == n
            &&& u.secret == s.secret
            &&& u.shared == Some(shared_secret_of(s.secret, key@))
            &&& u.token_packet() == (OutgoingView::VerifyToken {
                node_id: n,
                client_pubkey: public_key_of(s.secret),
            })
            &&& forall|i: int|
                0 <= i < effects.len() && (#[trigger] effects[i]) is Send ==> {
                    effects[i] matches EffectView::Send(
                        OutgoingView::GetJudgeStateUpdate { node_id, client_pubkey, .. },
                    ) && node_id == n && client_pubkey == public_key_of(s.secret)
                }
        }),
{
    let t = s.on_packet(languages, Packet::<M>::Handshake(Some(response))).0;
    lemma_identity_lasts(t, languages, events);
}

/// Events that are no successful handshakes keep the number, the key and the
/// secret of a session.
proof fn lemma_identity_lasts<M>(
    s: StateView,
    languages: Seq<Seq<char>>,
    events: Seq<Event<M>>,
)
    requires
        all_possible(s, languages, events),
        forall|i: int| 0 <= i < events.len() ==> !lets_in(#[trigger] events[i]),
    ensures
        after_all(s, languages, events).node_id == s.node_id,
        after_all(s, languages, events).secret == s.secret,
        after_all(s, languages, events).shared == s.shared,
    decreases events.len(),
{
    if events.len() > 0 {
        assert forall|i: int| 0 <= i < events.drop_last().len() implies !lets_in(
            #[trigger] events.drop_last()[i],
        ) by {
            assert(events.drop_last()[i] == events[i]);
        }
        lemma_identity_lasts(s, languages, events.drop_last());
        assert(!lets_in(events[events.len() - 1]));
        law_identity_is_kept(
            after_all(s, languages, events.drop_last()),
            languages,
            events.last(),
        );
    }
}

/// The loop starts with a connection, and keeps its sleep time for ever.
pub proof fn law_loop_keeps_its_sleep_time(link: Link, event: LinkEvent, sleep_time: u64)
    ensures
        begun(sleep_time).phase is Connecting,
        begun(sleep_time).sleep_time == sleep_time,
        link.stepped(event).0.sleep_time == link.sleep_time,
        link.stepped(event).0.phase == next(event, link.sleep_time).0,
        link.stepped(event).1 == next(event, link.sleep_time).1,
{
}

/// A connection that was made leads to a session, whatever the sleep time, and one
/// that could not be made to a wait of exactly that time.
pub proof fn law_connection_opens_a_session(link: Link, made: bool)
    ensures
        ({
            let (after, action) = link.stepped(LinkEvent::Connected(made));
            &&& made <==> action == LinkAction::OpenSession
            &&& made <==> after.phase == Phase::Polling
            &&& !made <==> action == LinkAction::Sleep(link.sleep_time)
            &&& !made <==> after.phase == Phase::Waiting
        }),
{
}

/// A signal to reconnect leads to a wait of exactly the seconds it says, a signal
/// to shut down to the end, and none, or one that is not known, to reading a
/// packet.
pub proof fn law_signals_are_obeyed(link: Link, signal: Option<Actions>, secs: u64)
    ensures
        ({
            let (after, action) = link.stepped(LinkEvent::Signalled(signal));
            &&& signal == Some(Actions::Reconnect(secs)) <==> action == LinkAction::Sleep(secs)
            &&& signal == Some(Actions::Reconnect(secs)) ==> after.phase == Phase::Waiting
            &&& signal == Some(Actions::Shutdown) <==> action == LinkAction::Exit
            &&& signal == Some(Actions::Shutdown) <==> after.phase == Phase::Finished
            &&& signal is None || signal == Some(Actions::Unknown) <==> action
                == LinkAction::ReadPacket
            &&& signal is None || signal == Some(Actions::Unknown) <==> after.phase
                == Phase::Reading
        }),
{
}

/// A packet that came is handed to the session, and either way the next signal is
/// looked for.
pub proof fn law_packets_are_dispatched(link: Link, came: bool)
    ensures
        ({
            let (after, action) = link.stepped(LinkEvent::Received(came));
            &&& after.phase == Phase::Polling
            &&& came <==> action == LinkAction::Dispatch
            &&& !came <==> action == LinkAction::PollSignal
        }),
{
}

/// A wait that is over leads to a new connection.
pub proof fn law_waits_end_in_a_connection(link: Link)
    ensures
        link.stepped(LinkEvent::Slept).0.phase == Phase::Connecting,
        link.stepped(LinkEvent::Slept).1 == LinkAction::Connect,
{
}

/// Each phase awaits what its action comes to, whatever that holds, and nothing
/// else; the end awaits nothing.
pub proof fn law_what_phases_await(phase: Phase, flag: bool, signal: Option<Actions>)
    ensures
        phase.awaits(LinkEvent::Connected(flag)) <==> phase is Connecting,
        phase.awaits(LinkEvent::Signalled(signal)) <==> phase is Polling,
        phase.awaits(LinkEvent::Received(flag)) <==> phase is Reading,
        phase.awaits(LinkEvent::Slept) <==> phase is Waiting,
{
}

} // verus!
