//! What holds of a slave as a whole, whatever the master sends and whatever comes
//! of its jobs.
use crate::judge::{Compiled, JobView, Meta, Work};
use crate::language::{find, lemma_find};
use crate::link::{next, LinkAction, LinkEvent, Phase};
use crate::state::{fresh, only, Actions, EffectView, StateView, StepView};
use crate::wire::{
    HandshakeResponse, HandshakeResult, JudgeRequestBody, JudgeStateView, OutgoingView, Packet,
    TestCaseUpdateBody,
};
use vstd::prelude::*;

pub mod outcomes;
pub mod readings;

verus! {

/// Something that happens to a session: a packet, or the outcome of a job.
pub enum Event<M> {
    Packet(Packet<M>),
    Compiled(Compiled),
    Ran(Meta),
    Checked(Meta),
}

/// Whether that can happen to the session: a packet is taken in when no job is
/// under way, and an outcome is that of the job under way.
pub open spec fn possible<M>(s: StateView, event: Event<M>) -> bool {
    match event {
        Event::Packet(packet) => {
            &&& s.work == Work::Idle
            &&& packet matches Packet::Handshake(Some(r)) ==> r.complete()
        },
        Event::Compiled(_) => s.work is Compiling,
        Event::Ran(_) => s.work is Running,
        Event::Checked(meta) => s.work is Checking && meta.time is Some && meta.cg_mem is Some,
    }
}

/// The session after an event.
pub open spec fn after<M>(s: StateView, languages: Seq<Seq<char>>, event: Event<M>) -> StateView {
    match event {
        Event::Packet(packet) => s.on_packet(languages, packet).0,
        Event::Compiled(compiled) => s.on_compiled(compiled).0,
        Event::Ran(meta) => s.after_run(meta.failed),
        Event::Checked(meta) => s.on_checked(meta).0,
    }
}

/// What the session does at an event.
pub open spec fn effects_of<M>(
    s: StateView,
    languages: Seq<Seq<char>>,
    event: Event<M>,
) -> Seq<EffectView> {
    match event {
        Event::Packet(packet) => s.on_packet(languages, packet).1.effects,
        Event::Compiled(compiled) => s.on_compiled(compiled).1,
        Event::Ran(_) => seq![],
        Event::Checked(meta) => s.on_checked(meta).1,
    }
}

/// The session after a run of events.
pub open spec fn after_all<M>(
    s: StateView,
    languages: Seq<Seq<char>>,
    events: Seq<Event<M>>,
) -> StateView
    decreases events.len(),
{
    if events.len() == 0 {
        s
    } else {
        after(after_all(s, languages, events.drop_last()), languages, events.last())
    }
}

/// Whether events can happen to the session, one after the other.
pub open spec fn all_possible<M>(
    s: StateView,
    languages: Seq<Seq<char>>,
    events: Seq<Event<M>>,
) -> bool
    decreases events.len(),
{
    events.len() > 0 ==> {
        &&& all_possible(s, languages, events.drop_last())
        &&& possible(after_all(s, languages, events.drop_last()), events.last())
    }
}

/// Whether an effect is an update with that result.
pub open spec fn reports(effect: EffectView, result: JudgeStateView) -> bool {
    effect matches EffectView::Send(OutgoingView::GetJudgeStateUpdate { result: r, .. }) && r
        == result
}

/// Whether an effect is an update on that judgement, and bears the number and the
/// key of the session.
pub open spec fn is_update_of(s: StateView, effect: EffectView, uuid: u128) -> bool {
    exists|result: JudgeStateView| effect == #[trigger] s.update(uuid, result)
}

/// Every event keeps a consistent session consistent.
pub proof fn law_events_keep_consistency<M>(
    s: StateView,
    languages: Seq<Seq<char>>,
    event: Event<M>,
)
    requires
        languages.len() <= usize::MAX,
        s.consistent(languages.len()),
        possible(s, event),
    ensures
        after(s, languages, event).consistent(languages.len()),
{
    if let Event::Packet(Packet::GetJudge(Some(req))) = event {
        lemma_find(languages, req.checker_lang@);
        lemma_find(languages, req.main_lang@);
    }
}

/// Whatever happens to a session that has just been opened, it is consistent.
pub proof fn law_sessions_are_consistent<M>(
    secret: Seq<u8>,
    sleep_time: u64,
    languages: Seq<Seq<char>>,
    events: Seq<Event<M>>,
)
    requires
        languages.len() <= usize::MAX,
        all_possible(fresh(secret, sleep_time), languages, events),
    ensures
        after_all(fresh(secret, sleep_time), languages, events).consistent(languages.len()),
    decreases events.len(),
{
    let s = fresh(secret, sleep_time);
    if events.len() > 0 {
        law_sessions_are_consistent(secret, sleep_time, languages, events.drop_last());
        law_events_keep_consistency(
            after_all(s, languages, events.drop_last()),
            languages,
            events.last(),
        );
    }
}

/// A slave never has to answer that it is not locked: a consistent session is
/// locked whenever there is a submission to judge.
pub proof fn law_unlocked_slave_is_never_reported<M>(
    s: StateView,
    languages: Seq<Seq<char>>,
    event: Event<M>,
)
    requires
        s.consistent(languages.len()),
        possible(s, event),
    ensures
        forall|i: int|
            0 <= i < effects_of(s, languages, event).len() ==> !reports(
                #[trigger] effects_of(s, languages, event)[i],
                JudgeStateView::UnlockedSlave,
            ),
{
}

/// A test case for the submission at hand is run, and any other is answered that
/// there is no such judgement.
pub proof fn law_test_is_run_or_refused<M>(
    s: StateView,
    languages: nat,
    test: TestCaseUpdateBody<M>,
)
    requires
        s.consistent(languages),
        s.work == Work::Idle,
    ensures
        s.judging(test.uuid) ==> s.on_test(test).1 == (StepView {
            effects: seq![],
            job: Some(s.run_job(test)),
        }),
        !s.judging(test.uuid) ==> s.on_test(test) == (
            s,
            only::<M>(seq![s.update(test.uuid, JudgeStateView::JudgeNotFound)]),
        ),
{
    assert(!s.judging(test.uuid) ==> s.on_test(test).1 =~= only::<M>(
        seq![s.update(test.uuid, JudgeStateView::JudgeNotFound)],
    ));
}

/// While a submission is compiled or judged, another is turned away, and the one
/// at hand is not touched.
pub proof fn law_busy_slave_refuses<M>(
    s: StateView,
    languages: Seq<Seq<char>>,
    req: JudgeRequestBody<M>,
)
    requires
        s.locked,
    ensures
        s.on_judge(languages, req) == (
            s,
            only::<M>(seq![s.update(req.uuid, JudgeStateView::LockedSlave)]),
        ),
{
    assert(s.on_judge(languages, req).1 =~= only::<M>(
        seq![s.update(req.uuid, JudgeStateView::LockedSlave)],
    ));
}

/// A request that is refused leaves the session as it was.
pub proof fn law_refusal_changes_nothing<M>(
    s: StateView,
    languages: Seq<Seq<char>>,
    packet: Packet<M>,
)
    requires
        packet !is Handshake,
        s.on_packet(languages, packet).1.job is None,
    ensures
        s.on_packet(languages, packet).0 == s,
{
}

/// Every judge request is answered, and every update that a request, a test case
/// or the outcome of a job leads to is on the judgement it is about, and bears the
/// number and the key of the session.
pub proof fn law_updates_are_addressed<M>(s: StateView, languages: Seq<Seq<char>>, event: Event<M>)
    requires
        possible(s, event),
    ensures
        event matches Event::Packet(Packet::GetJudge(Some(req))) ==> {
            let effects = effects_of(s, languages, event);
            &&& effects.len() > 0
            &&& forall|i: int|
                0 <= i < effects.len() ==> is_update_of(s, #[trigger] effects[i], req.uuid)
        },
        event matches Event::Packet(Packet::TestCaseUpdate(Some(test))) ==> {
            let effects = effects_of(s, languages, event);
            forall|i: int|
                0 <= i < effects.len() ==> is_update_of(s, #[trigger] effects[i], test.uuid)
        },
        event is Compiled ==> {
            let effects = effects_of(s, languages, event);
            &&& effects.len() > 0
            &&& forall|i: int|
                0 <= i < effects.len() ==> is_update_of(
                    s,
                    #[trigger] effects[i],
                    s.work->Compiling_0.uuid,
                )
        },
        event is Checked ==> {
            let effects = effects_of(s, languages, event);
            &&& effects.len() > 0
            &&& forall|i: int|
                0 <= i < effects.len() ==> is_update_of(
                    s,
                    #[trigger] effects[i],
                    s.work->Checking_0.uuid,
                )
        },
{
}

/// Unless the slave is busy, what it answers to a judge request ends with
/// `LanguageNotFound`, whether the request is refused or taken up, and whatever
/// comes of the compilation.
pub proof fn law_judge_request_ends_with_language_not_found<M>(
    s: StateView,
    languages: Seq<Seq<char>>,
    req: JudgeRequestBody<M>,
    compiled: Compiled,
)
    requires
        !s.locked,
    ensures
        ({
            let (taken, step) = s.on_judge(languages, req);
            let end = s.update(req.uuid, JudgeStateView::LanguageNotFound);
            if step.job is None {
                step.effects.last() == end
            } else {
                taken.on_compiled(compiled).1.last() == end
            }
        }),
{
}

/// A compilation that fails undoes the request: the session is what it was before.
pub proof fn law_failed_compilation_is_undone<M>(
    s: StateView,
    languages: Seq<Seq<char>>,
    req: JudgeRequestBody<M>,
    compiled: Compiled,
)
    requires
        s.work == Work::Idle,
        s.takes_judge(languages, req),
        compiled.checker is Error || compiled.main is Error,
    ensures
        s.on_judge(languages, req).0.on_compiled(compiled).0 == s,
{
}

/// Once a submission is compiled, its test cases are run with the binary, the
/// language and the limits of the request, and checked with the checker's binary
/// and language.
pub proof fn law_tests_run_what_was_compiled<M>(
    s: StateView,
    languages: Seq<Seq<char>>,
    req: JudgeRequestBody<M>,
    compiled: Compiled,
    test: TestCaseUpdateBody<M>,
)
    requires
        s.takes_judge(languages, req),
        compiled.checker is Success,
        compiled.main is Success,
        test.uuid == req.uuid,
    ensures
        ({
            let ready = s.on_judge(languages, req).0.on_compiled(compiled).0;
            let (running, step) = ready.on_test(test);
            &&& step.job == Some(
                JobView::Run {
                    secret: s.shared->0,
                    stdin: test.stdin,
                    stdout_origin: test.stdout,
                    binary: compiled.main_binary@,
                    language: find(languages, req.main_lang@)->0,
                    time_limit: req.time_limit,
                    mem_limit: req.mem_limit,
                },
            )
            &&& running.judge == ready.judge
            &&& running.judge->0.checker_binary == compiled.checker_binary@
            &&& running.judge->0.checker_lang == find(languages, req.checker_lang@)->0
        }),
{
}

/// A test case that was run and checked, with whatever result, leaves the session
/// ready for the next one.
pub proof fn law_judged_test_leaves_no_trace<M>(
    s: StateView,
    test: TestCaseUpdateBody<M>,
    meta: Meta,
)
    requires
        s.work == Work::Idle,
        s.takes_test(test),
    ensures
        s.on_test(test).0.after_run(false).on_checked(meta).0 == s,
{
}

/// A run that fails ends the judgement and frees the slave: further test cases are
/// refused, and a request is taken up if its languages are known.
pub proof fn law_failed_run_frees_the_slave<M>(
    s: StateView,
    languages: Seq<Seq<char>>,
    test: TestCaseUpdateBody<M>,
    later: TestCaseUpdateBody<M>,
    req: JudgeRequestBody<M>,
)
    requires
        s.takes_test(test),
        languages.len() <= usize::MAX,
    ensures
        ({
            let ended = s.on_test(test).0.after_run(true);
            &&& !ended.takes_test(later)
            &&& ended.takes_judge(languages, req) <==> languages.contains(req.checker_lang@)
                && languages.contains(req.main_lang@)
        }),
{
    lemma_find(languages, req.checker_lang@);
    lemma_find(languages, req.main_lang@);
}

/// Nothing changes the key of a session, its number and its shared secret change
/// only by a handshake that succeeds, and a secret once shared stays shared.
pub proof fn law_identity_is_kept<M>(s: StateView, languages: Seq<Seq<char>>, event: Event<M>)
    requires
        possible(s, event),
    ensures
        ({
            let t = after(s, languages, event);
            let let_in = event matches Event::Packet(Packet::Handshake(Some(r))) && r.result
                == HandshakeResult::Success;
            &&& t.secret == s.secret
            &&& t.sleep_time == s.sleep_time
            &&& !let_in ==> t.node_id == s.node_id && t.shared == s.shared
            &&& s.shared is Some ==> t.shared is Some
        }),
{
}

/// Nothing is judged before a handshake has succeeded: a session that shares no
/// secret asks for no job.
pub proof fn law_no_job_without_handshake<M>(
    s: StateView,
    languages: Seq<Seq<char>>,
    packet: Packet<M>,
)
    requires
        s.shared is None,
    ensures
        s.on_packet(languages, packet).1.job is None,
{
}

/// The phase that a run of events leads the loop to, from where it starts.
pub open spec fn phase_after(events: Seq<LinkEvent>, sleep_time: u64) -> Phase {
    if events.len() == 0 {
        Phase::Connecting
    } else {
        next(events.last(), sleep_time).0
    }
}

/// Whether the loop can see these events, one after the other.
pub open spec fn link_possible(events: Seq<LinkEvent>, sleep_time: u64) -> bool {
    forall|i: int|
        0 <= i < events.len() ==> phase_after(events.take(i), sleep_time).awaits(
            #[trigger] events[i],
        )
}

/// The loop ends when, and only when, the session signals a shutdown: it is then
/// the last thing that happens, and it happens once.
pub proof fn law_loop_ends_at_shutdown(events: Seq<LinkEvent>, sleep_time: u64)
    requires
        link_possible(events, sleep_time),
    ensures
        phase_after(events, sleep_time) == Phase::Finished <==> exists|i: int|
            0 <= i < events.len() && #[trigger] events[i] == LinkEvent::Signalled(
                Some(Actions::Shutdown),
            ),
        forall|i: int|
            0 <= i < events.len() && #[trigger] events[i] == LinkEvent::Signalled(
                Some(Actions::Shutdown),
            ) ==> i == events.len() - 1,
{
    assert forall|i: int|
        0 <= i < events.len() && #[trigger] events[i] == LinkEvent::Signalled(
            Some(Actions::Shutdown),
        ) implies i == events.len() - 1 by {
        if i < events.len() - 1 {
            assert(events.take(i + 1).last() == events[i]);
            assert(phase_after(events.take(i + 1), sleep_time).awaits(events[i + 1]));
        }
    }
    if phase_after(events, sleep_time) == Phase::Finished {
        assert(events[events.len() - 1] == LinkEvent::Signalled(Some(Actions::Shutdown)));
    }
}

/// The loop waits as long as a signal asks for, and `sleep_time` seconds where it
/// could not connect. After every wait it connects again. It opens a session
/// whenever it has connected, and at no other time.
pub proof fn law_waits_are_followed_by_a_new_session(sleep_time: u64, secs: u64)
    ensures
        next(LinkEvent::Signalled(Some(Actions::Reconnect(secs))), sleep_time) == (
            Phase::Waiting,
            LinkAction::Sleep(secs),
        ),
        forall|event: LinkEvent|
            Phase::Waiting.awaits(event) ==> #[trigger] next(event, sleep_time) == (
                Phase::Connecting,
                LinkAction::Connect,
            ),
        forall|event: LinkEvent|
            Phase::Connecting.awaits(event) ==> #[trigger] next(event, sleep_time) == (
                Phase::Polling,
                LinkAction::OpenSession,
            ) || next(event, sleep_time) == (Phase::Waiting, LinkAction::Sleep(sleep_time)),
        next(LinkEvent::Connected(true), sleep_time) == (Phase::Polling, LinkAction::OpenSession),
        next(LinkEvent::Connected(false), sleep_time) == (
            Phase::Waiting,
            LinkAction::Sleep(sleep_time),
        ),
        forall|event: LinkEvent|
            (#[trigger] next(event, sleep_time)).1 == LinkAction::OpenSession <==> event
                == LinkEvent::Connected(true),
{
}

/// A wrong password ends the slave.
pub proof fn law_wrong_password_ends_the_slave<M>(
    s: StateView,
    languages: Seq<Seq<char>>,
    response: HandshakeResponse,
)
    requires
        response.result == HandshakeResult::PasswordNotMatched,
    ensures
        ({
            let (t, step) = s.on_packet(languages, Packet::<M>::Handshake(Some(response)));
            &&& t == s
            &&& step == only::<M>(seq![EffectView::Signal(Actions::Shutdown)])
            &&& next(LinkEvent::Signalled(Some(Actions::Shutdown)), s.sleep_time) == (
                Phase::Finished,
                LinkAction::Exit,
            )
        }),
{
}

/// An expired token has the slave connect again at once, a valid one nothing.
pub proof fn law_expired_token_reconnects_at_once<M>(
    s: StateView,
    languages: Seq<Seq<char>>,
    body: Vec<u8>,
)
    ensures
        body@ == seq![0u8] ==> {
            &&& s.on_packet(languages, Packet::<M>::ReqVerifyToken(body)) == (
                s,
                only::<M>(seq![EffectView::Signal(Actions::Reconnect(0))]),
            )
            &&& next(LinkEvent::Signalled(Some(Actions::Reconnect(0))), s.sleep_time) == (
                Phase::Waiting,
                LinkAction::Sleep(0),
            )
        },
        body@ == seq![1u8] ==> s.on_packet(languages, Packet::<M>::ReqVerifyToken(body)) == (
            s,
            only::<M>(seq![]),
        ),
{
    assert(seq![0u8][0] != seq![1u8][0]);
}

} // verus!
