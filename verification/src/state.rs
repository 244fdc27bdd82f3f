//! The session with the master, from one connection to its end.
//!
//! A session takes in the packets of the master one at a time. A packet changes
//! the session, has it send packets and signals, and may ask for a job; the
//! outcome of the job is handed back before the next packet is taken in.
use crate::judge::{
    CheckJob, Compilation, CompileJob, CompileResult, Compiled, Job, JobView, Meta, OnJudge,
    OnJudgeView, RunJob, Trial, Work,
};
use crate::keys::{
    is_secret_scalar, public_key_of, shared_secret_of, EphemeralSecret, SharedSecret,
};
use crate::language::{find, Languages};
use crate::wire::{
    bincode_bool, bool_of, BodyAfterHandshake, HandshakeRequest, HandshakeResponse,
    HandshakeResult, JudgeRequestBody, JudgeResponseBody, JudgeState, JudgeStateView, Outgoing,
    OutgoingView, Packet, TestCaseUpdateBody,
};
use vstd::pervasive::unreached;
use vstd::prelude::*;

verus! {

/// What a session tells the loop that keeps the connection.
#[derive(Clone, Copy, Debug, PartialEq, Eq, Structural)]
pub enum Actions {
    /// Connect again after that many seconds.
    Reconnect(u64),
    Shutdown,
    Unknown,
}

/// Something that a session has done: signal the loop, or send a packet.
#[derive(Debug, PartialEq, Eq)]
pub enum Effect {
    Signal(Actions),
    Send(Outgoing),
}

/// The view of an `Effect`.
pub enum EffectView {
    Signal(Actions),
    Send(OutgoingView),
}

impl View for Effect {
    type V = EffectView;

    open spec fn view(&self) -> EffectView {
        match *self {
            Effect::Signal(action) => EffectView::Signal(action),
            Effect::Send(packet) => EffectView::Send(packet@),
        }
    }
}

/// The views of effects, in their order.
pub open spec fn views(effects: Seq<Effect>) -> Seq<EffectView> {
    Seq::new(effects.len(), |i: int| effects[i]@)
}

/// What a packet leads to: effects, in their order, and then a job, if any.
#[derive(Debug, PartialEq, Eq)]
pub struct Step<M> {
    pub effects: Vec<Effect>,
    pub job: Option<Job<M>>,
}

/// The view of a `Step`.
#[verifier::ext_equal]
pub struct StepView<M> {
    pub effects: Seq<EffectView>,
    pub job: Option<JobView<M>>,
}

impl<M> View for Step<M> {
    type V = StepView<M>;

    open spec fn view(&self) -> StepView<M> {
        StepView {
            effects: views(self.effects@),
            job: match self.job {
                Some(job) => Some(job@),
                None => None,
            },
        }
    }
}

/// The step of a packet that asks for no work.
pub open spec fn only<M>(effects: Seq<EffectView>) -> StepView<M> {
    StepView { effects, job: None }
}

/// A session with the master.
pub struct State {
    pub key: EphemeralSecret,
    /// Whether the slave is taken by a submission.
    pub locked: bool,
    /// The number that the master knows the slave by.
    pub node_id: u32,
    /// The secret shared with the master, once there has been a handshake.
    pub shared: Option<SharedSecret>,
    /// The submission that waits for test cases.
    pub judge: Option<OnJudge>,
    /// The job whose outcome is awaited.
    pub work: Work,
    /// The seconds to wait before connecting again after a failure.
    pub sleep_time: u64,
}

/// The view of a `State`.
#[verifier::ext_equal]
pub struct StateView {
    pub secret: Seq<u8>,
    pub locked: bool,
    pub node_id: u32,
    pub shared: Option<Seq<u8>>,
    pub judge: Option<OnJudgeView>,
    pub work: Work,
    pub sleep_time: u64,
}

impl View for State {
    type V = StateView;

    open spec fn view(&self) -> StateView {
        StateView {
            secret: self.key@,
            locked: self.locked,
            node_id: self.node_id,
            shared: match self.shared {
                Some(shared) => Some(shared@),
                None => None,
            },
            judge: match self.judge {
                Some(judge) => Some(judge@),
                None => None,
            },
            work: self.work,
            sleep_time: self.sleep_time,
        }
    }
}

/// A session that has just been opened: no handshake yet, and nothing to do.
pub open spec fn fresh(secret: Seq<u8>, sleep_time: u64) -> StateView {
    StateView {
        secret,
        locked: false,
        node_id: u32::MAX,
        shared: None,
        judge: None,
        work: Work::Idle,
        sleep_time,
    }
}

impl StateView {
    /// What holds of every session that a slave gets into, where it knows
    /// `languages` languages. The slave is taken while there is a submission to
    /// judge and at no other time, a submission is only judged after a handshake,
    /// and its languages are known ones.
    pub open spec fn consistent(self, languages: nat) -> bool {
        &&& self.locked ==> self.shared is Some
        &&& self.judge matches Some(judge) ==> judge.main_lang < languages && judge.checker_lang
            < languages
        &&& match self.work {
            Work::Idle => self.locked <==> self.judge is Some,
            Work::Compiling(c) => {
                &&& self.locked
                &&& self.judge is None
                &&& c.main_lang < languages
                &&& c.checker_lang < languages
            },
            Work::Running(t) | Work::Checking(t) => self.locked && self.judging(t.uuid),
        }
    }

    /// The request to be let in by that password.
    pub open spec fn handshake_packet(self, pass: Seq<char>) -> OutgoingView {
        OutgoingView::Handshake { client_pubkey: public_key_of(self.secret), pass }
    }

    /// The question whether the session still holds.
    pub open spec fn token_packet(self) -> OutgoingView {
        OutgoingView::VerifyToken {
            node_id: self.node_id,
            client_pubkey: public_key_of(self.secret),
        }
    }

    /// The binary and the language of the check that a run leads to, if any.
    pub open spec fn check_after_run(self, failed: bool) -> Option<(Seq<u8>, usize)> {
        match self.judge {
            Some(judge) if !failed => Some((judge.checker_binary, judge.checker_lang)),
            _ => None,
        }
    }

    /// The update that reports `result` for the judgement `uuid`.
    pub open spec fn update(self, uuid: u128, result: JudgeStateView) -> EffectView {
        EffectView::Send(
            OutgoingView::GetJudgeStateUpdate {
                node_id: self.node_id,
                client_pubkey: public_key_of(self.secret),
                uuid,
                result,
            },
        )
    }

    /// The updates that report `results`, one after the other.
    pub open spec fn updates(self, uuid: u128, results: Seq<JudgeStateView>) -> Seq<EffectView> {
        Seq::new(results.len(), |i: int| self.update(uuid, results[i]))
    }

    /// The session after the master's answer to a handshake. Only success changes
    /// it: the slave takes the number it was given, and shares a secret with the
    /// owner of the key it was told.
    pub open spec fn after_handshake(self, response: Option<HandshakeResponse>) -> StateView {
        match response {
            Some(r) if r.result == HandshakeResult::Success => StateView {
                node_id: r.node_id->0,
                shared: Some(shared_secret_of(self.secret, r.server_pubkey->0@)),
                ..self
            },
            _ => self,
        }
    }

    /// After a success, the session's secret is the one that the owner of the
    /// master's key computes from the key that the slave sends.
    pub open spec fn agrees_with_master(self, response: HandshakeResponse) -> bool {
        response.result == HandshakeResult::Success ==> forall|master: Seq<u8>|
            is_secret_scalar(master) && #[trigger] public_key_of(master)
                == response.server_pubkey->0@ ==> self.shared == Some(
                shared_secret_of(master, public_key_of(self.secret)),
            )
    }

    /// What the master's answer to a handshake has the session signal: a wrong
    /// password ends the slave, an answer that makes no sense breaks the connection.
    pub open spec fn handshake_signals(self, response: Option<HandshakeResponse>) -> Seq<EffectView> {
        match response {
            None => seq![EffectView::Signal(Actions::Reconnect(self.sleep_time))],
            Some(r) => if r.result == HandshakeResult::PasswordNotMatched {
                seq![EffectView::Signal(Actions::Shutdown)]
            } else {
                seq![]
            },
        }
    }

    /// What the answer to a token check has the session signal: an expired session
    /// is opened again at once, an answer that makes no sense breaks the connection.
    pub open spec fn token_signals(self, body: Seq<u8>) -> Seq<EffectView> {
        match bool_of(body) {
            Some(true) => seq![],
            Some(false) => seq![EffectView::Signal(Actions::Reconnect(0))],
            None => seq![EffectView::Signal(Actions::Reconnect(self.sleep_time))],
        }
    }

    /// Whether the submission that waits for test cases is `uuid`.
    pub open spec fn judging(self, uuid: u128) -> bool {
        self.judge matches Some(judge) && judge.uuid == uuid
    }

    /// Whether a test case is run.
    pub open spec fn takes_test<M>(self, test: TestCaseUpdateBody<M>) -> bool {
        self.judging(test.uuid) && self.locked && self.shared is Some
    }

    /// What a test case that is not run is answered.
    pub open spec fn test_refusal<M>(self, test: TestCaseUpdateBody<M>) -> Seq<JudgeStateView> {
        if !self.judging(test.uuid) {
            seq![JudgeStateView::JudgeNotFound]
        } else if !self.locked {
            seq![JudgeStateView::UnlockedSlave]
        } else {
            seq![]
        }
    }

    /// The run of the submission on a test case.
    pub open spec fn run_job<M>(self, test: TestCaseUpdateBody<M>) -> JobView<M> {
        JobView::Run {
            secret: self.shared->0,
            stdin: test.stdin,
            stdout_origin: test.stdout,
            binary: self.judge->0.main_binary,
            language: self.judge->0.main_lang,
            time_limit: self.judge->0.time_limit,
            mem_limit: self.judge->0.mem_limit,
        }
    }

    /// The session and the step that a test case leads to.
    pub open spec fn on_test<M>(self, test: TestCaseUpdateBody<M>) -> (StateView, StepView<M>) {
        if self.takes_test(test) {
            (
                StateView {
                    work: Work::Running(Trial { uuid: test.uuid, test_uuid: test.test_uuid }),
                    ..self
                },
                StepView { effects: seq![], job: Some(self.run_job(test)) },
            )
        } else {
            (self, only(self.updates(test.uuid, self.test_refusal(test))))
        }
    }

    /// Whether a judge request is taken up.
    pub open spec fn takes_judge<M>(
        self,
        languages: Seq<Seq<char>>,
        req: JudgeRequestBody<M>,
    ) -> bool {
        &&& !self.locked
        &&& find(languages, req.checker_lang@) is Some
        &&& find(languages, req.main_lang@) is Some
        &&& self.shared is Some
    }

    /// What a judge request that is not taken up is answered.
    pub open spec fn judge_refusal<M>(
        self,
        languages: Seq<Seq<char>>,
        req: JudgeRequestBody<M>,
    ) -> Seq<JudgeStateView> {
        if self.locked {
            seq![JudgeStateView::LockedSlave]
        } else if find(languages, req.checker_lang@) is None || find(
            languages,
            req.main_lang@,
        ) is None {
            seq![JudgeStateView::LanguageNotFound]
        } else {
            seq![JudgeStateView::InternalError(seq![]), JudgeStateView::LanguageNotFound]
        }
    }

    /// The session and the step that a judge request leads to.
    pub open spec fn on_judge<M>(
        self,
        languages: Seq<Seq<char>>,
        req: JudgeRequestBody<M>,
    ) -> (StateView, StepView<M>) {
        if self.takes_judge(languages, req) {
            let checker_lang = find(languages, req.checker_lang@)->0;
            let main_lang = find(languages, req.main_lang@)->0;
            (
                StateView {
                    locked: true,
                    work: Work::Compiling(
                        Compilation {
                            uuid: req.uuid,
                            main_lang,
                            checker_lang,
                            time_limit: req.time_limit,
                            mem_limit: req.mem_limit,
                        },
                    ),
                    ..self
                },
                StepView {
                    effects: self.updates(req.uuid, seq![JudgeStateView::DoCompile]),
                    job: Some(
                        JobView::Compile {
                            secret: self.shared->0,
                            checker_lang,
                            checker_code: req.checker_code,
                            main_lang,
                            main_code: req.main_code,
                        },
                    ),
                },
            )
        } else {
            (self, only(self.updates(req.uuid, self.judge_refusal(languages, req))))
        }
    }

    /// The session and the step that a packet leads to.
    pub open spec fn on_packet<M>(
        self,
        languages: Seq<Seq<char>>,
        packet: Packet<M>,
    ) -> (StateView, StepView<M>) {
        match packet {
            Packet::Handshake(response) => (
                self.after_handshake(response),
                only(self.handshake_signals(response)),
            ),
            Packet::ReqVerifyToken(body) => (self, only(self.token_signals(body@))),
            Packet::TestCaseUpdate(Some(test)) => self.on_test(test),
            Packet::GetJudge(Some(req)) => self.on_judge(languages, req),
            Packet::TestCaseUpdate(None) | Packet::GetJudge(None) | Packet::Unknown => (
                self,
                only(seq![]),
            ),
        }
    }

    /// What is reported of a compilation: the checker's errors before the
    /// submission's.
    pub open spec fn compile_report(checker: CompileResult, main: CompileResult) -> JudgeStateView {
        match (checker, main) {
            (CompileResult::Error(stderr), _) => JudgeStateView::InternalError(stderr@),
            (_, CompileResult::Error(stderr)) => JudgeStateView::CompileError(stderr@),
            (_, CompileResult::Success(stdout)) => JudgeStateView::CompleteCompile(stdout@),
        }
    }

    /// The session and the effects after a compilation. Where both sources
    /// compiled, the submission waits for test cases; otherwise the slave is free.
    pub open spec fn on_compiled(self, compiled: Compiled) -> (StateView, Seq<EffectView>) {
        let c = self.work->Compiling_0;
        let report = Self::compile_report(compiled.checker, compiled.main);
        (
            if compiled.checker is Success && compiled.main is Success {
                StateView {
                    judge: Some(
                        OnJudgeView {
                            uuid: c.uuid,
                            main_lang: c.main_lang,
                            checker_lang: c.checker_lang,
                            main_binary: compiled.main_binary@,
                            checker_binary: compiled.checker_binary@,
                            time_limit: c.time_limit,
                            mem_limit: c.mem_limit,
                        },
                    ),
                    work: Work::Idle,
                    ..self
                }
            } else {
                StateView { locked: false, work: Work::Idle, ..self }
            },
            self.updates(c.uuid, seq![report, JudgeStateView::LanguageNotFound]),
        )
    }

    /// The session after a run: a run that failed ends the judgement, one that did
    /// not is checked.
    pub open spec fn after_run(self, failed: bool) -> StateView {
        if failed {
            StateView { locked: false, judge: None, work: Work::Idle, ..self }
        } else {
            StateView { work: Work::Checking(self.work->Running_0), ..self }
        }
    }

    /// The session and the effects after a check: the checker's run tells whether
    /// the answer was right, and what it measured is reported.
    pub open spec fn on_checked(self, meta: Meta) -> (StateView, Seq<EffectView>) {
        let t = self.work->Checking_0;
        let result = if meta.failed {
            JudgeStateView::WrongAnswer(t.test_uuid, meta.time->0, meta.cg_mem->0)
        } else {
            JudgeStateView::Accepted(t.test_uuid, meta.time->0, meta.cg_mem->0)
        };
        (StateView { work: Work::Idle, ..self }, self.updates(t.uuid, seq![result]))
    }
}

impl State {
    /// Opens a session with that key.
    pub fn new(key: EphemeralSecret, sleep_time: u64) -> (state: State)
        ensures
            state@ == fresh(key@, sleep_time),
    {
        State {
            key,
            locked: false,
            node_id: u32::MAX,
            shared: None,
            judge: None,
            work: Work::Idle,
            sleep_time,
        }
    }

    /// The packet that asks the master to let the slave in.
    pub fn handshake(&self, pass: String) -> (packet: Outgoing)
        ensures
            packet@ == (OutgoingView::Handshake {
                client_pubkey: public_key_of(self@.secret),
                pass: pass@,
            }),
            packet@ == self@.handshake_packet(pass@),
    {
        Outgoing::Handshake(HandshakeRequest { client_pubkey: self.key.public_key(), pass })
    }

    /// The packet that asks the master whether the session still holds.
    pub fn verify_token(&self) -> (packet: Outgoing)
        ensures
            packet@ == (OutgoingView::VerifyToken {
                node_id: self@.node_id,
                client_pubkey: public_key_of(self@.secret),
            }),
            packet@ == self@.token_packet(),
    {
        Outgoing::VerifyToken(
            BodyAfterHandshake {
                node_id: self.node_id,
                client_pubkey: self.key.public_key(),
                req: (),
            },
        )
    }

    /// The packet that tells the master how far the judgement `uuid` has come.
    pub fn update_judge(&self, uuid: u128, state: JudgeState) -> (packet: Outgoing)
        ensures
            packet@ == (OutgoingView::GetJudgeStateUpdate {
                node_id: self@.node_id,
                client_pubkey: public_key_of(self@.secret),
                uuid,
                result: state@,
            }),
            EffectView::Send(packet@) == self@.update(uuid, state@),
    {
        Outgoing::GetJudgeStateUpdate(
            BodyAfterHandshake {
                node_id: self.node_id,
                client_pubkey: self.key.public_key(),
                req: JudgeResponseBody { uuid, result: state },
            },
        )
    }

    /// The effect of sending one update.
    fn report(&self, uuid: u128, state: JudgeState) -> (effects: Vec<Effect>)
        ensures
            views(effects@) == self@.updates(uuid, seq![state@]),
    {
        let mut effects: Vec<Effect> = Vec::new();
        effects.push(Effect::Send(self.update_judge(uuid, state)));
        effects
    }

    /// The effects of sending two updates.
    fn report_both(
        &self,
        uuid: u128,
        first: JudgeState,
        second: JudgeState,
    ) -> (effects: Vec<Effect>)
        ensures
            views(effects@) == self@.updates(uuid, seq![first@, second@]),
    {
        let mut effects: Vec<Effect> = Vec::new();
        effects.push(Effect::Send(self.update_judge(uuid, first)));
        effects.push(Effect::Send(self.update_judge(uuid, second)));
        effects
    }

    /// Takes the number that the master gave, and the secret shared with it.
    pub fn establish(&mut self, node_id: u32, shared: SharedSecret)
        ensures
            final(self)@ == (StateView { node_id, shared: Some(shared@), ..old(self)@ }),
    {
        self.node_id = node_id;
        self.shared = Some(shared);
    }

    /// Takes in the master's answer to the handshake.
    fn handle_handshake(
        &mut self,
        response: Option<HandshakeResponse>,
    ) -> (effects: Vec<Effect>)
        requires
            response matches Some(r) ==> r.complete(),
        ensures
            final(self)@ == old(self)@.after_handshake(response),
            views(effects@) == old(self)@.handshake_signals(response),
            response matches Some(r) ==> final(self)@.agrees_with_master(r),
    {
        let mut effects: Vec<Effect> = Vec::new();
        match response {
            Some(response) => match response.result {
                HandshakeResult::Success => {
                    let node_id: u32 = response.node_id.unwrap();
                    let server_pubkey = response.server_pubkey.unwrap();
                    let shared = self.key.diffie_hellman(&server_pubkey);
                    self.establish(node_id, shared);
                },
                HandshakeResult::PasswordNotMatched => {
                    effects.push(Effect::Signal(Actions::Shutdown));
                },
                HandshakeResult::Unknown => {},
            },
            None => {
                effects.push(Effect::Signal(Actions::Reconnect(self.sleep_time)));
            },
        }
        effects
    }

    /// Takes in the master's answer to a token check.
    fn handle_token(&self, body: Vec<u8>) -> (effects: Vec<Effect>)
        ensures
            views(effects@) == self@.token_signals(body@),
    {
        let mut effects: Vec<Effect> = Vec::new();
        match bincode_bool(&body) {
            Some(valid) => {
                if !valid {
                    effects.push(Effect::Signal(Actions::Reconnect(0)));
                }
            },
            None => {
                effects.push(Effect::Signal(Actions::Reconnect(self.sleep_time)));
            },
        }
        effects
    }

    /// Takes in a test case: runs it if it is for the submission at hand.
    fn handle_test_case<M>(&mut self, test: TestCaseUpdateBody<M>) -> (step: Step<M>)
        ensures
            (final(self)@, step@) == old(self)@.on_test(test),
    {
        let known = match &self.judge {
            Some(judge) => judge.uuid == test.uuid,
            None => false,
        };
        if !known {
            let effects = self.report(test.uuid, JudgeState::JudgeNotFound);
            return Step { effects, job: None };
        }
        if !self.locked {
            let effects = self.report(test.uuid, JudgeState::UnlockedSlave);
            return Step { effects, job: None };
        }
        let effects: Vec<Effect> = Vec::new();
        match (&self.judge, self.shared) {
            (Some(judge), Some(secret)) => {
                let job = RunJob {
                    secret,
                    stdin: test.stdin,
                    stdout_origin: test.stdout,
                    binary: judge.main_binary.clone(),
                    language: judge.main_lang,
                    time_limit: judge.time_limit,
                    mem_limit: judge.mem_limit,
                };
                self.work = Work::Running(Trial { uuid: test.uuid, test_uuid: test.test_uuid });
                Step { effects, job: Some(Job::Run(job)) }
            },
            _ => Step { effects, job: None },
        }
    }

    /// Takes in a judge request: takes it up if the slave is free and knows the
    /// languages.
    fn handle_get_judge<M>(
        &mut self,
        languages: &Languages,
        req: JudgeRequestBody<M>,
    ) -> (step: Step<M>)
        ensures
            (final(self)@, step@) == old(self)@.on_judge(languages@, req),
    {
        if self.locked {
            let effects = self.report(req.uuid, JudgeState::LockedSlave);
            return Step { effects, job: None };
        }
        match (languages.get(&req.checker_lang), languages.get(&req.main_lang)) {
            (Some(checker_lang), Some(main_lang)) => match self.shared {
                Some(secret) => {
                    let effects = self.report(req.uuid, JudgeState::DoCompile);
                    self.locked = true;
                    self.work = Work::Compiling(
                        Compilation {
                            uuid: req.uuid,
                            main_lang,
                            checker_lang,
                            time_limit: req.time_limit,
                            mem_limit: req.mem_limit,
                        },
                    );
                    let job = CompileJob {
                        secret,
                        checker_lang,
                        checker_code: req.checker_code,
                        main_lang,
                        main_code: req.main_code,
                    };
                    Step { effects, job: Some(Job::Compile(job)) }
                },
                None => {
                    let effects = self.report_both(
                        req.uuid,
                        JudgeState::InternalError(String::new()),
                        JudgeState::LanguageNotFound,
                    );
                    Step { effects, job: None }
                },
            },
            _ => {
                let effects = self.report(req.uuid, JudgeState::LanguageNotFound);
                Step { effects, job: None }
            },
        }
    }

    /// Takes in a packet of the master.
    pub fn handle_command<M>(&mut self, languages: &Languages, packet: Packet<M>) -> (step: Step<M>)
        requires
            packet matches Packet::Handshake(Some(r)) ==> r.complete(),
        ensures
            (final(self)@, step@) == old(self)@.on_packet(languages@, packet),
            packet matches Packet::Handshake(Some(r)) ==> final(self)@.agrees_with_master(r),
    {
        match packet {
            Packet::Handshake(response) => {
                let effects = self.handle_handshake(response);
                Step { effects, job: None }
            },
            Packet::ReqVerifyToken(body) => {
                let effects = self.handle_token(body);
                Step { effects, job: None }
            },
            Packet::TestCaseUpdate(Some(test)) => self.handle_test_case(test),
            Packet::GetJudge(Some(req)) => self.handle_get_judge(languages, req),
            _ => {
                let effects: Vec<Effect> = Vec::new();
                Step { effects, job: None }
            },
        }
    }

    /// Takes in the outcome of a compile job.
    pub fn compile_finished(&mut self, compiled: Compiled) -> (effects: Vec<Effect>)
        requires
            old(self)@.work is Compiling,
        ensures
            (final(self)@, views(effects@)) == old(self)@.on_compiled(compiled),
    {
        let work = self.work;
        self.work = Work::Idle;
        let c = match work {
            Work::Compiling(c) => c,
            _ => unreached(),
        };
        let report = match (compiled.checker, compiled.main) {
            (CompileResult::Error(stderr), _) => {
                self.locked = false;
                JudgeState::InternalError(stderr)
            },
            (CompileResult::Success(_), CompileResult::Error(stderr)) => {
                self.locked = false;
                JudgeState::CompileError(stderr)
            },
            (CompileResult::Success(_), CompileResult::Success(stdout)) => {
                self.judge = Some(
                    OnJudge {
                        uuid: c.uuid,
                        main_lang: c.main_lang,
                        checker_lang: c.checker_lang,
                        main_binary: compiled.main_binary,
                        checker_binary: compiled.checker_binary,
                        time_limit: c.time_limit,
                        mem_limit: c.mem_limit,
                    },
                );
                JudgeState::CompleteCompile(stdout)
            },
        };
        self.report_both(c.uuid, report, JudgeState::LanguageNotFound)
    }

    /// Takes in the outcome of a run: the check that it leads to, if it did not
    /// fail.
    pub fn run_finished(&mut self, meta: Meta) -> (check: Option<CheckJob>)
        requires
            old(self)@.work is Running,
            old(self)@.judge is Some,
        ensures
            final(self)@ == old(self)@.after_run(meta.failed),
            check is Some <==> !meta.failed,
            old(self)@.check_after_run(meta.failed) == match check {
                Some(job) => Some((job.binary@, job.language)),
                None => None,
            },
            check matches Some(job) ==> {
                &&& job.binary@ == old(self)@.judge->0.checker_binary
                &&& job.language == old(self)@.judge->0.checker_lang
            },
    {
        if meta.failed {
            self.locked = false;
            self.judge = None;
            self.work = Work::Idle;
            return None;
        }
        match (self.work, &self.judge) {
            (Work::Running(trial), Some(judge)) => {
                let job = CheckJob {
                    binary: judge.checker_binary.clone(),
                    language: judge.checker_lang,
                };
                self.work = Work::Checking(trial);
                Some(job)
            },
            _ => unreached(),
        }
    }

    /// Takes in the outcome of a check.
    pub fn check_finished(&mut self, meta: Meta) -> (effects: Vec<Effect>)
        requires
            old(self)@.work is Checking,
            meta.time is Some,
            meta.cg_mem is Some,
        ensures
            (final(self)@, views(effects@)) == old(self)@.on_checked(meta),
    {
        let work = self.work;
        self.work = Work::Idle;
        let t = match work {
            Work::Checking(t) => t,
            _ => unreached(),
        };
        let time: u64 = meta.time.unwrap();
        let mem: u64 = meta.cg_mem.unwrap();
        let result = if meta.failed {
            JudgeState::WrongAnswer(t.test_uuid, time, mem)
        } else {
            JudgeState::Accepted(t.test_uuid, time, mem)
        };
        self.report(t.uuid, result)
    }
}

} // verus!
