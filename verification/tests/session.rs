use judge_slave::judge::{
    CheckJob, CompileJob, CompileResult, Compiled, Job, Meta, OnJudge, RunJob, Work,
};
use judge_slave::keys::{EphemeralSecret, PublicKey, SharedSecret};
use judge_slave::language::Languages;
use judge_slave::state::{Actions, Effect, State, Step};
use judge_slave::wire::{
    HandshakeResponse, HandshakeResult, JudgeRequestBody, JudgeState, Outgoing, Packet,
    TestCaseUpdateBody,
};
use k256::elliptic_curve::sec1::ToEncodedPoint;

type Message = Vec<u8>;

const SLEEP_TIME: u64 = 9;

fn languages() -> Languages {
    Languages::new(vec!["c".to_string(), "rust".to_string(), "python".to_string()])
}

fn response(result: HandshakeResult, node_id: Option<u32>, key: Option<PublicKey>) -> Packet<Message> {
    Packet::Handshake(Some(HandshakeResponse { result, node_id, server_pubkey: key }))
}

fn master_key() -> PublicKey {
    EphemeralSecret::random().public_key()
}

fn new_session() -> State {
    State::new(EphemeralSecret::random(), SLEEP_TIME)
}

fn online() -> State {
    let mut state = new_session();
    let packet = response(HandshakeResult::Success, Some(4), Some(master_key()));
    let step = state.handle_command(&languages(), packet);
    assert_eq!(step, Step { effects: vec![], job: None });
    state
}

fn request(uuid: u128) -> JudgeRequestBody<Message> {
    JudgeRequestBody {
        uuid,
        main_lang: "rust".to_string(),
        checker_lang: "python".to_string(),
        main_code: vec![1, 2, 3],
        checker_code: vec![4, 5],
        time_limit: 1000,
        mem_limit: 65536,
    }
}

fn test_case(uuid: u128, test_uuid: u128) -> TestCaseUpdateBody<Message> {
    TestCaseUpdateBody { uuid, test_uuid, stdin: vec![6], stdout: vec![7, 8] }
}

fn compiled(checker: CompileResult, main: CompileResult) -> Compiled {
    Compiled {
        checker,
        main,
        checker_binary: b"/tmp/checker".to_vec(),
        main_binary: b"/tmp/main".to_vec(),
    }
}

fn success(text: &str) -> CompileResult {
    CompileResult::Success(text.to_string())
}

fn error(text: &str) -> CompileResult {
    CompileResult::Error(text.to_string())
}

fn ready(uuid: u128) -> State {
    let mut state = online();
    state.handle_command(&languages(), Packet::GetJudge(Some(request(uuid))));
    state.compile_finished(compiled(success("ok"), success("fine")));
    state
}

/// The updates among the effects, which are nothing but updates on `uuid` that
/// bear the number and the key of the session.
fn updates(state: &State, uuid: u128, effects: Vec<Effect>) -> Vec<JudgeState> {
    let mut results = Vec::new();
    for effect in effects {
        match effect {
            Effect::Send(Outgoing::GetJudgeStateUpdate(body)) => {
                assert_eq!(body.node_id, state.node_id);
                assert_eq!(body.client_pubkey, state.key.public_key());
                assert_eq!(body.req.uuid, uuid);
                results.push(body.req.result);
            }
            other => panic!("{:?}", other),
        }
    }
    results
}

fn signals(packet: Packet<Message>) -> Vec<Effect> {
    let mut state = online();
    let (shared, node_id) = (state.shared, state.node_id);
    let step = state.handle_command(&languages(), packet);
    assert_eq!(step.job, None);
    assert_eq!(state.shared, shared);
    assert_eq!(state.node_id, node_id);
    step.effects
}

#[test]
fn fresh_session_has_nothing_to_do() {
    let state = new_session();
    assert_eq!(state.node_id, u32::MAX);
    assert!(!state.locked);
    assert!(state.shared.is_none());
    assert!(state.judge.is_none());
    assert_eq!(state.work, Work::Idle);
    assert_eq!(state.sleep_time, SLEEP_TIME);
}

#[test]
fn handshake_bears_the_key_and_the_password() {
    let state = new_session();
    match state.handshake("pass".to_string()) {
        Outgoing::Handshake(request) => {
            assert_eq!(request.client_pubkey, state.key.public_key());
            assert_eq!(request.pass, "pass");
        }
        other => panic!("{:?}", other),
    }
}

#[test]
fn token_check_bears_the_number_and_the_key() {
    let state = online();
    match state.verify_token() {
        Outgoing::VerifyToken(body) => {
            assert_eq!(body.node_id, 4);
            assert_eq!(body.client_pubkey, state.key.public_key());
        }
        other => panic!("{:?}", other),
    }
}

#[test]
fn successful_handshake_shares_a_secret_with_the_master() {
    let master = k256::ecdh::EphemeralSecret::random(rand::thread_rng());
    let encoded = master.public_key().to_encoded_point(true);
    let key = PublicKey::from_sec1_bytes(encoded.as_bytes()).unwrap();
    let mut state = new_session();
    let packet = response(HandshakeResult::Success, Some(7), Some(key));
    let step = state.handle_command(&languages(), packet);
    assert_eq!(step, Step { effects: vec![], job: None });
    assert_eq!(state.node_id, 7);
    let own = k256::PublicKey::from_sec1_bytes(state.key.public_key().as_bytes()).unwrap();
    let theirs = master.diffie_hellman(&own);
    assert_eq!(&state.shared.unwrap().raw_secret_bytes()[..], &theirs.raw_secret_bytes()[..]);
    assert!(!state.locked);
    assert!(state.judge.is_none());
}

#[test]
fn establish_takes_what_it_is_given() {
    let mut state = ready(1);
    let shared: SharedSecret = EphemeralSecret::random().diffie_hellman(&master_key());
    state.establish(12, shared);
    assert_eq!(state.node_id, 12);
    assert_eq!(state.shared, Some(shared));
    assert!(state.locked);
    assert_eq!(state.judge.unwrap().uuid, 1);
}

#[test]
fn second_handshake_keeps_the_judgement() {
    let mut state = ready(1);
    let before = state.shared;
    let packet = response(HandshakeResult::Success, Some(5), Some(master_key()));
    state.handle_command(&languages(), packet);
    assert_eq!(state.node_id, 5);
    assert_ne!(state.shared, before);
    assert!(state.locked);
    assert_eq!(state.judge.unwrap().uuid, 1);
}

#[test]
fn wrong_password_shuts_the_slave_down() {
    let packet = response(HandshakeResult::PasswordNotMatched, None, None);
    assert_eq!(signals(packet), vec![Effect::Signal(Actions::Shutdown)]);
    let packet = response(HandshakeResult::PasswordNotMatched, Some(3), Some(master_key()));
    assert_eq!(signals(packet), vec![Effect::Signal(Actions::Shutdown)]);
}

#[test]
fn unknown_handshake_result_is_ignored() {
    assert_eq!(signals(response(HandshakeResult::Unknown, Some(3), None)), vec![]);
}

#[test]
fn senseless_handshake_breaks_the_connection() {
    assert_eq!(
        signals(Packet::Handshake(None)),
        vec![Effect::Signal(Actions::Reconnect(SLEEP_TIME))]
    );
}

#[test]
fn token_replies() {
    let token = |body: Vec<u8>| signals(Packet::ReqVerifyToken(body));
    let broken = vec![Effect::Signal(Actions::Reconnect(SLEEP_TIME))];
    assert_eq!(token(vec![1]), vec![]);
    assert_eq!(token(vec![0]), vec![Effect::Signal(Actions::Reconnect(0))]);
    assert_eq!(token(vec![]), broken);
    assert_eq!(token(vec![2]), broken);
    assert_eq!(token(vec![1, 0]), broken);
    assert_eq!(token(vec![0, 0]), broken);
}

#[test]
fn packets_without_a_sense_are_ignored() {
    assert_eq!(signals(Packet::Unknown), vec![]);
    assert_eq!(signals(Packet::GetJudge(None)), vec![]);
    assert_eq!(signals(Packet::TestCaseUpdate(None)), vec![]);
}

#[test]
fn judge_request_is_compiled() {
    let mut state = online();
    let step = state.handle_command(&languages(), Packet::GetJudge(Some(request(10))));
    assert_eq!(updates(&state, 10, step.effects), vec![JudgeState::DoCompile]);
    assert_eq!(
        step.job,
        Some(Job::Compile(CompileJob {
            secret: state.shared.unwrap(),
            checker_lang: 2,
            checker_code: vec![4, 5],
            main_lang: 1,
            main_code: vec![1, 2, 3],
        }))
    );
    assert!(state.locked);
    assert!(state.judge.is_none());

    let effects = state.compile_finished(compiled(success("ok"), success("fine")));
    assert_eq!(
        updates(&state, 10, effects),
        vec![JudgeState::CompleteCompile("fine".to_string()), JudgeState::LanguageNotFound]
    );
    assert!(state.locked);
    assert_eq!(state.work, Work::Idle);
    assert_eq!(
        state.judge,
        Some(OnJudge {
            uuid: 10,
            main_lang: 1,
            checker_lang: 2,
            main_binary: b"/tmp/main".to_vec(),
            checker_binary: b"/tmp/checker".to_vec(),
            time_limit: 1000,
            mem_limit: 65536,
        })
    );
}

#[test]
fn failed_compilation_frees_the_slave() {
    let cases = vec![
        (error("c"), success("m"), JudgeState::InternalError("c".to_string())),
        (error("c"), error("m"), JudgeState::InternalError("c".to_string())),
        (success("c"), error("m"), JudgeState::CompileError("m".to_string())),
    ];
    for (checker, main, expected) in cases {
        let mut state = online();
        let shared = state.shared;
        state.handle_command(&languages(), Packet::GetJudge(Some(request(10))));
        let effects = state.compile_finished(compiled(checker, main));
        assert_eq!(updates(&state, 10, effects), vec![expected, JudgeState::LanguageNotFound]);
        assert!(!state.locked);
        assert!(state.judge.is_none());
        assert_eq!(state.work, Work::Idle);
        assert_eq!(state.node_id, 4);
        assert_eq!(state.shared, shared);
    }
}

#[test]
fn busy_slave_refuses_a_judge_request() {
    let mut state = ready(10);
    let step = state.handle_command(&languages(), Packet::GetJudge(Some(request(11))));
    assert_eq!(updates(&state, 11, step.effects), vec![JudgeState::LockedSlave]);
    assert_eq!(step.job, None);
    assert!(state.locked);
    assert_eq!(state.judge.unwrap().uuid, 10);
}

#[test]
fn unknown_languages_are_refused() {
    for (main, checker) in [("rust", "perl"), ("perl", "rust"), ("perl", "perl")] {
        let mut req = request(10);
        req.main_lang = main.to_string();
        req.checker_lang = checker.to_string();
        let mut state = online();
        let step = state.handle_command(&languages(), Packet::GetJudge(Some(req)));
        assert_eq!(updates(&state, 10, step.effects), vec![JudgeState::LanguageNotFound]);
        assert_eq!(step.job, None);
        assert!(!state.locked);
    }
}

#[test]
fn nothing_is_judged_before_the_handshake() {
    let mut state = new_session();
    let step = state.handle_command(&languages(), Packet::GetJudge(Some(request(10))));
    assert_eq!(
        updates(&state, 10, step.effects),
        vec![JudgeState::InternalError(String::new()), JudgeState::LanguageNotFound]
    );
    assert_eq!(step.job, None);
    assert!(!state.locked);
}

#[test]
fn test_case_is_run_and_accepted() {
    let mut state = ready(10);
    let step = state.handle_command(&languages(), Packet::TestCaseUpdate(Some(test_case(10, 20))));
    assert_eq!(step.effects, vec![]);
    assert_eq!(
        step.job,
        Some(Job::Run(RunJob {
            secret: state.shared.unwrap(),
            stdin: vec![6],
            stdout_origin: vec![7, 8],
            binary: b"/tmp/main".to_vec(),
            language: 1,
            time_limit: 1000,
            mem_limit: 65536,
        }))
    );
    let check = state.run_finished(Meta { failed: false, time: None, cg_mem: None });
    assert_eq!(check, Some(CheckJob { binary: b"/tmp/checker".to_vec(), language: 2 }));
    let time = 0.25f64.to_bits();
    let mem = 2048f64.to_bits();
    let meta = Meta { failed: false, time: Some(time), cg_mem: Some(mem) };
    let effects = state.check_finished(meta);
    assert_eq!(updates(&state, 10, effects), vec![JudgeState::Accepted(20, time, mem)]);
    assert!(state.locked);
    assert_eq!(state.judge.unwrap().uuid, 10);
    assert_eq!(state.work, Work::Idle);
}

#[test]
fn checker_turns_an_answer_down_and_the_next_test_is_run() {
    let mut state = ready(10);
    state.handle_command(&languages(), Packet::TestCaseUpdate(Some(test_case(10, 20))));
    state.run_finished(Meta { failed: false, time: None, cg_mem: None });
    let effects = state.check_finished(Meta { failed: true, time: Some(1), cg_mem: Some(2) });
    assert_eq!(updates(&state, 10, effects), vec![JudgeState::WrongAnswer(20, 1, 2)]);
    let step = state.handle_command(&languages(), Packet::TestCaseUpdate(Some(test_case(10, 21))));
    assert!(matches!(step.job, Some(Job::Run(_))));
}

#[test]
fn failed_run_ends_the_judgement_and_frees_the_slave() {
    let mut state = ready(10);
    state.handle_command(&languages(), Packet::TestCaseUpdate(Some(test_case(10, 20))));
    assert_eq!(state.run_finished(Meta { failed: true, time: Some(1), cg_mem: Some(2) }), None);
    assert!(!state.locked);
    assert!(state.judge.is_none());
    let step = state.handle_command(&languages(), Packet::TestCaseUpdate(Some(test_case(10, 21))));
    assert_eq!(updates(&state, 10, step.effects), vec![JudgeState::JudgeNotFound]);
    let step = state.handle_command(&languages(), Packet::GetJudge(Some(request(11))));
    assert!(matches!(step.job, Some(Job::Compile(_))));
}

#[test]
fn test_case_of_another_judgement_is_refused() {
    let mut state = ready(10);
    let step = state.handle_command(&languages(), Packet::TestCaseUpdate(Some(test_case(9, 20))));
    assert_eq!(updates(&state, 9, step.effects), vec![JudgeState::JudgeNotFound]);
    assert_eq!(step.job, None);
    let mut state = online();
    let step = state.handle_command(&languages(), Packet::TestCaseUpdate(Some(test_case(9, 20))));
    assert_eq!(updates(&state, 9, step.effects), vec![JudgeState::JudgeNotFound]);
}

#[test]
fn test_case_on_an_unlocked_slave_is_refused() {
    let mut state = ready(10);
    state.locked = false;
    let step = state.handle_command(&languages(), Packet::TestCaseUpdate(Some(test_case(10, 20))));
    assert_eq!(updates(&state, 10, step.effects), vec![JudgeState::UnlockedSlave]);
    assert_eq!(step.job, None);
}

#[test]
fn test_case_without_a_shared_secret_is_passed_over() {
    let mut state = ready(10);
    state.shared = None;
    let step = state.handle_command(&languages(), Packet::TestCaseUpdate(Some(test_case(10, 20))));
    assert_eq!(step, Step { effects: vec![], job: None });
}

#[test]
fn update_bears_what_it_is_given() {
    let state = online();
    match state.update_judge(30, JudgeState::CompileError("x".to_string())) {
        Outgoing::GetJudgeStateUpdate(body) => {
            assert_eq!(body.node_id, 4);
            assert_eq!(body.client_pubkey, state.key.public_key());
            assert_eq!(body.req.uuid, 30);
            assert_eq!(body.req.result, JudgeState::CompileError("x".to_string()));
        }
        other => panic!("{:?}", other),
    }
}
