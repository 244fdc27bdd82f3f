//! A submission under judgement, and the work that judging it takes.
//!
//! Compiling, running and checking happen outside: the session asks for them
//! with a job and is told what came of it.
use crate::keys::SharedSecret;
use vstd::prelude::*;

verus! {

/// A submission that has been compiled, together with its checker, and waits for
/// test cases. A binary is known by the bytes of its path.
#[derive(Debug, PartialEq, Eq)]
pub struct OnJudge {
    pub uuid: u128,
    pub main_lang: usize,
    pub checker_lang: usize,
    pub main_binary: Vec<u8>,
    pub checker_binary: Vec<u8>,
    pub time_limit: u64,
    pub mem_limit: u64,
}

/// The view of an `OnJudge`.
#[verifier::ext_equal]
pub struct OnJudgeView {
    pub uuid: u128,
    pub main_lang: usize,
    pub checker_lang: usize,
    pub main_binary: Seq<u8>,
    pub checker_binary: Seq<u8>,
    pub time_limit: u64,
    pub mem_limit: u64,
}

impl View for OnJudge {
    type V = OnJudgeView;

    open spec fn view(&self) -> OnJudgeView {
        OnJudgeView {
            uuid: self.uuid,
            main_lang: self.main_lang,
            checker_lang: self.checker_lang,
            main_binary: self.main_binary@,
            checker_binary: self.checker_binary@,
            time_limit: self.time_limit,
            mem_limit: self.mem_limit,
        }
    }
}

/// What a compiler made of a source: what it printed, or what it complained of.
#[derive(Debug, PartialEq, Eq)]
pub enum CompileResult {
    Success(String),
    Error(String),
}

/// What came of a compile job: both results, and where the binaries were put.
#[derive(Debug, PartialEq, Eq)]
pub struct Compiled {
    pub checker: CompileResult,
    pub main: CompileResult,
    pub checker_binary: Vec<u8>,
    pub main_binary: Vec<u8>,
}

/// What the sandbox reports of a run.
#[derive(Clone, Copy, Debug, PartialEq, Eq, Structural)]
pub struct Meta {
    /// Whether there is a status: the run timed out, was killed, or exited with
    /// an error.
    pub failed: bool,
    /// The time that the run took, as the bits of an IEEE 754 double.
    pub time: Option<u64>,
    /// The memory that the run took, as the bits of an IEEE 754 double.
    pub cg_mem: Option<u64>,
}

/// A judge request whose sources are being compiled.
#[derive(Clone, Copy, Debug, PartialEq, Eq, Structural)]
pub struct Compilation {
    pub uuid: u128,
    pub main_lang: usize,
    pub checker_lang: usize,
    pub time_limit: u64,
    pub mem_limit: u64,
}

/// A test case that the submission `uuid` is being run on.
#[derive(Clone, Copy, Debug, PartialEq, Eq, Structural)]
pub struct Trial {
    pub uuid: u128,
    pub test_uuid: u128,
}

/// The job whose outcome a session waits for.
#[derive(Clone, Copy, Debug, PartialEq, Eq, Structural)]
pub enum Work {
    Idle,
    Compiling(Compilation),
    Running(Trial),
    Checking(Trial),
}

/// Decrypt both sources with the shared secret, and compile the checker and then
/// the submission, each in its language.
#[derive(Debug, PartialEq, Eq)]
pub struct CompileJob<M> {
    pub secret: SharedSecret,
    pub checker_lang: usize,
    pub checker_code: M,
    pub main_lang: usize,
    pub main_code: M,
}

/// Decrypt the input and the expected output with the shared secret, and run the
/// submission on the input, within its limits.
#[derive(Debug, PartialEq, Eq)]
pub struct RunJob<M> {
    pub secret: SharedSecret,
    pub stdin: M,
    pub stdout_origin: M,
    pub binary: Vec<u8>,
    pub language: usize,
    pub time_limit: u64,
    pub mem_limit: u64,
}

/// Run the checker on the input, the output and the expected output of the run
/// that has just ended.
#[derive(Debug, PartialEq, Eq)]
pub struct CheckJob {
    pub binary: Vec<u8>,
    pub language: usize,
}

/// Work that a packet asks for.
#[derive(Debug, PartialEq, Eq)]
pub enum Job<M> {
    Compile(CompileJob<M>),
    Run(RunJob<M>),
}

/// The view of a `Job`.
pub enum JobView<M> {
    Compile {
        secret: Seq<u8>,
        checker_lang: usize,
        checker_code: M,
        main_lang: usize,
        main_code: M,
    },
    Run {
        secret: Seq<u8>,
        stdin: M,
        stdout_origin: M,
        binary: Seq<u8>,
        language: usize,
        time_limit: u64,
        mem_limit: u64,
    },
}

impl<M> View for Job<M> {
    type V = JobView<M>;

    open spec fn view(&self) -> JobView<M> {
        match *self {
            Job::Compile(job) => JobView::Compile {
                secret: job.secret@,
                checker_lang: job.checker_lang,
                checker_code: job.checker_code,
                main_lang: job.main_lang,
                main_code: job.main_code,
            },
            Job::Run(job) => JobView::Run {
                secret: job.secret@,
                stdin: job.stdin,
                stdout_origin: job.stdout_origin,
                binary: job.binary@,
                language: job.language,
                time_limit: job.time_limit,
                mem_limit: job.mem_limit,
            },
        }
    }
}

} // verus!
