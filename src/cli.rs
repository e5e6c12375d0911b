use vstd::prelude::*;

use crate::message_queue::rabbit::ledger::Settlement;

verus! {

/// The command line: the environment name, whether the run is local (plain
/// rather than structured logs), and the processor to run.
pub struct Cli {
    pub env: String,
    pub is_local_run: bool,
    pub processor: Processors,
}

pub enum Processors {
    TestProcess(TestProcess),
    TestGenerate(TestGenerate),
    TestProtobufProcess,
    TestProtobufGenerate,
    TestDBProcess(TestDBProcess),
    TestRequestProcess,
    TestBatchProcess,
}

/// Consume test messages one by one, pausing `wait_ms` after each; with
/// `nack` every message is rejected without requeueing instead of
/// acknowledged.
#[derive(PartialEq, Eq, Structural, Clone, Copy, Debug)]
pub struct TestProcess {
    pub wait_ms: u64,
    pub nack: bool,
}

/// Publish a test message every `wait_ms`.
#[derive(PartialEq, Eq, Structural, Clone, Copy, Debug)]
pub struct TestGenerate {
    pub wait_ms: u64,
}

/// Query the database every `wait_ms`.
#[derive(PartialEq, Eq, Structural, Clone, Copy, Debug)]
pub struct TestDBProcess {
    pub wait_ms: u64,
}

/// The pause between two steps of a processor when none is given.
pub const DEFAULT_WAIT_MS: u64 = 50;

impl TestProcess {
    /// How the processor settles each message it has handled: rejected
    /// without requeueing (to the dead-letter destination) with `nack`,
    /// acknowledged otherwise.
    pub fn settlement(&self) -> (r: Settlement)
        ensures
            r == (if self.nack {
                Settlement::Dropped
            } else {
                Settlement::Acked
            }),
    {
        if self.nack {
            Settlement::Dropped
        } else {
            Settlement::Acked
        }
    }
}

impl Default for TestProcess {
    fn default() -> (r: TestProcess)
        ensures
            r.wait_ms == DEFAULT_WAIT_MS,
            !r.nack,
    {
        TestProcess { wait_ms: DEFAULT_WAIT_MS, nack: false }
    }
}

impl Default for TestGenerate {
    fn default() -> (r: TestGenerate)
        ensures
            r.wait_ms == DEFAULT_WAIT_MS,
    {
        TestGenerate { wait_ms: DEFAULT_WAIT_MS }
    }
}

impl Default for TestDBProcess {
    fn default() -> (r: TestDBProcess)
        ensures
            r.wait_ms == DEFAULT_WAIT_MS,
    {
        TestDBProcess { wait_ms: DEFAULT_WAIT_MS }
    }
}

impl Cli {
    /// The environment name used when none is given.
    pub fn default_env() -> (r: String)
        ensures
            r@ == "dev"@,
    {
        "dev".to_owned()
    }
}

} // verus!
