//! The decisions of the runner abstraction that do not depend on which
//! backend carries them out: which backend a name selects, which kinds of
//! contract code and which operations a backend supports, how a committed
//! transaction's result codes are read, and when block polling is done.
use vstd::prelude::*;
use vstd::string::*;
use crate::coin::Event;
use crate::text::str_eq;

verus! {

/// The three interchangeable execution backends.
#[derive(Clone, Copy, Debug, PartialEq, Eq, Structural)]
pub enum BackendKind {
    /// The in-process simulated chain.
    Simulated,
    /// A full chain application embedded in the test process.
    EmbeddedNode,
    /// A real node reached over RPC.
    RpcNode,
}

/// The two ways to hand contract code to a backend.
#[derive(Clone, Copy, Debug, PartialEq, Eq, Structural)]
pub enum CodeKind {
    /// Wasm bytecode.
    Artifact,
    /// Entry points registered in the test process.
    NativeHandler,
}

/// The uniform error of the runner abstraction.
#[derive(Clone, Debug)]
pub enum RunnerError {
    EncodeError { msg: String },
    DecodeError { msg: String },
    ExecuteError { msg: String },
    QueryError { msg: String },
    GenericError { msg: String },
    /// The backend does not offer the operation.
    Unsupported { msg: String },
}

impl RunnerError {
    /// The text that the error carries.
    pub fn message(&self) -> (r: String)
        ensures
            r@ == self.message_spec(),
    {
        match self {
            RunnerError::EncodeError { msg } => msg.clone(),
            RunnerError::DecodeError { msg } => msg.clone(),
            RunnerError::ExecuteError { msg } => msg.clone(),
            RunnerError::QueryError { msg } => msg.clone(),
            RunnerError::GenericError { msg } => msg.clone(),
            RunnerError::Unsupported { msg } => msg.clone(),
        }
    }

    pub open spec fn message_spec(&self) -> Seq<char> {
        match self {
            RunnerError::EncodeError { msg } => msg@,
            RunnerError::DecodeError { msg } => msg@,
            RunnerError::ExecuteError { msg } => msg@,
            RunnerError::QueryError { msg } => msg@,
            RunnerError::GenericError { msg } => msg@,
            RunnerError::Unsupported { msg } => msg@,
        }
    }
}

/// The name by which a backend is chosen.
pub open spec fn backend_name(k: BackendKind) -> Seq<char> {
    match k {
        BackendKind::Simulated => "multi-test"@,
        BackendKind::EmbeddedNode => "osmosis-test-app"@,
        BackendKind::RpcNode => "rpc-runner"@,
    }
}

impl BackendKind {
    /// The name of this backend.
    pub fn name(&self) -> (r: String)
        ensures
            r@ == backend_name(*self),
    {
        match self {
            BackendKind::Simulated => String::from_str("multi-test"),
            BackendKind::EmbeddedNode => String::from_str("osmosis-test-app"),
            BackendKind::RpcNode => String::from_str("rpc-runner"),
        }
    }

    /// The backend that `s` names. The RPC backend cannot be chosen by name
    /// alone, since it needs a configuration file.
    pub fn from_name(s: &str) -> (r: Result<BackendKind, String>)
        ensures
            s@ == backend_name(BackendKind::Simulated) ==> r == Ok::<BackendKind, String>(BackendKind::Simulated),
            s@ == backend_name(BackendKind::EmbeddedNode) ==> r == Ok::<BackendKind, String>(BackendKind::EmbeddedNode),
            s@ == backend_name(BackendKind::RpcNode) ==> (r matches Err(e) && e@ == "RpcRunner requires a config file"@),
            s@ != backend_name(BackendKind::Simulated) && s@ != backend_name(BackendKind::EmbeddedNode)
                && s@ != backend_name(BackendKind::RpcNode) ==> (r matches Err(e) && e@ == "Invalid TestRunner: "@ + s@),
    {
        proof {
            lemma_backend_names_distinct();
        }
        if str_eq(s, "multi-test") {
            Ok(BackendKind::Simulated)
        } else if str_eq(s, "osmosis-test-app") {
            Ok(BackendKind::EmbeddedNode)
        } else if str_eq(s, "rpc-runner") {
            Err(String::from_str("RpcRunner requires a config file"))
        } else {
            let mut e = String::from_str("Invalid TestRunner: ");
            e.append(s);
            Err(e)
        }
    }

    /// Whether this backend accepts contract code of kind `code`: the
    /// simulated backend runs only native handlers, the others only wasm
    /// artifacts.
    pub open spec fn accepts_spec(&self, code: CodeKind) -> bool {
        match self {
            BackendKind::Simulated => code == CodeKind::NativeHandler,
            _ => code == CodeKind::Artifact,
        }
    }

    /// Checks that this backend can store code of kind `code`; a mismatch is
    /// an explicit error, never a silent no-op.
    pub fn check_store_code(&self, code: CodeKind) -> (r: Result<(), RunnerError>)
        ensures
            r is Ok <==> self.accepts_spec(code),
            *self == BackendKind::Simulated && code == CodeKind::Artifact ==> (r matches Err(RunnerError::Unsupported { msg })
                && msg@ == "Artifact not supported for MultiTestRunner"@),
            *self != BackendKind::Simulated && code == CodeKind::NativeHandler ==> (r matches Err(RunnerError::Unsupported { msg })
                && msg@ == "MultiTestContract not supported for this runner"@),
    {
        match (self, code) {
            (BackendKind::Simulated, CodeKind::NativeHandler) => Ok(()),
            (BackendKind::Simulated, CodeKind::Artifact) => Err(RunnerError::Unsupported {
                msg: String::from_str("Artifact not supported for MultiTestRunner"),
            }),
            (BackendKind::EmbeddedNode, CodeKind::Artifact) => Ok(()),
            (BackendKind::RpcNode, CodeKind::Artifact) => Ok(()),
            (_, CodeKind::NativeHandler) => Err(RunnerError::Unsupported {
                msg: String::from_str("MultiTestContract not supported for this runner"),
            }),
        }
    }

    /// Checks that this backend can advance its block clock; a live chain's
    /// cannot be.
    pub fn check_increase_time(&self) -> (r: Result<(), RunnerError>)
        ensures
            r is Ok <==> *self != BackendKind::RpcNode,
            r matches Err(e) ==> (e matches RunnerError::Unsupported { msg }
                && msg@ == "increase_time is not supported on a live chain"@),
    {
        match self {
            BackendKind::RpcNode => Err(RunnerError::Unsupported {
                msg: String::from_str("increase_time is not supported on a live chain"),
            }),
            _ => Ok(()),
        }
    }
}

/// The backend names are distinct.
pub proof fn lemma_backend_names_distinct()
    ensures
        backend_name(BackendKind::Simulated) != backend_name(BackendKind::EmbeddedNode),
        backend_name(BackendKind::Simulated) != backend_name(BackendKind::RpcNode),
        backend_name(BackendKind::EmbeddedNode) != backend_name(BackendKind::RpcNode),
{
    reveal_strlit("multi-test");
    reveal_strlit("osmosis-test-app");
    reveal_strlit("rpc-runner");
    assert(backend_name(BackendKind::Simulated).len() == 10);
    assert(backend_name(BackendKind::EmbeddedNode).len() == 16);
    assert(backend_name(BackendKind::RpcNode).len() == 10);
    assert(backend_name(BackendKind::Simulated)[0] != backend_name(BackendKind::RpcNode)[0]);
}

/// The result code of one phase of a committed transaction, with its log.
pub struct PhaseResult {
    pub code: u32,
    pub log: String,
}

/// Reads the two phases of a committed transaction: the mempool check, then
/// the block execution. The first phase with a non-zero code fails the
/// transaction with that phase's log; the later phase is not looked at.
pub fn check_commit(check_tx: &PhaseResult, deliver_tx: &PhaseResult) -> (r: Result<(), RunnerError>)
    ensures
        check_tx.code != 0 ==> (r matches Err(RunnerError::ExecuteError { msg }) && msg@ == check_tx.log@),
        check_tx.code == 0 && deliver_tx.code != 0 ==> (r matches Err(RunnerError::ExecuteError { msg })
            && msg@ == deliver_tx.log@),
        check_tx.code == 0 && deliver_tx.code == 0 ==> r is Ok,
{
    if check_tx.code != 0 {
        return Err(RunnerError::ExecuteError { msg: check_tx.log.clone() });
    }
    if deliver_tx.code != 0 {
        return Err(RunnerError::ExecuteError { msg: deliver_tx.log.clone() });
    }
    Ok(())
}

/// The block height that waiting `n` blocks from height `start` reaches;
/// `None` when it is past the largest height.
pub fn poll_target(start: u64, n: u64) -> (r: Option<u64>)
    ensures
        start + n <= u64::MAX ==> r == Some((start + n) as u64),
        start + n > u64::MAX ==> r is None,
{
    start.checked_add(n)
}

/// How a latest-block query failed while the node was starting.
#[derive(Clone, Copy, Debug, PartialEq, Eq, Structural)]
pub enum BlockQueryFailure {
    /// The node answered with something that did not deserialise, as it does
    /// while it starts.
    Serialization,
    /// Any other failure.
    Other,
}

/// What to do after a latest-block query during startup.
#[derive(Clone, Copy, Debug, PartialEq, Eq, Structural)]
pub enum StartupAction {
    /// The node answered: start polling.
    Ready,
    /// Query again after the poll interval.
    Retry,
    /// Give the error to the caller at once.
    Fail,
}

/// Decides the startup phase of block polling from the outcome of one
/// latest-block query: an answer ends it, a serialisation error is retried,
/// and any other error is returned at once.
pub fn startup_step(failure: Option<BlockQueryFailure>) -> (r: StartupAction)
    ensures
        failure is None ==> r == StartupAction::Ready,
        failure == Some(BlockQueryFailure::Serialization) ==> r == StartupAction::Retry,
        failure == Some(BlockQueryFailure::Other) ==> r == StartupAction::Fail,
{
    match failure {
        None => StartupAction::Ready,
        Some(BlockQueryFailure::Serialization) => StartupAction::Retry,
        Some(BlockQueryFailure::Other) => StartupAction::Fail,
    }
}

/// Whether polling for blocks is done: the latest height has reached the
/// target.
pub fn poll_done(current: u64, target: u64) -> (r: bool)
    ensures
        r == (current >= target),
{
    current >= target
}

/// What the simulated backend reports for one executed message.
pub struct MessageResponse {
    pub events: Vec<Event>,
    pub data: Option<Vec<u8>>,
}

/// The one outcome of a transaction: every message's events, in order of
/// emission, the data of the last message that returned data, and the gas
/// figures, zero where the backend does not meter gas.
pub struct ExecutionOutcome {
    pub events: Vec<Event>,
    pub data: Option<Vec<u8>>,
    pub gas_wanted: u64,
    pub gas_used: u64,
}

pub open spec fn events_view(v: Seq<Event>) -> Seq<(Seq<char>, Seq<(Seq<char>, Seq<char>)>)> {
    v.map_values(|e: Event| e@)
}

/// The events of all responses, concatenated in order.
pub open spec fn all_events(rs: Seq<MessageResponse>) -> Seq<(Seq<char>, Seq<(Seq<char>, Seq<char>)>)>
    decreases rs.len(),
{
    if rs.len() == 0 {
        Seq::empty()
    } else {
        all_events(rs.drop_last()) + events_view(rs.last().events@)
    }
}

/// The data of the last response that returned data.
pub open spec fn last_data(rs: Seq<MessageResponse>) -> Option<Seq<u8>>
    decreases rs.len(),
{
    if rs.len() == 0 {
        None
    } else {
        match rs.last().data {
            Some(d) => Some(d@),
            None => last_data(rs.drop_last()),
        }
    }
}

fn copy_event(e: &Event) -> (r: Event)
    ensures
        r@ == e@,
{
    let mut r = Event::new(e.ty.as_str());
    let mut i: usize = 0;
    while i < e.attributes.len()
        invariant
            i <= e.attributes@.len(),
            r@ == (e@.0, e@.1.take(i as int)),
        decreases e.attributes@.len() - i,
    {
        r.add_attribute(e.attributes[i].key.as_str(), e.attributes[i].value.as_str());
        i = i + 1;
        assert(r@.1 =~= e@.1.take(i as int));
    }
    assert(e@.1.take(i as int) =~= e@.1);
    r
}

/// Merges the responses of the messages of one transaction, executed in
/// order, into the transaction's single outcome. The simulated backend does
/// not meter gas.
pub fn merge_responses(responses: &Vec<MessageResponse>) -> (r: ExecutionOutcome)
    ensures
        events_view(r.events@) == all_events(responses@),
        (match r.data {
            Some(d) => Some(d@),
            None => None::<Seq<u8>>,
        }) == last_data(responses@),
        r.gas_wanted == 0,
        r.gas_used == 0,
{
    let mut events: Vec<Event> = Vec::new();
    let mut data: Option<Vec<u8>> = None;
    let mut i: usize = 0;
    while i < responses.len()
        invariant
            i <= responses@.len(),
            events_view(events@) == all_events(responses@.take(i as int)),
            (match data {
                Some(d) => Some(d@),
                None => None::<Seq<u8>>,
            }) == last_data(responses@.take(i as int)),
        decreases responses@.len() - i,
    {
        let resp = &responses[i];
        assert(responses@.take(i + 1).drop_last() =~= responses@.take(i as int));
        assert(responses@.take(i + 1).last() == responses@[i as int]);
        let ghost before = events_view(events@);
        let mut j: usize = 0;
        while j < resp.events.len()
            invariant
                j <= resp.events@.len(),
                events_view(events@) == before + events_view(resp.events@.take(j as int)),
            decreases resp.events@.len() - j,
        {
            let e = copy_event(&resp.events[j]);
            let ghost old_events = events@;
            events.push(e);
            assert(events_view(events@) =~= events_view(old_events).push(e@));
            assert(events_view(resp.events@.take(j + 1)) =~= events_view(resp.events@.take(j as int)).push(
                resp.events@[j as int]@,
            ));
            j = j + 1;
            assert(events_view(events@) =~= before + events_view(resp.events@.take(j as int)));
        }
        assert(resp.events@.take(j as int) =~= resp.events@);
        match &resp.data {
            Some(d) => {
                data = Some(crate::codec::copy_bytes(d));
            },
            None => {},
        }
        i = i + 1;
    }
    assert(responses@.take(i as int) =~= responses@);
    ExecutionOutcome { events, data, gas_wanted: 0, gas_used: 0 }
}

} // verus!
