//! The per-file task: a linear state machine that drives one file through the
//! opening, transfer and completing calls, and ends in exactly one outcome.
//!
//! The task decides; its caller makes each call that `next_call` asks for and
//! hands the reply to `advance`.

use vstd::prelude::*;
use crate::protocol::{
    FinalizeUploadRequest, FinalizeUploadResponse, NewUploadRequest, NewUploadResponse,
    ProtocolError, UploadTarget,
};

verus! {

/// The three calls of the protocol.
#[derive(PartialEq, Eq, Structural, Clone, Copy, Debug)]
pub enum Phase {
    Initiate,
    Transfer,
    Finalize,
}

/// Where a task stands.
pub enum TaskState {
    Pending,
    Initiated { session: NewUploadResponse },
    Transferred { session: NewUploadResponse },
    Finalized { url: String },
    Failed { error: ProtocolError },
}

/// A call that the task asks its caller to make.
pub enum Call {
    Initiate(NewUploadRequest),
    Transfer { path: String, url: String },
    Finalize(FinalizeUploadRequest),
}

/// The reply to a call, as the protocol reads it.
pub enum Reply {
    Initiate(Result<NewUploadResponse, ProtocolError>),
    Transfer(Result<(), ProtocolError>),
    Finalize(Result<FinalizeUploadResponse, ProtocolError>),
}

/// The terminal result of one task.
pub enum TaskOutcome {
    Success { path: String, final_url: String },
    Failure { path: String, error: ProtocolError },
}

impl TaskOutcome {
    pub open spec fn path_spec(&self) -> String {
        match self {
            TaskOutcome::Success { path, .. } => *path,
            TaskOutcome::Failure { path, .. } => *path,
        }
    }

    /// The path of the file that the outcome is about.
    pub fn path(&self) -> (r: &String)
        ensures
            *r == self.path_spec(),
    {
        match self {
            TaskOutcome::Success { path, .. } => path,
            TaskOutcome::Failure { path, .. } => path,
        }
    }

    /// A copy of the outcome.
    pub fn duplicate(&self) -> (r: TaskOutcome)
        ensures
            r == *self,
    {
        match self {
            TaskOutcome::Success { path, final_url } => TaskOutcome::Success {
                path: path.clone(),
                final_url: final_url.clone(),
            },
            TaskOutcome::Failure { path, error } => TaskOutcome::Failure {
                path: path.clone(),
                error: error.duplicate(),
            },
        }
    }

    pub open spec fn report_spec(&self) -> Seq<char> {
        match self {
            TaskOutcome::Success { path, final_url } => "["@ + path@ + "] Uploaded: "@
                + final_url@,
            TaskOutcome::Failure { path, error } => "["@ + path@ + "] Error: "@
                + error.reason_spec(),
        }
    }

    /// The line that reports the outcome: the file's path, then the public
    /// address or the reason of the failure.
    pub fn report_line(&self) -> (r: String)
        ensures
            r@ == self.report_spec(),
    {
        match self {
            TaskOutcome::Success { path, final_url } => {
                let mut r = String::from_str("[");
                r.append(path.as_str());
                r.append("] Uploaded: ");
                r.append(final_url.as_str());
                r
            },
            TaskOutcome::Failure { path, error } => {
                let mut r = String::from_str("[");
                r.append(path.as_str());
                r.append("] Error: ");
                let reason = error.reason();
                r.append(reason.as_str());
                r
            },
        }
    }

    pub fn is_success(&self) -> (r: bool)
        ensures
            r == self is Success,
    {
        match self {
            TaskOutcome::Success { .. } => true,
            TaskOutcome::Failure { .. } => false,
        }
    }
}

/// The call that a task in `state` asks for, if any.
pub open spec fn call_phase(state: TaskState) -> Option<Phase> {
    match state {
        TaskState::Pending => Some(Phase::Initiate),
        TaskState::Initiated { .. } => Some(Phase::Transfer),
        TaskState::Transferred { .. } => Some(Phase::Finalize),
        _ => None,
    }
}

/// One transition: a reply to the call that the state asks for moves the task
/// one phase on, or into `Failed`; any other reply leaves it where it is.
pub open spec fn step(state: TaskState, reply: Reply) -> TaskState {
    match (state, reply) {
        (TaskState::Pending, Reply::Initiate(Ok(session))) => TaskState::Initiated { session },
        (TaskState::Pending, Reply::Initiate(Err(error))) => TaskState::Failed { error },
        (TaskState::Initiated { session }, Reply::Transfer(Ok(()))) => TaskState::Transferred {
            session,
        },
        (TaskState::Initiated { .. }, Reply::Transfer(Err(error))) => TaskState::Failed { error },
        (TaskState::Transferred { .. }, Reply::Finalize(Ok(done))) => TaskState::Finalized {
            url: done.url,
        },
        (TaskState::Transferred { .. }, Reply::Finalize(Err(error))) => TaskState::Failed {
            error,
        },
        (s, _) => s,
    }
}

/// The calls that a task in `state` makes when each reply in `replies` answers
/// the call made just before it.
pub open spec fn issued(state: TaskState, replies: Seq<Reply>) -> Seq<Phase>
    decreases replies.len(),
{
    match call_phase(state) {
        None => Seq::empty(),
        Some(p) => if replies.len() == 0 {
            seq![p]
        } else {
            seq![p] + issued(step(state, replies[0]), replies.drop_first())
        },
    }
}

/// A task: one target, the caller's tags, and where it stands.
pub struct UploadTask {
    pub target: UploadTarget,
    pub tags: String,
    pub state: TaskState,
}

impl UploadTask {
    /// A task that has made no call yet.
    pub fn new(target: UploadTarget, tags: String) -> (r: UploadTask)
        ensures
            r.target == target,
            r.tags == tags,
            r.state is Pending,
    {
        UploadTask { target, tags, state: TaskState::Pending }
    }

    /// The call to make next, or none once the task has ended. The transfer
    /// writes to the destination that the opening call of the same task returned, and
    /// the completion names the id that it returned.
    pub fn next_call(&self) -> (r: Option<Call>)
        ensures
            r is None <==> call_phase(self.state) is None,
            self.state is Pending ==> (r matches Some(Call::Initiate(req)) && req.file_name
                == self.target.file_name && req.content_length == self.target.content_length),
            self.state is Initiated ==> r == Some(
                Call::Transfer { path: self.target.path, url: self.state->Initiated_session.url },
            ),
            self.state is Transferred ==> (r matches Some(Call::Finalize(req)) && req.id
                == self.state->Transferred_session.id && req.tags == self.tags && req.source@
                == Seq::<char>::empty() && req.description@ == Seq::<char>::empty()
                && req.original_upload_date is None),
    {
        match &self.state {
            TaskState::Pending => Some(Call::Initiate(NewUploadRequest::for_target(&self.target))),
            TaskState::Initiated { session } => Some(
                Call::Transfer { path: self.target.path.clone(), url: session.url.clone() },
            ),
            TaskState::Transferred { session } => Some(
                Call::Finalize(FinalizeUploadRequest::new(session.id.clone(), self.tags.clone())),
            ),
            _ => None,
        }
    }

    /// Takes in the reply to the call last made.
    pub fn advance(&mut self, reply: Reply)
        ensures
            final(self).state == step(old(self).state, reply),
            final(self).target == old(self).target,
            final(self).tags == old(self).tags,
    {
        let next = match (&self.state, reply) {
            (TaskState::Pending, Reply::Initiate(Ok(session))) => Some(
                TaskState::Initiated { session },
            ),
            (TaskState::Pending, Reply::Initiate(Err(error))) => Some(TaskState::Failed { error }),
            (TaskState::Initiated { session }, Reply::Transfer(Ok(()))) => Some(
                TaskState::Transferred { session: session.duplicate() },
            ),
            (TaskState::Initiated { .. }, Reply::Transfer(Err(error))) => Some(
                TaskState::Failed { error },
            ),
            (TaskState::Transferred { .. }, Reply::Finalize(Ok(done))) => Some(
                TaskState::Finalized { url: done.url },
            ),
            (TaskState::Transferred { .. }, Reply::Finalize(Err(error))) => Some(
                TaskState::Failed { error },
            ),
            _ => None,
        };
        if let Some(state) = next {
            self.state = state;
        }
    }

    /// The task's outcome, once it has ended.
    pub fn outcome(&self) -> (r: Option<TaskOutcome>)
        ensures
            r is None <==> call_phase(self.state) is Some,
            self.state is Finalized ==> r == Some(
                TaskOutcome::Success {
                    path: self.target.path,
                    final_url: self.state->Finalized_url,
                },
            ),
            self.state is Failed ==> r == Some(
                TaskOutcome::Failure { path: self.target.path, error: self.state->Failed_error },
            ),
    {
        match &self.state {
            TaskState::Finalized { url } => Some(
                TaskOutcome::Success { path: self.target.path.clone(), final_url: url.clone() },
            ),
            TaskState::Failed { error } => Some(
                TaskOutcome::Failure { path: self.target.path.clone(), error: error.duplicate() },
            ),
            _ => None,
        }
    }
}

/// A task that has ended makes no further call, whatever replies it is handed.
pub proof fn lemma_ended_task_is_silent(state: TaskState, replies: Seq<Reply>)
    requires
        call_phase(state) is None,
    ensures
        issued(state, replies) == Seq::<Phase>::empty(),
{
}

/// A task whose opening call fails makes that call and no other: no transfer
/// and no completion follow.
pub proof fn lemma_failed_initiate_stops(error: ProtocolError, rest: Seq<Reply>)
    ensures
        issued(TaskState::Pending, seq![Reply::Initiate(Err(error))] + rest) == seq![
            Phase::Initiate,
        ],
{
    let rs = seq![Reply::Initiate(Err(error))] + rest;
    assert(rs[0] == Reply::Initiate(Err(error)));
    assert(rs.drop_first() =~= rest);
    lemma_ended_task_is_silent(TaskState::Failed { error }, rest);
    assert(seq![Phase::Initiate] + Seq::<Phase>::empty() =~= seq![Phase::Initiate]);
}

/// A task whose transfer fails makes no completing call: its calls are the
/// opening call and the transfer, in that order.
pub proof fn lemma_failed_transfer_stops(
    session: NewUploadResponse,
    error: ProtocolError,
    rest: Seq<Reply>,
)
    ensures
        issued(
            TaskState::Pending,
            seq![Reply::Initiate(Ok(session)), Reply::Transfer(Err(error))] + rest,
        ) == seq![Phase::Initiate, Phase::Transfer],
{
    let rs = seq![Reply::Initiate(Ok(session)), Reply::Transfer(Err(error))] + rest;
    let rs1 = rs.drop_first();
    assert(rs[0] == Reply::Initiate(Ok(session)));
    assert(rs1[0] == Reply::Transfer(Err(error)));
    assert(rs1.drop_first() =~= rest);
    lemma_ended_task_is_silent(TaskState::Failed { error }, rest);
    let inner = issued(TaskState::Initiated { session }, rs1);
    assert(inner =~= seq![Phase::Transfer]);
    assert(seq![Phase::Initiate] + inner =~= seq![Phase::Initiate, Phase::Transfer]);
}

} // verus!
