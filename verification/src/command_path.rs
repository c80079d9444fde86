//! The path of one command: unit of work, handler, commit or rollback, publish.
use crate::message::{event_envelopes, wrap_events, Message};
use vstd::prelude::*;

verus! {

/// A call that the host makes on behalf of a command in flight.
#[derive(Debug)]
pub enum CommandAction<C, E, P, I> {
    /// Create a unit of work.
    OpenUnitOfWork,
    /// Run the handler on the command, with the unit of work.
    Handle,
    /// Commit the unit of work.
    Commit,
    /// Roll the unit of work back.
    Rollback,
    /// Publish the batch in one call.
    PublishBatch(Vec<Message<C, E, P>>),
    /// Nothing is left to do: hand this result to the caller.
    Return(Result<Option<I>, anyhow::Error>),
}

/// A [`CommandAction`] with its batch as a sequence.
pub enum CommandActionView<C, E, P, I> {
    OpenUnitOfWork,
    Handle,
    Commit,
    Rollback,
    PublishBatch(Seq<Message<C, E, P>>),
    Return(Result<Option<I>, anyhow::Error>),
}

impl<C, E, P, I> View for CommandAction<C, E, P, I> {
    type V = CommandActionView<C, E, P, I>;

    open spec fn view(&self) -> CommandActionView<C, E, P, I> {
        match *self {
            CommandAction::OpenUnitOfWork => CommandActionView::OpenUnitOfWork,
            CommandAction::Handle => CommandActionView::Handle,
            CommandAction::Commit => CommandActionView::Commit,
            CommandAction::Rollback => CommandActionView::Rollback,
            CommandAction::PublishBatch(batch) => CommandActionView::PublishBatch(batch@),
            CommandAction::Return(result) => CommandActionView::Return(result),
        }
    }
}

/// How a call ended, as the host reports it.
#[derive(Debug)]
pub enum CommandReply<E, I> {
    /// The factory made a unit of work, or failed.
    Opened(Result<(), anyhow::Error>),
    /// The handler returned.
    Handled(Result<Option<I>, anyhow::Error>),
    /// The commit released the captured events, or failed.
    Committed(Result<Vec<E>, anyhow::Error>),
    /// The rollback returned.
    RolledBack(Result<(), anyhow::Error>),
    /// The broker took the batch, or failed.
    Published(Result<(), anyhow::Error>),
}

/// A [`CommandReply`] with its events as a sequence.
pub enum CommandReplyView<E, I> {
    Opened(Result<(), anyhow::Error>),
    Handled(Result<Option<I>, anyhow::Error>),
    Committed(Result<Seq<E>, anyhow::Error>),
    RolledBack(Result<(), anyhow::Error>),
    Published(Result<(), anyhow::Error>),
}

impl<E, I> View for CommandReply<E, I> {
    type V = CommandReplyView<E, I>;

    open spec fn view(&self) -> CommandReplyView<E, I> {
        match *self {
            CommandReply::Opened(r) => CommandReplyView::Opened(r),
            CommandReply::Handled(r) => CommandReplyView::Handled(r),
            CommandReply::Committed(r) => CommandReplyView::Committed(
                match r {
                    Ok(events) => Ok(events@),
                    Err(e) => Err(e),
                },
            ),
            CommandReply::RolledBack(r) => CommandReplyView::RolledBack(r),
            CommandReply::Published(r) => CommandReplyView::Published(r),
        }
    }
}

/// Where a command stands: which call is in flight, and what is kept for later.
#[derive(Debug)]
pub enum CommandFlow<I> {
    /// The unit of work is being created.
    Opening,
    /// The handler is running.
    Handling,
    /// The handler succeeded with this response; the commit is in flight.
    Committing(Option<I>),
    /// The handler failed with this error; the rollback is in flight.
    RollingBack(anyhow::Error),
    /// The commit succeeded; the batch is being published.
    Publishing(Option<I>),
    /// The result was handed out.
    Finished,
}

impl<I> CommandFlow<I> {
    /// A bound on the steps still to come; each step lowers it.
    pub open spec fn remaining(self) -> nat {
        match self {
            CommandFlow::Opening => 4,
            CommandFlow::Handling => 3,
            CommandFlow::Committing(_) => 2,
            CommandFlow::RollingBack(_) => 1,
            CommandFlow::Publishing(_) => 1,
            CommandFlow::Finished => 0,
        }
    }

    /// The flow waits for the outcome of `action`.
    pub open spec fn awaits<C, E, P>(self, action: CommandActionView<C, E, P, I>) -> bool {
        match (self, action) {
            (CommandFlow::Opening, CommandActionView::OpenUnitOfWork) => true,
            (CommandFlow::Handling, CommandActionView::Handle) => true,
            (CommandFlow::Committing(_), CommandActionView::Commit) => true,
            (CommandFlow::RollingBack(_), CommandActionView::Rollback) => true,
            (CommandFlow::Publishing(_), CommandActionView::PublishBatch(_)) => true,
            (CommandFlow::Finished, CommandActionView::Return(_)) => true,
            _ => false,
        }
    }

    /// The transition table. `None` where `reply` is no answer to the call in
    /// flight; else the next state and the next call.
    pub open spec fn advance<C, E, P>(self, reply: CommandReplyView<E, I>) -> Option<
        (CommandFlow<I>, CommandActionView<C, E, P, I>),
    > {
        match (self, reply) {
            (CommandFlow::Opening, CommandReplyView::Opened(Ok(_))) => Some(
                (CommandFlow::Handling, CommandActionView::Handle),
            ),
            (CommandFlow::Opening, CommandReplyView::Opened(Err(e))) => Some(
                (CommandFlow::Finished, CommandActionView::Return(Err(e))),
            ),
            (CommandFlow::Handling, CommandReplyView::Handled(Ok(response))) => Some(
                (CommandFlow::Committing(response), CommandActionView::Commit),
            ),
            (CommandFlow::Handling, CommandReplyView::Handled(Err(e))) => Some(
                (CommandFlow::RollingBack(e), CommandActionView::Rollback),
            ),
            (CommandFlow::Committing(response), CommandReplyView::Committed(Ok(events))) => Some(
                (
                    CommandFlow::Publishing(response),
                    CommandActionView::PublishBatch(event_envelopes(events)),
                ),
            ),
            (CommandFlow::Committing(_), CommandReplyView::Committed(Err(e))) => Some(
                (CommandFlow::Finished, CommandActionView::Return(Err(e))),
            ),
            (CommandFlow::RollingBack(e), CommandReplyView::RolledBack(Ok(_))) => Some(
                (CommandFlow::Finished, CommandActionView::Return(Err(e))),
            ),
            (CommandFlow::RollingBack(_), CommandReplyView::RolledBack(Err(e))) => Some(
                (CommandFlow::Finished, CommandActionView::Return(Err(e))),
            ),
            (CommandFlow::Publishing(response), CommandReplyView::Published(Ok(_))) => Some(
                (CommandFlow::Finished, CommandActionView::Return(Ok(response))),
            ),
            (CommandFlow::Publishing(_), CommandReplyView::Published(Err(e))) => Some(
                (CommandFlow::Finished, CommandActionView::Return(Err(e))),
            ),
            _ => None,
        }
    }

    /// Starts on a command: the first call is to create a unit of work.
    pub fn begin<C, E, P>() -> (out: (CommandFlow<I>, CommandAction<C, E, P, I>))
        ensures
            out.0 == CommandFlow::<I>::Opening,
            out.1@ == CommandActionView::<C, E, P, I>::OpenUnitOfWork,
    {
        (CommandFlow::Opening, CommandAction::OpenUnitOfWork)
    }

    /// Takes the outcome of the call in flight and names the next call.
    ///
    /// A reply that does not answer the call in flight changes nothing: it
    /// comes back in `Err`, beside the flow as it was.
    pub fn step<C, E, P>(self, reply: CommandReply<E, I>) -> (out: Result<
        (CommandFlow<I>, CommandAction<C, E, P, I>),
        (CommandFlow<I>, CommandReply<E, I>),
    >)
        ensures
            match self.advance::<C, E, P>(reply@) {
                Some((next, action)) => out matches Ok((flow, call)) && flow == next && call@
                    == action,
                None => out matches Err((flow, back)) && flow == self && back == reply,
            },
    {
        match (self, reply) {
            (CommandFlow::Opening, CommandReply::Opened(Ok(_))) => Ok(
                (CommandFlow::Handling, CommandAction::Handle),
            ),
            (CommandFlow::Opening, CommandReply::Opened(Err(e))) => Ok(
                (CommandFlow::Finished, CommandAction::Return(Err(e))),
            ),
            (CommandFlow::Handling, CommandReply::Handled(Ok(response))) => Ok(
                (CommandFlow::Committing(response), CommandAction::Commit),
            ),
            (CommandFlow::Handling, CommandReply::Handled(Err(e))) => Ok(
                (CommandFlow::RollingBack(e), CommandAction::Rollback),
            ),
            (CommandFlow::Committing(response), CommandReply::Committed(Ok(events))) => Ok(
                (CommandFlow::Publishing(response), CommandAction::PublishBatch(wrap_events(events))),
            ),
            (CommandFlow::Committing(_), CommandReply::Committed(Err(e))) => Ok(
                (CommandFlow::Finished, CommandAction::Return(Err(e))),
            ),
            (CommandFlow::RollingBack(e), CommandReply::RolledBack(Ok(_))) => Ok(
                (CommandFlow::Finished, CommandAction::Return(Err(e))),
            ),
            (CommandFlow::RollingBack(_), CommandReply::RolledBack(Err(e))) => Ok(
                (CommandFlow::Finished, CommandAction::Return(Err(e))),
            ),
            (CommandFlow::Publishing(response), CommandReply::Published(Ok(_))) => Ok(
                (CommandFlow::Finished, CommandAction::Return(Ok(response))),
            ),
            (CommandFlow::Publishing(_), CommandReply::Published(Err(e))) => Ok(
                (CommandFlow::Finished, CommandAction::Return(Err(e))),
            ),
            (flow, reply) => Err((flow, reply)),
        }
    }
}

/// What each capability answers for one command, should the bus call it.
///
/// Any five answers make a value of this type: the laws below hold however
/// the capabilities behave.
pub struct CommandOutcomes<E, I> {
    /// The factory's answer.
    pub opened: Result<(), anyhow::Error>,
    /// The handler's answer.
    pub handled: Result<Option<I>, anyhow::Error>,
    /// The answer of the unit of work to a commit: the captured events.
    pub committed: Result<Seq<E>, anyhow::Error>,
    /// The answer of the unit of work to a rollback.
    pub rolled_back: Result<(), anyhow::Error>,
    /// The broker's answer to the batch.
    pub published: Result<(), anyhow::Error>,
}

impl<E, I> CommandOutcomes<E, I> {
    /// The reply that these outcomes give to `action`; `None` for `Return`,
    /// which calls nothing.
    pub open spec fn answer<C, P>(self, action: CommandActionView<C, E, P, I>) -> Option<
        CommandReplyView<E, I>,
    > {
        match action {
            CommandActionView::OpenUnitOfWork => Some(CommandReplyView::Opened(self.opened)),
            CommandActionView::Handle => Some(CommandReplyView::Handled(self.handled)),
            CommandActionView::Commit => Some(CommandReplyView::Committed(self.committed)),
            CommandActionView::Rollback => Some(CommandReplyView::RolledBack(self.rolled_back)),
            CommandActionView::PublishBatch(_) => Some(CommandReplyView::Published(self.published)),
            CommandActionView::Return(_) => None,
        }
    }

    /// What `dispatch` returns under these outcomes.
    pub open spec fn result(self) -> Result<Option<I>, anyhow::Error> {
        match (self.opened, self.handled) {
            (Err(e), _) => Err(e),
            (Ok(_), Err(e)) => match self.rolled_back {
                Ok(_) => Err(e),
                Err(r) => Err(r),
            },
            (Ok(_), Ok(response)) => match (self.committed, self.published) {
                (Err(e), _) => Err(e),
                (Ok(_), Err(e)) => Err(e),
                (Ok(_), Ok(_)) => Ok(response),
            },
        }
    }
}

/// The calls that follow from `action` on, `action` included, when every call
/// is answered as `outcomes` says.
pub open spec fn calls_from<C, E, P, I>(
    flow: CommandFlow<I>,
    action: CommandActionView<C, E, P, I>,
    outcomes: CommandOutcomes<E, I>,
) -> Seq<CommandActionView<C, E, P, I>>
    decreases flow.remaining(),
{
    match outcomes.answer(action) {
        None => seq![action],
        Some(reply) => match flow.advance::<C, E, P>(reply) {
            Some((next, then)) if next.remaining() < flow.remaining() => seq![action] + calls_from(
                next,
                then,
                outcomes,
            ),
            _ => seq![action],
        },
    }
}

/// Every call made for one command, in order, ending with `Return`.
pub open spec fn dispatch_calls<C, E, P, I>(outcomes: CommandOutcomes<E, I>) -> Seq<
    CommandActionView<C, E, P, I>,
> {
    calls_from(CommandFlow::Opening, CommandActionView::OpenUnitOfWork, outcomes)
}

/// Each step leaves fewer calls to come, and the call it names is the one
/// that the next state waits for.
pub proof fn step_makes_progress<C, E, P, I>(flow: CommandFlow<I>, reply: CommandReplyView<E, I>)
    ensures
        flow.advance::<C, E, P>(reply) matches Some((next, action)) ==> next.remaining()
            < flow.remaining() && next.awaits(action),
{
}

/// The outcome of the call in flight is always taken, whatever it is.
pub proof fn answer_is_taken<C, E, P, I>(
    flow: CommandFlow<I>,
    action: CommandActionView<C, E, P, I>,
    outcomes: CommandOutcomes<E, I>,
)
    requires
        flow.awaits(action),
        !(action is Return),
    ensures
        outcomes.answer(action) matches Some(reply) && flow.advance::<C, E, P>(reply) is Some,
{
}

/// Where the unit of work is made, the handler succeeds and the commit
/// succeeds, the events that the commit released are published: once, as one
/// batch, in the order in which the commit gave them, after the commit, and
/// nothing is rolled back.
pub proof fn commit_then_publish_once<C, E, P, I>(outcomes: CommandOutcomes<E, I>)
    requires
        outcomes.opened is Ok,
        outcomes.handled is Ok,
        outcomes.committed is Ok,
    ensures
        dispatch_calls::<C, E, P, I>(outcomes) == seq![
            CommandActionView::<C, E, P, I>::OpenUnitOfWork,
            CommandActionView::Handle,
            CommandActionView::Commit,
            CommandActionView::PublishBatch(event_envelopes(outcomes.committed->Ok_0)),
            CommandActionView::Return(outcomes.result()),
        ],
{
    reveal_with_fuel(calls_from, 6);
}

/// A batch is published only behind a successful commit, and at most once:
/// whatever the capabilities answer, a `PublishBatch` among the calls is the
/// fourth call, the call before it is the commit, the handler and the commit
/// succeeded, and the batch holds the events that the commit released.
pub proof fn publish_only_after_commit<C, E, P, I>(outcomes: CommandOutcomes<E, I>)
    ensures
        forall|k: int|
            0 <= k < dispatch_calls::<C, E, P, I>(outcomes).len() && (
            #[trigger] dispatch_calls::<C, E, P, I>(outcomes)[k]) is PublishBatch ==> {
                &&& k == 3
                &&& dispatch_calls::<C, E, P, I>(outcomes)[2] == CommandActionView::<
                    C,
                    E,
                    P,
                    I,
                >::Commit
                &&& outcomes.handled is Ok
                &&& outcomes.committed is Ok
                &&& dispatch_calls::<C, E, P, I>(outcomes)[k] == CommandActionView::<
                    C,
                    E,
                    P,
                    I,
                >::PublishBatch(event_envelopes(outcomes.committed->Ok_0))
            },
{
    reveal_with_fuel(calls_from, 6);
}

/// A unit of work is never both committed and rolled back, and neither
/// happens twice: among the calls there is at most one `Commit` or
/// `Rollback`, it is the third call, and it follows the handler.
pub proof fn commit_or_rollback_once<C, E, P, I>(outcomes: CommandOutcomes<E, I>)
    ensures
        forall|k: int|
            0 <= k < dispatch_calls::<C, E, P, I>(outcomes).len() && ((
            #[trigger] dispatch_calls::<C, E, P, I>(outcomes)[k]) is Commit || dispatch_calls::<
                C,
                E,
                P,
                I,
            >(outcomes)[k] is Rollback) ==> {
                &&& k == 2
                &&& dispatch_calls::<C, E, P, I>(outcomes)[1] == CommandActionView::<
                    C,
                    E,
                    P,
                    I,
                >::Handle
                &&& dispatch_calls::<C, E, P, I>(outcomes)[k] is Commit <==> outcomes.handled is Ok
            },
{
    reveal_with_fuel(calls_from, 6);
}

/// Where the handler fails, the unit of work is rolled back once, nothing is
/// published, and the handler's error is returned, unless the rollback fails
/// too: then the rollback's error is.
pub proof fn failed_handler_rolls_back_once<C, E, P, I>(outcomes: CommandOutcomes<E, I>)
    requires
        outcomes.opened is Ok,
        outcomes.handled is Err,
    ensures
        dispatch_calls::<C, E, P, I>(outcomes) == seq![
            CommandActionView::<C, E, P, I>::OpenUnitOfWork,
            CommandActionView::Handle,
            CommandActionView::Rollback,
            CommandActionView::Return(outcomes.result()),
        ],
        outcomes.result() == match outcomes.rolled_back {
            Ok(_) => Err::<Option<I>, anyhow::Error>(outcomes.handled->Err_0),
            Err(r) => Err(r),
        },
{
    reveal_with_fuel(calls_from, 6);
}

/// Where no unit of work can be made, nothing else is called and the
/// factory's error is returned.
pub proof fn failed_factory_calls_nothing<C, E, P, I>(outcomes: CommandOutcomes<E, I>)
    requires
        outcomes.opened is Err,
    ensures
        dispatch_calls::<C, E, P, I>(outcomes) == seq![
            CommandActionView::<C, E, P, I>::OpenUnitOfWork,
            CommandActionView::Return(Err(outcomes.opened->Err_0)),
        ],
{
    reveal_with_fuel(calls_from, 6);
}

/// Where the commit fails, nothing is published or rolled back and the
/// commit's error is returned.
pub proof fn failed_commit_publishes_nothing<C, E, P, I>(outcomes: CommandOutcomes<E, I>)
    requires
        outcomes.opened is Ok,
        outcomes.handled is Ok,
        outcomes.committed is Err,
    ensures
        dispatch_calls::<C, E, P, I>(outcomes) == seq![
            CommandActionView::<C, E, P, I>::OpenUnitOfWork,
            CommandActionView::Handle,
            CommandActionView::Commit,
            CommandActionView::Return(Err(outcomes.committed->Err_0)),
        ],
{
    reveal_with_fuel(calls_from, 6);
}

/// The calls always end with `Return`, and it carries [`CommandOutcomes::result`].
pub proof fn dispatch_returns_result<C, E, P, I>(outcomes: CommandOutcomes<E, I>)
    ensures
        dispatch_calls::<C, E, P, I>(outcomes).last() == CommandActionView::<
            C,
            E,
            P,
            I,
        >::Return(outcomes.result()),
{
    reveal_with_fuel(calls_from, 6);
}

} // verus!
