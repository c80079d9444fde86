//! The bus: the three paths, run against the capabilities of an engine.
use crate::broker::MessageBroker;
use crate::command_path::{
    CommandAction, CommandActionView, CommandFlow, CommandOutcomes, CommandReply,
};
use crate::driver::MessageBusDriver;
use crate::engine::MessageBusEngine;
use crate::event_path::{EventAction, EventActionView, EventFlow, EventOutcomes, EventReply};
use crate::factory::Factory;
use crate::handler::{Command, CommandHandler};
use crate::message::{
    event_envelopes, side_effect_envelopes, DriverMessage, DriverSideEffect, Message,
};
use crate::policy::{Policy, PolicyContext};
use crate::projector::Projector;
use crate::receive_loop::{
    route, route_of, settlement_of, LoopAction, LoopReply, ReceiveLoop,
};
use crate::uow::UnitOfWork;
use crate::view::Viewer;
use vstd::pervasive::unreached;
use vstd::prelude::*;

verus! {

/// Runs commands, events and projections against the capabilities of a driver.
///
/// The bus decides nothing: for each path it makes the calls that the path's
/// state machine names, in the order in which it names them, and reports each
/// outcome back. What follows for the order of those calls is proved in
/// [`command_path`](crate::command_path), [`event_path`](crate::event_path)
/// and [`receive_loop`](crate::receive_loop).
///
/// What a capability answers is its own business, so the contracts here speak
/// of answers that a capability *can* give: `call_ensures` of its method, on
/// the arguments that the bus hands it.
pub struct MessageBus<D: MessageBusDriver> {
    engine: MessageBusEngine<D>,
}

/// Whether the receive loop goes on after a delivery.
#[derive(Debug)]
pub enum Served {
    /// A delivery was settled: receive the next.
    Next,
    /// The loop is over, with this result.
    Stopped(Result<(), anyhow::Error>),
}

/// `outcome` without what it carries on success.
pub open spec fn settled<T>(outcome: Result<T, anyhow::Error>) -> Result<(), anyhow::Error> {
    match outcome {
        Ok(_) => Ok(()),
        Err(e) => Err(e),
    }
}

/// `outcome` with what it carries on success as a sequence.
pub open spec fn released<T>(outcome: Result<Vec<T>, anyhow::Error>) -> Result<
    Seq<T>,
    anyhow::Error,
> {
    match outcome {
        Ok(items) => Ok(items@),
        Err(e) => Err(e),
    }
}

/// What the loop does after an acknowledgement or a rejection answered `answer`.
pub open spec fn served(answer: Result<(), anyhow::Error>) -> Served {
    match answer {
        Ok(_) => Served::Next,
        Err(e) => Served::Stopped(Err(e)),
    }
}

impl<D: MessageBusDriver> Clone for MessageBus<D> {
    /// A second handle on capabilities cloned from those of the first.
    fn clone(&self) -> (out: Self)
        ensures
            call_ensures(MessageBusEngine::<D>::clone, (&self.engine(),), out.engine()),
    {
        MessageBus { engine: self.engine.clone() }
    }
}

impl<D: MessageBusDriver> From<&D> for MessageBus<D> where
    D::Broker: for <'a>From<&'a D>,
    D::Projector: for <'a>From<&'a D>,
    D::Handler: for <'a>From<&'a D>,
    D::Policy: for <'a>From<&'a D>,
    D::Viewer: for <'a>From<&'a D>,
    <D::PolicyContext as PolicyContext>::Factory: for <'a>From<&'a D>,
    <D::UnitOfWork as UnitOfWork>::Factory: for <'a>From<&'a D>,
 {
    /// A bus on the engine built from `driver`.
    fn from(driver: &D) -> (out: Self)
        ensures
            call_ensures(<MessageBusEngine<D> as From<&D>>::from, (driver,), out.engine()),
    {
        MessageBus { engine: MessageBusEngine::from(driver) }
    }
}

/// As for the engine: no spec function of the driver alone gives the bus.
impl<D: MessageBusDriver> vstd::std_specs::convert::FromSpecImpl<&D> for MessageBus<D> where
    D::Broker: for <'a>From<&'a D>,
    D::Projector: for <'a>From<&'a D>,
    D::Handler: for <'a>From<&'a D>,
    D::Policy: for <'a>From<&'a D>,
    D::Viewer: for <'a>From<&'a D>,
    <D::PolicyContext as PolicyContext>::Factory: for <'a>From<&'a D>,
    <D::UnitOfWork as UnitOfWork>::Factory: for <'a>From<&'a D>,
 {
    open spec fn obeys_from_spec() -> bool {
        false
    }

    open spec fn from_spec(driver: &D) -> Self {
        arbitrary()
    }
}

impl<D: MessageBusDriver> MessageBus<D> {
    /// The capabilities that the bus runs against.
    pub closed spec fn engine(&self) -> MessageBusEngine<D> {
        self.engine
    }

    /// The factory can answer a request for a unit of work with `made`.
    pub open spec fn unit_of_work_factory_answers(
        &self,
        made: Result<D::UnitOfWork, anyhow::Error>,
    ) -> bool {
        call_ensures(
            <<D::UnitOfWork as UnitOfWork>::Factory as Factory>::create,
            (&self.engine().uow_factory,),
            made,
        )
    }

    /// The handler, given `cmd` and the unit of work behind `uow`, can answer
    /// `handled`.
    pub open spec fn handler_answers<C: Command>(
        &self,
        uow: &mut D::UnitOfWork,
        cmd: C,
        handled: Result<Option<D::Identifier>, anyhow::Error>,
    ) -> bool where D::Handler: CommandHandler<C, D> {
        call_ensures(
            <D::Handler as CommandHandler<C, D>>::handle,
            (&self.engine().handler, uow, cmd),
            handled,
        )
    }

    /// The unit of work `uow` can answer a commit with `committed`.
    pub open spec fn commit_answers(
        uow: D::UnitOfWork,
        committed: Result<Seq<D::Event>, anyhow::Error>,
    ) -> bool {
        exists|outcome: Result<Vec<D::Event>, anyhow::Error>|
            #[trigger] call_ensures(<D::UnitOfWork as UnitOfWork>::commit, (uow,), outcome)
                && committed == released(outcome)
    }

    /// The unit of work `uow` can answer a rollback with `rolled_back`.
    pub open spec fn rollback_answers(
        uow: D::UnitOfWork,
        rolled_back: Result<(), anyhow::Error>,
    ) -> bool {
        call_ensures(<D::UnitOfWork as UnitOfWork>::rollback, (uow,), rolled_back)
    }

    /// The broker, handed `envelopes` in that order as one batch, can answer
    /// `published`.
    pub open spec fn broker_answers(
        &self,
        envelopes: Seq<DriverMessage<D>>,
        published: Result<(), anyhow::Error>,
    ) -> bool {
        exists|batch: Vec<DriverMessage<D>>|
            batch@ == envelopes && #[trigger] call_ensures(
                <D::Broker as MessageBroker>::publish_batch,
                (&self.engine().broker, batch),
                published,
            )
    }

    /// The calls made for `cmd` can end as `outcomes` says, where `made` is
    /// the factory's answer, `uow` is what the handler is given and `left` is
    /// the unit of work as the handler leaves it.
    ///
    /// The factory is asked first. The handler gets the unit of work that
    /// the factory made, and `cmd`. The unit of work as the handler left it
    /// is committed after success and rolled back after failure. The broker
    /// gets the events of the commit, each in its envelope, as one batch. An
    /// outcome of a call that is not made is not bound.
    pub open spec fn dispatch_run<C: Command>(
        &self,
        cmd: C,
        outcomes: CommandOutcomes<D::Event, D::Identifier>,
        made: Result<D::UnitOfWork, anyhow::Error>,
        uow: &mut D::UnitOfWork,
        left: D::UnitOfWork,
    ) -> bool where D::Handler: CommandHandler<C, D> {
        &&& self.unit_of_work_factory_answers(made)
        &&& outcomes.opened == settled(made)
        &&& made matches Ok(before) ==> {
            &&& *uow == before
            &&& self.handler_answers(uow, cmd, outcomes.handled)
            &&& outcomes.handled is Ok ==> Self::commit_answers(left, outcomes.committed)
            &&& outcomes.handled is Ok && outcomes.committed is Ok ==> self.broker_answers(
                event_envelopes(outcomes.committed->Ok_0),
                outcomes.published,
            )
            &&& outcomes.handled is Err ==> Self::rollback_answers(left, outcomes.rolled_back)
        }
    }

    /// The calls made for `cmd` can end as `outcomes` says: see
    /// [`dispatch_run`](Self::dispatch_run).
    pub open spec fn dispatch_outcomes<C: Command>(
        &self,
        cmd: C,
        outcomes: CommandOutcomes<D::Event, D::Identifier>,
    ) -> bool where D::Handler: CommandHandler<C, D> {
        exists|made: Result<D::UnitOfWork, anyhow::Error>, uow: &mut D::UnitOfWork, left: D::UnitOfWork|
         #[trigger]
            self.dispatch_run(cmd, outcomes, made, uow, left)
    }

    /// Runs one command: in a fresh unit of work, committed after the handler
    /// succeeds and rolled back after it fails; the events that the commit
    /// releases are published as one batch.
    ///
    /// The result is the one that [`CommandOutcomes::result`] gives for the
    /// outcomes of the calls made.
    pub fn dispatch<C: Command>(&self, cmd: C) -> (out: Result<
        Option<D::Identifier>,
        anyhow::Error,
    >) where D::Handler: CommandHandler<C, D>
        ensures
            exists|
                outcomes: CommandOutcomes<D::Event, D::Identifier>,
                made: Result<D::UnitOfWork, anyhow::Error>,
                uow: &mut D::UnitOfWork,
            | #[trigger]
                self.dispatch_run(cmd, outcomes, made, uow, *final(uow)) && out
                    == outcomes.result(),
    {
        let (mut flow, mut action) = CommandFlow::<D::Identifier>::begin::<
            D::Command,
            D::Event,
            D::Projection,
        >();
        let mut command: Option<C> = Some(cmd);
        let mut scope: Option<D::UnitOfWork> = None;
        let ghost mut seen: CommandOutcomes<D::Event, D::Identifier> = arbitrary();
        let ghost mut made: Result<D::UnitOfWork, anyhow::Error> = arbitrary();
        let ghost mut left: D::UnitOfWork = arbitrary();
        loop
            invariant
                flow.awaits(action@),
                flow is Opening || flow is Handling ==> command == Some(cmd),
                !(flow is Opening) ==> self.unit_of_work_factory_answers(made) && seen.opened
                    == settled(made),
                flow is Handling ==> made is Ok && scope == Some(made->Ok_0),
                flow is Committing || flow is RollingBack || flow is Publishing ==> made is Ok
                    && exists|uow: &mut D::UnitOfWork|
                    *uow == made->Ok_0 && *final(uow) == left && #[trigger] self.handler_answers(
                        uow,
                        cmd,
                        seen.handled,
                    ),
                flow is Committing || flow is RollingBack ==> scope == Some(left),
                flow matches CommandFlow::Committing(response) ==> seen.handled == Ok::<
                    _,
                    anyhow::Error,
                >(response),
                flow matches CommandFlow::RollingBack(e) ==> seen.handled == Err::<
                    Option<D::Identifier>,
                    _,
                >(e),
                flow matches CommandFlow::Publishing(response) ==> seen.handled == Ok::<
                    _,
                    anyhow::Error,
                >(response) && seen.committed is Ok && Self::commit_answers(left, seen.committed)
                    && action@ == CommandActionView::<
                    D::Command,
                    D::Event,
                    D::Projection,
                    D::Identifier,
                >::PublishBatch(event_envelopes(seen.committed->Ok_0)),
                flow is Finished ==> (exists|uow: &mut D::UnitOfWork| #[trigger]
                    self.dispatch_run(cmd, seen, made, uow, *final(uow))) && action@
                    == CommandActionView::<
                    D::Command,
                    D::Event,
                    D::Projection,
                    D::Identifier,
                >::Return(seen.result()),
            decreases flow.remaining(),
        {
            let reply = match action {
                CommandAction::OpenUnitOfWork => {
                    let outcome = self.engine.uow_factory.create();
                    proof {
                        made = outcome;
                        seen = CommandOutcomes { opened: settled(outcome), ..seen };
                    }
                    match outcome {
                        Ok(uow) => {
                            scope = Some(uow);
                            CommandReply::Opened(Ok(()))
                        },
                        Err(e) => CommandReply::Opened(Err(e)),
                    }
                },
                CommandAction::Handle => {
                    let mut uow = scope.take().unwrap();
                    let outcome = self.engine.handler.handle(&mut uow, command.take().unwrap());
                    proof {
                        seen = CommandOutcomes { handled: outcome, ..seen };
                        left = uow;
                        let given = choose|given: &mut D::UnitOfWork|
                            *given == made->Ok_0 && *final(given) == left && #[trigger] call_ensures(
                                <D::Handler as CommandHandler<C, D>>::handle,
                                (&self.engine().handler, given, cmd),
                                outcome,
                            );
                        assert(self.handler_answers(given, cmd, seen.handled));
                    }
                    scope = Some(uow);
                    CommandReply::Handled(outcome)
                },
                CommandAction::Commit => {
                    let uow = scope.take().unwrap();
                    let ghost committing = uow;
                    let outcome = uow.commit();
                    proof {
                        seen = CommandOutcomes { committed: released(outcome), ..seen };
                        assert(call_ensures(
                            <D::UnitOfWork as UnitOfWork>::commit,
                            (committing,),
                            outcome,
                        ));
                        assert(Self::commit_answers(committing, seen.committed));
                    }
                    CommandReply::Committed(outcome)
                },
                CommandAction::Rollback => {
                    let uow = scope.take().unwrap();
                    let ghost rolling_back = uow;
                    let outcome = uow.rollback();
                    proof {
                        seen = CommandOutcomes { rolled_back: outcome, ..seen };
                        assert(Self::rollback_answers(rolling_back, seen.rolled_back));
                    }
                    CommandReply::RolledBack(outcome)
                },
                CommandAction::PublishBatch(batch) => {
                    let ghost handed = batch;
                    let outcome = self.engine.broker.publish_batch(batch);
                    proof {
                        seen = CommandOutcomes { published: outcome, ..seen };
                        assert(call_ensures(
                            <D::Broker as MessageBroker>::publish_batch,
                            (&self.engine().broker, handed),
                            outcome,
                        ));
                        assert(self.broker_answers(handed@, seen.published));
                    }
                    CommandReply::Published(outcome)
                },
                CommandAction::Return(result) => {
                    return result;
                },
            };
            match flow.step(reply) {
                Ok((next, then)) => {
                    flow = next;
                    action = then;
                    proof {
                        if flow is Finished {
                            if made is Ok {
                                let uow = choose|uow: &mut D::UnitOfWork|
                                    *uow == made->Ok_0 && *final(uow) == left
                                        && #[trigger] self.handler_answers(uow, cmd, seen.handled);
                                assert(self.dispatch_run(cmd, seen, made, uow, *final(uow)));
                            } else {
                                let uow: &mut D::UnitOfWork = arbitrary();
                                assert(self.dispatch_run(cmd, seen, made, uow, *final(uow)));
                            }
                        }
                    }
                },
                Err(_) => {
                    return unreached();
                },
            }
        }
    }

    /// Answers a query: hands it to the viewer and returns the viewer's answer.
    pub fn view<Q>(&self, query: Q) -> (out: Result<
        <D::Viewer as Viewer<Q>>::View,
        anyhow::Error,
    >) where D::Viewer: Viewer<Q>
        ensures
            call_ensures(
                <D::Viewer as Viewer<Q>>::view,
                (&self.engine().viewer, query),
                out,
            ),
    {
        self.engine.viewer.view(query)
    }

    /// The factory can answer a request for a policy context with `made`.
    pub open spec fn context_factory_answers(
        &self,
        made: Result<D::PolicyContext, anyhow::Error>,
    ) -> bool {
        call_ensures(
            <<D::PolicyContext as PolicyContext>::Factory as Factory>::create,
            (&self.engine().policy_context_factory,),
            made,
        )
    }

    /// The policy, given `event` and the context behind `ctx`, can answer
    /// `applied`.
    pub open spec fn policy_answers(
        &self,
        ctx: &mut D::PolicyContext,
        event: D::Event,
        applied: Result<Seq<DriverSideEffect<D>>, anyhow::Error>,
    ) -> bool where D::Policy: Policy<D::Event, D, Output = DriverSideEffect<D>> {
        exists|outcome: Result<Vec<DriverSideEffect<D>>, anyhow::Error>|
            applied == released(outcome) && #[trigger] call_ensures(
                <D::Policy as Policy<D::Event, D>>::apply,
                (&self.engine().policy, ctx, event),
                outcome,
            )
    }

    /// The context `ctx` can answer a close with `closed`.
    pub open spec fn close_answers(ctx: D::PolicyContext, closed: Result<(), anyhow::Error>) -> bool {
        call_ensures(<D::PolicyContext as PolicyContext>::close, (ctx,), closed)
    }

    /// The calls made for `event` can end as `outcomes` says, where `made` is
    /// the factory's answer, `ctx` is what the policy is given and `left` is
    /// the context as the policy leaves it.
    ///
    /// The factory is asked first. The policy gets the context that the
    /// factory made, and `event`. The broker gets the side effects of the
    /// policy, each in the envelope of its variant, as one batch. The context
    /// as the policy left it is closed, whatever came before. An outcome of a
    /// call that is not made is not bound.
    pub open spec fn handle_event_run(
        &self,
        event: D::Event,
        outcomes: EventOutcomes<D::Command, D::Projection>,
        made: Result<D::PolicyContext, anyhow::Error>,
        ctx: &mut D::PolicyContext,
        left: D::PolicyContext,
    ) -> bool where D::Policy: Policy<D::Event, D, Output = DriverSideEffect<D>> {
        &&& self.context_factory_answers(made)
        &&& outcomes.opened == settled(made)
        &&& made matches Ok(before) ==> {
            &&& *ctx == before
            &&& self.policy_answers(ctx, event, outcomes.applied)
            &&& outcomes.applied is Ok ==> self.broker_answers(
                side_effect_envelopes(outcomes.applied->Ok_0),
                outcomes.published,
            )
            &&& Self::close_answers(left, outcomes.closed)
        }
    }

    /// The calls made for `event` can end as `outcomes` says: see
    /// [`handle_event_run`](Self::handle_event_run).
    pub open spec fn handle_event_outcomes(
        &self,
        event: D::Event,
        outcomes: EventOutcomes<D::Command, D::Projection>,
    ) -> bool where D::Policy: Policy<D::Event, D, Output = DriverSideEffect<D>> {
        exists|
            made: Result<D::PolicyContext, anyhow::Error>,
            ctx: &mut D::PolicyContext,
            left: D::PolicyContext,
        | #[trigger]
            self.handle_event_run(event, outcomes, made, ctx, left)
    }

    /// Runs one event: applies the policy in a fresh context, publishes its
    /// side effects as one batch, and closes the context whether that
    /// succeeded or failed.
    ///
    /// The result is the one that [`EventOutcomes::result`] gives for the
    /// outcomes of the calls made.
    pub fn handle_event(&self, event: D::Event) -> (out: Result<(), anyhow::Error>) where
        D::Policy: Policy<D::Event, D, Output = DriverSideEffect<D>>,

        ensures
            exists|
                outcomes: EventOutcomes<D::Command, D::Projection>,
                made: Result<D::PolicyContext, anyhow::Error>,
                ctx: &mut D::PolicyContext,
            | #[trigger]
                self.handle_event_run(event, outcomes, made, ctx, *final(ctx)) && out
                    == outcomes.result(),
    {
        let (mut flow, mut action) = EventFlow::begin::<D::Command, D::Event, D::Projection>();
        let mut fact: Option<D::Event> = Some(event);
        let mut scope: Option<D::PolicyContext> = None;
        let ghost mut seen: EventOutcomes<D::Command, D::Projection> = arbitrary();
        let ghost mut made: Result<D::PolicyContext, anyhow::Error> = arbitrary();
        let ghost mut left: D::PolicyContext = arbitrary();
        loop
            invariant
                flow.awaits(action@),
                flow is Opening || flow is Applying ==> fact == Some(event),
                !(flow is Opening) ==> self.context_factory_answers(made) && seen.opened
                    == settled(made),
                flow is Applying ==> made is Ok && scope == Some(made->Ok_0),
                flow is Publishing || flow is Closing ==> made is Ok && scope == Some(left)
                    && exists|ctx: &mut D::PolicyContext|
                    *ctx == made->Ok_0 && *final(ctx) == left && #[trigger] self.policy_answers(
                        ctx,
                        event,
                        seen.applied,
                    ),
                flow is Publishing ==> seen.applied is Ok && action@ == EventActionView::<
                    D::Command,
                    D::Event,
                    D::Projection,
                >::PublishBatch(side_effect_envelopes(seen.applied->Ok_0)),
                flow matches EventFlow::Closing(kept) ==> {
                    &&& seen.applied is Ok ==> kept == seen.published && self.broker_answers(
                        side_effect_envelopes(seen.applied->Ok_0),
                        seen.published,
                    )
                    &&& seen.applied matches Err(e) ==> kept == Err::<(), _>(e)
                },
                flow is Finished ==> (exists|ctx: &mut D::PolicyContext| #[trigger]
                    self.handle_event_run(event, seen, made, ctx, *final(ctx))) && action@
                    == EventActionView::<D::Command, D::Event, D::Projection>::Return(
                    seen.result(),
                ),
            decreases flow.remaining(),
        {
            let reply = match action {
                EventAction::OpenContext => {
                    let outcome = self.engine.policy_context_factory.create();
                    proof {
                        made = outcome;
                        seen = EventOutcomes { opened: settled(outcome), ..seen };
                    }
                    match outcome {
                        Ok(ctx) => {
                            scope = Some(ctx);
                            EventReply::Opened(Ok(()))
                        },
                        Err(e) => EventReply::Opened(Err(e)),
                    }
                },
                EventAction::Apply => {
                    let mut ctx = scope.take().unwrap();
                    let outcome = self.engine.policy.apply(&mut ctx, fact.take().unwrap());
                    proof {
                        seen = EventOutcomes { applied: released(outcome), ..seen };
                        left = ctx;
                        let given = choose|given: &mut D::PolicyContext|
                            *given == made->Ok_0 && *final(given) == left && #[trigger] call_ensures(
                                <D::Policy as Policy<D::Event, D>>::apply,
                                (&self.engine().policy, given, event),
                                outcome,
                            );
                        assert(self.policy_answers(given, event, seen.applied));
                    }
                    scope = Some(ctx);
                    EventReply::Applied(outcome)
                },
                EventAction::PublishBatch(batch) => {
                    let ghost handed = batch;
                    let outcome = self.engine.broker.publish_batch(batch);
                    proof {
                        seen = EventOutcomes { published: outcome, ..seen };
                        assert(call_ensures(
                            <D::Broker as MessageBroker>::publish_batch,
                            (&self.engine().broker, handed),
                            outcome,
                        ));
                        assert(self.broker_answers(handed@, seen.published));
                    }
                    EventReply::Published(outcome)
                },
                EventAction::Close => {
                    let ctx = scope.take().unwrap();
                    let ghost closing = ctx;
                    let outcome = ctx.close();
                    proof {
                        seen = EventOutcomes { closed: outcome, ..seen };
                        assert(Self::close_answers(closing, seen.closed));
                    }
                    EventReply::Closed(outcome)
                },
                EventAction::Return(result) => {
                    return result;
                },
            };
            match flow.step(reply) {
                Ok((next, then)) => {
                    flow = next;
                    action = then;
                    proof {
                        if flow is Finished {
                            if made is Ok {
                                let ctx = choose|ctx: &mut D::PolicyContext|
                                    *ctx == made->Ok_0 && *final(ctx) == left
                                        && #[trigger] self.policy_answers(ctx, event, seen.applied);
                                assert(self.handle_event_run(event, seen, made, ctx, *final(ctx)));
                            } else {
                                let ctx: &mut D::PolicyContext = arbitrary();
                                assert(self.handle_event_run(event, seen, made, ctx, *final(ctx)));
                            }
                        }
                    }
                },
                Err(_) => {
                    return unreached();
                },
            }
        }
    }

    /// The routed operation of `routed` can end with `out`: the command path
    /// for a command, the event path for an event, the projector for a
    /// projection.
    pub open spec fn routed_outcome(
        &self,
        routed: LoopAction<D::Command, D::Event, D::Projection, <D::Broker as MessageBroker>::Id>,
        out: Result<(), anyhow::Error>,
    ) -> bool where
        D::Handler: CommandHandler<D::Command, D>,
        D::Policy: Policy<D::Event, D, Output = DriverSideEffect<D>>,
     {
        match routed {
            LoopAction::Dispatch(cmd) => exists|
                outcomes: CommandOutcomes<D::Event, D::Identifier>,
            | #[trigger]
                self.dispatch_outcomes(cmd, outcomes) && out == settled(outcomes.result()),
            LoopAction::HandleEvent(event) => exists|
                outcomes: EventOutcomes<D::Command, D::Projection>,
            | #[trigger]
                self.handle_event_outcomes(event, outcomes) && out == outcomes.result(),
            LoopAction::Project(projection) => call_ensures(
                <D::Projector as Projector<D::Projection>>::project,
                (&self.engine().projector, projection),
                out,
            ),
            _ => false,
        }
    }

    /// Routes one envelope: a command to [`dispatch`](Self::dispatch), whose
    /// response is dropped, an event to [`handle_event`](Self::handle_event),
    /// a projection to the projector.
    pub fn handle_message(&self, msg: DriverMessage<D>) -> (out: Result<(), anyhow::Error>) where
        D::Handler: CommandHandler<D::Command, D>,
        D::Policy: Policy<D::Event, D, Output = DriverSideEffect<D>>,

        ensures
            match msg {
                Message::Command(cmd) => exists|
                    outcomes: CommandOutcomes<D::Event, D::Identifier>,
                    made: Result<D::UnitOfWork, anyhow::Error>,
                    uow: &mut D::UnitOfWork,
                | #[trigger]
                    self.dispatch_run(cmd, outcomes, made, uow, *final(uow)) && out == settled(
                        outcomes.result(),
                    ),
                Message::Event(event) => exists|
                    outcomes: EventOutcomes<D::Command, D::Projection>,
                    made: Result<D::PolicyContext, anyhow::Error>,
                    ctx: &mut D::PolicyContext,
                | #[trigger]
                    self.handle_event_run(event, outcomes, made, ctx, *final(ctx)) && out
                        == outcomes.result(),
                Message::Projection(projection) => call_ensures(
                    <D::Projector as Projector<D::Projection>>::project,
                    (&self.engine().projector, projection),
                    out,
                ),
            },
    {
        self.perform(route(msg))
    }

    /// The broker can settle the delivery `id` with `answer`: by an
    /// acknowledgement where `routed` is a success, by a rejection where it is
    /// a failure.
    pub open spec fn settlement_answers(
        &self,
        id: <D::Broker as MessageBroker>::Id,
        routed: Result<(), anyhow::Error>,
        answer: Result<(), anyhow::Error>,
    ) -> bool {
        match routed {
            Ok(_) => call_ensures(
                <D::Broker as MessageBroker>::ack,
                (&self.engine().broker, id),
                answer,
            ),
            Err(_) => call_ensures(
                <D::Broker as MessageBroker>::nack,
                (&self.engine().broker, id),
                answer,
            ),
        }
    }

    /// One turn of the loop can end with `out` when the broker delivers
    /// `delivered`.
    ///
    /// Without a delivery the loop is over, with `Ok`. A delivery is routed
    /// by its kind and then settled under its identifier; the loop goes on
    /// if the settlement succeeds and is over, with the settlement's error,
    /// if it fails.
    pub open spec fn serves(
        &self,
        delivered: Option<(<D::Broker as MessageBroker>::Id, DriverMessage<D>)>,
        out: Served,
    ) -> bool where
        D::Handler: CommandHandler<D::Command, D>,
        D::Policy: Policy<D::Event, D, Output = DriverSideEffect<D>>,
     {
        match delivered {
            None => out == Served::Stopped(Ok(())),
            Some((id, message)) => exists|
                routed: Result<(), anyhow::Error>,
                answer: Result<(), anyhow::Error>,
            |
                {
                    &&& #[trigger] self.routed_outcome(route_of(message), routed)
                    &&& #[trigger] self.settlement_answers(id, routed, answer)
                    &&& out == served(answer)
                },
        }
    }

    /// Receives one delivery, routes it, and acknowledges or rejects it.
    ///
    /// A host that calls this until it returns [`Served::Stopped`] runs the
    /// receive loop.
    pub fn serve_one(&self) -> (out: Served) where
        D::Handler: CommandHandler<D::Command, D>,
        D::Policy: Policy<D::Event, D, Output = DriverSideEffect<D>>,

        ensures
            exists|delivered: Option<(<D::Broker as MessageBroker>::Id, DriverMessage<D>)>|
                #[trigger] call_ensures(
                    <D::Broker as MessageBroker>::receive,
                    (&self.engine().broker,),
                    delivered,
                ) && self.serves(delivered, out),
    {
        let (mut flow, mut action) = ReceiveLoop::<<D::Broker as MessageBroker>::Id>::begin::<
            D::Command,
            D::Event,
            D::Projection,
        >();
        let ghost mut delivered: Option<(<D::Broker as MessageBroker>::Id, DriverMessage<D>)> =
            arbitrary();
        let ghost mut routed: Result<(), anyhow::Error> = arbitrary();
        loop
            invariant
                flow.awaits(action),
                !(flow is Receiving) ==> call_ensures(
                    <D::Broker as MessageBroker>::receive,
                    (&self.engine().broker,),
                    delivered,
                ),
                flow matches ReceiveLoop::Routing(id) ==> delivered is Some && delivered->Some_0.0
                    == id && action == route_of::<
                    D::Command,
                    D::Event,
                    D::Projection,
                    <D::Broker as MessageBroker>::Id,
                >(delivered->Some_0.1),
                flow is Settling ==> delivered is Some && self.routed_outcome(
                    route_of(delivered->Some_0.1),
                    routed,
                ) && action == settlement_of::<
                    D::Command,
                    D::Event,
                    D::Projection,
                    <D::Broker as MessageBroker>::Id,
                >(delivered->Some_0.0, routed),
                flow is Stopped ==> action is Return && self.serves(
                    delivered,
                    Served::Stopped(action->Return_0),
                ),
            decreases flow.remaining(),
        {
            let reply = match action {
                LoopAction::Receive => {
                    let outcome = self.engine.broker.receive();
                    proof {
                        delivered = outcome;
                    }
                    LoopReply::Delivered(outcome)
                },
                LoopAction::Ack(id) => {
                    let answer = self.engine.broker.ack(id);
                    assert(self.settlement_answers(id, routed, answer));
                    LoopReply::Settled(answer)
                },
                LoopAction::Nack(id, _) => {
                    let answer = self.engine.broker.nack(id);
                    assert(self.settlement_answers(id, routed, answer));
                    LoopReply::Settled(answer)
                },
                LoopAction::Return(result) => {
                    return Served::Stopped(result);
                },
                routing => {
                    let outcome = self.perform(routing);
                    proof {
                        routed = outcome;
                    }
                    LoopReply::Routed(outcome)
                },
            };
            match flow.step(reply) {
                Ok((ReceiveLoop::Receiving, _)) => {
                    return Served::Next;
                },
                Ok((next, then)) => {
                    flow = next;
                    action = then;
                },
                Err(_) => {
                    return unreached();
                },
            }
        }
    }

    fn perform(
        &self,
        routed: LoopAction<D::Command, D::Event, D::Projection, <D::Broker as MessageBroker>::Id>,
    ) -> (out: Result<(), anyhow::Error>) where
        D::Handler: CommandHandler<D::Command, D>,
        D::Policy: Policy<D::Event, D, Output = DriverSideEffect<D>>,

        requires
            routed is Dispatch || routed is HandleEvent || routed is Project,
        ensures
            routed matches LoopAction::Dispatch(cmd) ==> exists|
                outcomes: CommandOutcomes<D::Event, D::Identifier>,
                made: Result<D::UnitOfWork, anyhow::Error>,
                uow: &mut D::UnitOfWork,
            | #[trigger]
                self.dispatch_run(cmd, outcomes, made, uow, *final(uow)) && out == settled(
                    outcomes.result(),
                ),
            routed matches LoopAction::HandleEvent(event) ==> exists|
                outcomes: EventOutcomes<D::Command, D::Projection>,
                made: Result<D::PolicyContext, anyhow::Error>,
                ctx: &mut D::PolicyContext,
            | #[trigger]
                self.handle_event_run(event, outcomes, made, ctx, *final(ctx)) && out
                    == outcomes.result(),
            routed matches LoopAction::Project(projection) ==> call_ensures(
                <D::Projector as Projector<D::Projection>>::project,
                (&self.engine().projector, projection),
                out,
            ),
            self.routed_outcome(routed, out),
    {
        match routed {
            LoopAction::Dispatch(cmd) => {
                let response = self.dispatch(cmd);
                proof {
                    let (outcomes, made, uow) = choose|
                        outcomes: CommandOutcomes<D::Event, D::Identifier>,
                        made: Result<D::UnitOfWork, anyhow::Error>,
                        uow: &mut D::UnitOfWork,
                    | #[trigger]
                        self.dispatch_run(cmd, outcomes, made, uow, *final(uow)) && response
                            == outcomes.result();
                    assert(self.dispatch_outcomes(cmd, outcomes));
                }
                match response {
                    Ok(_) => Ok(()),
                    Err(e) => Err(e),
                }
            },
            LoopAction::HandleEvent(event) => {
                let outcome = self.handle_event(event);
                proof {
                    let (outcomes, made, ctx) = choose|
                        outcomes: EventOutcomes<D::Command, D::Projection>,
                        made: Result<D::PolicyContext, anyhow::Error>,
                        ctx: &mut D::PolicyContext,
                    | #[trigger]
                        self.handle_event_run(event, outcomes, made, ctx, *final(ctx)) && outcome
                            == outcomes.result();
                    assert(self.handle_event_outcomes(event, outcomes));
                }
                outcome
            },
            LoopAction::Project(projection) => self.engine.projector.project(projection),
            _ => unreached(),
        }
    }
}

} // verus!
