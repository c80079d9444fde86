use message_bus::command_path::{CommandAction, CommandFlow, CommandReply};
use message_bus::event_path::{EventAction, EventFlow, EventReply};
use message_bus::message::{Message, SideEffect};
use message_bus::receive_loop::{route, LoopAction, LoopReply, ReceiveLoop};

type Cmd = &'static str;
type Ev = u32;
type Proj = char;
type Ident = u64;

type CAction = CommandAction<Cmd, Ev, Proj, Ident>;
type CReply = CommandReply<Ev, Ident>;
type EAction = EventAction<Cmd, Ev, Proj>;
type EReply = EventReply<Cmd, Proj>;
type LAction = LoopAction<Cmd, Ev, Proj, u8>;
type LReply = LoopReply<Cmd, Ev, Proj, u8>;

fn failure(what: &str) -> anyhow::Error {
    anyhow::Error::msg(what.to_string())
}

fn command_step(flow: CommandFlow<Ident>, reply: CReply) -> (CommandFlow<Ident>, CAction) {
    match flow.step::<Cmd, Ev, Proj>(reply) {
        Ok(next) => next,
        Err((flow, reply)) => panic!("{:?} did not take {:?}", flow, reply),
    }
}

fn event_step(flow: EventFlow, reply: EReply) -> (EventFlow, EAction) {
    match flow.step::<Cmd, Ev, Proj>(reply) {
        Ok(next) => next,
        Err((flow, reply)) => panic!("{:?} did not take {:?}", flow, reply),
    }
}

fn loop_step(flow: ReceiveLoop<u8>, reply: LReply) -> (ReceiveLoop<u8>, LAction) {
    match flow.step(reply) {
        Ok(next) => next,
        Err((flow, reply)) => panic!("{:?} did not take {:?}", flow, reply),
    }
}

#[test]
fn command_flow_commits_then_publishes_then_returns() {
    let (flow, action): (_, CAction) = CommandFlow::<Ident>::begin();
    assert!(matches!(flow, CommandFlow::Opening));
    assert!(matches!(action, CommandAction::OpenUnitOfWork));

    let (flow, action) = command_step(flow, CommandReply::Opened(Ok(())));
    assert!(matches!(flow, CommandFlow::Handling));
    assert!(matches!(action, CommandAction::Handle));

    let (flow, action) = command_step(flow, CommandReply::Handled(Ok(Some(42))));
    assert!(matches!(flow, CommandFlow::Committing(Some(42))));
    assert!(matches!(action, CommandAction::Commit));

    let (flow, action) = command_step(flow, CommandReply::Committed(Ok(vec![7, 8])));
    assert!(matches!(flow, CommandFlow::Publishing(Some(42))));
    match action {
        CommandAction::PublishBatch(batch) => {
            assert_eq!(batch, vec![Message::Event(7), Message::Event(8)]);
        }
        other => panic!("expected a batch, got {:?}", other),
    }

    let (flow, action) = command_step(flow, CommandReply::Published(Ok(())));
    assert!(matches!(flow, CommandFlow::Finished));
    assert!(matches!(action, CommandAction::Return(Ok(Some(42)))));
}

#[test]
fn command_flow_returns_no_identifier_when_the_handler_gave_none() {
    let (flow, _): (_, CAction) = CommandFlow::<Ident>::begin();
    let (flow, _) = command_step(flow, CommandReply::Opened(Ok(())));
    let (flow, _) = command_step(flow, CommandReply::Handled(Ok(None)));
    let (flow, _) = command_step(flow, CommandReply::Committed(Ok(vec![])));
    let (_, action) = command_step(flow, CommandReply::Published(Ok(())));
    assert!(matches!(action, CommandAction::Return(Ok(None))));
}

#[test]
fn command_flow_rolls_back_and_returns_the_handler_error() {
    let (flow, _): (_, CAction) = CommandFlow::<Ident>::begin();
    let (flow, _) = command_step(flow, CommandReply::Opened(Ok(())));
    let (flow, action) = command_step(flow, CommandReply::Handled(Err(failure("handler"))));
    assert!(matches!(flow, CommandFlow::RollingBack(_)));
    assert!(matches!(action, CommandAction::Rollback));
    let (flow, action) = command_step(flow, CommandReply::RolledBack(Ok(())));
    assert!(matches!(flow, CommandFlow::Finished));
    match action {
        CommandAction::Return(Err(e)) => assert_eq!(e.to_string(), "handler"),
        other => panic!("expected the handler's error, got {:?}", other),
    }
}

#[test]
fn command_flow_returns_the_rollback_error_when_both_fail() {
    let (flow, _): (_, CAction) = CommandFlow::<Ident>::begin();
    let (flow, _) = command_step(flow, CommandReply::Opened(Ok(())));
    let (flow, _) = command_step(flow, CommandReply::Handled(Err(failure("handler"))));
    let (_, action) = command_step(flow, CommandReply::RolledBack(Err(failure("rollback"))));
    match action {
        CommandAction::Return(Err(e)) => assert_eq!(e.to_string(), "rollback"),
        other => panic!("expected the rollback's error, got {:?}", other),
    }
}

#[test]
fn command_flow_stops_at_a_failed_factory() {
    let (flow, _): (_, CAction) = CommandFlow::<Ident>::begin();
    let (flow, action) = command_step(flow, CommandReply::Opened(Err(failure("factory"))));
    assert!(matches!(flow, CommandFlow::Finished));
    match action {
        CommandAction::Return(Err(e)) => assert_eq!(e.to_string(), "factory"),
        other => panic!("expected the factory's error, got {:?}", other),
    }
}

#[test]
fn command_flow_stops_at_a_failed_commit() {
    let (flow, _): (_, CAction) = CommandFlow::<Ident>::begin();
    let (flow, _) = command_step(flow, CommandReply::Opened(Ok(())));
    let (flow, _) = command_step(flow, CommandReply::Handled(Ok(Some(1))));
    let (flow, action) = command_step(flow, CommandReply::Committed(Err(failure("commit"))));
    assert!(matches!(flow, CommandFlow::Finished));
    match action {
        CommandAction::Return(Err(e)) => assert_eq!(e.to_string(), "commit"),
        other => panic!("expected the commit's error, got {:?}", other),
    }
}

#[test]
fn command_flow_returns_the_publish_error() {
    let (flow, _): (_, CAction) = CommandFlow::<Ident>::begin();
    let (flow, _) = command_step(flow, CommandReply::Opened(Ok(())));
    let (flow, _) = command_step(flow, CommandReply::Handled(Ok(Some(1))));
    let (flow, _) = command_step(flow, CommandReply::Committed(Ok(vec![3])));
    let (_, action) = command_step(flow, CommandReply::Published(Err(failure("publish"))));
    match action {
        CommandAction::Return(Err(e)) => assert_eq!(e.to_string(), "publish"),
        other => panic!("expected the broker's error, got {:?}", other),
    }
}

#[test]
fn command_flow_hands_back_a_reply_out_of_turn() {
    let (flow, _): (_, CAction) = CommandFlow::<Ident>::begin();
    match flow.step::<Cmd, Ev, Proj>(CommandReply::Committed(Ok(vec![5]))) {
        Err((flow, CommandReply::Committed(Ok(events)))) => {
            assert!(matches!(flow, CommandFlow::Opening));
            assert_eq!(events, vec![5]);
        }
        other => panic!("the reply was taken: {:?}", other),
    }
    let finished: CommandFlow<Ident> = CommandFlow::Finished;
    assert!(matches!(
        finished.step::<Cmd, Ev, Proj>(CommandReply::Opened(Ok(()))),
        Err((CommandFlow::Finished, CommandReply::Opened(Ok(()))))
    ));
}

#[test]
fn event_flow_publishes_side_effects_then_closes() {
    let (flow, action): (_, EAction) = EventFlow::begin();
    assert!(matches!(flow, EventFlow::Opening));
    assert!(matches!(action, EventAction::OpenContext));

    let (flow, action) = event_step(flow, EventReply::Opened(Ok(())));
    assert!(matches!(flow, EventFlow::Applying));
    assert!(matches!(action, EventAction::Apply));

    let effects = vec![SideEffect::Projection('x'), SideEffect::Command("again")];
    let (flow, action) = event_step(flow, EventReply::Applied(Ok(effects)));
    assert!(matches!(flow, EventFlow::Publishing));
    match action {
        EventAction::PublishBatch(batch) => {
            assert_eq!(batch, vec![Message::Projection('x'), Message::Command("again")]);
        }
        other => panic!("expected a batch, got {:?}", other),
    }

    let (flow, action) = event_step(flow, EventReply::Published(Ok(())));
    assert!(matches!(flow, EventFlow::Closing(Ok(()))));
    assert!(matches!(action, EventAction::Close));

    let (flow, action) = event_step(flow, EventReply::Closed(Ok(())));
    assert!(matches!(flow, EventFlow::Finished));
    assert!(matches!(action, EventAction::Return(Ok(()))));
}

#[test]
fn event_flow_closes_after_a_failed_policy_and_keeps_its_error() {
    let (flow, _): (_, EAction) = EventFlow::begin();
    let (flow, _) = event_step(flow, EventReply::Opened(Ok(())));
    let (flow, action) = event_step(flow, EventReply::Applied(Err(failure("policy"))));
    assert!(matches!(flow, EventFlow::Closing(Err(_))));
    assert!(matches!(action, EventAction::Close));
    let (_, action) = event_step(flow, EventReply::Closed(Err(failure("close"))));
    match action {
        EventAction::Return(Err(e)) => assert_eq!(e.to_string(), "policy"),
        other => panic!("expected the policy's error, got {:?}", other),
    }
}

#[test]
fn event_flow_closes_after_a_failed_publish_and_keeps_its_error() {
    let (flow, _): (_, EAction) = EventFlow::begin();
    let (flow, _) = event_step(flow, EventReply::Opened(Ok(())));
    let (flow, _) = event_step(flow, EventReply::Applied(Ok(vec![])));
    let (flow, action) = event_step(flow, EventReply::Published(Err(failure("publish"))));
    assert!(matches!(flow, EventFlow::Closing(Err(_))));
    assert!(matches!(action, EventAction::Close));
    let (_, action) = event_step(flow, EventReply::Closed(Ok(())));
    match action {
        EventAction::Return(Err(e)) => assert_eq!(e.to_string(), "publish"),
        other => panic!("expected the broker's error, got {:?}", other),
    }
}

#[test]
fn event_flow_returns_the_close_error_after_success() {
    let (flow, _): (_, EAction) = EventFlow::begin();
    let (flow, _) = event_step(flow, EventReply::Opened(Ok(())));
    let (flow, _) = event_step(flow, EventReply::Applied(Ok(vec![])));
    let (flow, _) = event_step(flow, EventReply::Published(Ok(())));
    let (_, action) = event_step(flow, EventReply::Closed(Err(failure("close"))));
    match action {
        EventAction::Return(Err(e)) => assert_eq!(e.to_string(), "close"),
        other => panic!("expected the close's error, got {:?}", other),
    }
}

#[test]
fn event_flow_stops_at_a_failed_factory_without_a_close() {
    let (flow, _): (_, EAction) = EventFlow::begin();
    let (flow, action) = event_step(flow, EventReply::Opened(Err(failure("factory"))));
    assert!(matches!(flow, EventFlow::Finished));
    match action {
        EventAction::Return(Err(e)) => assert_eq!(e.to_string(), "factory"),
        other => panic!("expected the factory's error, got {:?}", other),
    }
}

#[test]
fn event_flow_hands_back_a_reply_out_of_turn() {
    let (flow, _): (_, EAction) = EventFlow::begin();
    assert!(matches!(
        flow.step::<Cmd, Ev, Proj>(EventReply::Closed(Ok(()))),
        Err((EventFlow::Opening, EventReply::Closed(Ok(()))))
    ));
}

#[test]
fn route_follows_the_variant() {
    assert!(matches!(route::<Cmd, Ev, Proj, u8>(Message::Command("c")), LoopAction::Dispatch("c")));
    assert!(matches!(route::<Cmd, Ev, Proj, u8>(Message::Event(9)), LoopAction::HandleEvent(9)));
    assert!(matches!(route::<Cmd, Ev, Proj, u8>(Message::Projection('p')), LoopAction::Project('p')));
}

#[test]
fn loop_acknowledges_success_and_receives_again() {
    let (flow, action): (_, LAction) = ReceiveLoop::<u8>::begin();
    assert!(matches!(flow, ReceiveLoop::Receiving));
    assert!(matches!(action, LoopAction::Receive));

    let (flow, action) = loop_step(flow, LoopReply::Delivered(Some((3, Message::Event(9)))));
    assert!(matches!(flow, ReceiveLoop::Routing(3)));
    assert!(matches!(action, LoopAction::HandleEvent(9)));

    let (flow, action) = loop_step(flow, LoopReply::Routed(Ok(())));
    assert!(matches!(flow, ReceiveLoop::Settling));
    assert!(matches!(action, LoopAction::Ack(3)));

    let (flow, action) = loop_step(flow, LoopReply::Settled(Ok(())));
    assert!(matches!(flow, ReceiveLoop::Receiving));
    assert!(matches!(action, LoopAction::Receive));
}

#[test]
fn loop_rejects_failure_with_its_error_and_receives_again() {
    let (flow, _): (_, LAction) = ReceiveLoop::<u8>::begin();
    let (flow, _) = loop_step(flow, LoopReply::Delivered(Some((4, Message::Command("c")))));
    let (flow, action) = loop_step(flow, LoopReply::Routed(Err(failure("handler"))));
    assert!(matches!(flow, ReceiveLoop::Settling));
    match action {
        LoopAction::Nack(4, e) => assert_eq!(e.to_string(), "handler"),
        other => panic!("expected a rejection, got {:?}", other),
    }
    let (flow, action) = loop_step(flow, LoopReply::Settled(Ok(())));
    assert!(matches!(flow, ReceiveLoop::Receiving));
    assert!(matches!(action, LoopAction::Receive));
}

#[test]
fn loop_stops_when_the_deliveries_end() {
    let (flow, _): (_, LAction) = ReceiveLoop::<u8>::begin();
    let (flow, action) = loop_step(flow, LoopReply::Delivered(None));
    assert!(matches!(flow, ReceiveLoop::Stopped));
    assert!(matches!(action, LoopAction::Return(Ok(()))));
}

#[test]
fn loop_stops_with_the_error_of_a_failed_settlement() {
    let (flow, _): (_, LAction) = ReceiveLoop::<u8>::begin();
    let (flow, _) = loop_step(flow, LoopReply::Delivered(Some((1, Message::Projection('p')))));
    let (flow, _) = loop_step(flow, LoopReply::Routed(Ok(())));
    let (flow, action) = loop_step(flow, LoopReply::Settled(Err(failure("ack"))));
    assert!(matches!(flow, ReceiveLoop::Stopped));
    match action {
        LoopAction::Return(Err(e)) => assert_eq!(e.to_string(), "ack"),
        other => panic!("expected the settlement's error, got {:?}", other),
    }
}

#[test]
fn loop_hands_back_a_reply_out_of_turn() {
    let (flow, _): (_, LAction) = ReceiveLoop::<u8>::begin();
    assert!(matches!(
        flow.step::<Cmd, Ev, Proj>(LoopReply::Routed(Ok(()))),
        Err((ReceiveLoop::Receiving, LoopReply::Routed(Ok(()))))
    ));
    let stopped: ReceiveLoop<u8> = ReceiveLoop::Stopped;
    assert!(matches!(
        stopped.step::<Cmd, Ev, Proj>(LoopReply::Delivered(None)),
        Err((ReceiveLoop::Stopped, LoopReply::Delivered(None)))
    ));
}

#[test]
fn side_effect_keeps_its_variant() {
    let command: Message<Cmd, Ev, Proj> = SideEffect::Command("c").into_message();
    let projection: Message<Cmd, Ev, Proj> = SideEffect::Projection('p').into_message();
    assert_eq!(command, Message::Command("c"));
    assert_eq!(projection, Message::Projection('p'));
}
