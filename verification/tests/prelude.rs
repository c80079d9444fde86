use message_bus::prelude::{DriverMessage, Message, MessageBusDriver, SideEffect};

fn command_of<D: MessageBusDriver>(message: DriverMessage<D>) -> Option<D::Command> {
    match message {
        Message::Command(cmd) => Some(cmd),
        _ => None,
    }
}

#[test]
fn prelude_names_the_envelope_and_the_side_effect() {
    let effect: SideEffect<u8, u16> = SideEffect::Projection(9);
    let message: Message<u8, u32, u16> = effect.into_message();
    assert_eq!(message, Message::Projection(9));
    let _ = command_of::<Never>;
}

#[derive(Clone)]
struct Never;

#[derive(Clone)]
struct Idle;

struct Scope;

impl message_bus::prelude::MessageBroker for Idle {
    type Message = Message<u8, u32, u16>;
    type Id = u64;

    fn receive(&self) -> Option<(u64, Message<u8, u32, u16>)> {
        None
    }

    fn publish(&self, _message: Message<u8, u32, u16>) -> Result<(), anyhow::Error> {
        Ok(())
    }

    fn publish_batch(&self, _messages: Vec<Message<u8, u32, u16>>) -> Result<(), anyhow::Error> {
        Ok(())
    }

    fn ack(&self, _id: u64) -> Result<(), anyhow::Error> {
        Ok(())
    }

    fn nack(&self, _id: u64) -> Result<(), anyhow::Error> {
        Ok(())
    }
}

impl message_bus::prelude::Factory for Idle {
    type Output = Scope;

    fn create(&self) -> Result<Scope, anyhow::Error> {
        Ok(Scope)
    }
}

impl message_bus::prelude::UnitOfWork for Scope {
    type Factory = Idle;
    type Event = u32;

    fn capture_event(&mut self, _event: impl Into<u32>) -> Result<(), anyhow::Error> {
        Ok(())
    }

    fn commit(self) -> Result<Vec<u32>, anyhow::Error> {
        Ok(Vec::new())
    }

    fn rollback(self) -> Result<(), anyhow::Error> {
        Ok(())
    }
}

impl message_bus::prelude::PolicyContext for Scope {
    type Factory = Idle;

    fn close(self) -> Result<(), anyhow::Error> {
        Ok(())
    }
}

impl message_bus::prelude::Projector<u16> for Idle {
    fn project(&self, _projection: u16) -> Result<(), anyhow::Error> {
        Ok(())
    }
}

impl MessageBusDriver for Never {
    type Identifier = u64;
    type Command = u8;
    type Event = u32;
    type Projection = u16;
    type Broker = Idle;
    type UnitOfWork = Scope;
    type PolicyContext = Scope;
    type Projector = Idle;
    type Handler = Idle;
    type Policy = Idle;
    type Viewer = Idle;
}
