use message_bus::message::{wrap_events, wrap_side_effects, Message, SideEffect};

#[test]
fn side_effects_keep_variant_and_order() {
    let effects: Vec<SideEffect<u8, u16>> =
        vec![SideEffect::Command(3), SideEffect::Projection(4), SideEffect::Command(5)];
    let out: Vec<Message<u8, u32, u16>> = wrap_side_effects(effects);
    assert_eq!(
        out,
        vec![Message::Command(3), Message::Projection(4), Message::Command(5)]
    );
}

#[test]
fn events_are_wrapped_in_order() {
    let out: Vec<Message<u8, u32, u16>> = wrap_events(vec![7, 8, 9]);
    assert_eq!(out, vec![Message::Event(7), Message::Event(8), Message::Event(9)]);
}
