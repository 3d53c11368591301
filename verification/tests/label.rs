use tuirealm::components::label::{PROP_ALIGNMENT, PROP_TEXT};
use tuirealm::components::{Label, LabelPropsBuilder};
use tuirealm::event::{KeyCode, KeyEvent};
use tuirealm::frame::{ParagraphWidget, Rect, Style, Widget};
use tuirealm::props::{PropPayload, PropValue, Props};
use tuirealm::style::{Alignment, Color, Modifier, Modifiers};
use tuirealm::{Component, Event, Frame, Msg, Payload, PropsBuilder};

#[test]
fn test_components_label() {
    let mut component: Label = Label::new(
        LabelPropsBuilder::default()
            .with_foreground(Color::Red)
            .with_background(Color::Blue)
            .hidden()
            .visible()
            .bold()
            .italic()
            .rapid_blink()
            .reversed()
            .slow_blink()
            .strikethrough()
            .underlined()
            .with_text(&String::from("Hello, world!"))
            .with_text_alignment(Alignment::Center)
            .build(),
    );
    assert_eq!(component.props().foreground, Color::Red);
    assert_eq!(component.props().background, Color::Blue);
    assert_eq!(component.props().visible, true);
    assert!(component.props().modifiers.intersects(Modifiers::only(Modifier::Bold)));
    assert!(component.props().modifiers.intersects(Modifiers::only(Modifier::Italic)));
    assert!(component.props().modifiers.intersects(Modifiers::only(Modifier::Underlined)));
    assert!(component.props().modifiers.intersects(Modifiers::only(Modifier::SlowBlink)));
    assert!(component.props().modifiers.intersects(Modifiers::only(Modifier::RapidBlink)));
    assert!(component.props().modifiers.intersects(Modifiers::only(Modifier::Reversed)));
    assert!(component.props().modifiers.intersects(Modifiers::only(Modifier::CrossedOut)));
    assert_eq!(
        component.props().own.get(PROP_TEXT).unwrap(),
        &PropPayload::One(PropValue::Str("Hello, world!".to_string()))
    );
    assert_eq!(
        *component.props().own.get(PROP_ALIGNMENT).unwrap(),
        PropPayload::One(PropValue::Alignment(Alignment::Center))
    );
    component.active();
    component.blur();
    // Update
    let props = LabelPropsBuilder::from(component.get_props())
        .with_foreground(Color::Red)
        .hidden()
        .build();
    assert_eq!(component.update(props), Msg::NoOp);
    assert_eq!(component.props().foreground, Color::Red);
    assert_eq!(component.props().visible, false);
    // Get value
    assert_eq!(component.get_state(), Payload::Empty);
    // Event
    assert_eq!(
        component.on(Event::Key(KeyEvent::from(KeyCode::Delete))),
        Msg::OnKey(KeyEvent::from(KeyCode::Delete))
    );
    assert_eq!(component.on(Event::Resize(0, 0)), Msg::NoOp);
}

#[test]
fn test_components_label_propsbuilder() {
    let props: Props = LabelPropsBuilder::default()
        .hidden()
        .with_background(Color::Blue)
        .with_foreground(Color::Green)
        .bold()
        .italic()
        .underlined()
        .strikethrough()
        .reversed()
        .rapid_blink()
        .slow_blink()
        .with_text(&String::from("test"))
        .build();
    assert_eq!(props.background, Color::Blue);
    assert!(props.modifiers.intersects(Modifiers::only(Modifier::Bold)));
    assert!(props.modifiers.intersects(Modifiers::only(Modifier::Italic)));
    assert!(props.modifiers.intersects(Modifiers::only(Modifier::Underlined)));
    assert!(props.modifiers.intersects(Modifiers::only(Modifier::SlowBlink)));
    assert!(props.modifiers.intersects(Modifiers::only(Modifier::RapidBlink)));
    assert!(props.modifiers.intersects(Modifiers::only(Modifier::Reversed)));
    assert!(props.modifiers.intersects(Modifiers::only(Modifier::CrossedOut)));
    assert_eq!(props.foreground, Color::Green);
    assert_eq!(
        props.own.get(PROP_TEXT).unwrap(),
        &PropPayload::One(PropValue::Str("test".to_string()))
    );
}

#[test]
fn label_builder_starts_from_defaults() {
    let props: Props = LabelPropsBuilder::default().build();
    assert_eq!(props, Props::default());
    assert_eq!(props.visible, true);
    assert_eq!(props.foreground, Color::Reset);
    assert_eq!(props.background, Color::Reset);
    assert!(props.modifiers.is_empty());
    assert_eq!(props.own.len(), 0);
    assert_eq!(props.palette.len(), 0);
}

#[test]
fn label_builder_is_spent_after_build() {
    let mut builder = LabelPropsBuilder::default();
    builder.with_text("first");
    let first = builder.build();
    // A spent builder ignores every further step.
    builder.with_text("second").bold().hidden().with_foreground(Color::Red);
    assert_eq!(
        first.own.get(PROP_TEXT).unwrap(),
        &PropPayload::One(PropValue::Str("first".to_string()))
    );
    assert_eq!(first.visible, true);
}

#[test]
fn label_draws_its_text() {
    let component = Label::new(
        LabelPropsBuilder::default()
            .with_foreground(Color::Red)
            .with_background(Color::Blue)
            .bold()
            .with_text("Hello")
            .with_text_alignment(Alignment::Right)
            .build(),
    );
    let mut frame = Frame::new();
    let area = Rect { x: 1, y: 2, width: 30, height: 1 };
    component.render(&mut frame, area);
    assert_eq!(frame.len(), 1);
    let (drawn_area, widget) = frame.get(0).unwrap();
    assert_eq!(drawn_area, area);
    assert_eq!(
        widget,
        &Widget::Paragraph(ParagraphWidget {
            text: "Hello".to_string(),
            style: Style {
                fg: Color::Red,
                bg: Color::Blue,
                modifiers: Modifiers::only(Modifier::Bold),
            },
            alignment: Alignment::Right,
        })
    );
    assert!(frame.get(1).is_none());
}

#[test]
fn label_defaults_to_empty_text_aligned_left() {
    let component = Label::new(Props::default());
    let mut frame = Frame::new();
    component.render(&mut frame, Rect { x: 0, y: 0, width: 5, height: 1 });
    let (_, widget) = frame.get(0).unwrap();
    assert_eq!(
        widget,
        &Widget::Paragraph(ParagraphWidget {
            text: String::new(),
            style: Style { fg: Color::Reset, bg: Color::Reset, modifiers: Modifiers::empty() },
            alignment: Alignment::Left,
        })
    );
}

#[test]
fn label_with_a_payload_of_another_kind_uses_defaults() {
    let mut props = Props::default();
    props.own.insert(PROP_TEXT, PropPayload::One(PropValue::Usize(3)));
    props.own.insert(PROP_ALIGNMENT, PropPayload::One(PropValue::Bool(true)));
    let component = Label::new(props);
    let mut frame = Frame::new();
    component.render(&mut frame, Rect { x: 0, y: 0, width: 5, height: 1 });
    let (_, widget) = frame.get(0).unwrap();
    assert_eq!(
        widget,
        &Widget::Paragraph(ParagraphWidget {
            text: String::new(),
            style: Style { fg: Color::Reset, bg: Color::Reset, modifiers: Modifiers::empty() },
            alignment: Alignment::Left,
        })
    );
}

#[test]
fn hidden_label_draws_nothing() {
    let component = Label::new(LabelPropsBuilder::default().with_text("x").hidden().build());
    let mut frame = Frame::new();
    component.render(&mut frame, Rect { x: 0, y: 0, width: 5, height: 1 });
    assert_eq!(frame.len(), 0);
}

#[test]
fn label_update_round_trip_draws_the_same() {
    let mut component = Label::new(
        LabelPropsBuilder::default().with_text("same").italic().with_foreground(Color::Cyan).build(),
    );
    let area = Rect { x: 0, y: 0, width: 10, height: 1 };
    let mut before = Frame::new();
    component.render(&mut before, area);
    let props = component.get_props();
    assert_eq!(component.update(props), Msg::NoOp);
    let mut after = Frame::new();
    component.render(&mut after, area);
    assert_eq!(before.get(0), after.get(0));
}
