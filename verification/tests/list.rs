use tuirealm::components::list::{
    OwnStates, COLOR_HIGHLIGHTED, PROP_HIGHLIGHTED_TXT, PROP_MAX_STEP, PROP_SCROLLABLE,
    PROP_TABLE, PROP_TITLE,
};
use tuirealm::components::{List, ListPropsBuilder};
use tuirealm::event::{KeyCode, KeyEvent, KeyModifiers, MouseEvent, MouseEventKind};
use tuirealm::frame::{Block, ListWidget, Rect, Span, Style, Widget};
use tuirealm::props::{PropPayload, PropValue, Props};
use tuirealm::style::{BorderType, Borders, Color, Modifier, Modifiers};
use tuirealm::text::{Table, TableBuilder, TextSpan};
use tuirealm::{Component, Event, Frame, Msg, Payload, PropsBuilder};

fn rows(n: usize) -> Table {
    let mut builder = TableBuilder::default();
    for i in 0..n {
        if i > 0 {
            builder.add_row();
        }
        builder.add_col(TextSpan::from(format!("row {}", i).as_str()));
    }
    if n == 0 {
        return Vec::new();
    }
    builder.build()
}

fn scrollable_list(n: usize, max_step: usize) -> List {
    let mut component = List::new(
        ListPropsBuilder::default()
            .scrollable(true)
            .with_max_scroll_step(max_step)
            .with_rows(rows(n))
            .build(),
    );
    component.active();
    component
}

fn key(code: KeyCode) -> Event {
    Event::Key(KeyEvent::from(code))
}

#[test]
fn test_components_list_scrollable() {
    // Make component
    let mut component: List = List::new(
        ListPropsBuilder::default()
            .with_foreground(Color::Red)
            .with_background(Color::Blue)
            .with_highlighted_color(Color::Yellow)
            .hidden()
            .visible()
            .bold()
            .italic()
            .rapid_blink()
            .reversed()
            .slow_blink()
            .strikethrough()
            .underlined()
            .with_borders(Borders::All, BorderType::Double, Color::Red)
            .with_highlighted_str(Some("🚀"))
            .with_max_scroll_step(4)
            .scrollable(true)
            .with_title("my data")
            .with_rows(
                TableBuilder::default()
                    .add_col(TextSpan::from("name"))
                    .add_col(TextSpan::from("age"))
                    .add_row()
                    .add_col(TextSpan::from("omar"))
                    .add_col(TextSpan::from("1"))
                    .add_row()
                    .add_col(TextSpan::from("mark"))
                    .add_col(TextSpan::from("2"))
                    .add_row()
                    .add_col(TextSpan::from("tom"))
                    .add_col(TextSpan::from("3"))
                    .add_row()
                    .add_col(TextSpan::from("pippo"))
                    .add_col(TextSpan::from("5"))
                    .add_row()
                    .add_col(TextSpan::from("carl"))
                    .add_col(TextSpan::from("8"))
                    .add_row()
                    .add_col(TextSpan::from("charlie"))
                    .add_col(TextSpan::from("13"))
                    .add_row()
                    .add_col(TextSpan::from("thomas"))
                    .add_col(TextSpan::from("21"))
                    .add_row()
                    .add_col(TextSpan::from("cammello"))
                    .add_col(TextSpan::from("34"))
                    .build(),
            )
            .with_borders(Borders::All, BorderType::Double, Color::Red)
            .build(),
    );
    assert_eq!(component.props().foreground, Color::Red);
    assert_eq!(component.props().background, Color::Blue);
    assert_eq!(component.props().visible, true);
    assert!(component.props().modifiers.intersects(Modifiers::only(Modifier::Bold)));
    assert!(component.props().modifiers.intersects(Modifiers::only(Modifier::Italic)));
    assert!(component.props().modifiers.intersects(Modifiers::only(Modifier::Underlined)));
    assert!(component.props().modifiers.intersects(Modifiers::only(Modifier::SlowBlink)));
    assert!(component.props().modifiers.intersects(Modifiers::only(Modifier::RapidBlink)));
    assert!(component.props().modifiers.intersects(Modifiers::only(Modifier::Reversed)));
    assert!(component.props().modifiers.intersects(Modifiers::only(Modifier::CrossedOut)));
    assert_eq!(component.props().borders.borders, Borders::All);
    assert_eq!(component.props().borders.variant, BorderType::Double);
    assert_eq!(component.props().borders.color, Color::Red);
    assert_eq!(
        component.props().palette.get(COLOR_HIGHLIGHTED).unwrap(),
        &Color::Yellow
    );
    assert_eq!(
        component.props().own.get(PROP_HIGHLIGHTED_TXT).unwrap(),
        &PropPayload::One(PropValue::Str(String::from("🚀")))
    );
    assert_eq!(
        component.props().own.get(PROP_MAX_STEP).unwrap(),
        &PropPayload::One(PropValue::Usize(4))
    );
    assert_eq!(component.states().list_len, 9);
    assert_eq!(component.states().list_index, 0);
    component.active();
    assert_eq!(component.states().focus, true);
    component.blur();
    assert_eq!(component.states().focus, false);
    // Navigation keys move the selection of a list that has the focus
    component.active();
    // Increment list index
    assert_eq!(
        component.on(Event::Key(KeyEvent::from(KeyCode::Down))),
        Msg::OnKey(KeyEvent::from(KeyCode::Down))
    );
    assert_eq!(component.states().list_index, 1);
    // Check messages
    // Handle inputs
    assert_eq!(
        component.on(Event::Key(KeyEvent::from(KeyCode::Down))),
        Msg::OnKey(KeyEvent::from(KeyCode::Down))
    );
    // Index should be incremented
    assert_eq!(component.states().list_index, 2);
    // Index should be decremented
    assert_eq!(
        component.on(Event::Key(KeyEvent::from(KeyCode::Up))),
        Msg::OnKey(KeyEvent::from(KeyCode::Up))
    );
    // Index should be incremented
    assert_eq!(component.states().list_index, 1);
    // Index should be 2
    assert_eq!(
        component.on(Event::Key(KeyEvent::from(KeyCode::PageDown))),
        Msg::OnKey(KeyEvent::from(KeyCode::PageDown))
    );
    // Index should be incremented
    assert_eq!(component.states().list_index, 5);
    assert_eq!(
        component.on(Event::Key(KeyEvent::from(KeyCode::PageDown))),
        Msg::OnKey(KeyEvent::from(KeyCode::PageDown))
    );
    // Index should be incremented
    assert_eq!(component.states().list_index, 8);
    // Index should be 0
    assert_eq!(
        component.on(Event::Key(KeyEvent::from(KeyCode::PageUp))),
        Msg::OnKey(KeyEvent::from(KeyCode::PageUp))
    );
    assert_eq!(component.states().list_index, 4);
    assert_eq!(
        component.on(Event::Key(KeyEvent::from(KeyCode::PageUp))),
        Msg::OnKey(KeyEvent::from(KeyCode::PageUp))
    );
    assert_eq!(component.states().list_index, 0);
    // End
    assert_eq!(
        component.on(Event::Key(KeyEvent::from(KeyCode::End))),
        Msg::OnKey(KeyEvent::from(KeyCode::End))
    );
    assert_eq!(component.states().list_index, 8);
    // Home
    assert_eq!(
        component.on(Event::Key(KeyEvent::from(KeyCode::Home))),
        Msg::OnKey(KeyEvent::from(KeyCode::Home))
    );
    assert_eq!(component.states().list_index, 0);
    // Update
    let props = ListPropsBuilder::from(component.get_props())
        .with_foreground(Color::Red)
        .hidden()
        .with_rows(
            TableBuilder::default()
                .add_col(TextSpan::from("name"))
                .add_col(TextSpan::from("age"))
                .build(),
        )
        .build();
    assert_eq!(component.update(props), Msg::NoOp);
    assert_eq!(component.props().foreground, Color::Red);
    assert_eq!(component.props().visible, false);
    assert_eq!(component.states().list_len, 1);
    assert_eq!(component.states().list_index, 0);
    // Get value
    assert_eq!(component.get_state(), Payload::Empty);
    // Event
    assert_eq!(
        component.on(Event::Key(KeyEvent::from(KeyCode::Delete))),
        Msg::OnKey(KeyEvent::from(KeyCode::Delete))
    );
    assert_eq!(component.on(Event::Resize(0, 0)), Msg::NoOp);
}

#[test]
fn test_components_list() {
    // Make component
    let mut component: List = List::new(
        ListPropsBuilder::default()
            .with_foreground(Color::Red)
            .with_background(Color::Blue)
            .hidden()
            .visible()
            .bold()
            .italic()
            .rapid_blink()
            .reversed()
            .slow_blink()
            .strikethrough()
            .underlined()
            .with_borders(Borders::All, BorderType::Double, Color::Red)
            .with_rows(
                TableBuilder::default()
                    .add_col(TextSpan::from("name"))
                    .add_col(TextSpan::from("age"))
                    .add_row()
                    .add_col(TextSpan::from("omar"))
                    .add_col(TextSpan::from("24"))
                    .build(),
            )
            .with_borders(Borders::All, BorderType::Double, Color::Red)
            .build(),
    );
    assert_eq!(component.props().foreground, Color::Red);
    assert_eq!(component.props().background, Color::Blue);
    assert_eq!(component.props().visible, true);
    assert!(component.props().modifiers.intersects(Modifiers::only(Modifier::Bold)));
    assert!(component.props().modifiers.intersects(Modifiers::only(Modifier::Italic)));
    assert!(component.props().modifiers.intersects(Modifiers::only(Modifier::Underlined)));
    assert!(component.props().modifiers.intersects(Modifiers::only(Modifier::SlowBlink)));
    assert!(component.props().modifiers.intersects(Modifiers::only(Modifier::RapidBlink)));
    assert!(component.props().modifiers.intersects(Modifiers::only(Modifier::Reversed)));
    assert!(component.props().modifiers.intersects(Modifiers::only(Modifier::CrossedOut)));
    assert_eq!(component.props().borders.borders, Borders::All);
    assert_eq!(component.props().borders.variant, BorderType::Double);
    assert_eq!(component.props().borders.color, Color::Red);
    component.active();
    component.blur();
    // Update
    let props = ListPropsBuilder::from(component.get_props())
        .with_foreground(Color::Red)
        .hidden()
        .build();
    assert_eq!(component.update(props), Msg::NoOp);
    assert_eq!(component.props().foreground, Color::Red);
    assert_eq!(component.props().visible, false);
    // Get value
    assert_eq!(component.get_state(), Payload::Empty);
    // Event
    assert_eq!(
        component.on(Event::Key(KeyEvent::from(KeyCode::Delete))),
        Msg::OnKey(KeyEvent::from(KeyCode::Delete))
    );
    assert_eq!(component.on(Event::Resize(0, 0)), Msg::NoOp);
}

#[test]
fn list_index_trace_of_nine_rows_with_step_four() {
    let mut component = scrollable_list(9, 4);
    assert_eq!(component.states().list_len, 9);
    assert_eq!(component.states().list_index, 0);
    let keys = [
        KeyCode::Down,
        KeyCode::Down,
        KeyCode::PageDown,
        KeyCode::PageDown,
        KeyCode::PageUp,
        KeyCode::PageUp,
        KeyCode::End,
        KeyCode::Home,
    ];
    let mut trace: Vec<usize> = Vec::new();
    for code in keys {
        assert_eq!(component.on(key(code)), Msg::OnKey(KeyEvent::from(code)));
        trace.push(component.states().list_index);
    }
    assert_eq!(trace, vec![1, 2, 6, 8, 4, 0, 8, 0]);
}

#[test]
fn list_update_clamps_index_to_shrunk_table() {
    let mut component = scrollable_list(9, 8);
    assert_eq!(component.on(key(KeyCode::PageDown)), Msg::OnKey(KeyEvent::from(KeyCode::PageDown)));
    assert_eq!(component.states().list_index, 8);
    assert_eq!(component.on(key(KeyCode::Up)), Msg::OnKey(KeyEvent::from(KeyCode::Up)));
    assert_eq!(component.states().list_index, 7);
    let props = ListPropsBuilder::from(component.get_props()).with_rows(rows(2)).build();
    assert_eq!(component.update(props), Msg::NoOp);
    assert_eq!(component.states().list_len, 2);
    assert_eq!(component.states().list_index, 1);
}

#[test]
fn list_update_to_empty_table_selects_zero() {
    let mut component = scrollable_list(5, 8);
    component.on(key(KeyCode::End));
    assert_eq!(component.states().list_index, 4);
    let props = ListPropsBuilder::from(component.get_props()).with_rows(rows(0)).build();
    component.update(props);
    assert_eq!(component.states().list_len, 0);
    assert_eq!(component.states().list_index, 0);
}

#[test]
fn list_update_keeps_index_that_still_names_a_row() {
    let mut component = scrollable_list(9, 8);
    component.on(key(KeyCode::Down));
    component.on(key(KeyCode::Down));
    let props = ListPropsBuilder::from(component.get_props()).with_rows(rows(4)).build();
    component.update(props);
    assert_eq!(component.states().list_len, 4);
    assert_eq!(component.states().list_index, 2);
    // A table that grows leaves the index where it is.
    let props = ListPropsBuilder::from(component.get_props()).with_rows(rows(12)).build();
    component.update(props);
    assert_eq!(component.states().list_len, 12);
    assert_eq!(component.states().list_index, 2);
}

#[test]
fn list_update_keeps_the_focus() {
    let mut component = scrollable_list(3, 8);
    assert!(component.states().focus);
    let props = component.get_props();
    component.update(props);
    assert!(component.states().focus);
}

#[test]
fn list_without_table_has_no_rows() {
    let mut component =
        List::new(ListPropsBuilder::default().scrollable(true).with_title("empty").build());
    assert_eq!(component.states().list_len, 0);
    assert_eq!(component.states().list_index, 0);
    component.active();
    for code in [
        KeyCode::Down,
        KeyCode::Up,
        KeyCode::PageDown,
        KeyCode::PageUp,
        KeyCode::End,
        KeyCode::Home,
    ] {
        assert_eq!(component.on(key(code)), Msg::OnKey(KeyEvent::from(code)));
        assert_eq!(component.states().list_index, 0);
        assert_eq!(component.states().list_len, 0);
    }
}

#[test]
fn list_with_a_payload_of_another_kind_uses_defaults() {
    let mut props = Props::default();
    props.own.insert(PROP_TABLE, PropPayload::One(PropValue::Bool(true)));
    props.own.insert(PROP_SCROLLABLE, PropPayload::One(PropValue::Usize(1)));
    props.own.insert(PROP_MAX_STEP, PropPayload::One(PropValue::Str("4".to_string())));
    props.own.insert(PROP_TITLE, PropPayload::Empty);
    let mut component = List::new(props);
    assert_eq!(component.states().list_len, 0);
    assert_eq!(component.scrollable(), false);
    component.active();
    assert_eq!(component.states().focus, false);
}

#[test]
fn list_default_step_is_eight() {
    let mut component = List::new(
        ListPropsBuilder::default().scrollable(true).with_rows(rows(20)).build(),
    );
    component.active();
    component.on(key(KeyCode::PageDown));
    assert_eq!(component.states().list_index, 8);
    component.on(key(KeyCode::PageDown));
    assert_eq!(component.states().list_index, 16);
    component.on(key(KeyCode::PageDown));
    assert_eq!(component.states().list_index, 19);
    component.on(key(KeyCode::PageUp));
    assert_eq!(component.states().list_index, 11);
    component.on(key(KeyCode::PageUp));
    assert_eq!(component.states().list_index, 3);
    component.on(key(KeyCode::PageUp));
    assert_eq!(component.states().list_index, 0);
}

#[test]
fn list_boundaries() {
    let mut component = scrollable_list(3, 4);
    // Up at the first row
    component.on(key(KeyCode::Up));
    assert_eq!(component.states().list_index, 0);
    component.on(key(KeyCode::PageUp));
    assert_eq!(component.states().list_index, 0);
    // Down at the last row
    component.on(key(KeyCode::End));
    assert_eq!(component.states().list_index, 2);
    component.on(key(KeyCode::Down));
    assert_eq!(component.states().list_index, 2);
    component.on(key(KeyCode::PageDown));
    assert_eq!(component.states().list_index, 2);
    // End on an empty list
    let mut empty = scrollable_list(0, 4);
    empty.on(key(KeyCode::End));
    assert_eq!(empty.states().list_index, 0);
    assert_eq!(empty.states().list_len, 0);
}

#[test]
fn list_index_always_names_a_row() {
    let codes = [
        KeyCode::PageDown,
        KeyCode::Down,
        KeyCode::End,
        KeyCode::Down,
        KeyCode::PageDown,
        KeyCode::Up,
        KeyCode::PageUp,
        KeyCode::PageUp,
        KeyCode::Up,
        KeyCode::Home,
        KeyCode::Char('x'),
        KeyCode::Enter,
    ];
    for n in 0..6 {
        for step in [0usize, 1, 3, 100] {
            let mut component = scrollable_list(n, step);
            for code in codes {
                component.on(key(code));
                let states = component.states();
                assert_eq!(states.list_len, n);
                if n == 0 {
                    assert_eq!(states.list_index, 0);
                } else {
                    assert!(states.list_index < n);
                }
            }
        }
    }
}

#[test]
fn list_other_keys_and_events_change_nothing() {
    let mut component = scrollable_list(5, 2);
    component.on(key(KeyCode::Down));
    let before = component.states();
    for code in [
        KeyCode::Enter,
        KeyCode::Char('j'),
        KeyCode::Left,
        KeyCode::Right,
        KeyCode::Tab,
        KeyCode::F(5),
        KeyCode::Esc,
    ] {
        assert_eq!(component.on(key(code)), Msg::OnKey(KeyEvent::from(code)));
        assert_eq!(component.states(), before);
    }
    assert_eq!(component.on(Event::Tick), Msg::NoOp);
    assert_eq!(component.on(Event::Resize(80, 24)), Msg::NoOp);
    let mouse = MouseEvent {
        kind: MouseEventKind::ScrollDown,
        column: 1,
        row: 1,
        modifiers: KeyModifiers::none(),
    };
    assert_eq!(component.on(Event::Mouse(mouse)), Msg::NoOp);
    assert_eq!(component.states(), before);
}

#[test]
fn list_echoes_the_key_with_its_modifiers() {
    let mut component = scrollable_list(5, 2);
    let pressed =
        KeyEvent::new(KeyCode::Down, KeyModifiers { shift: true, control: false, alt: true });
    assert_eq!(component.on(Event::Key(pressed)), Msg::OnKey(pressed));
    assert_eq!(component.states().list_index, 1);
    assert_ne!(Msg::OnKey(pressed), Msg::OnKey(KeyEvent::from(KeyCode::Down)));
}

#[test]
fn list_without_focus_ignores_navigation() {
    let mut component = List::new(
        ListPropsBuilder::default().scrollable(true).with_rows(rows(5)).build(),
    );
    assert_eq!(component.states().focus, false);
    assert_eq!(component.on(key(KeyCode::Down)), Msg::OnKey(KeyEvent::from(KeyCode::Down)));
    assert_eq!(component.states().list_index, 0);
    component.active();
    component.on(key(KeyCode::Down));
    assert_eq!(component.states().list_index, 1);
    component.blur();
    assert_eq!(component.on(key(KeyCode::End)), Msg::OnKey(KeyEvent::from(KeyCode::End)));
    assert_eq!(component.states().list_index, 1);
}

#[test]
fn list_not_scrollable_ignores_navigation_and_focus() {
    let mut component = List::new(ListPropsBuilder::default().with_rows(rows(5)).build());
    assert_eq!(component.scrollable(), false);
    component.active();
    assert_eq!(component.states().focus, false);
    assert_eq!(component.on(key(KeyCode::Down)), Msg::OnKey(KeyEvent::from(KeyCode::Down)));
    assert_eq!(component.on(key(KeyCode::End)), Msg::OnKey(KeyEvent::from(KeyCode::End)));
    assert_eq!(component.states().list_index, 0);
    let mut explicit =
        List::new(ListPropsBuilder::default().scrollable(false).with_rows(rows(5)).build());
    explicit.active();
    assert_eq!(explicit.states().focus, false);
}

#[test]
fn list_blur_twice_leaves_no_focus() {
    let mut component = scrollable_list(3, 4);
    assert_eq!(component.states().focus, true);
    component.blur();
    assert_eq!(component.states().focus, false);
    component.blur();
    assert_eq!(component.states().focus, false);
}

#[test]
fn list_update_round_trip_draws_the_same() {
    let mut component = List::new(
        ListPropsBuilder::default()
            .scrollable(true)
            .with_title("t")
            .with_highlighted_str(Some(">"))
            .with_highlighted_color(Color::Yellow)
            .with_rows(rows(6))
            .build(),
    );
    component.active();
    component.on(key(KeyCode::Down));
    component.on(key(KeyCode::Down));
    let area = Rect { x: 0, y: 0, width: 20, height: 6 };
    let mut before = Frame::new();
    component.render(&mut before, area);
    let states = component.states();
    let props = component.get_props();
    assert_eq!(&props, component.props());
    assert_eq!(component.update(props), Msg::NoOp);
    let mut after = Frame::new();
    component.render(&mut after, area);
    assert_eq!(before.len(), 1);
    assert_eq!(before.get(0), after.get(0));
    assert_eq!(component.states(), states);
}

#[test]
fn list_render_scrollable_focused() {
    let mut component = List::new(
        ListPropsBuilder::default()
            .with_foreground(Color::Red)
            .with_background(Color::Blue)
            .with_highlighted_color(Color::Yellow)
            .with_borders(Borders::All, BorderType::Double, Color::Green)
            .with_highlighted_str(Some(">>"))
            .scrollable(true)
            .with_title("my data")
            .bold()
            .with_rows(
                TableBuilder::default()
                    .add_col(TextSpan::from("name"))
                    .add_col(TextSpan::from("age").with_foreground(Color::Cyan))
                    .add_row()
                    .add_col(
                        TextSpan::from("omar")
                            .with_background(Color::White)
                            .with_modifier(Modifier::Italic),
                    )
                    .build(),
            )
            .build(),
    );
    component.active();
    component.on(key(KeyCode::Down));
    let mut frame = Frame::new();
    let area = Rect { x: 2, y: 3, width: 40, height: 10 };
    component.render(&mut frame, area);
    assert_eq!(frame.len(), 1);
    let bold = Modifiers::only(Modifier::Bold);
    let expected = Widget::List(ListWidget {
        block: Block {
            borders: Borders::All,
            border_type: BorderType::Double,
            border_color: Color::Green,
            title: Some("my data".to_string()),
        },
        items: vec![
            vec![
                Span {
                    content: "name".to_string(),
                    style: Style { fg: Color::Red, bg: Color::Blue, modifiers: bold },
                },
                Span {
                    content: "age".to_string(),
                    style: Style { fg: Color::Cyan, bg: Color::Blue, modifiers: bold },
                },
            ],
            vec![Span {
                content: "omar".to_string(),
                style: Style {
                    fg: Color::Red,
                    bg: Color::White,
                    modifiers: Modifiers::only(Modifier::Italic),
                },
            }],
        ],
        highlight_style: Style { fg: Color::Blue, bg: Color::Yellow, modifiers: bold },
        highlight_symbol: Some(">>".to_string()),
        selected: Some(1),
    });
    assert_eq!(frame.get(0), Some((area, &expected)));
}

#[test]
fn list_render_scrollable_without_focus() {
    let component = List::new(
        ListPropsBuilder::default()
            .with_foreground(Color::Red)
            .with_background(Color::Blue)
            .with_borders(Borders::Top, BorderType::Rounded, Color::Green)
            .scrollable(true)
            .with_rows(rows(1))
            .build(),
    );
    let mut frame = Frame::new();
    let area = Rect { x: 0, y: 0, width: 10, height: 3 };
    component.render(&mut frame, area);
    let expected = Widget::List(ListWidget {
        block: Block {
            borders: Borders::Top,
            border_type: BorderType::Rounded,
            border_color: Color::Reset,
            title: None,
        },
        items: vec![vec![Span {
            content: "row 0".to_string(),
            style: Style { fg: Color::Red, bg: Color::Blue, modifiers: Modifiers::empty() },
        }]],
        // No palette entry and no focus: the foreground marks the selected row.
        highlight_style: Style { fg: Color::Red, bg: Color::Blue, modifiers: Modifiers::empty() },
        highlight_symbol: None,
        selected: Some(0),
    });
    assert_eq!(frame.get(0), Some((area, &expected)));
}

#[test]
fn list_render_focused_without_palette_swaps_colors() {
    let mut component = List::new(
        ListPropsBuilder::default()
            .with_foreground(Color::Red)
            .with_background(Color::Blue)
            .scrollable(true)
            .build(),
    );
    component.active();
    let mut frame = Frame::new();
    component.render(&mut frame, Rect { x: 0, y: 0, width: 10, height: 3 });
    match frame.get(0) {
        Some((_, Widget::List(list))) => {
            assert_eq!(
                list.highlight_style,
                Style { fg: Color::Blue, bg: Color::Blue, modifiers: Modifiers::empty() }
            );
            assert_eq!(list.block.border_color, Color::Reset);
            assert_eq!(list.items, Vec::<Vec<Span>>::new());
        }
        _ => panic!("a list draws a list"),
    }
}

#[test]
fn list_render_not_scrollable_is_active_without_selection() {
    let component = List::new(
        ListPropsBuilder::default()
            .with_foreground(Color::Red)
            .with_background(Color::Blue)
            .with_borders(Borders::All, BorderType::Plain, Color::Magenta)
            .with_rows(rows(2))
            .build(),
    );
    let mut frame = Frame::new();
    component.render(&mut frame, Rect { x: 0, y: 0, width: 10, height: 3 });
    match frame.get(0) {
        Some((_, Widget::List(list))) => {
            assert_eq!(list.selected, None);
            assert_eq!(list.block.border_color, Color::Magenta);
            assert_eq!(
                list.highlight_style,
                Style { fg: Color::Blue, bg: Color::Red, modifiers: Modifiers::empty() }
            );
            assert_eq!(list.items.len(), 2);
        }
        _ => panic!("a list draws a list"),
    }
}

#[test]
fn hidden_list_draws_nothing() {
    let component =
        List::new(ListPropsBuilder::default().with_rows(rows(2)).hidden().build());
    let mut frame = Frame::new();
    component.render(&mut frame, Rect { x: 0, y: 0, width: 10, height: 3 });
    assert_eq!(frame.len(), 0);
    assert!(frame.get(0).is_none());
}

#[test]
fn list_builder_removes_highlighted_str() {
    let props = ListPropsBuilder::default()
        .with_highlighted_str(Some("*"))
        .with_title("t")
        .with_highlighted_str(None)
        .build();
    assert!(props.own.get(PROP_HIGHLIGHTED_TXT).is_none());
    assert_eq!(
        props.own.get(PROP_TITLE).unwrap(),
        &PropPayload::One(PropValue::Str("t".to_string()))
    );
    assert_eq!(props.own.len(), 1);
}

#[test]
fn list_builder_sets_each_payload() {
    let props = ListPropsBuilder::default()
        .scrollable(true)
        .with_max_scroll_step(3)
        .with_rows(rows(2))
        .with_title("a")
        .with_title("b")
        .with_highlighted_color(Color::Green)
        .build();
    assert_eq!(
        props.own.get(PROP_SCROLLABLE).unwrap(),
        &PropPayload::One(PropValue::Bool(true))
    );
    assert_eq!(
        props.own.get(PROP_MAX_STEP).unwrap(),
        &PropPayload::One(PropValue::Usize(3))
    );
    assert_eq!(
        props.own.get(PROP_TITLE).unwrap(),
        &PropPayload::One(PropValue::Str("b".to_string()))
    );
    assert_eq!(props.own.get(PROP_TABLE).unwrap(), &PropPayload::One(PropValue::Table(rows(2))));
    assert_eq!(props.palette.get(COLOR_HIGHLIGHTED), Some(&Color::Green));
    assert_eq!(props.own.len(), 4);
}

#[test]
fn list_builder_is_spent_after_build() {
    let mut builder = ListPropsBuilder::default();
    builder.scrollable(true);
    let first = builder.build();
    builder
        .with_title("late")
        .with_rows(rows(3))
        .with_max_scroll_step(2)
        .scrollable(false)
        .with_highlighted_str(Some("x"))
        .with_highlighted_color(Color::Red)
        .with_borders(Borders::NoEdge, BorderType::Thick, Color::Red)
        .with_foreground(Color::Red)
        .with_background(Color::Red)
        .bold()
        .visible();
    assert_eq!(first.own.len(), 1);
    assert_eq!(first.foreground, Color::Reset);
}

#[test]
fn own_states_incr_and_decr() {
    let mut states = OwnStates { focus: true, list_index: 0, list_len: 3 };
    states.incr_list_index();
    assert_eq!(states, OwnStates { focus: true, list_index: 1, list_len: 3 });
    states.incr_list_index();
    assert_eq!(states.list_index, 2);
    states.incr_list_index();
    assert_eq!(states.list_index, 2);
    states.decr_list_index();
    assert_eq!(states.list_index, 1);
    states.decr_list_index();
    states.decr_list_index();
    assert_eq!(states, OwnStates { focus: true, list_index: 0, list_len: 3 });
    let mut empty = OwnStates { focus: false, list_index: 0, list_len: 0 };
    empty.incr_list_index();
    assert_eq!(empty.list_index, 0);
    let mut top = OwnStates { focus: false, list_index: usize::MAX, list_len: usize::MAX };
    top.incr_list_index();
    assert_eq!(top.list_index, usize::MAX);
}

#[test]
fn own_states_fix_and_ends() {
    let mut states = OwnStates { focus: false, list_index: 7, list_len: 9 };
    states.set_list_len(2);
    assert_eq!(states, OwnStates { focus: false, list_index: 7, list_len: 2 });
    states.fix_list_index();
    assert_eq!(states, OwnStates { focus: false, list_index: 1, list_len: 2 });
    states.fix_list_index();
    assert_eq!(states.list_index, 1);
    states.set_list_len(2);
    states.list_index = 2;
    states.fix_list_index();
    assert_eq!(states.list_index, 1);
    states.set_list_len(0);
    states.fix_list_index();
    assert_eq!(states.list_index, 0);
    states.set_list_len(5);
    states.list_index_at_last();
    assert_eq!(states.list_index, 4);
    states.list_index_at_first();
    assert_eq!(states.list_index, 0);
    states.set_list_len(0);
    states.list_index_at_last();
    assert_eq!(states.list_index, 0);
}

#[test]
fn own_states_steps() {
    let states = OwnStates { focus: true, list_index: 2, list_len: 9 };
    assert_eq!(states.calc_max_step_ahead(4), 4);
    assert_eq!(states.calc_max_step_ahead(6), 6);
    assert_eq!(states.calc_max_step_ahead(7), 6);
    assert_eq!(states.calc_max_step_ahead(0), 0);
    assert_eq!(states.calc_max_step_behind(4), 2);
    assert_eq!(states.calc_max_step_behind(2), 2);
    assert_eq!(states.calc_max_step_behind(1), 1);
    let at_six = OwnStates { focus: true, list_index: 6, list_len: 9 };
    assert_eq!(at_six.calc_max_step_ahead(4), 2);
    let last = OwnStates { focus: true, list_index: 8, list_len: 9 };
    assert_eq!(last.calc_max_step_ahead(4), 0);
    assert_eq!(last.calc_max_step_behind(4), 4);
    let empty = OwnStates { focus: true, list_index: 0, list_len: 0 };
    assert_eq!(empty.calc_max_step_ahead(8), 0);
    assert_eq!(empty.calc_max_step_behind(8), 0);
    let beyond = OwnStates { focus: true, list_index: 12, list_len: 9 };
    assert_eq!(beyond.calc_max_step_ahead(8), 0);
}
