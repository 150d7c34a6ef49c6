use brush_panel::brush::{Brush, BrushKind, BrushMode};
use brush_panel::message::{MessageDirection, UiMessage, UiMessageData, WidgetHandle};
use brush_panel::scalar::Scalar;
use brush_panel::section::{BrushSection, Widgets};

fn num(value: f32) -> Scalar {
    Scalar::from_bits(value.to_bits())
}

fn handle(index: u32) -> WidgetHandle {
    WidgetHandle {
        index,
        generation: 3,
    }
}

fn widgets() -> Widgets {
    Widgets {
        kind: handle(11),
        mode: handle(12),
        width: handle(13),
        length: handle(14),
        radius: handle(15),
    }
}

fn set_selection(destination: WidgetHandle, index: usize) -> UiMessage {
    UiMessage {
        destination,
        direction: MessageDirection::ToWidget,
        data: UiMessageData::SelectionChanged(Some(index)),
    }
}

fn set_value(destination: WidgetHandle, value: f32) -> UiMessage {
    UiMessage {
        destination,
        direction: MessageDirection::ToWidget,
        data: UiMessageData::Value(num(value)),
    }
}

#[test]
fn sync_of_rectangle_and_mask() {
    let mut panel = BrushSection::new(handle(10), widgets());
    panel.brush.kind = BrushKind::Rectangle {
        width: num(1.0),
        length: num(2.0),
    };
    panel.brush.mode = BrushMode::DrawOnMask {
        layer: 5,
        alpha: num(0.5),
    };
    let mut outbox = Vec::new();
    panel.sync_to_model(&mut outbox);
    assert_eq!(
        outbox,
        vec![
            set_selection(widgets().kind, 1),
            set_value(widgets().width, 1.0),
            set_value(widgets().length, 2.0),
            set_selection(widgets().mode, 1),
        ]
    );
    assert!(outbox
        .iter()
        .all(|message| message.destination != widgets().radius));
}

#[test]
fn sync_of_circle_and_height_map() {
    let mut panel = BrushSection::new(handle(10), widgets());
    panel.brush.kind = BrushKind::Circle { radius: num(4.5) };
    panel.brush.mode = BrushMode::ModifyHeightMap { amount: num(-1.0) };
    let mut outbox = Vec::new();
    panel.sync_to_model(&mut outbox);
    assert_eq!(
        outbox,
        vec![
            set_selection(widgets().kind, 0),
            set_value(widgets().radius, 4.5),
            set_selection(widgets().mode, 0),
        ]
    );
}

#[test]
fn sync_of_circle_and_mask() {
    let mut panel = BrushSection::new(handle(10), widgets());
    panel.brush.mode = BrushMode::DrawOnMask {
        layer: 0,
        alpha: num(1.0),
    };
    let mut outbox = Vec::new();
    panel.sync_to_model(&mut outbox);
    assert_eq!(
        outbox,
        vec![
            set_selection(widgets().kind, 0),
            set_value(widgets().radius, 1.0),
            set_selection(widgets().mode, 1),
        ]
    );
}

#[test]
fn sync_of_new_panel_sends_initial_values_and_keeps_the_brush() {
    let mut panel = BrushSection::new(handle(10), widgets());
    let before = panel;
    let mut outbox = Vec::new();
    panel.sync_to_model(&mut outbox);
    assert_eq!(
        outbox,
        vec![
            set_selection(widgets().kind, 0),
            set_value(widgets().radius, 1.0),
            set_selection(widgets().mode, 0),
        ]
    );
    assert_eq!(panel, before);
    assert_eq!(panel.brush, Brush::initial());
}

#[test]
fn sync_appends_to_what_the_outbox_holds() {
    let mut panel = BrushSection::new(handle(10), widgets());
    let waiting = UiMessage {
        destination: handle(99),
        direction: MessageDirection::FromWidget,
        data: UiMessageData::Other,
    };
    let mut outbox = vec![waiting];
    panel.sync_to_model(&mut outbox);
    panel.sync_to_model(&mut outbox);
    assert_eq!(outbox.len(), 7);
    assert_eq!(outbox[0], waiting);
    assert_eq!(outbox[1..4], outbox[4..7]);
    assert_eq!(outbox[1], set_selection(widgets().kind, 0));
}

#[test]
fn sync_never_changes_the_panel() {
    let kinds = [
        BrushKind::Circle { radius: num(0.0) },
        BrushKind::Rectangle {
            width: num(9.0),
            length: num(0.1),
        },
    ];
    let modes = [
        BrushMode::ModifyHeightMap { amount: num(2.0) },
        BrushMode::DrawOnMask {
            layer: 8,
            alpha: num(0.25),
        },
    ];
    for kind in kinds {
        for mode in modes {
            let mut panel = BrushSection::new(handle(10), widgets());
            panel.brush.kind = kind;
            panel.brush.mode = mode;
            let before = panel;
            let mut outbox = Vec::new();
            panel.sync_to_model(&mut outbox);
            assert_eq!(panel, before);
            assert_eq!(outbox.len(), if kind.selection() == 0 { 3 } else { 4 });
            assert!(outbox
                .iter()
                .all(|message| message.direction == MessageDirection::ToWidget));
        }
    }
}

#[test]
fn sync_messages_handled_again_restore_the_shape() {
    let kinds = [
        BrushKind::Circle { radius: num(6.5) },
        BrushKind::Rectangle {
            width: num(9.0),
            length: num(0.1),
        },
    ];
    let modes = [
        BrushMode::ModifyHeightMap { amount: num(2.0) },
        BrushMode::DrawOnMask {
            layer: 8,
            alpha: num(0.25),
        },
    ];
    for kind in kinds {
        for mode in modes {
            let mut source = BrushSection::new(handle(10), widgets());
            source.brush.kind = kind;
            source.brush.mode = mode;
            let mut outbox = Vec::new();
            source.sync_to_model(&mut outbox);

            for start in kinds {
                let mut target = BrushSection::new(handle(10), widgets());
                target.brush.kind = start;
                for message in &outbox {
                    assert!(target.accepts(message));
                    target.handle_message(message);
                }
                assert_eq!(target.brush.kind, kind);
                assert_eq!(target.brush.mode, BrushMode::from_selection(mode.selection()));
            }
        }
    }
}

#[test]
fn message_constructors_fill_every_part() {
    let message = UiMessage::selection(handle(1), MessageDirection::ToWidget, Some(1));
    assert_eq!(message.destination, handle(1));
    assert_eq!(message.direction, MessageDirection::ToWidget);
    assert_eq!(message.data, UiMessageData::SelectionChanged(Some(1)));
    let message = UiMessage::selection(handle(2), MessageDirection::FromWidget, None);
    assert_eq!(message.destination, handle(2));
    assert_eq!(message.direction, MessageDirection::FromWidget);
    assert_eq!(message.data, UiMessageData::SelectionChanged(None));
    let message = UiMessage::value(handle(3), MessageDirection::FromWidget, num(0.75));
    assert_eq!(message.destination, handle(3));
    assert_eq!(message.direction, MessageDirection::FromWidget);
    assert_eq!(message.data, UiMessageData::Value(num(0.75)));
}
