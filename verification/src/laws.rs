//! What holds of the panel over whole runs of messages, and between the two
//! directions in which it works.

use crate::brush::{Brush, BrushKind, BrushMode, OPTION_COUNT};
use crate::layout::{Control, Field};
use crate::message::{MessageDirection, UiMessage, WidgetHandle};
use crate::scalar::{Scalar, HALF, ONE, QUARTER};
use crate::section::Widgets;
use vstd::prelude::*;

verus! {

/// A selection in the shape dropdown decides the shape alone: whatever the
/// brush was and whatever messages came before, entry 0 leaves a circle of
/// radius `1.0` and entry 1 a rectangle of `0.5` by `0.5`. Effect and center
/// are what they were before the selection.
pub proof fn lemma_shape_selection_decides_shape(
    widgets: Widgets,
    brush: Brush,
    earlier: Seq<UiMessage>,
    direction: MessageDirection,
    selection: usize,
)
    requires
        widgets.accepts_all(earlier),
        selection < OPTION_COUNT,
    ensures
        ({
            let message = UiMessage::spec_selection(widgets.kind, direction, Some(selection));
            let before = widgets.replayed(brush, earlier);
            let after = widgets.replayed(brush, earlier.push(message));
            &&& widgets.accepts_all(earlier.push(message))
            &&& selection == 0 ==> after.kind == (BrushKind::Circle {
                radius: Scalar { bits: ONE },
            })
            &&& selection == 1 ==> after.kind == (BrushKind::Rectangle {
                width: Scalar { bits: HALF },
                length: Scalar { bits: HALF },
            })
            &&& after.kind.spec_selection() == selection
            &&& after.mode == before.mode
            &&& after.center == before.center
        }),
{
    let message = UiMessage::spec_selection(widgets.kind, direction, Some(selection));
    assert(earlier.push(message).drop_last() == earlier);
}

/// A selection in the mode dropdown decides the effect alone: whatever the
/// brush was and whatever messages came before, entry 0 leaves a height
/// change of `0.25` and entry 1 painting of `1.0` onto layer 0. Shape and
/// center are what they were before the selection.
///
/// The mode dropdown has to be a widget of its own: a message for a widget
/// that is both dropdowns at once is taken as a selection of the shape.
pub proof fn lemma_mode_selection_decides_mode(
    widgets: Widgets,
    brush: Brush,
    earlier: Seq<UiMessage>,
    direction: MessageDirection,
    selection: usize,
)
    requires
        widgets.mode != widgets.kind,
        widgets.accepts_all(earlier),
        selection < OPTION_COUNT,
    ensures
        ({
            let message = UiMessage::spec_selection(widgets.mode, direction, Some(selection));
            let before = widgets.replayed(brush, earlier);
            let after = widgets.replayed(brush, earlier.push(message));
            &&& widgets.accepts_all(earlier.push(message))
            &&& selection == 0 ==> after.mode == (BrushMode::ModifyHeightMap {
                amount: Scalar { bits: QUARTER },
            })
            &&& selection == 1 ==> after.mode == (BrushMode::DrawOnMask {
                layer: 0,
                alpha: Scalar { bits: ONE },
            })
            &&& after.mode.spec_selection() == selection
            &&& after.kind == before.kind
            &&& after.center == before.center
        }),
{
    let message = UiMessage::spec_selection(widgets.mode, direction, Some(selection));
    assert(earlier.push(message).drop_last() == earlier);
}

/// Whether `message` is a selection in the dropdown list `widget`.
pub open spec fn is_selection_in(message: UiMessage, widget: WidgetHandle) -> bool {
    message.data is SelectionChanged && message.destination == widget
}

/// Whether `message` is a value from one of the three numeric fields.
pub open spec fn is_value_from_field(widgets: Widgets, message: UiMessage) -> bool {
    message.data is Value && (message.destination == widgets.radius || message.destination
        == widgets.width || message.destination == widgets.length)
}

/// One message changes no more than the part of the brush that its widget
/// edits. The center never changes. The effect changes only on a selection
/// in the mode dropdown. The shape changes only on a selection in the shape
/// dropdown or a value from a numeric field, and its variant only on the
/// selection.
pub proof fn lemma_message_changes_its_part_only(
    widgets: Widgets,
    brush: Brush,
    message: UiMessage,
)
    requires
        widgets.accepts(message),
    ensures
        widgets.handled(brush, message).center == brush.center,
        widgets.handled(brush, message).mode != brush.mode ==> is_selection_in(
            message,
            widgets.mode,
        ),
        widgets.handled(brush, message).kind != brush.kind ==> is_selection_in(
            message,
            widgets.kind,
        ) || is_value_from_field(widgets, message),
        widgets.handled(brush, message).kind.spec_selection() != brush.kind.spec_selection()
            ==> is_selection_in(message, widgets.kind),
{
}

/// No run of messages moves the brush: the center after the run is the
/// center before it.
pub proof fn lemma_center_is_kept(widgets: Widgets, brush: Brush, messages: Seq<UiMessage>)
    requires
        widgets.accepts_all(messages),
    ensures
        widgets.replayed(brush, messages).center == brush.center,
    decreases messages.len(),
{
    if messages.len() > 0 {
        lemma_center_is_kept(widgets, brush, messages.drop_last());
    }
}

/// A new panel, brought in step with its brush, sends what the brush of a
/// new panel holds: entry 0 to the shape dropdown, `1.0` to the radius
/// field, entry 0 to the mode dropdown, and nothing to the width and length
/// fields.
pub proof fn lemma_new_panel_sync(widgets: Widgets)
    ensures
        widgets.sync_messages(Brush::spec_initial()) == seq![
            UiMessage::spec_selection(widgets.kind, MessageDirection::ToWidget, Some(0usize)),
            UiMessage::spec_value(
                widgets.radius,
                MessageDirection::ToWidget,
                Scalar { bits: ONE },
            ),
            UiMessage::spec_selection(widgets.mode, MessageDirection::ToWidget, Some(0usize)),
        ],
{
}

/// The form opens on the brush of a new panel: each dropdown list offers as
/// many entries as the panel accepts selections, and opens with the entry
/// that stands for the new brush.
pub proof fn lemma_form_opens_on_initial_brush()
    ensures
        Field::Kind.spec_control() == (Control::DropdownList {
            options: OPTION_COUNT,
            selected: Brush::spec_initial().kind.spec_selection(),
        }),
        Field::Mode.spec_control() == (Control::DropdownList {
            options: OPTION_COUNT,
            selected: Brush::spec_initial().mode.spec_selection(),
        }),
{
}

/// Every message that the panel sends is a request to a widget, and one that
/// the panel itself could act on.
pub proof fn lemma_sync_messages_are_accepted(widgets: Widgets, brush: Brush)
    ensures
        widgets.accepts_all(widgets.sync_messages(brush)),
        forall|i: int|
            0 <= i < widgets.sync_messages(brush).len() ==> (#[trigger] widgets.sync_messages(
                brush,
            )[i]).direction == MessageDirection::ToWidget,
{
}

/// What the panel sends to its widgets, handled as if the widgets had
/// reported it, restores the shape with its measures and the variant of
/// the effect, whatever brush it is handled on. The effect comes back with
/// the parameters of a fresh selection, since no widget carries them.
///
/// The two dropdown lists have to be two widgets, and so have the width and
/// the length field.
pub proof fn lemma_sync_restores_shape(widgets: Widgets, brush: Brush, onto: Brush)
    requires
        widgets.kind != widgets.mode,
        widgets.width != widgets.length,
    ensures
        ({
            let after = widgets.replayed(onto, widgets.sync_messages(brush));
            &&& after.kind == brush.kind
            &&& after.mode == BrushMode::spec_from_selection(brush.mode.spec_selection())
            &&& after.center == onto.center
        }),
{
    let messages = widgets.sync_messages(brush);
    let shape = widgets.kind_messages(brush.kind);
    assert(messages.drop_last() == shape);
    match brush.kind {
        BrushKind::Circle { radius } => {
            let first = shape.drop_last();
            assert(first.drop_last() == Seq::<UiMessage>::empty());
            assert(widgets.replayed(onto, first.drop_last()) == onto);
            assert(widgets.replayed(onto, first).kind == BrushKind::spec_from_selection(0));
            assert(widgets.replayed(onto, shape).kind == brush.kind);
        },
        BrushKind::Rectangle { width, length } => {
            let second = shape.drop_last();
            let first = second.drop_last();
            assert(first.drop_last() == Seq::<UiMessage>::empty());
            assert(widgets.replayed(onto, first.drop_last()) == onto);
            assert(widgets.replayed(onto, first).kind == BrushKind::spec_from_selection(1));
            assert(widgets.replayed(onto, second).kind == (BrushKind::Rectangle {
                width,
                length: Scalar { bits: HALF },
            }));
            assert(widgets.replayed(onto, shape).kind == brush.kind);
        },
    }
    lemma_sync_messages_are_accepted(widgets, brush);
    lemma_center_is_kept(widgets, onto, messages);
}

} // verus!
