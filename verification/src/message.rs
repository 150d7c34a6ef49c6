//! What travels between the panel and its widgets.

use crate::scalar::Scalar;
use vstd::prelude::*;

verus! {

/// Identity of a widget: its slot in the interface's pool of widgets, and the
/// generation of that slot. Two handles name the same widget when both parts
/// agree.
#[derive(Clone, Copy, Debug, PartialEq, Eq, Hash, Structural)]
pub struct WidgetHandle {
    pub index: u32,
    pub generation: u32,
}

/// Which way a message travels.
#[derive(Clone, Copy, Debug, PartialEq, Eq, Structural)]
pub enum MessageDirection {
    /// A request to the widget to change.
    ToWidget,
    /// The widget's report that it has changed.
    FromWidget,
}

/// What a message says.
#[derive(Clone, Copy, Debug, PartialEq, Eq)]
pub enum UiMessageData {
    /// The selection of a dropdown list: one of its entries, or none.
    SelectionChanged(Option<usize>),
    /// The number in a numeric field.
    Value(Scalar),
    /// Anything else; the panel has no use for it.
    Other,
}

/// A message to or from one widget.
#[derive(Clone, Copy, Debug, PartialEq, Eq)]
pub struct UiMessage {
    pub destination: WidgetHandle,
    pub direction: MessageDirection,
    pub data: UiMessageData,
}

impl UiMessage {
    /// The message that carries a dropdown list's selection.
    pub open spec fn spec_selection(
        destination: WidgetHandle,
        direction: MessageDirection,
        selection: Option<usize>,
    ) -> UiMessage {
        UiMessage { destination, direction, data: UiMessageData::SelectionChanged(selection) }
    }

    /// The message that carries a numeric field's value.
    pub open spec fn spec_value(
        destination: WidgetHandle,
        direction: MessageDirection,
        value: Scalar,
    ) -> UiMessage {
        UiMessage { destination, direction, data: UiMessageData::Value(value) }
    }

    /// The message that carries a dropdown list's selection.
    #[verifier::when_used_as_spec(spec_selection)]
    pub fn selection(
        destination: WidgetHandle,
        direction: MessageDirection,
        selection: Option<usize>,
    ) -> (message: UiMessage)
        ensures
            message == UiMessage::spec_selection(destination, direction, selection),
    {
        UiMessage { destination, direction, data: UiMessageData::SelectionChanged(selection) }
    }

    /// The message that carries a numeric field's value.
    #[verifier::when_used_as_spec(spec_value)]
    pub fn value(destination: WidgetHandle, direction: MessageDirection, value: Scalar) -> (message:
        UiMessage)
        ensures
            message == UiMessage::spec_value(destination, direction, value),
    {
        UiMessage { destination, direction, data: UiMessageData::Value(value) }
    }
}

} // verus!
