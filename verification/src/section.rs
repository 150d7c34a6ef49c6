//! The panel: five widgets bound to one brush.

use crate::brush::{Brush, BrushKind, BrushMode, OPTION_COUNT};
use crate::message::{MessageDirection, UiMessage, UiMessageData, WidgetHandle};
use crate::scalar::Scalar;
use vstd::prelude::*;

verus! {

/// The five input widgets of the panel.
#[derive(Clone, Copy, Debug, PartialEq, Eq, Structural)]
pub struct Widgets {
    /// Dropdown list of shapes.
    pub kind: WidgetHandle,
    /// Dropdown list of effects.
    pub mode: WidgetHandle,
    /// Numeric field for a rectangle's width.
    pub width: WidgetHandle,
    /// Numeric field for a rectangle's length.
    pub length: WidgetHandle,
    /// Numeric field for a circle's radius.
    pub radius: WidgetHandle,
}

impl Widgets {
    /// Whether `message` is one the panel can act on. Every message is, but a
    /// selection for one of the two dropdown lists that names an entry the
    /// list does not have.
    pub open spec fn accepts(self, message: UiMessage) -> bool {
        match message.data {
            UiMessageData::SelectionChanged(Some(selection)) => {
                message.destination == self.kind || message.destination == self.mode
                    ==> selection < OPTION_COUNT
            },
            _ => true,
        }
    }

    /// The shape after a numeric field reported `value`.
    ///
    /// A circle takes the value as its radius when the radius field reported
    /// it. A rectangle takes it as its length or width when the field of that
    /// name did, the length field first. A report from any other widget
    /// leaves the shape as it is.
    pub open spec fn resized(self, kind: BrushKind, destination: WidgetHandle, value: Scalar)
        -> BrushKind {
        match kind {
            BrushKind::Circle { radius } => {
                if destination == self.radius {
                    BrushKind::Circle { radius: value }
                } else {
                    kind
                }
            },
            BrushKind::Rectangle { width, length } => {
                if destination == self.length {
                    BrushKind::Rectangle { width, length: value }
                } else if destination == self.width {
                    BrushKind::Rectangle { width: value, length }
                } else {
                    kind
                }
            },
        }
    }

    /// The brush after the panel has handled `message`.
    ///
    /// A selection in the shape dropdown replaces the shape, one in the mode
    /// dropdown the effect, each by what the entry stands for; the shape
    /// dropdown is asked first. A value from a numeric field goes into the
    /// current shape. Nothing else changes the brush.
    pub open spec fn handled(self, brush: Brush, message: UiMessage) -> Brush
        recommends
            self.accepts(message),
    {
        match message.data {
            UiMessageData::SelectionChanged(Some(selection)) => {
                if message.destination == self.kind {
                    Brush { kind: BrushKind::spec_from_selection(selection), ..brush }
                } else if message.destination == self.mode {
                    Brush { mode: BrushMode::spec_from_selection(selection), ..brush }
                } else {
                    brush
                }
            },
            UiMessageData::Value(value) => Brush {
                kind: self.resized(brush.kind, message.destination, value),
                ..brush
            },
            _ => brush,
        }
    }

    /// Whether the panel can act on each of `messages`.
    pub open spec fn accepts_all(self, messages: Seq<UiMessage>) -> bool {
        forall|i: int| 0 <= i < messages.len() ==> self.accepts(#[trigger] messages[i])
    }

    /// The brush after the panel has handled `messages` one after the other,
    /// the first one first.
    pub open spec fn replayed(self, brush: Brush, messages: Seq<UiMessage>) -> Brush
        recommends
            self.accepts_all(messages),
        decreases messages.len(),
    {
        if messages.len() == 0 {
            brush
        } else {
            self.handled(self.replayed(brush, messages.drop_last()), messages.last())
        }
    }

    /// The messages that bring the widgets in step with the shape: the entry
    /// of the shape dropdown, then the measures of that shape.
    pub open spec fn kind_messages(self, kind: BrushKind) -> Seq<UiMessage> {
        match kind {
            BrushKind::Circle { radius } => seq![
                UiMessage::spec_selection(self.kind, MessageDirection::ToWidget, Some(0usize)),
                UiMessage::spec_value(self.radius, MessageDirection::ToWidget, radius),
            ],
            BrushKind::Rectangle { width, length } => seq![
                UiMessage::spec_selection(self.kind, MessageDirection::ToWidget, Some(1usize)),
                UiMessage::spec_value(self.width, MessageDirection::ToWidget, width),
                UiMessage::spec_value(self.length, MessageDirection::ToWidget, length),
            ],
        }
    }

    /// The message that brings the mode dropdown in step with the effect.
    pub open spec fn mode_message(self, mode: BrushMode) -> UiMessage {
        UiMessage::spec_selection(
            self.mode,
            MessageDirection::ToWidget,
            Some(mode.spec_selection()),
        )
    }

    /// The messages that bring the widgets in step with `brush`, in the order
    /// in which they are sent.
    pub open spec fn sync_messages(self, brush: Brush) -> Seq<UiMessage> {
        self.kind_messages(brush.kind).push(self.mode_message(brush.mode))
    }
}

/// The panel of a brush: its widgets and the brush they edit.
#[derive(Clone, Copy, Debug, PartialEq, Eq, Structural)]
pub struct BrushSection {
    /// The container that holds the panel's widgets.
    pub section: WidgetHandle,
    /// The input widgets inside the container.
    pub widgets: Widgets,
    /// The brush, as the terrain tool reads it.
    pub brush: Brush,
}

impl BrushSection {
    /// Whether the panel can act on `message`.
    pub open spec fn spec_accepts(&self, message: &UiMessage) -> bool {
        self.widgets.accepts(*message)
    }

    /// Whether the panel can act on `message`: the test to make before
    /// `handle_message`.
    #[verifier::when_used_as_spec(spec_accepts)]
    pub fn accepts(&self, message: &UiMessage) -> (ok: bool)
        ensures
            ok == self.spec_accepts(message),
    {
        match message.data {
            UiMessageData::SelectionChanged(Some(selection)) => {
                if message.destination == self.widgets.kind
                    || message.destination == self.widgets.mode {
                    selection < OPTION_COUNT
                } else {
                    true
                }
            },
            _ => true,
        }
    }

    /// A panel over widgets that were built for it, inside the container
    /// `section`, with the brush a panel starts from: a circle of radius
    /// `1.0` that changes the height map by `0.25`.
    pub fn new(section: WidgetHandle, widgets: Widgets) -> (panel: BrushSection)
        ensures
            panel.section == section,
            panel.widgets == widgets,
            panel.brush == Brush::spec_initial(),
    {
        BrushSection { section, widgets, brush: Brush::initial() }
    }

    /// Appends to `outbox` the messages that bring the widgets in step with
    /// the brush: the entry of the shape dropdown, the measures of the shape
    /// (and none that the shape does not have), the entry of the mode
    /// dropdown. Whoever owns the interface sends them on. The panel itself
    /// stays as it is.
    pub fn sync_to_model(&mut self, outbox: &mut Vec<UiMessage>)
        ensures
            final(outbox)@ == old(outbox)@ + old(self).widgets.sync_messages(
                old(self).brush,
            ),
            *final(self) == *old(self),
    {
        match self.brush.kind {
            BrushKind::Circle { radius } => {
                outbox.push(
                    UiMessage::selection(self.widgets.kind, MessageDirection::ToWidget, Some(0)),
                );
                outbox.push(
                    UiMessage::value(self.widgets.radius, MessageDirection::ToWidget, radius),
                );
            },
            BrushKind::Rectangle { width, length } => {
                outbox.push(
                    UiMessage::selection(self.widgets.kind, MessageDirection::ToWidget, Some(1)),
                );
                outbox.push(
                    UiMessage::value(self.widgets.width, MessageDirection::ToWidget, width),
                );
                outbox.push(
                    UiMessage::value(self.widgets.length, MessageDirection::ToWidget, length),
                );
            },
        }
        match self.brush.mode {
            BrushMode::ModifyHeightMap { .. } => {
                outbox.push(
                    UiMessage::selection(self.widgets.mode, MessageDirection::ToWidget, Some(0)),
                );
            },
            BrushMode::DrawOnMask { .. } => {
                outbox.push(
                    UiMessage::selection(self.widgets.mode, MessageDirection::ToWidget, Some(1)),
                );
            },
        }
    }

    /// Takes one message of the interface into the brush.
    ///
    /// A selection in one of the two dropdown lists puts the shape or the
    /// effect of that entry in place, with the measures that a fresh choice
    /// starts from. A value from a numeric field becomes that measure of the
    /// current shape; a value for a measure that the current shape does not
    /// have is dropped, and so is every other message.
    ///
    /// A dropdown list has two entries, and a selection of another one in
    /// either list is a fault of the interface, not an input: test with
    /// [`BrushSection::accepts`] where the message is not known to be sound.
    pub fn handle_message(&mut self, message: &UiMessage)
        requires
            old(self).spec_accepts(message),
        ensures
            final(self).brush == old(self).widgets.handled(old(self).brush, *message),
            final(self).widgets == old(self).widgets,
            final(self).section == old(self).section,
    {
        match message.data {
            UiMessageData::SelectionChanged(Some(selection)) => {
                if message.destination == self.widgets.kind {
                    self.brush.kind = BrushKind::from_selection(selection);
                } else if message.destination == self.widgets.mode {
                    self.brush.mode = BrushMode::from_selection(selection);
                }
            },
            UiMessageData::Value(value) => {
                match &mut self.brush.kind {
                    BrushKind::Circle { radius } => {
                        if message.destination == self.widgets.radius {
                            *radius = value;
                        }
                    },
                    BrushKind::Rectangle { width, length } => {
                        if message.destination == self.widgets.length {
                            *length = value;
                        } else if message.destination == self.widgets.width {
                            *width = value;
                        }
                    },
                }
            },
            _ => (),
        }
    }
}

} // verus!
