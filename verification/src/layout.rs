//! The form the panel is built as: one labelled row for each field.

use crate::brush::OPTION_COUNT;
use crate::message::WidgetHandle;
use crate::scalar::{Scalar, LARGEST, TENTH, ZERO};
use crate::section::Widgets;
use vstd::prelude::*;

verus! {

/// Number of rows in the form.
pub const ROW_COUNT: usize = 5;

/// Column of the form that holds the labels.
pub const LABEL_COLUMN: usize = 0;

/// Column of the form that holds the input widgets.
pub const CONTROL_COLUMN: usize = 1;

/// Number of columns in the form.
pub const COLUMN_COUNT: usize = 2;

/// How a column of the form takes its width.
#[derive(Clone, Copy, Debug, PartialEq, Eq, Structural)]
pub enum Extent {
    /// A width that is set once.
    Fixed,
    /// Whatever width the other columns leave.
    Stretch,
}

/// How column `column` takes its width: the labels stand in a column of
/// fixed width, and the input widgets take the rest.
pub open spec fn spec_column_extent(column: usize) -> Extent
    recommends
        column < COLUMN_COUNT,
{
    if column == LABEL_COLUMN {
        Extent::Fixed
    } else {
        Extent::Stretch
    }
}

/// How column `column` of the form takes its width.
#[verifier::when_used_as_spec(spec_column_extent)]
pub fn column_extent(column: usize) -> (extent: Extent)
    requires
        column < COLUMN_COUNT,
    ensures
        extent == spec_column_extent(column),
{
    if column == LABEL_COLUMN {
        Extent::Fixed
    } else {
        Extent::Stretch
    }
}

/// A field of the form, named by what it edits.
#[derive(Clone, Copy, Debug, PartialEq, Eq, Hash, Structural)]
pub enum Field {
    Kind,
    Mode,
    Width,
    Length,
    Radius,
}

/// The widget a field is edited with, and how that widget starts out.
#[derive(Clone, Copy, Debug, PartialEq, Eq, Structural)]
pub enum Control {
    /// A dropdown list of `options` entries that opens with entry `selected`.
    DropdownList { options: usize, selected: usize },
    /// A numeric field that holds a number from `min` to `max` and moves it
    /// by `step`.
    NumericField { min: Scalar, max: Scalar, step: Scalar },
}

impl Field {
    /// The field of row `row`, counted from the top.
    pub open spec fn spec_at_row(row: usize) -> Option<Field> {
        if row == 0 {
            Some(Field::Kind)
        } else if row == 1 {
            Some(Field::Mode)
        } else if row == 2 {
            Some(Field::Width)
        } else if row == 3 {
            Some(Field::Length)
        } else if row == 4 {
            Some(Field::Radius)
        } else {
            None
        }
    }

    /// The row of the field, counted from the top.
    pub open spec fn spec_row(&self) -> usize {
        match self {
            Field::Kind => 0,
            Field::Mode => 1,
            Field::Width => 2,
            Field::Length => 3,
            Field::Radius => 4,
        }
    }

    /// The text of the field's label. The length of a rectangle is shown to
    /// the user as its height.
    pub open spec fn label_text(&self) -> Seq<char> {
        match self {
            Field::Kind => "Brush Kind"@,
            Field::Mode => "Brush Mode"@,
            Field::Width => "Brush Width"@,
            Field::Length => "Brush Height"@,
            Field::Radius => "Brush Radius"@,
        }
    }

    /// The widget of the field. The two selectors are dropdown lists that
    /// open with their first entry; the three measures are numeric fields
    /// for numbers from `0.0` to the largest finite one, in steps of `0.1`.
    pub open spec fn spec_control(&self) -> Control {
        match self {
            Field::Kind | Field::Mode => Control::DropdownList {
                options: OPTION_COUNT,
                selected: 0,
            },
            Field::Width | Field::Length | Field::Radius => Control::NumericField {
                min: Scalar { bits: ZERO },
                max: Scalar { bits: LARGEST },
                step: Scalar { bits: TENTH },
            },
        }
    }

    /// Whether the field is edited with a dropdown list.
    pub open spec fn is_dropdown(&self) -> bool {
        self.spec_control() is DropdownList
    }

    /// The text of entry `index` of the field's dropdown list.
    pub open spec fn option_text(&self, index: usize) -> Seq<char>
        recommends
            self.is_dropdown(),
            index < OPTION_COUNT,
    {
        match self {
            Field::Kind => if index == 0 {
                "Circle"@
            } else {
                "Rectangle"@
            },
            _ => if index == 0 {
                "Modify Height Map"@
            } else {
                "Draw On Mask"@
            },
        }
    }

    /// The field of row `row`, if the form has such a row.
    #[verifier::when_used_as_spec(spec_at_row)]
    pub fn at_row(row: usize) -> (field: Option<Field>)
        ensures
            field == Field::spec_at_row(row),
            field is Some <==> row < ROW_COUNT,
            field matches Some(f) ==> f.spec_row() == row,
    {
        if row == 0 {
            Some(Field::Kind)
        } else if row == 1 {
            Some(Field::Mode)
        } else if row == 2 {
            Some(Field::Width)
        } else if row == 3 {
            Some(Field::Length)
        } else if row == 4 {
            Some(Field::Radius)
        } else {
            None
        }
    }

    /// The row of the field, counted from the top.
    #[verifier::when_used_as_spec(spec_row)]
    pub fn row(&self) -> (row: usize)
        ensures
            row == self.spec_row(),
            row < ROW_COUNT,
            Field::spec_at_row(row) == Some(*self),
    {
        match self {
            Field::Kind => 0,
            Field::Mode => 1,
            Field::Width => 2,
            Field::Length => 3,
            Field::Radius => 4,
        }
    }

    /// The text of the field's label.
    pub fn label(&self) -> (text: &'static str)
        ensures
            text@ == self.label_text(),
    {
        match self {
            Field::Kind => "Brush Kind",
            Field::Mode => "Brush Mode",
            Field::Width => "Brush Width",
            Field::Length => "Brush Height",
            Field::Radius => "Brush Radius",
        }
    }

    /// The widget of the field, and how it starts out.
    #[verifier::when_used_as_spec(spec_control)]
    pub fn control(&self) -> (control: Control)
        ensures
            control == self.spec_control(),
    {
        match self {
            Field::Kind | Field::Mode => Control::DropdownList {
                options: OPTION_COUNT,
                selected: 0,
            },
            Field::Width | Field::Length | Field::Radius => Control::NumericField {
                min: Scalar { bits: ZERO },
                max: Scalar { bits: LARGEST },
                step: Scalar { bits: TENTH },
            },
        }
    }

    /// The text of entry `index` of the field's dropdown list.
    pub fn option(&self, index: usize) -> (text: &'static str)
        requires
            self.is_dropdown(),
            index < OPTION_COUNT,
        ensures
            text@ == self.option_text(index),
    {
        match self {
            Field::Kind => if index == 0 {
                "Circle"
            } else {
                "Rectangle"
            },
            _ => if index == 0 {
                "Modify Height Map"
            } else {
                "Draw On Mask"
            },
        }
    }
}

impl Widgets {
    /// The widgets of a form whose input widgets are `rows`, from the top
    /// row down: each field is edited by the widget in its row.
    pub fn from_rows(rows: [WidgetHandle; ROW_COUNT]) -> (widgets: Widgets)
        ensures
            forall|field: Field| #[trigger]
                widgets.spec_of(field) == rows@[field.spec_row() as int],
    {
        Widgets {
            kind: rows[Field::Kind.row()],
            mode: rows[Field::Mode.row()],
            width: rows[Field::Width.row()],
            length: rows[Field::Length.row()],
            radius: rows[Field::Radius.row()],
        }
    }

    /// The widget that edits `field`.
    pub open spec fn spec_of(&self, field: Field) -> WidgetHandle {
        match field {
            Field::Kind => self.kind,
            Field::Mode => self.mode,
            Field::Width => self.width,
            Field::Length => self.length,
            Field::Radius => self.radius,
        }
    }

    /// The widget that edits `field`.
    #[verifier::when_used_as_spec(spec_of)]
    pub fn of(&self, field: Field) -> (handle: WidgetHandle)
        ensures
            handle == self.spec_of(field),
    {
        match field {
            Field::Kind => self.kind,
            Field::Mode => self.mode,
            Field::Width => self.width,
            Field::Length => self.length,
            Field::Radius => self.radius,
        }
    }
}

} // verus!
