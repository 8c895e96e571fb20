//! Presentation settings of a text label, and what a label does when they change.

use vstd::prelude::*;

verus! {

/// How a label treats lines longer than its width.
#[derive(Debug, Clone, Copy, PartialEq, Eq, Structural)]
pub enum LineBreaking {
    /// Lines are broken at word boundaries.
    WordWrap,
    /// Lines are truncated to the width of the label.
    Clip,
    /// Lines may overflow the label.
    Overflow,
}

/// How text is placed within a line.
#[derive(Debug, Clone, Copy, PartialEq, Eq, Structural)]
pub enum TextAlignment {
    Start,
    End,
    Center,
    Justified,
}

impl Default for TextAlignment {
    fn default() -> (r: Self)
        ensures
            r == TextAlignment::Start,
    {
        TextAlignment::Start
    }
}

/// The two presentation settings a label follows.
#[derive(Debug, Clone, Copy, PartialEq, Eq, Structural)]
pub struct TextOptions {
    pub line_break_mode: LineBreaking,
    pub alignment: TextAlignment,
}

/// A step a label takes to follow its settings.
#[derive(Debug, Clone, Copy, PartialEq, Eq, Structural)]
pub enum LabelAction {
    SetLineBreakMode(LineBreaking),
    SetTextAlignment(TextAlignment),
    /// Ask the toolkit to lay the label out again.
    RequestLayout,
}

/// The steps taken when the settings go from `old` to `new`: for each
/// setting that changed, in the order line breaking then alignment, set it
/// and request a new layout.
pub open spec fn spec_update_actions(old: TextOptions, new: TextOptions) -> Seq<LabelAction> {
    (if old.line_break_mode != new.line_break_mode {
        seq![LabelAction::SetLineBreakMode(new.line_break_mode), LabelAction::RequestLayout]
    } else {
        Seq::empty()
    }) + (if old.alignment != new.alignment {
        seq![LabelAction::SetTextAlignment(new.alignment), LabelAction::RequestLayout]
    } else {
        Seq::empty()
    })
}

/// Keeps a label's line breaking and alignment in step with the settings.
#[derive(Debug, Clone, Copy, PartialEq, Eq, Structural)]
pub struct LabelController;

impl LabelController {
    /// The steps the label takes when the settings go from `old_data` to `data`.
    pub fn update(&self, old_data: &TextOptions, data: &TextOptions) -> (r: Vec<LabelAction>)
        ensures
            r@ == spec_update_actions(*old_data, *data),
    {
        let mut actions: Vec<LabelAction> = Vec::new();
        if old_data.line_break_mode != data.line_break_mode {
            actions.push(LabelAction::SetLineBreakMode(data.line_break_mode));
            actions.push(LabelAction::RequestLayout);
        }
        if old_data.alignment != data.alignment {
            actions.push(LabelAction::SetTextAlignment(data.alignment));
            actions.push(LabelAction::RequestLayout);
        }
        proof {
            assert(actions@ =~= spec_update_actions(*old_data, *data));
        }
        actions
    }
}

} // verus!
