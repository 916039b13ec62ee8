use vstd::prelude::*;

use crate::button::{ButtonStyle, ButtonStyleSheet};
use crate::display::{Color, Font};

verus! {

/// The monochrome theme: white foreground on black background.
pub open spec fn spec_fg() -> Color {
    Color { rgb565: 0xffff }
}

pub open spec fn spec_bg() -> Color {
    Color { rgb565: 0x0000 }
}

pub fn fg() -> (c: Color)
    ensures
        c == spec_fg(),
{
    Color { rgb565: 0xffff }
}

pub fn bg() -> (c: Color)
    ensures
        c == spec_bg(),
{
    Color { rgb565: 0x0000 }
}

/// The default button look: white label on black, thin white border.
pub open spec fn spec_button_default() -> ButtonStyleSheet {
    ButtonStyleSheet {
        normal: ButtonStyle {
            font: Font::Bold,
            text_color: spec_fg(),
            button_color: spec_bg(),
            background_color: spec_bg(),
            border_color: spec_fg(),
            border_radius: 2,
            border_width: 1,
        },
        active: ButtonStyle {
            font: Font::Bold,
            text_color: spec_bg(),
            button_color: spec_fg(),
            background_color: spec_bg(),
            border_color: spec_fg(),
            border_radius: 2,
            border_width: 1,
        },
        disabled: ButtonStyle {
            font: Font::Bold,
            text_color: spec_fg(),
            button_color: spec_bg(),
            background_color: spec_bg(),
            border_color: spec_bg(),
            border_radius: 2,
            border_width: 1,
        },
    }
}

/// The cancel button look: inverted label, no border.
pub open spec fn spec_button_cancel() -> ButtonStyleSheet {
    ButtonStyleSheet {
        normal: ButtonStyle {
            font: Font::Bold,
            text_color: spec_bg(),
            button_color: spec_fg(),
            background_color: spec_bg(),
            border_color: spec_bg(),
            border_radius: 2,
            border_width: 0,
        },
        active: ButtonStyle {
            font: Font::Bold,
            text_color: spec_fg(),
            button_color: spec_bg(),
            background_color: spec_bg(),
            border_color: spec_fg(),
            border_radius: 2,
            border_width: 0,
        },
        disabled: ButtonStyle {
            font: Font::Bold,
            text_color: spec_bg(),
            button_color: spec_fg(),
            background_color: spec_bg(),
            border_color: spec_bg(),
            border_radius: 2,
            border_width: 0,
        },
    }
}

pub fn button_default() -> (r: ButtonStyleSheet)
    ensures
        r == spec_button_default(),
        r.wf(),
{
    ButtonStyleSheet {
        normal: ButtonStyle {
            font: Font::Bold,
            text_color: fg(),
            button_color: bg(),
            background_color: bg(),
            border_color: fg(),
            border_radius: 2,
            border_width: 1,
        },
        active: ButtonStyle {
            font: Font::Bold,
            text_color: bg(),
            button_color: fg(),
            background_color: bg(),
            border_color: fg(),
            border_radius: 2,
            border_width: 1,
        },
        disabled: ButtonStyle {
            font: Font::Bold,
            text_color: fg(),
            button_color: bg(),
            background_color: bg(),
            border_color: bg(),
            border_radius: 2,
            border_width: 1,
        },
    }
}

pub fn button_cancel() -> (r: ButtonStyleSheet)
    ensures
        r == spec_button_cancel(),
        r.wf(),
{
    ButtonStyleSheet {
        normal: ButtonStyle {
            font: Font::Bold,
            text_color: bg(),
            button_color: fg(),
            background_color: bg(),
            border_color: bg(),
            border_radius: 2,
            border_width: 0,
        },
        active: ButtonStyle {
            font: Font::Bold,
            text_color: fg(),
            button_color: bg(),
            background_color: bg(),
            border_color: fg(),
            border_radius: 2,
            border_width: 0,
        },
        disabled: ButtonStyle {
            font: Font::Bold,
            text_color: bg(),
            button_color: fg(),
            background_color: bg(),
            border_color: bg(),
            border_radius: 2,
            border_width: 0,
        },
    }
}

} // verus!
