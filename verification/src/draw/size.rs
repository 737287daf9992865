//! The room that texts ask for

use vstd::prelude::*;

verus! {

/// The kind of a text, which decides how much room it asks for
#[derive(Clone, Copy, Debug, PartialEq, Eq, Structural)]
pub enum TextClass {
    /// Label text, which may wrap
    Label,
    /// Label text on a single line
    LabelFixed,
    /// The text of a button
    Button,
    /// The text of a single-line edit box
    Edit,
    /// The text of a multi-line edit box
    EditMulti,
}

/// How readily a widget takes up spare room
#[derive(Clone, Copy, Debug, PartialEq, Eq, Structural)]
pub enum Stretch {
    /// Not at all
    Fixed,
    /// Only where nothing else does
    Filler,
    /// A little
    Low,
}

/// The room that a widget asks for along one axis
#[derive(Clone, Copy, Debug, PartialEq, Eq)]
pub struct SizeRules {
    /// The least size
    pub min: i32,
    /// The size at which the widget looks best
    pub ideal: i32,
    /// The margins before and behind
    pub margins: (u16, u16),
    /// How readily the widget takes up spare room
    pub stretch: Stretch,
}

/// The sizes of a theme that decide the room of a text, in pixels
#[derive(Clone, Copy, Debug, PartialEq, Eq)]
pub struct TextDims {
    /// The height of a line
    pub line_height: i32,
    /// The least length of a line of an edit box
    pub min_line_length: i32,
    /// The best length of a line of an edit box
    pub ideal_line_length: i32,
    /// The margin around a text
    pub text_margin: u16,
}

/// The smaller of two sizes
pub open spec fn spec_least(a: i32, b: i32) -> i32 {
    if a < b {
        a
    } else {
        b
    }
}

/// Three times a size, or the largest size where that is beyond it
pub open spec fn spec_triple(a: i32) -> i32 {
    if 3 * a > i32::MAX {
        i32::MAX
    } else if 3 * a < i32::MIN {
        i32::MIN
    } else {
        (3 * a) as i32
    }
}

impl TextClass {
    /// Is a text of this kind wrapped to the width at hand?
    pub open spec fn spec_wraps(self) -> bool {
        self == TextClass::Label || self == TextClass::EditMulti
    }

    /// Is a text of this kind wrapped to the width at hand?
    #[verifier::when_used_as_spec(spec_wraps)]
    pub fn wraps(self) -> (r: bool)
        ensures
            r == self.spec_wraps(),
    {
        match self {
            TextClass::Label | TextClass::EditMulti => true,
            _ => false,
        }
    }
}

impl TextDims {
    /// The room that a text of kind `class` asks for along the horizontal
    /// axis, where `bound` is the width that the text takes when laid out.
    ///
    /// An edit box asks for the line lengths of the theme, whatever it
    /// holds; any other text for its own width, up to those lengths.
    pub open spec fn horizontal_rules(self, bound: i32, class: TextClass) -> SizeRules {
        let edit = class == TextClass::Edit || class == TextClass::EditMulti;
        SizeRules {
            min: if edit {
                self.min_line_length
            } else {
                spec_least(bound, self.min_line_length)
            },
            ideal: if edit {
                self.ideal_line_length
            } else {
                spec_least(bound, self.ideal_line_length)
            },
            margins: (self.text_margin, self.text_margin),
            stretch: match class {
                TextClass::LabelFixed => Stretch::Fixed,
                TextClass::Button => Stretch::Filler,
                _ => Stretch::Low,
            },
        }
    }

    /// The room that a text of kind `class` asks for along the vertical
    /// axis, where `bound` is the height that the text takes when laid out.
    ///
    /// A label that wraps needs its height; a text on one line the height of
    /// a line, and a multi-line edit box that of three. The best height is
    /// that of the text, where it is more.
    pub open spec fn vertical_rules(self, bound: i32, class: TextClass) -> SizeRules {
        let min = match class {
            TextClass::Label => bound,
            TextClass::EditMulti => spec_triple(self.line_height),
            _ => self.line_height,
        };
        SizeRules {
            min,
            ideal: if bound > min {
                bound
            } else {
                min
            },
            margins: (self.text_margin, self.text_margin),
            stretch: if class == TextClass::EditMulti {
                Stretch::Low
            } else {
                Stretch::Fixed
            },
        }
    }

    /// The room that a text of kind `class` asks for along one axis, where
    /// `bound` is the size that the text takes along that axis when laid
    /// out.
    pub fn text_bound(&self, bound: i32, class: TextClass, horizontal: bool) -> (rules: SizeRules)
        ensures
            rules == (if horizontal {
                self.horizontal_rules(bound, class)
            } else {
                self.vertical_rules(bound, class)
            }),
    {
        let margins = (self.text_margin, self.text_margin);
        if horizontal {
            let (min, ideal) = match class {
                TextClass::Edit | TextClass::EditMulti => (
                    self.min_line_length,
                    self.ideal_line_length,
                ),
                _ => (least(bound, self.min_line_length), least(bound, self.ideal_line_length)),
            };
            let stretch = match class {
                TextClass::LabelFixed => Stretch::Fixed,
                TextClass::Button => Stretch::Filler,
                _ => Stretch::Low,
            };
            SizeRules { min, ideal, margins, stretch }
        } else {
            let min = match class {
                TextClass::Label => bound,
                TextClass::LabelFixed | TextClass::Button | TextClass::Edit => self.line_height,
                TextClass::EditMulti => triple(self.line_height),
            };
            let ideal = if bound > min {
                bound
            } else {
                min
            };
            let stretch = match class {
                TextClass::EditMulti => Stretch::Low,
                _ => Stretch::Fixed,
            };
            SizeRules { min, ideal, margins, stretch }
        }
    }
}

/// Five times a size, or the largest size where that is beyond it
pub open spec fn spec_quintuple(a: i32) -> i32 {
    if 5 * a > i32::MAX {
        i32::MAX
    } else if 5 * a < i32::MIN {
        i32::MIN
    } else {
        (5 * a) as i32
    }
}

/// Half a size, rounded towards zero
pub open spec fn spec_half(a: i32) -> i32 {
    if a >= 0 {
        (a / 2) as i32
    } else {
        (-((-a) / 2)) as i32
    }
}

/// The size of the frame of a menu, along (`vert`) or across the menu,
/// where `frame` is the size of a frame of the theme: half of it along the
/// menu.
pub fn menu_frame(frame: i32, vert: bool) -> (r: i32)
    ensures
        r == (if vert {
            spec_half(frame)
        } else {
            frame
        }),
{
    if !vert {
        frame
    } else if frame >= 0 {
        frame / 2
    } else if frame == i32::MIN {
        -0x4000_0000
    } else {
        -((-frame) / 2)
    }
}

/// The least length of a scroll bar whose handle is `handle` long: three
/// times that.
pub fn scrollbar_length(handle: i32) -> (r: i32)
    ensures
        r == spec_triple(handle),
{
    triple(handle)
}

/// The least length of a slider whose handle is `handle` long: five times
/// that.
pub fn slider_length(handle: i32) -> (r: i32)
    ensures
        r == spec_quintuple(handle),
{
    let wide: i64 = 5 * (handle as i64);
    if wide > i32::MAX as i64 {
        i32::MAX
    } else if wide < i32::MIN as i64 {
        i32::MIN
    } else {
        wide as i32
    }
}

/// The smaller of two sizes
pub fn least(a: i32, b: i32) -> (r: i32)
    ensures
        r == spec_least(a, b),
{
    if a < b {
        a
    } else {
        b
    }
}

/// Three times a size, or the largest size where that is beyond it
pub fn triple(a: i32) -> (r: i32)
    ensures
        r == spec_triple(a),
{
    let wide: i64 = 3 * (a as i64);
    if wide > i32::MAX as i64 {
        i32::MAX
    } else if wide < i32::MIN as i64 {
        i32::MIN
    } else {
        wide as i32
    }
}

} // verus!
