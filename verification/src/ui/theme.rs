//! The colour themes.

use vstd::prelude::*;

verus! {

/// A colour, by its red, green and blue parts.
#[derive(Debug, Clone, Copy, PartialEq, Eq, Structural)]
pub struct Rgb {
    pub r: u8,
    pub g: u8,
    pub b: u8,
}

/// The colours of the screen.
#[derive(Debug, Clone, Copy, PartialEq, Eq, Structural)]
pub struct Theme {
    pub focus_color: Rgb,
    pub short_break_color: Rgb,
    pub long_break_color: Rgb,
    pub paused_color: Rgb,
    pub background: Rgb,
    pub text: Rgb,
    pub border: Rgb,
}

/// What `str::to_lowercase` of the standard library makes of a text: its
/// lowercase form by the rules of Unicode.
pub uninterp spec fn lowercase_of(text: Seq<char>) -> Seq<char>;

/// `str::to_lowercase` of the standard library. The result depends on the
/// text alone; it is known here by its name only.
#[verifier::external_body]
fn to_lowercase(text: &str) -> (lower: String)
    ensures
        lower@ == lowercase_of(text@),
{
    text.to_lowercase()
}

impl Theme {
    /// The colours of the theme `nord`.
    pub open spec fn nord_colors() -> Theme {
        Theme {
            focus_color: Rgb { r: 191, g: 97, b: 106 },
            short_break_color: Rgb { r: 163, g: 190, b: 140 },
            long_break_color: Rgb { r: 129, g: 161, b: 193 },
            paused_color: Rgb { r: 216, g: 222, b: 233 },
            background: Rgb { r: 46, g: 52, b: 64 },
            text: Rgb { r: 236, g: 239, b: 244 },
            border: Rgb { r: 76, g: 86, b: 106 },
        }
    }

    /// The colours of the theme `catppuccin`.
    pub open spec fn catppuccin_colors() -> Theme {
        Theme {
            focus_color: Rgb { r: 243, g: 139, b: 168 },
            short_break_color: Rgb { r: 166, g: 227, b: 161 },
            long_break_color: Rgb { r: 137, g: 180, b: 250 },
            paused_color: Rgb { r: 186, g: 194, b: 222 },
            background: Rgb { r: 30, g: 30, b: 46 },
            text: Rgb { r: 205, g: 214, b: 244 },
            border: Rgb { r: 88, g: 91, b: 112 },
        }
    }

    /// The colours of the theme `classic`.
    pub open spec fn classic_colors() -> Theme {
        Theme {
            focus_color: Rgb { r: 220, g: 53, b: 69 },
            short_break_color: Rgb { r: 40, g: 167, b: 69 },
            long_break_color: Rgb { r: 0, g: 123, b: 255 },
            paused_color: Rgb { r: 108, g: 117, b: 125 },
            background: Rgb { r: 33, g: 37, b: 41 },
            text: Rgb { r: 248, g: 249, b: 250 },
            border: Rgb { r: 73, g: 80, b: 87 },
        }
    }

    /// The theme that a name in lowercase stands for: `catppuccin` or
    /// `mocha`, `classic` or `tomato`; any other name stands for `nord`.
    pub open spec fn for_lowercase(lower: Seq<char>) -> Theme {
        if lower == "catppuccin"@ || lower == "mocha"@ {
            Theme::catppuccin_colors()
        } else if lower == "classic"@ || lower == "tomato"@ {
            Theme::classic_colors()
        } else {
            Theme::nord_colors()
        }
    }

    pub fn nord() -> (theme: Theme)
        ensures
            theme == Theme::nord_colors(),
    {
        Theme {
            focus_color: Rgb { r: 191, g: 97, b: 106 },
            short_break_color: Rgb { r: 163, g: 190, b: 140 },
            long_break_color: Rgb { r: 129, g: 161, b: 193 },
            paused_color: Rgb { r: 216, g: 222, b: 233 },
            background: Rgb { r: 46, g: 52, b: 64 },
            text: Rgb { r: 236, g: 239, b: 244 },
            border: Rgb { r: 76, g: 86, b: 106 },
        }
    }

    pub fn catppuccin() -> (theme: Theme)
        ensures
            theme == Theme::catppuccin_colors(),
    {
        Theme {
            focus_color: Rgb { r: 243, g: 139, b: 168 },
            short_break_color: Rgb { r: 166, g: 227, b: 161 },
            long_break_color: Rgb { r: 137, g: 180, b: 250 },
            paused_color: Rgb { r: 186, g: 194, b: 222 },
            background: Rgb { r: 30, g: 30, b: 46 },
            text: Rgb { r: 205, g: 214, b: 244 },
            border: Rgb { r: 88, g: 91, b: 112 },
        }
    }

    pub fn classic() -> (theme: Theme)
        ensures
            theme == Theme::classic_colors(),
    {
        Theme {
            focus_color: Rgb { r: 220, g: 53, b: 69 },
            short_break_color: Rgb { r: 40, g: 167, b: 69 },
            long_break_color: Rgb { r: 0, g: 123, b: 255 },
            paused_color: Rgb { r: 108, g: 117, b: 125 },
            background: Rgb { r: 33, g: 37, b: 41 },
            text: Rgb { r: 248, g: 249, b: 250 },
            border: Rgb { r: 73, g: 80, b: 87 },
        }
    }

    /// The theme of the given name, whatever the case of its letters.
    pub fn from_name(name: &str) -> (theme: Theme)
        ensures
            theme == Theme::for_lowercase(lowercase_of(name@)),
    {
        let lower = to_lowercase(name);
        Theme::from_lowercase_name(lower.as_str())
    }

    /// The theme of a name that is in lowercase already.
    pub fn from_lowercase_name(lower: &str) -> (theme: Theme)
        ensures
            theme == Theme::for_lowercase(lower@),
    {
        let name = lower.to_string();
        if name == "catppuccin".to_string() || name == "mocha".to_string() {
            Theme::catppuccin()
        } else if name == "classic".to_string() || name == "tomato".to_string() {
            Theme::classic()
        } else {
            Theme::nord()
        }
    }
}

} // verus!
