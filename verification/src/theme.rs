//! Color themes for the rendered document.

use vstd::prelude::*;
use vstd::string::*;

verus! {

/// What str::to_lowercase returns for the given characters: it depends on
/// the characters alone.
pub uninterp spec fn lower_of(s: Seq<char>) -> Seq<char>;

/// Relies on str::to_lowercase: the result is a function of the characters
/// alone.
#[verifier::external_body]
fn lowercase(s: &str) -> (r: String)
    ensures
        r@ == lower_of(s@),
{
    s.to_lowercase()
}

/// A named pair of background/foreground colors for the HTML document.
#[derive(Clone, Copy, Debug, PartialEq, Eq, Structural)]
pub enum Theme {
    Light,
    Dark,
}

impl Theme {
    /// The CSS background color of this theme.
    pub open spec fn background_color_spec(self) -> Seq<char> {
        match self {
            Theme::Light => "#ffffff"@,
            Theme::Dark => "#1e1e1e"@,
        }
    }

    /// The CSS text color of this theme.
    pub open spec fn text_color_spec(self) -> Seq<char> {
        match self {
            Theme::Light => "#24292e"@,
            Theme::Dark => "#d4d4d4"@,
        }
    }

    pub fn background_color(&self) -> (r: &'static str)
        ensures
            r@ == self.background_color_spec(),
    {
        match self {
            Theme::Light => "#ffffff",
            Theme::Dark => "#1e1e1e",
        }
    }

    pub fn text_color(&self) -> (r: &'static str)
        ensures
            r@ == self.text_color_spec(),
    {
        match self {
            Theme::Light => "#24292e",
            Theme::Dark => "#d4d4d4",
        }
    }

    /// The theme a lowercased selector names, if any.
    pub open spec fn for_name_spec(lowered: Seq<char>) -> Option<Theme> {
        if lowered == "light"@ {
            Some(Theme::Light)
        } else if lowered == "dark"@ {
            Some(Theme::Dark)
        } else {
            None
        }
    }

    /// Looks an already-lowercased selector up among the theme names.
    pub fn for_name(lowered: &str) -> (r: Option<Theme>)
        ensures
            r == Theme::for_name_spec(lowered@),
    {
        let l = String::from_str(lowered);
        if l == String::from_str("light") {
            Some(Theme::Light)
        } else if l == String::from_str("dark") {
            Some(Theme::Dark)
        } else {
            None
        }
    }

    /// Parses a theme selector, case-insensitively: exactly the lowercased
    /// names `light` and `dark` are accepted; anything else is rejected with
    /// a message naming the offending selector and the valid options.
    pub fn parse(s: &str) -> (r: Result<Theme, String>)
        ensures
            Theme::for_name_spec(lower_of(s@)) matches Some(t) ==> r == Ok::<Theme, String>(t),
            Theme::for_name_spec(lower_of(s@)) is None ==> (r matches Err(m) && m@
                == "Invalid theme '"@ + s@ + "'. Valid options: light, dark"@),
    {
        let lowered = lowercase(s);
        match Theme::for_name(lowered.as_str()) {
            Some(t) => Ok(t),
            None => {
                let mut msg = String::from_str("Invalid theme '");
                msg.append(s);
                msg.append("'. Valid options: light, dark");
                Err(msg)
            },
        }
    }
}

} // verus!
