//! The colour schemes that the explorer offers by name.

use vstd::prelude::*;

verus! {

/// Built-in colour scheme of the explorer.
#[derive(Debug, Clone, Copy, PartialEq, Eq, Structural)]
pub enum ColorScheme {
    Default,
    Fire,
    Ocean,
    Grayscale,
    Rainbow,
}

impl ColorScheme {
    /// Every scheme, in menu order.
    pub const ALL: [ColorScheme; 5] = [
        ColorScheme::Default,
        ColorScheme::Fire,
        ColorScheme::Ocean,
        ColorScheme::Grayscale,
        ColorScheme::Rainbow,
    ];

    /// The name of the scheme, which is also the name of its built-in colormap.
    pub open spec fn spec_name(self) -> Seq<char> {
        match self {
            ColorScheme::Default => "Default"@,
            ColorScheme::Fire => "Fire"@,
            ColorScheme::Ocean => "Ocean"@,
            ColorScheme::Grayscale => "Grayscale"@,
            ColorScheme::Rainbow => "Rainbow"@,
        }
    }

    pub fn as_str(&self) -> (r: &'static str)
        ensures
            r@ == self.spec_name(),
    {
        match self {
            ColorScheme::Default => "Default",
            ColorScheme::Fire => "Fire",
            ColorScheme::Ocean => "Ocean",
            ColorScheme::Grayscale => "Grayscale",
            ColorScheme::Rainbow => "Rainbow",
        }
    }
}

} // verus!
