use vstd::prelude::*;

verus! {

/// Everything that can go wrong while resolving a theme.
///
/// `EnvironmentMissing` and the two parse errors are fatal for the caller;
/// a selection-file problem is recovered by falling back to the light theme.
#[derive(Clone, Copy, Debug, PartialEq, Eq, Structural)]
pub enum ThemeError {
    /// Neither of the configuration environment variables was available.
    EnvironmentMissing,
    /// The palette file is malformed or misses a required field.
    PaletteParseError,
    /// A palette entry is not a six-digit hex color string.
    ColorFormatError,
    /// The selection file is malformed or misses the theme field.
    SelectionParseError,
}

} // verus!
