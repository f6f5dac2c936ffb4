//! The values that the rest of the crate passes around.

use vstd::prelude::*;

verus! {

/// An 8-bit red, green and blue triple.
pub type Rgb = (u8, u8, u8);

/// Foreground and background color of the outer terminal.
///
/// `None` means that a color is not known: it was never asked for, or the
/// terminal gave no usable answer. It is distinct from every color.
#[derive(Debug, Clone, Copy, PartialEq, Eq)]
pub struct TerminalColors {
    pub foreground: Option<Rgb>,
    pub background: Option<Rgb>,
}

impl TerminalColors {
    /// The value in which neither color is known.
    pub open spec fn unknown() -> TerminalColors {
        TerminalColors { foreground: None, background: None }
    }
}

impl Default for TerminalColors {
    fn default() -> (colors: TerminalColors)
        ensures
            colors == TerminalColors::unknown(),
    {
        TerminalColors { foreground: None, background: None }
    }
}

/// Message sent when the theme of the outer terminal may have changed.
///
/// It carries the colors that were cached at the moment the notification
/// was observed, that is before any new query: its purpose is to wake the
/// consumer, which then asks the terminal again.
#[derive(Debug, Clone, Copy, PartialEq, Eq)]
pub struct ThemeChangeEvent {
    pub colors: TerminalColors,
}

} // verus!
