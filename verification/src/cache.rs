//! The cache of the outer terminal's colors.
//!
//! The cache holds the colors that the last completed query found, and
//! whether any query has completed at all. It is an ordinary value: a program
//! that shares it between threads keeps it behind a lock of its own, and a
//! writer then replaces both colors in one step.

use crate::colors::{Rgb, TerminalColors};
use vstd::prelude::*;

verus! {

/// What `get_outer_fg` returns while the foreground is unknown: white.
pub const FALLBACK_FOREGROUND: Rgb = (255, 255, 255);

/// What `get_outer_bg` returns while the background is unknown: a dark gray.
pub const FALLBACK_BACKGROUND: Rgb = (53, 55, 49);

/// The mathematical content of a cache.
pub ghost struct CacheState {
    /// The foreground color last stored, if one is known.
    pub foreground: Option<Rgb>,
    /// The background color last stored, if one is known.
    pub background: Option<Rgb>,
    /// Whether colors were ever stored.
    pub initialized: bool,
}

impl CacheState {
    /// The cache at the start of the process: nothing known, nothing stored.
    pub open spec fn empty() -> CacheState {
        CacheState { foreground: None, background: None, initialized: false }
    }

    /// The cache after `colors` were stored in it. Both colors are replaced,
    /// also by an unknown one, and the cache counts as initialized from then
    /// on.
    pub open spec fn store(self, colors: TerminalColors) -> CacheState {
        CacheState {
            foreground: colors.foreground,
            background: colors.background,
            initialized: true,
        }
    }

    /// The colors that the cache holds.
    pub open spec fn colors(self) -> TerminalColors {
        TerminalColors { foreground: self.foreground, background: self.background }
    }

    /// The foreground color, or white while it is unknown.
    pub open spec fn foreground_or_fallback(self) -> Rgb {
        match self.foreground {
            Some(color) => color,
            None => FALLBACK_FOREGROUND,
        }
    }

    /// The background color, or dark gray while it is unknown.
    pub open spec fn background_or_fallback(self) -> Rgb {
        match self.background {
            Some(color) => color,
            None => FALLBACK_BACKGROUND,
        }
    }

    /// A cache in which nothing was stored knows no color.
    pub open spec fn wf(self) -> bool {
        !self.initialized ==> self.foreground is None && self.background is None
    }

    /// The cache after each of `writes` was stored in it, in order.
    pub open spec fn store_all(self, writes: Seq<TerminalColors>) -> CacheState
        decreases writes.len(),
    {
        if writes.len() == 0 {
            self
        } else {
            self.store_all(writes.drop_last()).store(writes.last())
        }
    }
}

/// The last known colors of the outer terminal.
#[derive(Debug)]
pub struct ColorCache {
    foreground: Option<Rgb>,
    background: Option<Rgb>,
    initialized: bool,
}

impl View for ColorCache {
    type V = CacheState;

    closed spec fn view(&self) -> CacheState {
        CacheState {
            foreground: self.foreground,
            background: self.background,
            initialized: self.initialized,
        }
    }
}

impl ColorCache {
    /// An empty cache, as it is at the start of the process.
    pub fn new() -> (cache: ColorCache)
        ensures
            cache@ == CacheState::empty(),
            cache@.wf(),
    {
        ColorCache { foreground: None, background: None, initialized: false }
    }
}

/// The colors in the cache, each `None` while unknown.
pub fn get_outer_colors(cache: &ColorCache) -> (colors: TerminalColors)
    ensures
        colors == cache@.colors(),
{
    TerminalColors { foreground: cache.foreground, background: cache.background }
}

/// The outer terminal's foreground color, or white while it is unknown.
pub fn get_outer_fg(cache: &ColorCache) -> (color: Rgb)
    ensures
        color == cache@.foreground_or_fallback(),
{
    match cache.foreground {
        Some(color) => color,
        None => FALLBACK_FOREGROUND,
    }
}

/// The outer terminal's background color, or dark gray while it is unknown.
pub fn get_outer_bg(cache: &ColorCache) -> (color: Rgb)
    ensures
        color == cache@.background_or_fallback(),
{
    match cache.background {
        Some(color) => color,
        None => FALLBACK_BACKGROUND,
    }
}

/// Stores `colors` in the cache and marks it initialized.
pub fn set_outer_colors(cache: &mut ColorCache, colors: TerminalColors)
    ensures
        final(cache)@ == old(cache)@.store(colors),
        final(cache)@.wf(),
{
    cache.foreground = colors.foreground;
    cache.background = colors.background;
    cache.initialized = true;
}

/// Whether colors were ever stored in the cache.
pub fn colors_initialized(cache: &ColorCache) -> (initialized: bool)
    ensures
        initialized == cache@.initialized,
{
    cache.initialized
}

/// The empty cache is well-formed, and storing keeps a cache so.
pub proof fn lemma_cache_stays_well_formed(cache: CacheState, colors: TerminalColors)
    ensures
        CacheState::empty().wf(),
        cache.store(colors).wf(),
{
}

/// While nothing was stored, the cache gives no color, and the two readers
/// with a fallback give white and dark gray.
pub proof fn lemma_fallbacks_before_first_store(cache: CacheState)
    requires
        cache.wf(),
        !cache.initialized,
    ensures
        cache.colors() == TerminalColors::unknown(),
        cache.foreground_or_fallback() == (255u8, 255u8, 255u8),
        cache.background_or_fallback() == (53u8, 55u8, 49u8),
{
}

/// After a store the cache is initialized and gives back exactly the colors
/// that were stored, whatever it held before; a color that was stored is
/// what the reader with a fallback gives.
pub proof fn lemma_store_then_read(cache: CacheState, colors: TerminalColors)
    ensures
        cache.store(colors).initialized,
        cache.store(colors).colors() == colors,
        colors.foreground matches Some(c) ==> cache.store(colors).foreground_or_fallback() == c,
        colors.background matches Some(c) ==> cache.store(colors).background_or_fallback() == c,
{
}

/// Once initialized, always initialized: no sequence of stores resets the
/// flag, and after at least one store the cache holds the last colors stored.
pub proof fn lemma_initialized_for_good(cache: CacheState, writes: Seq<TerminalColors>)
    ensures
        cache.initialized ==> cache.store_all(writes).initialized,
        writes.len() > 0 ==> cache.store_all(writes).initialized && cache.store_all(
            writes,
        ).colors() == writes.last(),
        cache.wf() ==> cache.store_all(writes).wf(),
    decreases writes.len(),
{
    if writes.len() > 0 {
        lemma_initialized_for_good(cache, writes.drop_last());
    }
}

} // verus!
