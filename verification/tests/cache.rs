use outer_colors::{
    colors_initialized, get_outer_bg, get_outer_colors, get_outer_fg, set_outer_colors,
    ColorCache, TerminalColors,
};

#[test]
fn fresh_cache_gives_fallbacks() {
    let cache = ColorCache::new();
    assert!(!colors_initialized(&cache));
    assert_eq!(get_outer_fg(&cache), (255, 255, 255));
    assert_eq!(get_outer_bg(&cache), (53, 55, 49));
    let colors = get_outer_colors(&cache);
    assert_eq!(colors.foreground, None);
    assert_eq!(colors.background, None);
}

#[test]
fn default_colors_are_unknown() {
    let colors = TerminalColors::default();
    assert_eq!(colors.foreground, None);
    assert_eq!(colors.background, None);
}

#[test]
fn stored_colors_are_read_back() {
    let mut cache = ColorCache::new();
    let colors = TerminalColors { foreground: Some((1, 2, 3)), background: Some((4, 5, 6)) };
    set_outer_colors(&mut cache, colors);
    assert!(colors_initialized(&cache));
    assert_eq!(get_outer_colors(&cache), colors);
    assert_eq!(get_outer_fg(&cache), (1, 2, 3));
    assert_eq!(get_outer_bg(&cache), (4, 5, 6));
}

#[test]
fn stored_unknown_color_falls_back() {
    let mut cache = ColorCache::new();
    set_outer_colors(
        &mut cache,
        TerminalColors { foreground: None, background: Some((0, 0, 0)) },
    );
    assert!(colors_initialized(&cache));
    assert_eq!(get_outer_fg(&cache), (255, 255, 255));
    assert_eq!(get_outer_bg(&cache), (0, 0, 0));
    set_outer_colors(
        &mut cache,
        TerminalColors { foreground: Some((9, 9, 9)), background: None },
    );
    assert_eq!(get_outer_fg(&cache), (9, 9, 9));
    assert_eq!(get_outer_bg(&cache), (53, 55, 49));
}

#[test]
fn later_store_overwrites_and_flag_stays() {
    let mut cache = ColorCache::new();
    set_outer_colors(
        &mut cache,
        TerminalColors { foreground: Some((1, 2, 3)), background: Some((4, 5, 6)) },
    );
    set_outer_colors(&mut cache, TerminalColors::default());
    assert!(colors_initialized(&cache));
    assert_eq!(get_outer_colors(&cache), TerminalColors::default());
    assert_eq!(get_outer_fg(&cache), (255, 255, 255));
    assert_eq!(get_outer_bg(&cache), (53, 55, 49));
}
