use tabssh::color::Color;
use tabssh::themes::{ColorTheme, Theme, ThemeColors};

#[test]
fn builtin_themes_in_order() {
    let names: Vec<String> = Theme::builtin_themes().into_iter().map(|t| t.name).collect();
    assert_eq!(
        names,
        vec![
            "Dracula", "Solarized Dark", "Solarized Light", "Nord", "Monokai", "One Dark", "Gruvbox",
            "Tomorrow Night", "High Contrast",
        ]
    );
    assert_eq!(ColorTheme::all().len(), 9);
    assert_eq!(ColorTheme::default(), ColorTheme::Dracula);
}

#[test]
fn theme_colors() {
    let d = Theme::dracula();
    assert_eq!(d.background_color(), Color::rgb(40, 42, 54));
    assert_eq!(d.foreground_color(), Color::rgb(248, 248, 242));
    assert_eq!(d.ansi[1], [255, 85, 85]);
    assert_eq!(Theme::default().name, "Dracula");
    assert_eq!(ColorTheme::Nord.to_theme().name, Theme::nord().name);
    assert_eq!(ColorTheme::HighContrast.to_theme().ansi, Theme::high_contrast().ansi);
    assert_eq!(ThemeColors::dark().primary, [59, 130, 246]);
    assert_eq!(ThemeColors::light().bg_primary, [255, 255, 255]);
}
