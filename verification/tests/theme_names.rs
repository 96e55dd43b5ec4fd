use vtcode_core::ui::theme::{
    active_theme_id, active_theme_label, available_themes, ensure_theme, resolve_theme,
    set_active_theme, theme_label, ActiveTheme, DEFAULT_THEME_ID,
};

#[test]
fn themes_are_listed_in_order() {
    let themes = available_themes();
    assert_eq!(
        themes,
        vec![
            "catppuccin-frappe",
            "catppuccin-latte",
            "catppuccin-macchiato",
            "catppuccin-mocha",
            "ciapre-blue",
            "ciapre-dark",
        ]
    );
    let mut sorted = themes.clone();
    sorted.sort();
    assert_eq!(sorted, themes);
}

#[test]
fn labels_are_found_by_identifier() {
    assert_eq!(theme_label("ciapre-blue"), Some("Ciapre Blue"));
    assert_eq!(theme_label("catppuccin-frappe"), Some("Catppuccin Frappé"));
    assert_eq!(theme_label("Ciapre-Blue"), None);
    assert_eq!(ensure_theme("ciapre-dark"), Ok("Ciapre Dark"));
    assert_eq!(ensure_theme("nope"), Err("Theme not found".to_string()));
}

#[test]
fn preferred_theme_is_trimmed_and_lowered() {
    assert_eq!(resolve_theme(Some("  Catppuccin-MOCHA ".to_string())), "catppuccin-mocha");
    assert_eq!(resolve_theme(Some("unknown".to_string())), DEFAULT_THEME_ID);
    assert_eq!(resolve_theme(Some("   ".to_string())), DEFAULT_THEME_ID);
    assert_eq!(resolve_theme(None), "ciapre-dark");
}

#[test]
fn active_theme_changes_only_to_a_known_one() {
    let mut active = ActiveTheme::new();
    assert_eq!(active_theme_id(&active), "ciapre-dark");
    assert_eq!(active_theme_label(&active), "Ciapre Dark");
    assert_eq!(set_active_theme(&mut active, " Ciapre-Blue "), Ok(()));
    assert_eq!(active_theme_id(&active), "ciapre-blue");
    assert_eq!(active_theme_label(&active), "Ciapre Blue");
    assert_eq!(
        set_active_theme(&mut active, "Solarized"),
        Err("Unknown theme 'Solarized'".to_string())
    );
    assert_eq!(active_theme_id(&active), "ciapre-blue");
}
