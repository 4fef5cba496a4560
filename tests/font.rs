use browsers::{get_default_font_name, get_default_font_path, Font};

#[test]
fn font_name_and_path() {
    let f = Font {
        display_name: "System Font Regular".to_string(),
        path: Some("/System/Library/Fonts/SFNS.ttf".to_string()),
    };
    assert_eq!(get_default_font_name(Some(f.clone())), Some("System Font Regular".to_string()));
    assert_eq!(get_default_font_path(Some(f)), Some("/System/Library/Fonts/SFNS.ttf".to_string()));
}

#[test]
fn no_font_no_name_or_path() {
    assert_eq!(get_default_font_name(None), None);
    assert_eq!(get_default_font_path(None), None);
    let f = Font { display_name: "Memory Font".to_string(), path: None };
    assert_eq!(get_default_font_path(Some(f)), None);
}
