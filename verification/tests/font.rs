use fluent_gallery::font::{choose_family, load, Candidate, Font, Fonts, Weight};

fn candidate(name: &str, available: bool) -> Candidate {
    Candidate { name: name.to_string(), available }
}

#[test]
fn a_new_font_has_no_family() {
    let f = Font::new(Weight::Bold);
    assert_eq!(f.weight, Weight::Bold);
    assert_eq!(f.family, None);
}

#[test]
fn a_font_keeps_its_first_family() {
    let mut f = Font::new(Weight::Regular);
    f.set("Segoe UI".to_string());
    assert_eq!(f.family, Some("Segoe UI".to_string()));
    f.set("Selawik".to_string());
    assert_eq!(f.family, Some("Segoe UI".to_string()));
    assert_eq!(f.weight, Weight::Regular);
}

#[test]
fn the_first_available_family_is_chosen() {
    let both = vec![candidate("Segoe UI", true), candidate("Selawik", true)];
    assert_eq!(choose_family(&both), Some("Segoe UI".to_string()));
    let second = vec![candidate("Segoe UI", false), candidate("Selawik", true)];
    assert_eq!(choose_family(&second), Some("Selawik".to_string()));
    let none = vec![candidate("Segoe UI", false), candidate("Selawik", false)];
    assert_eq!(choose_family(&none), None);
    assert_eq!(choose_family(&Vec::new()), None);
}

#[test]
fn set_names_the_interface_fonts_and_the_icon_font() {
    let mut fonts = Fonts::new();
    let ui = vec![candidate("Segoe UI", false), candidate("Selawik", true)];
    let icons = vec![candidate("Segoe Fluent Icons", true), candidate("Fluent System Icons", true)];
    fluent_gallery::font::set(&mut fonts, &ui, &icons);
    assert_eq!(fonts.ui_regular.family, Some("Selawik".to_string()));
    assert_eq!(fonts.ui_bold.family, Some("Selawik".to_string()));
    assert_eq!(fonts.ui_semibold.family, Some("Selawik".to_string()));
    assert_eq!(fonts.fluent_icons.family, Some("Segoe Fluent Icons".to_string()));
    assert_eq!(fonts.ui_regular.weight, Weight::Regular);
    assert_eq!(fonts.ui_bold.weight, Weight::Bold);
    assert_eq!(fonts.ui_semibold.weight, Weight::Semibold);
    assert_eq!(fonts.fluent_icons.weight, Weight::Regular);
}

#[test]
fn set_leaves_fonts_without_family_where_nothing_is_available() {
    let mut fonts = Fonts::new();
    let ui = vec![candidate("Segoe UI", false)];
    let icons = vec![candidate("Fluent System Icons", true)];
    fluent_gallery::font::set(&mut fonts, &ui, &icons);
    assert_eq!(fonts.ui_regular.family, None);
    assert_eq!(fonts.ui_bold.family, None);
    assert_eq!(fonts.ui_semibold.family, None);
    assert_eq!(fonts.fluent_icons.family, Some("Fluent System Icons".to_string()));
    let later = vec![candidate("Selawik", true)];
    fluent_gallery::font::set(&mut fonts, &later, &Vec::new());
    assert_eq!(fonts.ui_regular.family, Some("Selawik".to_string()));
    assert_eq!(fonts.fluent_icons.family, Some("Fluent System Icons".to_string()));
}

#[test]
fn load_orders_the_bundled_files() {
    let files = load(vec![1], vec![2, 2], vec![3], vec![4, 4, 4]);
    assert_eq!(files, vec![vec![1], vec![2, 2], vec![3], vec![4, 4, 4]]);
}
