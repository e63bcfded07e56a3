use eruption::roccat_vulcan_pro::{key_layout_from_lowercase, KeyLayout, RoccatVulcanPro};

#[test]
fn layout_names_select_tables() {
    let keyboard = RoccatVulcanPro::new();
    assert_eq!(keyboard.get_key_defs("generic"), KeyLayout::GenericQwertz);
    assert_eq!(keyboard.get_key_defs("de_DE"), KeyLayout::GenericQwertz);
    assert_eq!(keyboard.get_key_defs("EN_US"), KeyLayout::GenericQwerty);
    assert_eq!(keyboard.get_key_defs("en_uk"), KeyLayout::GenericQwerty);
    assert_eq!(keyboard.get_key_defs("fr_fr"), KeyLayout::GenericQwertz);
    assert_eq!(keyboard.get_key_defs(""), KeyLayout::GenericQwertz);
}

#[test]
fn lowercase_names_only_match_exactly() {
    assert_eq!(key_layout_from_lowercase(&"en_us".to_string()), KeyLayout::GenericQwerty);
    assert_eq!(key_layout_from_lowercase(&"EN_US".to_string()), KeyLayout::GenericQwertz);
}
