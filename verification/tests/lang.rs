use jodo::lang::Language;

#[test]
fn language_names() {
    assert_eq!(Language::from_str("en"), Language::English);
    assert_eq!(Language::from_str("english"), Language::English);
    assert_eq!(Language::from_str("ja"), Language::Japanese);
    assert_eq!(Language::from_str("jp"), Language::Japanese);
    assert_eq!(Language::from_str("japanese"), Language::Japanese);
}

#[test]
fn language_names_in_any_case() {
    assert_eq!(Language::from_str("EN"), Language::English);
    assert_eq!(Language::from_str("English"), Language::English);
    assert_eq!(Language::from_str("JP"), Language::Japanese);
    assert_eq!(Language::from_str("Japanese"), Language::Japanese);
}

#[test]
fn unknown_language_is_chinese() {
    assert_eq!(Language::from_str("zh-cn"), Language::Chinese);
    assert_eq!(Language::from_str("zh"), Language::Chinese);
    assert_eq!(Language::from_str(""), Language::Chinese);
    assert_eq!(Language::from_str("fr"), Language::Chinese);
    assert_eq!(Language::from_str(" en"), Language::Chinese);
}

#[test]
fn from_lowercase_takes_the_name_as_it_is() {
    assert_eq!(Language::from_lowercase("en"), Language::English);
    assert_eq!(Language::from_lowercase("EN"), Language::Chinese);
    assert_eq!(Language::from_lowercase("jp"), Language::Japanese);
}

#[test]
fn display_names() {
    assert_eq!(Language::English.display_name(), "English");
    assert_eq!(Language::Japanese.display_name(), "日本語");
    assert_eq!(Language::Chinese.display_name(), "中文");
}
