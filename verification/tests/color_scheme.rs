use xwayland_satellite::color_scheme::{
    contains_dark_case_insensitive, parse_setting_changed, ColorScheme, ColorSchemeState,
    InvalidPortalValue, SettingError, APPEARANCE_NAMESPACE, COLOR_SCHEME_KEY,
};
use zbus::zvariant::{OwnedValue, Value};

#[test]
fn env_value_uses_dark_only_when_value_contains_dark() {
    assert_eq!(
        ColorScheme::from_env_value(Some("prefer-dark")),
        ColorScheme::Dark
    );
    assert_eq!(ColorScheme::from_env_value(Some("DARK")), ColorScheme::Dark);
    assert_eq!(
        ColorScheme::from_env_value(Some("light")),
        ColorScheme::Light
    );
    assert_eq!(ColorScheme::from_env_value(None), ColorScheme::Light);
}

#[test]
fn portal_value_treats_no_preference_and_default_as_light() {
    assert_eq!(
        ColorScheme::from_portal_value(&OwnedValue::from(0_u32)).unwrap(),
        ColorScheme::Light
    );
    assert_eq!(
        ColorScheme::from_portal_value(&OwnedValue::from(1_u32)).unwrap(),
        ColorScheme::Dark
    );
    assert_eq!(
        ColorScheme::from_portal_value(&OwnedValue::from(2_u32)).unwrap(),
        ColorScheme::Light
    );
    assert_eq!(
        ColorScheme::from_portal_value(&OwnedValue::from(99_u32)).unwrap(),
        ColorScheme::Light
    );
}

#[test]
fn portal_value_accepts_nested_variant_u32() {
    let no_preference = OwnedValue::try_from(Value::new(Value::U32(0))).unwrap();
    let prefer_dark = OwnedValue::try_from(Value::new(Value::U32(1))).unwrap();

    assert_eq!(
        ColorScheme::from_portal_value(&no_preference).unwrap(),
        ColorScheme::Light
    );
    assert_eq!(
        ColorScheme::from_portal_value(&prefer_dark).unwrap(),
        ColorScheme::Dark
    );
}

#[test]
fn setting_changed_parser_filters_unrelated_settings() {
    let value = OwnedValue::from(1_u32);
    assert_eq!(
        parse_setting_changed(Ok((
            APPEARANCE_NAMESPACE.into(),
            COLOR_SCHEME_KEY.into(),
            value,
        )))
        .unwrap(),
        Some(ColorScheme::Dark)
    );

    assert_eq!(
        parse_setting_changed(Ok((
            "org.freedesktop.other".into(),
            COLOR_SCHEME_KEY.into(),
            OwnedValue::from(1_u32),
        )))
        .unwrap(),
        None
    );
    assert_eq!(
        parse_setting_changed(Ok((
            APPEARANCE_NAMESPACE.into(),
            "other".into(),
            OwnedValue::from(1_u32),
        )))
        .unwrap(),
        None
    );
}

#[test]
fn portal_value_of_another_type_is_refused() {
    let text = OwnedValue::try_from(Value::new("dark")).unwrap();
    assert_eq!(
        ColorScheme::from_portal_value(&text),
        Err(InvalidPortalValue)
    );
    assert_eq!(
        parse_setting_changed(Ok((
            APPEARANCE_NAMESPACE.into(),
            COLOR_SCHEME_KEY.into(),
            OwnedValue::from(true),
        ))),
        Err(SettingError::InvalidValue)
    );
}

#[test]
fn unreadable_signal_is_refused() {
    assert_eq!(
        parse_setting_changed(Err(zbus::Error::InvalidReply)),
        Err(SettingError::InvalidBody)
    );
}

#[test]
fn dark_is_found_anywhere_in_any_case() {
    assert!(contains_dark_case_insensitive("Adwaita-dArK"));
    assert!(contains_dark_case_insensitive("darkness"));
    assert!(!contains_dark_case_insensitive("dar"));
    assert!(!contains_dark_case_insensitive(""));
    assert!(!contains_dark_case_insensitive("da-rk"));
}

#[test]
fn scheme_names() {
    assert_eq!(ColorScheme::Light.as_str(), "light");
    assert_eq!(ColorScheme::Dark.as_str(), "dark");
}

#[test]
fn setting_the_same_scheme_is_no_change() {
    let mut state = ColorSchemeState::new();
    assert_eq!(state.current_color_scheme(), ColorScheme::Light);
    assert!(!state.set_current_color_scheme(ColorScheme::Light));
    assert!(state.set_current_color_scheme(ColorScheme::Dark));
    assert_eq!(state.current_color_scheme(), ColorScheme::Dark);
    assert!(!state.set_current_color_scheme(ColorScheme::Dark));
}
