use brightless::settings::AppSettings;

#[test]
fn default_scroll_step() {
    assert_eq!(AppSettings::default().scroll_step, 2);
}

#[test]
fn load_takes_what_was_stored() {
    assert_eq!(AppSettings::load(Some(AppSettings { scroll_step: 7 })), AppSettings { scroll_step: 7 });
    assert_eq!(AppSettings::load(Some(AppSettings { scroll_step: 0 })), AppSettings { scroll_step: 0 });
}

#[test]
fn load_falls_back_to_the_defaults() {
    assert_eq!(AppSettings::load(None), AppSettings { scroll_step: 2 });
    assert_eq!(AppSettings::load(None), AppSettings::default());
}
