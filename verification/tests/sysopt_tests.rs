use wxdragon::sysopt::SystemOptions;

#[test]
fn a_fresh_store_has_nothing() {
    let opts = SystemOptions::new();
    assert_eq!(opts.get_option_by_string("anything"), None);
    assert_eq!(opts.get_option_by_int("anything"), None);
}

#[test]
fn string_options_read_back() {
    let mut opts = SystemOptions::new();
    opts.set_option_by_string("gtk.tlw.can-set-transparent", "yes");
    assert_eq!(
        opts.get_option_by_string("gtk.tlw.can-set-transparent"),
        Some(String::from("yes"))
    );
    assert_eq!(opts.get_option_by_string("another"), None);
}

#[test]
fn a_later_setting_overrides_an_earlier_one() {
    let mut opts = SystemOptions::new();
    opts.set_option_by_string("mode", "first");
    opts.set_option_by_string("mode", "second");
    assert_eq!(opts.get_option_by_string("mode"), Some(String::from("second")));
}

#[test]
fn int_options_round_trip() {
    let mut opts = SystemOptions::new();
    opts.set_option_by_int("msw.remap", 2);
    assert_eq!(opts.get_option_by_int("msw.remap"), Some(2));
    opts.set_option_by_int("depth", -240);
    assert_eq!(opts.get_option_by_int("depth"), Some(-240));
    opts.set_option_by_int("edge", -2147483648);
    assert_eq!(opts.get_option_by_int("edge"), Some(-2147483648));
}

#[test]
fn an_int_option_is_stored_as_decimal_text() {
    let mut opts = SystemOptions::new();
    opts.set_option_by_int("msw.remap", 2);
    assert_eq!(opts.get_option_by_string("msw.remap"), Some(String::from("2")));
}

#[test]
fn a_non_numeric_value_reads_as_zero() {
    let mut opts = SystemOptions::new();
    opts.set_option_by_string("mode", "fast");
    assert_eq!(opts.get_option_by_int("mode"), Some(0));
}

#[test]
fn a_numeric_text_setting_reads_as_its_number() {
    let mut opts = SystemOptions::new();
    opts.set_option_by_string("count", "17");
    assert_eq!(opts.get_option_by_int("count"), Some(17));
}
