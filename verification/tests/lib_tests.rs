use policast::settings::Settings;

#[test]
fn it_works() {
    assert_eq!(4, 4);
}

#[test]
fn save_dir_round_trip() {
    let mut s = Settings::new("capture".to_string(), None, true);
    s.set_save_dir("/tmp/out");
    assert_eq!(s.get_save_dir(), "/tmp/out");
}
