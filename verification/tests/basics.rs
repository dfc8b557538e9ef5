use gadu::config::GaduConfig;

#[test]
fn it_works() {
    assert_eq!(2 + 2, 4);
}

#[test]
fn default_config_is_usable() {
    let c = GaduConfig::default();
    assert_eq!(c.url, "tcp://127.0.0.1:10000");
}
