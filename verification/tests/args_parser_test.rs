use feature_generator::args_parser::{get_global_config_path, get_local_config_path};

#[test]
fn args_parser_todo() {}

#[test]
fn helpers_todo() {}

#[test]
fn global_config_path_is_under_home() {
    assert_eq!(
        "/home/someone/.config/.feature_generator/config.toml",
        get_global_config_path("/home/someone").as_str()
    );
}

#[test]
fn local_config_path_is_fixed() {
    assert_eq!(".feature_generator_config.toml", get_local_config_path().as_str());
}
