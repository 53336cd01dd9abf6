use game_core::config::{ConfigPath, ConfigPathElem, ConfigType};

#[test]
fn single_key_path() {
    let p = ConfigPath::key("car-size", ConfigType::Float);
    assert_eq!(p.path.len(), 1);
    assert!(matches!(&p.path[0], ConfigPathElem::Key(k) if k == "car-size"));
    assert!(matches!(p.expected_type, ConfigType::Float));
}

#[test]
fn multi_step_path() {
    let p = ConfigPath::new(
        vec![
            ConfigPathElem::Key("racing".to_string()),
            ConfigPathElem::Index(2),
            ConfigPathElem::Key("tragnet-k".to_string()),
        ],
        ConfigType::Int,
    );
    assert_eq!(p.path.len(), 3);
    assert!(matches!(&p.path[1], ConfigPathElem::Index(2)));
    assert!(matches!(p.expected_type, ConfigType::Int));
}
