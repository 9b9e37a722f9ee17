use tyr::error::TyrError;
use tyr::tyr_config::{
    get_arduino_board_type, get_arduino_device_path, get_arduino_sketch_path, get_config,
    get_default_config_dir, get_default_config_path, maybe_read_config, set_config, write_config,
    ConfigStore, StoredConfig, TyrArduinoConfig, TyrConfig, TyrFamilies,
};

const SKETCH: &str = "C:\\Users\\siddg\\Documents\\Arduino\\libraries\\zeppylin-arduino-lorawan\\sketches\\chirpstack-otaa-us915a";
const DEVICES: &str =
    "C:\\Users\\siddg\\Documents\\Arduino\\libraries\\zeppylin-arduino-lorawan\\devices";

fn sample() -> TyrConfig {
    TyrConfig {
        family: TyrFamilies::Arduino,
        arduino: TyrArduinoConfig {
            cli_path: "/opt/bin/arduino-cli".to_string(),
            sketch_path: "/tmp/sketch".to_string(),
            board_type: "uno".to_string(),
            devices_path: "/tmp/devs".to_string(),
        },
    }
}

#[test]
fn test_get_default_config_path() {
    let config_path = get_default_config_path("/home/operator");
    println!("Config path: {:?}", config_path);
    assert_eq!(config_path, "/home/operator/.tyr/config.toml");
    let config_dir = get_default_config_dir("/home/operator");
    assert!(
        config_path.starts_with(&config_dir),
        "Config path: {:?} does not exist",
        config_dir
    );
    assert_eq!(config_dir, "/home/operator/.tyr");
}

#[test]
fn test_maybe_read_config() {
    let mut store = ConfigStore::open(StoredConfig::Absent);

    let config = maybe_read_config(&mut store).unwrap();

    assert!(config.arduino.cli_path.as_str().contains("arduino-cli"));
}

#[test]
fn test_set_config() {
    let mut store = ConfigStore::open(StoredConfig::Absent);
    let config = maybe_read_config(&mut store).unwrap();

    assert!(config.arduino.cli_path.as_str().contains("arduino-cli"));

    set_config(
        &mut store,
        TyrFamilies::Arduino,
        Some(String::from("adafruit:samd:adafruit_feather_m0")),
        Some(String::from("C:\\Users\\siddg\\Documents\\Arduino\\libraries\\zeppylin-arduino-lorawan\\sketches\\chirpstack-otaa-us915a")),
        Some(String::from("C:\\Users\\siddg\\Documents\\Arduino\\libraries\\zeppylin-arduino-lorawan\\devices")),
    )
    .unwrap();

    let config = maybe_read_config(&mut store).unwrap();

    assert!(config
        .arduino
        .board_type
        .as_str()
        .contains("adafruit:samd:adafruit_feather_m0"));
}

#[test]
fn first_read_creates_the_default() {
    let mut store = ConfigStore::open(StoredConfig::Absent);
    assert!(!store.unsaved);
    let first = maybe_read_config(&mut store).unwrap();
    assert_eq!(first.family, TyrFamilies::Arduino);
    assert_eq!(first.arduino.cli_path, "arduino-cli");
    assert_eq!(first.arduino.board_type, "adafruit:samd:adafruit_feather_m0");
    assert_eq!(first.arduino.sketch_path, SKETCH);
    assert_eq!(first.arduino.devices_path, DEVICES);
    assert_eq!(first, TyrConfig::initial());
    assert!(store.unsaved);
    assert_eq!(store.content, StoredConfig::Present(TyrConfig::initial()));

    let after_first = store.clone();
    let second = maybe_read_config(&mut store).unwrap();
    assert_eq!(second, first);
    assert_eq!(store, after_first);
}

#[test]
fn reading_a_present_file_changes_nothing() {
    let mut store = ConfigStore::open(StoredConfig::Present(sample()));
    assert_eq!(maybe_read_config(&mut store), Ok(sample()));
    assert_eq!(get_config(&mut store), Ok(sample()));
    assert_eq!(store, ConfigStore { content: StoredConfig::Present(sample()), unsaved: false });
}

#[test]
fn malformed_file_is_a_parse_error_and_stays() {
    let mut store = ConfigStore::open(StoredConfig::Malformed);
    assert_eq!(maybe_read_config(&mut store), Err(TyrError::ConfigParseError));
    assert_eq!(get_config(&mut store), Err(TyrError::ConfigParseError));
    assert_eq!(get_arduino_board_type(&mut store), Err(TyrError::ConfigParseError));
    assert_eq!(get_arduino_sketch_path(&mut store), Err(TyrError::ConfigParseError));
    assert_eq!(get_arduino_device_path(&mut store), Err(TyrError::ConfigParseError));
    assert_eq!(
        set_config(&mut store, TyrFamilies::Arduino, Some("uno".to_string()), None, None),
        Err(TyrError::ConfigParseError)
    );
    assert_eq!(store, ConfigStore { content: StoredConfig::Malformed, unsaved: false });
}

#[test]
fn set_changes_what_is_given_and_keeps_the_rest() {
    let mut store = ConfigStore::open(StoredConfig::Present(sample()));
    let before = maybe_read_config(&mut store).unwrap();
    assert_eq!(
        set_config(&mut store, TyrFamilies::Arduino, Some("X".to_string()), None, None),
        Ok(())
    );
    let after = maybe_read_config(&mut store).unwrap();
    assert_eq!(after.arduino.board_type, "X");
    assert_eq!(after.family, TyrFamilies::Arduino);
    assert_eq!(after.arduino.cli_path, before.arduino.cli_path);
    assert_eq!(after.arduino.sketch_path, before.arduino.sketch_path);
    assert_eq!(after.arduino.devices_path, before.arduino.devices_path);
    assert!(store.unsaved);
}

#[test]
fn set_with_every_field() {
    let mut store = ConfigStore::open(StoredConfig::Present(sample()));
    set_config(
        &mut store,
        TyrFamilies::Arduino,
        Some("b".to_string()),
        Some("s".to_string()),
        Some("d".to_string()),
    )
    .unwrap();
    assert_eq!(
        store.content,
        StoredConfig::Present(TyrConfig {
            family: TyrFamilies::Arduino,
            arduino: TyrArduinoConfig {
                cli_path: "/opt/bin/arduino-cli".to_string(),
                sketch_path: "s".to_string(),
                board_type: "b".to_string(),
                devices_path: "d".to_string(),
            },
        })
    );
}

#[test]
fn set_with_no_field_writes_the_file_again() {
    let mut store = ConfigStore::open(StoredConfig::Present(sample()));
    set_config(&mut store, TyrFamilies::Arduino, None, None, None).unwrap();
    assert_eq!(store, ConfigStore { content: StoredConfig::Present(sample()), unsaved: true });
}

#[test]
fn set_can_store_an_empty_value() {
    let mut store = ConfigStore::open(StoredConfig::Present(sample()));
    set_config(&mut store, TyrFamilies::Arduino, None, Some(String::new()), None).unwrap();
    assert_eq!(get_arduino_sketch_path(&mut store), Ok(String::new()));
    assert_eq!(get_arduino_board_type(&mut store), Ok("uno".to_string()));
}

#[test]
fn set_on_a_first_run_starts_from_the_default() {
    let mut store = ConfigStore::open(StoredConfig::Absent);
    set_config(&mut store, TyrFamilies::Arduino, None, None, Some("/tmp/devs".to_string()))
        .unwrap();
    let config = get_config(&mut store).unwrap();
    assert_eq!(config.arduino.devices_path, "/tmp/devs");
    assert_eq!(config.arduino.cli_path, "arduino-cli");
    assert_eq!(config.arduino.sketch_path, SKETCH);
    assert_eq!(config.arduino.board_type, "adafruit:samd:adafruit_feather_m0");
}

#[test]
fn accessors_return_their_field() {
    let mut store = ConfigStore::open(StoredConfig::Present(sample()));
    assert_eq!(get_arduino_device_path(&mut store), Ok("/tmp/devs".to_string()));
    assert_eq!(get_arduino_sketch_path(&mut store), Ok("/tmp/sketch".to_string()));
    assert_eq!(get_arduino_board_type(&mut store), Ok("uno".to_string()));
    assert!(!store.unsaved);
}

#[test]
fn accessors_create_the_file_on_a_first_run() {
    let mut store = ConfigStore::open(StoredConfig::Absent);
    assert_eq!(get_arduino_device_path(&mut store), Ok(DEVICES.to_string()));
    assert_eq!(store, ConfigStore { content: StoredConfig::Present(TyrConfig::initial()), unsaved: true });
}

#[test]
fn write_replaces_the_content() {
    let mut store = ConfigStore::open(StoredConfig::Malformed);
    write_config(&mut store, sample());
    assert_eq!(store, ConfigStore { content: StoredConfig::Present(sample()), unsaved: true });
}

#[test]
fn duplicates_are_equal() {
    assert_eq!(sample().duplicate(), sample());
    assert_eq!(sample().arduino.duplicate(), sample().arduino);
}

#[test]
fn family_names() {
    assert_eq!(TyrFamilies::from_name("arduino"), Some(TyrFamilies::Arduino));
    assert_eq!(TyrFamilies::from_name("Arduino"), None);
    assert_eq!(TyrFamilies::from_name("particle"), None);
    assert_eq!(TyrFamilies::from_name(""), None);
    assert_eq!(TyrFamilies::from_name("arduino "), None);
}

#[test]
fn config_path_is_under_the_home_as_given() {
    assert_eq!(get_default_config_path(""), "/.tyr/config.toml");
    assert_eq!(get_default_config_path("C:\\Users\\me"), "C:\\Users\\me/.tyr/config.toml");
    assert_eq!(get_default_config_dir("/root/"), "/root//.tyr");
}

#[test]
fn mark_saved_keeps_the_content() {
    let mut store = ConfigStore::open(StoredConfig::Absent);
    maybe_read_config(&mut store).unwrap();
    assert!(store.unsaved);
    store.mark_saved();
    assert_eq!(
        store,
        ConfigStore { content: StoredConfig::Present(TyrConfig::initial()), unsaved: false }
    );
    store.mark_saved();
    assert!(!store.unsaved);
}
