//! The configuration of the tool: which family of devices it works with,
//! and the settings of that family.
//!
//! The configuration lives in one file. This module never opens it: a
//! [`ConfigStore`] holds what the file was found to hold, the functions
//! below work on the store, and the caller writes the store back when
//! `unsaved` says so.

use crate::error::TyrError;
use vstd::prelude::*;

verus! {

/// The families of devices that the tool knows.
#[derive(Debug, Clone, Copy, PartialEq, Eq)]
pub enum TyrFamilies {
    Arduino,
}

/// The settings of the Arduino family.
#[derive(Debug, Clone, PartialEq, Eq)]
pub struct TyrArduinoConfig {
    /// The toolchain binary.
    pub cli_path: String,
    /// The sketch that is compiled.
    pub sketch_path: String,
    /// The board identifier that the toolchain is given.
    pub board_type: String,
    /// The directory that holds one directory per device.
    pub devices_path: String,
}

/// The mathematical value of a [`TyrArduinoConfig`].
pub struct TyrArduinoConfigView {
    pub cli_path: Seq<char>,
    pub sketch_path: Seq<char>,
    pub board_type: Seq<char>,
    pub devices_path: Seq<char>,
}

impl View for TyrArduinoConfig {
    type V = TyrArduinoConfigView;

    open spec fn view(&self) -> TyrArduinoConfigView {
        TyrArduinoConfigView {
            cli_path: self.cli_path@,
            sketch_path: self.sketch_path@,
            board_type: self.board_type@,
            devices_path: self.devices_path@,
        }
    }
}

/// The configuration of the tool.
#[derive(Debug, Clone, PartialEq, Eq)]
pub struct TyrConfig {
    /// The family whose settings count.
    pub family: TyrFamilies,
    pub arduino: TyrArduinoConfig,
}

/// The mathematical value of a [`TyrConfig`].
pub struct TyrConfigView {
    pub family: TyrFamilies,
    pub arduino: TyrArduinoConfigView,
}

impl View for TyrConfig {
    type V = TyrConfigView;

    open spec fn view(&self) -> TyrConfigView {
        TyrConfigView { family: self.family, arduino: self.arduino@ }
    }
}

/// What the configuration file holds.
#[derive(Debug, Clone, PartialEq, Eq)]
pub enum StoredConfig {
    /// There is no file.
    Absent,
    /// There is a file, and it is not a configuration.
    Malformed,
    /// There is a file with this configuration.
    Present(TyrConfig),
}

/// The mathematical value of a [`StoredConfig`].
pub enum StoredConfigView {
    Absent,
    Malformed,
    Present(TyrConfigView),
}

impl View for StoredConfig {
    type V = StoredConfigView;

    open spec fn view(&self) -> StoredConfigView {
        match self {
            StoredConfig::Absent => StoredConfigView::Absent,
            StoredConfig::Malformed => StoredConfigView::Malformed,
            StoredConfig::Present(config) => StoredConfigView::Present(config@),
        }
    }
}

/// The configuration file as the tool sees it during one invocation.
#[derive(Debug, Clone, PartialEq, Eq)]
pub struct ConfigStore {
    /// What the file holds, or will hold once it is written.
    pub content: StoredConfig,
    /// Whether `content` has yet to be written to the file.
    pub unsaved: bool,
}

/// The mathematical value of a [`ConfigStore`].
pub struct ConfigStoreView {
    pub content: StoredConfigView,
    pub unsaved: bool,
}

impl View for ConfigStore {
    type V = ConfigStoreView;

    open spec fn view(&self) -> ConfigStoreView {
        ConfigStoreView { content: self.content@, unsaved: self.unsaved }
    }
}

/// The family with this name on the command line.
pub open spec fn family_named(name: Seq<char>) -> Option<TyrFamilies> {
    if name == "arduino"@ {
        Some(TyrFamilies::Arduino)
    } else {
        None
    }
}

/// The configuration that a first run starts with.
pub open spec fn default_config_view() -> TyrConfigView {
    TyrConfigView {
        family: TyrFamilies::Arduino,
        arduino: TyrArduinoConfigView {
            cli_path: "arduino-cli"@,
            sketch_path: "C:\\Users\\siddg\\Documents\\Arduino\\libraries\\zeppylin-arduino-lorawan\\sketches\\chirpstack-otaa-us915a"@,
            board_type: "adafruit:samd:adafruit_feather_m0"@,
            devices_path: "C:\\Users\\siddg\\Documents\\Arduino\\libraries\\zeppylin-arduino-lorawan\\devices"@,
        },
    }
}

/// The directory of the configuration file, for the home directory `home`.
pub open spec fn config_dir_of(home: Seq<char>) -> Seq<char> {
    home + "/.tyr"@
}

/// The path of the configuration file, for the home directory `home`.
pub open spec fn config_path_of(home: Seq<char>) -> Seq<char> {
    config_dir_of(home) + "/config.toml"@
}

/// The store after `config` was written to it.
pub open spec fn written(config: TyrConfigView) -> ConfigStoreView {
    ConfigStoreView { content: StoredConfigView::Present(config), unsaved: true }
}

/// Reading the configuration: the store afterwards, and what the reader
/// gets. A store without a file gets the default configuration written to
/// it; any other store stays as it is.
pub open spec fn read_config(store: ConfigStoreView) -> (
    ConfigStoreView,
    Result<TyrConfigView, TyrError>,
) {
    match store.content {
        StoredConfigView::Absent => (written(default_config_view()), Ok(default_config_view())),
        StoredConfigView::Malformed => (store, Err(TyrError::ConfigParseError)),
        StoredConfigView::Present(config) => (store, Ok(config)),
    }
}

/// `current`, or `wanted` where there is one.
pub open spec fn replaced(current: Seq<char>, wanted: Option<Seq<char>>) -> Seq<char> {
    match wanted {
        Some(value) => value,
        None => current,
    }
}

/// `config` with the family set, and with each setting replaced for which
/// a value is given.
pub open spec fn updated_config(
    config: TyrConfigView,
    family: TyrFamilies,
    arduino_board_type: Option<Seq<char>>,
    arduino_sketch_path: Option<Seq<char>>,
    arduino_devices_path: Option<Seq<char>>,
) -> TyrConfigView {
    TyrConfigView {
        family,
        arduino: TyrArduinoConfigView {
            cli_path: config.arduino.cli_path,
            sketch_path: replaced(config.arduino.sketch_path, arduino_sketch_path),
            board_type: replaced(config.arduino.board_type, arduino_board_type),
            devices_path: replaced(config.arduino.devices_path, arduino_devices_path),
        },
    }
}

/// Changing the configuration: the store afterwards, and whether it
/// worked. The configuration is read, updated and written in full; where
/// it cannot be read the store is left alone.
pub open spec fn set_in(
    store: ConfigStoreView,
    family: TyrFamilies,
    arduino_board_type: Option<Seq<char>>,
    arduino_sketch_path: Option<Seq<char>>,
    arduino_devices_path: Option<Seq<char>>,
) -> (ConfigStoreView, Result<(), TyrError>) {
    match read_config(store).1 {
        Ok(config) => (
            written(
                updated_config(
                    config,
                    family,
                    arduino_board_type,
                    arduino_sketch_path,
                    arduino_devices_path,
                ),
            ),
            Ok(()),
        ),
        Err(e) => (read_config(store).0, Err(e)),
    }
}

/// The view of an optional string.
pub open spec fn text_view(text: Option<String>) -> Option<Seq<char>> {
    match text {
        Some(s) => Some(s@),
        None => None,
    }
}

/// The views of the two sides of a result.
pub open spec fn config_result_view(r: Result<TyrConfig, TyrError>) -> Result<
    TyrConfigView,
    TyrError,
> {
    match r {
        Ok(config) => Ok(config@),
        Err(e) => Err(e),
    }
}

/// The views of the two sides of a result.
pub open spec fn text_result_view(r: Result<String, TyrError>) -> Result<Seq<char>, TyrError> {
    match r {
        Ok(text) => Ok(text@),
        Err(e) => Err(e),
    }
}

/// One setting of what was read, or the error of the reading.
pub open spec fn setting_of(
    read: Result<TyrConfigView, TyrError>,
    pick: spec_fn(TyrConfigView) -> Seq<char>,
) -> Result<Seq<char>, TyrError> {
    match read {
        Ok(config) => Ok(pick(config)),
        Err(e) => Err(e),
    }
}

impl TyrFamilies {
    /// The family that the command line calls `name`: `arduino`, in lower
    /// case, is the Arduino family, and no other name is a family.
    pub fn from_name(name: &str) -> (r: Option<TyrFamilies>)
        ensures
            r == family_named(name@),
    {
        if name.to_owned() == "arduino".to_owned() {
            Some(TyrFamilies::Arduino)
        } else {
            None
        }
    }
}

impl TyrArduinoConfig {
    /// A copy of these settings.
    pub fn duplicate(&self) -> (r: TyrArduinoConfig)
        ensures
            r@ == self@,
    {
        TyrArduinoConfig {
            cli_path: self.cli_path.clone(),
            sketch_path: self.sketch_path.clone(),
            board_type: self.board_type.clone(),
            devices_path: self.devices_path.clone(),
        }
    }
}

impl TyrConfig {
    /// The configuration that a first run starts with: the Arduino family,
    /// the toolchain under its usual name.
    pub fn initial() -> (r: TyrConfig)
        ensures
            r@ == default_config_view(),
    {
        TyrConfig {
            family: TyrFamilies::Arduino,
            arduino: TyrArduinoConfig {
                cli_path: "arduino-cli".to_owned(),
                sketch_path: "C:\\Users\\siddg\\Documents\\Arduino\\libraries\\zeppylin-arduino-lorawan\\sketches\\chirpstack-otaa-us915a".to_owned(),
                board_type: "adafruit:samd:adafruit_feather_m0".to_owned(),
                devices_path: "C:\\Users\\siddg\\Documents\\Arduino\\libraries\\zeppylin-arduino-lorawan\\devices".to_owned(),
            },
        }
    }

    /// A copy of this configuration.
    pub fn duplicate(&self) -> (r: TyrConfig)
        ensures
            r@ == self@,
    {
        TyrConfig { family: self.family, arduino: self.arduino.duplicate() }
    }
}

impl ConfigStore {
    /// The store for a file that was found to hold `content`.
    pub fn open(content: StoredConfig) -> (store: ConfigStore)
        ensures
            store@ == (ConfigStoreView { content: content@, unsaved: false }),
    {
        ConfigStore { content, unsaved: false }
    }

    /// Notes that the content was written to the file: the content stays,
    /// and nothing is left to be saved.
    pub fn mark_saved(&mut self)
        ensures
            final(self)@ == (ConfigStoreView { content: old(self)@.content, unsaved: false }),
    {
        self.unsaved = false;
    }
}

/// The directory of the configuration file: `.tyr` under the home
/// directory.
pub fn get_default_config_dir(home: &str) -> (dir: String)
    ensures
        dir@ == config_dir_of(home@),
{
    let mut dir = home.to_owned();
    dir.append("/.tyr");
    dir
}

/// The path of the configuration file: `.tyr/config.toml` under the home
/// directory.
pub fn get_default_config_path(home: &str) -> (path: String)
    ensures
        path@ == config_path_of(home@),
{
    let mut path = get_default_config_dir(home);
    path.append("/config.toml");
    path
}

/// Writes `tyr_config` to the store, in place of whatever it held.
pub fn write_config(store: &mut ConfigStore, tyr_config: TyrConfig)
    ensures
        final(store)@ == written(tyr_config@),
{
    store.content = StoredConfig::Present(tyr_config);
    store.unsaved = true;
}

/// Reads the configuration. Where there is no file yet, the default
/// configuration is written to the store and returned. A file that is no
/// configuration is an error, and is left as it is.
pub fn maybe_read_config(store: &mut ConfigStore) -> (r: Result<TyrConfig, TyrError>)
    ensures
        (final(store)@, config_result_view(r)) == read_config(old(store)@),
{
    let found = match &store.content {
        StoredConfig::Absent => None,
        StoredConfig::Malformed => return Err(TyrError::ConfigParseError),
        StoredConfig::Present(config) => Some(config.duplicate()),
    };
    match found {
        Some(config) => Ok(config),
        None => {
            write_config(store, TyrConfig::initial());
            Ok(TyrConfig::initial())
        },
    }
}

/// Sets the family, and each setting for which a value is given; a setting
/// without a value keeps the one it has. The configuration is read first
/// and written in full afterwards.
pub fn set_config(
    store: &mut ConfigStore,
    family: TyrFamilies,
    arduino_board_type: Option<String>,
    arduino_sketch_path: Option<String>,
    arduino_devices_path: Option<String>,
) -> (r: Result<(), TyrError>)
    ensures
        (final(store)@, r) == set_in(
            old(store)@,
            family,
            text_view(arduino_board_type),
            text_view(arduino_sketch_path),
            text_view(arduino_devices_path),
        ),
{
    let mut config = match maybe_read_config(store) {
        Ok(config) => config,
        Err(e) => return Err(e),
    };
    config.family = family;
    if let Some(value) = arduino_board_type {
        config.arduino.board_type = value;
    }
    if let Some(value) = arduino_sketch_path {
        config.arduino.sketch_path = value;
    }
    if let Some(value) = arduino_devices_path {
        config.arduino.devices_path = value;
    }
    write_config(store, config);
    Ok(())
}

/// The configuration, as [`maybe_read_config`] reads it.
pub fn get_config(store: &mut ConfigStore) -> (r: Result<TyrConfig, TyrError>)
    ensures
        (final(store)@, config_result_view(r)) == read_config(old(store)@),
{
    maybe_read_config(store)
}

/// The devices directory of the Arduino family, read anew.
pub fn get_arduino_device_path(store: &mut ConfigStore) -> (r: Result<String, TyrError>)
    ensures
        final(store)@ == read_config(old(store)@).0,
        text_result_view(r) == setting_of(
            read_config(old(store)@).1,
            |config: TyrConfigView| config.arduino.devices_path,
        ),
{
    match get_config(store) {
        Ok(config) => Ok(config.arduino.devices_path),
        Err(e) => Err(e),
    }
}

/// The sketch of the Arduino family, read anew.
pub fn get_arduino_sketch_path(store: &mut ConfigStore) -> (r: Result<String, TyrError>)
    ensures
        final(store)@ == read_config(old(store)@).0,
        text_result_view(r) == setting_of(
            read_config(old(store)@).1,
            |config: TyrConfigView| config.arduino.sketch_path,
        ),
{
    match get_config(store) {
        Ok(config) => Ok(config.arduino.sketch_path),
        Err(e) => Err(e),
    }
}

/// The board identifier of the Arduino family, read anew.
pub fn get_arduino_board_type(store: &mut ConfigStore) -> (r: Result<String, TyrError>)
    ensures
        final(store)@ == read_config(old(store)@).0,
        text_result_view(r) == setting_of(
            read_config(old(store)@).1,
            |config: TyrConfigView| config.arduino.board_type,
        ),
{
    match get_config(store) {
        Ok(config) => Ok(config.arduino.board_type),
        Err(e) => Err(e),
    }
}

/// Reading a store without a file writes the default configuration to it
/// and returns it. The default is of the Arduino family and names the
/// toolchain `arduino-cli`.
pub proof fn lemma_first_read_creates_default(store: ConfigStoreView)
    requires
        store.content is Absent,
    ensures
        read_config(store).0 == written(default_config_view()),
        read_config(store).1 == Ok::<TyrConfigView, TyrError>(default_config_view()),
        default_config_view().family == TyrFamilies::Arduino,
        default_config_view().arduino.cli_path == "arduino-cli"@,
{
}

/// Reading twice is reading once: the second read returns what the first
/// returned, and leaves the store as the first left it.
pub proof fn lemma_read_twice(store: ConfigStoreView)
    ensures
        read_config(read_config(store).0) == read_config(store),
{
}

/// What is set is what is read next: after a `set` the family is the one
/// given, each setting that was given a value has that value, and every
/// other setting is as it was read before.
pub proof fn lemma_set_then_read(
    store: ConfigStoreView,
    family: TyrFamilies,
    arduino_board_type: Option<Seq<char>>,
    arduino_sketch_path: Option<Seq<char>>,
    arduino_devices_path: Option<Seq<char>>,
)
    requires
        !(store.content is Malformed),
    ensures
        ({
            let before = read_config(store).1;
            let set = set_in(
                store,
                family,
                arduino_board_type,
                arduino_sketch_path,
                arduino_devices_path,
            );
            let after = read_config(set.0).1;
            &&& before is Ok
            &&& set.1 is Ok
            &&& after is Ok
            &&& after->Ok_0.family == family
            &&& after->Ok_0.arduino.cli_path == before->Ok_0.arduino.cli_path
            &&& after->Ok_0.arduino.board_type == match arduino_board_type {
                Some(value) => value,
                None => before->Ok_0.arduino.board_type,
            }
            &&& after->Ok_0.arduino.sketch_path == match arduino_sketch_path {
                Some(value) => value,
                None => before->Ok_0.arduino.sketch_path,
            }
            &&& after->Ok_0.arduino.devices_path == match arduino_devices_path {
                Some(value) => value,
                None => before->Ok_0.arduino.devices_path,
            }
        }),
{
}

} // verus!
