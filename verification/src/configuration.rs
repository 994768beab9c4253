/* SPDX-License-Identifier: MIT
 * Copyright (c) 2023 Louis Mayencourt
 */

//! The device configuration: a validity-tagged record of the network
//! credentials, the night-mode window and the display colour, with its forms
//! in persistent storage and in a submitted query string.

use vstd::prelude::*;
use crate::color::{default_color, parse_color, Color, ColorError, COLOR_AS_STRING_LENGTH};
use crate::hardware::HardwareError;
use crate::query::{query_fields, split_query};
use crate::text::{chars_of, same_text, url_decode, url_decoded};
use crate::time::{parse_time, Time, TimeError, TIME_STRING_LENGTH};

verus! {

/// Key entries used as index for persistent storage.
pub const WIFI_SSID_KEY: &'static str = "wifi_ssid";

pub const WIFI_PASSWORD_KEY: &'static str = "wifi_password";

pub const NIGHT_START_KEY: &'static str = "night_start";

pub const NIGHT_END_KEY: &'static str = "night_end";

pub const VALID_CONFIG_KEY: &'static str = "valid_config";

pub const DISPLAY_COLOR_KEY: &'static str = "display_color";

/// Value used to tag a valid/invalid config in persistent storage.
pub const INVALID_CONFIG_VALUE: &'static str = "1";

pub const VALID_CONFIG_VALUE: &'static str = "0";

#[derive(Debug, PartialEq)]
struct ConfigurationFields {
    ssid: String,
    password: String,
    night_start: Option<Time>,
    night_end: Option<Time>,
    display_color: Color,
}

#[derive(Debug, PartialEq)]
enum ConfigurationState {
    Invalid,
    Valid(ConfigurationFields),
}

/// Device configuration data type, representing validity and configuration
/// fields.
#[derive(Debug, PartialEq)]
pub struct Configuration {
    state: ConfigurationState,
}

/// What a configuration holds.
pub enum ConfigurationView {
    Invalid,
    Valid {
        ssid: Seq<char>,
        password: Seq<char>,
        night_start: Option<Time>,
        night_end: Option<Time>,
        display_color: Color,
    },
}

/// Why a configuration could not be written to persistent storage.
#[derive(Debug, PartialEq, Eq, Structural, Clone, Copy)]
pub enum StoreError {
    /// The configuration is invalid: there is nothing to store.
    InvalidConfiguration,
    /// The storage failed to write an entry.
    Storage(HardwareError),
}

/// The text of an answer of the storage, where it gave one.
pub open spec fn text_of(value: Option<String>) -> Option<Seq<char>> {
    match value {
        Some(text) => Some(text@),
        None => None,
    }
}

/// What a stored night-mode boundary reads as. A missing entry and a text of
/// another length than `HH:MM:SS` both mean that no boundary is set; a text of
/// that length must write a time.
pub open spec fn stored_night(value: Option<Seq<char>>) -> Result<Option<Time>, TimeError> {
    match value {
        None => Ok(None),
        Some(text) => if text.len() != 8 {
            Ok(None)
        } else {
            match parse_time(text) {
                Ok(time) => Ok(Some(time)),
                Err(error) => Err(error),
            }
        },
    }
}

/// What a stored colour reads as. A text of another length than `RRGGBB`
/// stands for the default colour; a text of that length must write a colour,
/// and the entry must be there.
pub open spec fn stored_color(value: Option<Seq<char>>) -> Option<Color> {
    match value {
        None => None,
        Some(text) => if text.len() != 6 {
            Some(default_color())
        } else {
            match parse_color(text) {
                Ok(color) => Some(color),
                Err(_) => None,
            }
        },
    }
}

/// The configuration that six answers of the storage amount to, each answer
/// being the stored text or `None` where the storage had none to give. The
/// configuration is valid when the validity flag holds the valid mark, the
/// credentials are there and the other entries can be read.
pub open spec fn configuration_from_stored(
    flag: Option<Seq<char>>,
    ssid: Option<Seq<char>>,
    password: Option<Seq<char>>,
    night_start: Option<Seq<char>>,
    night_end: Option<Seq<char>>,
    display_color: Option<Seq<char>>,
) -> ConfigurationView {
    if flag != Some(VALID_CONFIG_VALUE@) || ssid is None || password is None {
        ConfigurationView::Invalid
    } else {
        match (stored_night(night_start), stored_night(night_end), stored_color(display_color)) {
            (Ok(start), Ok(end), Some(color)) => ConfigurationView::Valid {
                ssid: ssid->0,
                password: password->0,
                night_start: start,
                night_end: end,
                display_color: color,
            },
            _ => ConfigurationView::Invalid,
        }
    }
}

/// The entries that storing a configuration writes, in the order in which
/// they are written: the credentials, each night-mode boundary that is set,
/// the colour, and last the validity flag.
pub open spec fn stored_entries(configuration: ConfigurationView) -> Seq<(Seq<char>, Seq<char>)> {
    match configuration {
        ConfigurationView::Invalid => Seq::empty(),
        ConfigurationView::Valid { ssid, password, night_start, night_end, display_color } => {
            seq![(WIFI_SSID_KEY@, ssid), (WIFI_PASSWORD_KEY@, password)] + (match night_start {
                Some(time) => seq![(NIGHT_START_KEY@, time.text())],
                None => Seq::empty(),
            }) + (match night_end {
                Some(time) => seq![(NIGHT_END_KEY@, time.text())],
                None => Seq::empty(),
            }) + seq![
                (DISPLAY_COLOR_KEY@, display_color.text()),
                (VALID_CONFIG_KEY@, VALID_CONFIG_VALUE@),
            ]
        },
    }
}

/// Least length of a submitted night-mode field that is read as a time.
pub const NIGHT_FIELD_LENGTH: usize = 5;

/// Least length of a submitted colour field that is read as a colour.
pub const COLOR_FIELD_LENGTH: usize = 6;

/// What is added to a submitted night-mode boundary, which comes without
/// seconds.
pub const NO_SECONDS: &'static str = ":00";

/// Why a submitted query string is not a configuration.
#[derive(Debug, PartialEq, Eq, Structural, Clone, Copy)]
pub enum ConfigurationError {
    /// The text is not of the wire format.
    MalformedQuery,
    /// The network name is empty.
    EmptySsid,
    /// The start of the night mode is not a time of day.
    InvalidNightStart,
    /// The end of the night mode is not a time of day.
    InvalidNightEnd,
    /// The colour is not a mark followed by six hexadecimal digits.
    InvalidColor,
}

/// What a submitted night-mode boundary reads as: none where the field was
/// left out, else the time that the decoded field writes once `:00` is added
/// for the seconds.
pub open spec fn submitted_night(value: Option<Seq<char>>) -> Result<Option<Time>, TimeError> {
    match value {
        None => Ok(None),
        Some(decoded) => match parse_time(decoded + NO_SECONDS@) {
            Ok(time) => Ok(Some(time)),
            Err(error) => Err(error),
        },
    }
}

/// What a submitted colour reads as: the default colour where the field was
/// left out, else the colour that the decoded field writes behind its first
/// character, with the default colour in place of black.
pub open spec fn submitted_color(value: Option<Seq<char>>) -> Result<Color, ColorError> {
    match value {
        None => Ok(default_color()),
        Some(decoded) => if decoded.len() == 0 {
            Err(ColorError::InvalidFormat)
        } else {
            match parse_color(decoded.subrange(1, decoded.len() as int)) {
                Ok(color) => if color.r == 0 && color.g == 0 && color.b == 0 {
                    Ok(default_color())
                } else {
                    Ok(color)
                },
                Err(error) => Err(error),
            }
        },
    }
}

/// The configuration that five decoded fields amount to, or why they amount
/// to none. The night-mode boundaries and the colour are `None` where the
/// field was left out.
pub open spec fn configuration_from_submitted(
    ssid: Seq<char>,
    password: Seq<char>,
    night_start: Option<Seq<char>>,
    night_end: Option<Seq<char>>,
    display_color: Option<Seq<char>>,
) -> Result<ConfigurationView, ConfigurationError> {
    if ssid.len() == 0 {
        Err(ConfigurationError::EmptySsid)
    } else if submitted_night(night_start) is Err {
        Err(ConfigurationError::InvalidNightStart)
    } else if submitted_night(night_end) is Err {
        Err(ConfigurationError::InvalidNightEnd)
    } else if submitted_color(display_color) is Err {
        Err(ConfigurationError::InvalidColor)
    } else {
        Ok(
            ConfigurationView::Valid {
                ssid,
                password,
                night_start: submitted_night(night_start)->Ok_0,
                night_end: submitted_night(night_end)->Ok_0,
                display_color: submitted_color(display_color)->Ok_0,
            },
        )
    }
}

/// A field of the query string decoded, where it has at least `least`
/// characters; a shorter field counts as left out.
pub open spec fn decoded_if_present(field: Seq<char>, least: nat) -> Option<Seq<char>> {
    if field.len() >= least {
        Some(url_decoded(field))
    } else {
        None
    }
}

/// What a query string reads as: the configuration it submits, or why it
/// submits none.
pub open spec fn parse_query(uri: Seq<char>) -> Result<ConfigurationView, ConfigurationError> {
    match query_fields(uri) {
        None => Err(ConfigurationError::MalformedQuery),
        Some(fields) => configuration_from_submitted(
            url_decoded(fields.ssid),
            url_decoded(fields.password),
            decoded_if_present(fields.night_start, NIGHT_FIELD_LENGTH as nat),
            decoded_if_present(fields.night_end, NIGHT_FIELD_LENGTH as nat),
            decoded_if_present(fields.display_color, COLOR_FIELD_LENGTH as nat),
        ),
    }
}

/// What a result holds, with the configuration by its view.
pub open spec fn result_view<E>(result: Result<Configuration, E>) -> Result<ConfigurationView, E> {
    match result {
        Ok(configuration) => Ok(configuration@),
        Err(error) => Err(error),
    }
}

/// The key and the value of an entry as texts.
pub open spec fn entry_view(entry: (&'static str, String)) -> (Seq<char>, Seq<char>) {
    (entry.0@, entry.1@)
}

impl View for Configuration {
    type V = ConfigurationView;

    closed spec fn view(&self) -> ConfigurationView {
        match self.state {
            ConfigurationState::Invalid => ConfigurationView::Invalid,
            ConfigurationState::Valid(fields) => ConfigurationView::Valid {
                ssid: fields.ssid@,
                password: fields.password@,
                night_start: fields.night_start,
                night_end: fields.night_end,
                display_color: fields.display_color,
            },
        }
    }
}

impl Clone for Configuration {
    fn clone(&self) -> (copy: Self)
        ensures
            copy@ == self@,
    {
        match &self.state {
            ConfigurationState::Invalid => Configuration { state: ConfigurationState::Invalid },
            ConfigurationState::Valid(fields) => Configuration {
                state: ConfigurationState::Valid(
                    ConfigurationFields {
                        ssid: fields.ssid.clone(),
                        password: fields.password.clone(),
                        night_start: fields.night_start,
                        night_end: fields.night_end,
                        display_color: fields.display_color,
                    },
                ),
            },
        }
    }
}

impl Configuration {
    /// Create a new valid configuration.
    pub fn new(
        ssid: String,
        password: String,
        night_start: Option<Time>,
        night_end: Option<Time>,
        display_color: Color,
    ) -> (configuration: Self)
        ensures
            configuration@ == (ConfigurationView::Valid {
                ssid: ssid@,
                password: password@,
                night_start,
                night_end,
                display_color,
            }),
    {
        Self {
            state: ConfigurationState::Valid(
                ConfigurationFields { ssid, password, night_start, night_end, display_color },
            ),
        }
    }

    /// The configuration that six answers of the storage amount to: see
    /// `configuration_from_stored`. An answer is `None` where the storage
    /// failed to give the entry.
    pub fn from_stored(
        flag: Option<String>,
        ssid: Option<String>,
        password: Option<String>,
        night_start: Option<String>,
        night_end: Option<String>,
        display_color: Option<String>,
    ) -> (configuration: Self)
        ensures
            configuration@ == configuration_from_stored(
                text_of(flag),
                text_of(ssid),
                text_of(password),
                text_of(night_start),
                text_of(night_end),
                text_of(display_color),
            ),
    {
        match flag {
            Some(value) => {
                if !same_text(value.as_str(), VALID_CONFIG_VALUE) {
                    return Configuration::default();
                }
            },
            None => {
                return Configuration::default();
            },
        }
        let (ssid, password) = match (ssid, password) {
            (Some(ssid), Some(password)) => (ssid, password),
            _ => {
                return Configuration::default();
            },
        };
        let night_start = match read_stored_night(night_start) {
            Ok(night) => night,
            Err(_) => {
                return Configuration::default();
            },
        };
        let night_end = match read_stored_night(night_end) {
            Ok(night) => night,
            Err(_) => {
                return Configuration::default();
            },
        };
        let display_color = match read_stored_color(display_color) {
            Some(color) => color,
            None => {
                return Configuration::default();
            },
        };
        Configuration::new(ssid, password, night_start, night_end, display_color)
    }

    /// The configuration that a query string submits: see `parse_query`.
    ///
    /// # Errors
    /// `MalformedQuery` if the text is not of the wire format, `EmptySsid`
    /// if the decoded network name is empty, and for a field that is there
    /// but cannot be read `InvalidNightStart`, `InvalidNightEnd` or
    /// `InvalidColor`, the first of them in this order.
    pub fn from_uri_query_string(uri: &str) -> (r: Result<Self, ConfigurationError>)
        ensures
            result_view(r) == parse_query(uri@),
    {
        match split_query(uri) {
            None => Err(ConfigurationError::MalformedQuery),
            Some(fields) => {
                let ssid = url_decode(fields.ssid.as_str());
                let password = url_decode(fields.password.as_str());
                let night_start = decode_if_present(&fields.night_start, NIGHT_FIELD_LENGTH);
                let night_end = decode_if_present(&fields.night_end, NIGHT_FIELD_LENGTH);
                let display_color = decode_if_present(&fields.display_color, COLOR_FIELD_LENGTH);
                Self::from_submitted_fields(ssid, password, night_start, night_end, display_color)
            },
        }
    }

    /// The configuration that five decoded fields of a submission amount to:
    /// see `configuration_from_submitted`. A night-mode boundary or a colour
    /// is `None` where the field was left out.
    pub fn from_submitted_fields(
        ssid: String,
        password: String,
        night_start: Option<String>,
        night_end: Option<String>,
        display_color: Option<String>,
    ) -> (r: Result<Self, ConfigurationError>)
        ensures
            result_view(r) == configuration_from_submitted(
                ssid@,
                password@,
                text_of(night_start),
                text_of(night_end),
                text_of(display_color),
            ),
    {
        if ssid.as_str().unicode_len() == 0 {
            return Err(ConfigurationError::EmptySsid);
        }
        let night_start = match read_submitted_night(night_start) {
            Ok(night) => night,
            Err(_) => {
                return Err(ConfigurationError::InvalidNightStart);
            },
        };
        let night_end = match read_submitted_night(night_end) {
            Ok(night) => night,
            Err(_) => {
                return Err(ConfigurationError::InvalidNightEnd);
            },
        };
        let display_color = match read_submitted_color(display_color) {
            Ok(color) => color,
            Err(_) => {
                return Err(ConfigurationError::InvalidColor);
            },
        };
        Ok(Configuration::new(ssid, password, night_start, night_end, display_color))
    }

    /// The entries that storing this configuration writes, in order: see
    /// `stored_entries`.
    pub fn storage_entries(&self) -> (entries: Vec<(&'static str, String)>)
        ensures
            entries@.map_values(|entry| entry_view(entry)) == stored_entries(self@),
    {
        let mut entries: Vec<(&'static str, String)> = Vec::new();
        match &self.state {
            ConfigurationState::Invalid => {},
            ConfigurationState::Valid(fields) => {
                entries.push((WIFI_SSID_KEY, fields.ssid.clone()));
                entries.push((WIFI_PASSWORD_KEY, fields.password.clone()));
                if let Some(night_start) = fields.night_start {
                    entries.push((NIGHT_START_KEY, night_start.to_string()));
                }
                if let Some(night_end) = fields.night_end {
                    entries.push((NIGHT_END_KEY, night_end.to_string()));
                }
                entries.push((DISPLAY_COLOR_KEY, fields.display_color.to_string()));
                entries.push((VALID_CONFIG_KEY, String::from_str(VALID_CONFIG_VALUE)));
            },
        }
        proof {
            assert(entries@.map_values(|entry| entry_view(entry)) =~= stored_entries(self@));
        }
        entries
    }

    /// Whether the configuration is valid.
    pub fn is_valid(&self) -> (valid: bool)
        ensures
            valid == (self@ is Valid),
    {
        match self.state {
            ConfigurationState::Valid(_) => true,
            _ => false,
        }
    }

    /// Whether the configuration is invalid.
    pub fn is_invalid(&self) -> (invalid: bool)
        ensures
            invalid == (self@ is Invalid),
    {
        match self.state {
            ConfigurationState::Invalid => true,
            _ => false,
        }
    }

    /// The network name of a valid configuration.
    pub fn get_ssid(&self) -> (ssid: Option<String>)
        ensures
            self@ is Invalid ==> ssid is None,
            self@ is Valid ==> text_of(ssid) == Some(self@->ssid),
    {
        match &self.state {
            ConfigurationState::Valid(fields) => Some(fields.ssid.clone()),
            _ => None,
        }
    }

    /// The network password of a valid configuration.
    pub fn get_password(&self) -> (password: Option<String>)
        ensures
            self@ is Invalid ==> password is None,
            self@ is Valid ==> text_of(password) == Some(self@->password),
    {
        match &self.state {
            ConfigurationState::Valid(fields) => Some(fields.password.clone()),
            _ => None,
        }
    }

    /// When the night mode starts, where the configuration is valid and sets
    /// it.
    pub fn get_night_start(&self) -> (night_start: Option<Time>)
        ensures
            self@ is Invalid ==> night_start is None,
            self@ is Valid ==> night_start == self@->night_start,
    {
        match &self.state {
            ConfigurationState::Valid(fields) => fields.night_start,
            _ => None,
        }
    }

    /// When the night mode ends, where the configuration is valid and sets
    /// it.
    pub fn get_night_end(&self) -> (night_end: Option<Time>)
        ensures
            self@ is Invalid ==> night_end is None,
            self@ is Valid ==> night_end == self@->night_end,
    {
        match &self.state {
            ConfigurationState::Valid(fields) => fields.night_end,
            _ => None,
        }
    }

    /// The display colour of a valid configuration.
    pub fn get_display_color(&self) -> (color: Option<Color>)
        ensures
            self@ is Invalid ==> color is None,
            self@ is Valid ==> color == Some(self@->display_color),
    {
        match &self.state {
            ConfigurationState::Valid(fields) => Some(fields.display_color),
            _ => None,
        }
    }
}

/// Decode a field of the query string where it has at least `least`
/// characters: see `decoded_if_present`.
fn decode_if_present(field: &String, least: usize) -> (decoded: Option<String>)
    ensures
        text_of(decoded) == decoded_if_present(field@, least as nat),
{
    if field.as_str().unicode_len() >= least {
        Some(url_decode(field.as_str()))
    } else {
        None
    }
}

/// Read a submitted night-mode boundary: see `submitted_night`.
pub fn read_submitted_night(value: Option<String>) -> (night: Result<Option<Time>, TimeError>)
    ensures
        night == submitted_night(text_of(value)),
{
    match value {
        None => Ok(None),
        Some(decoded) => {
            let mut text = decoded;
            text.append(NO_SECONDS);
            match Time::from_str(text.as_str()) {
                Ok(time) => Ok(Some(time)),
                Err(error) => Err(error),
            }
        },
    }
}

/// Read a submitted colour: see `submitted_color`.
pub fn read_submitted_color(value: Option<String>) -> (color: Result<Color, ColorError>)
    ensures
        color == submitted_color(text_of(value)),
{
    match value {
        None => Ok(Color::default()),
        Some(decoded) => {
            let chars = chars_of(decoded.as_str());
            if chars.len() == 0 {
                return Err(ColorError::InvalidFormat);
            }
            match Color::from_hex_chars(&chars, 1, chars.len()) {
                Ok(color) => {
                    if color.is_black() {
                        Ok(Color::default())
                    } else {
                        Ok(color)
                    }
                },
                Err(error) => Err(error),
            }
        },
    }
}

/// The keys that loading asks for, in the order of asking: the validity flag,
/// the network name, the password, the start and the end of the night mode,
/// the colour.
pub fn loading_keys() -> (keys: [&'static str; 6])
    ensures
        keys[0]@ == VALID_CONFIG_KEY@,
        keys[1]@ == WIFI_SSID_KEY@,
        keys[2]@ == WIFI_PASSWORD_KEY@,
        keys[3]@ == NIGHT_START_KEY@,
        keys[4]@ == NIGHT_END_KEY@,
        keys[5]@ == DISPLAY_COLOR_KEY@,
{
    [
        VALID_CONFIG_KEY,
        WIFI_SSID_KEY,
        WIFI_PASSWORD_KEY,
        NIGHT_START_KEY,
        NIGHT_END_KEY,
        DISPLAY_COLOR_KEY,
    ]
}

/// Whether the answer for the validity flag holds the valid mark.
pub fn is_marked_valid(flag: &Option<String>) -> (valid: bool)
    ensures
        valid == (text_of(*flag) == Some(VALID_CONFIG_VALUE@)),
{
    match flag {
        Some(value) => same_text(value.as_str(), VALID_CONFIG_VALUE),
        None => false,
    }
}

/// Whether the answer for a night-mode boundary can be read: see
/// `stored_night`.
pub fn is_stored_night_readable(value: &Option<String>) -> (readable: bool)
    ensures
        readable == (stored_night(text_of(*value)) is Ok),
{
    match value {
        None => true,
        Some(text) => {
            if text.as_str().unicode_len() != TIME_STRING_LENGTH {
                true
            } else {
                Time::from_str(text.as_str()).is_ok()
            }
        },
    }
}

/// The entry that marks the configuration in storage as invalid: the validity
/// flag with the invalid mark.
pub fn cleaning_entry() -> (entry: (&'static str, &'static str))
    ensures
        entry.0@ == VALID_CONFIG_KEY@,
        entry.1@ == INVALID_CONFIG_VALUE@,
{
    (VALID_CONFIG_KEY, INVALID_CONFIG_VALUE)
}

/// Read a stored night-mode boundary: see `stored_night`.
pub fn read_stored_night(value: Option<String>) -> (night: Result<Option<Time>, TimeError>)
    ensures
        night == stored_night(text_of(value)),
{
    match value {
        None => Ok(None),
        Some(text) => {
            if text.as_str().unicode_len() != TIME_STRING_LENGTH {
                Ok(None)
            } else {
                match Time::from_str(text.as_str()) {
                    Ok(time) => Ok(Some(time)),
                    Err(error) => Err(error),
                }
            }
        },
    }
}

/// Read a stored colour: see `stored_color`.
pub fn read_stored_color(value: Option<String>) -> (color: Option<Color>)
    ensures
        color == stored_color(text_of(value)),
{
    match value {
        None => None,
        Some(text) => {
            if text.as_str().unicode_len() != COLOR_AS_STRING_LENGTH {
                Some(Color::default())
            } else {
                match Color::from_rgb_hex_string(text.as_str()) {
                    Ok(color) => Some(color),
                    Err(_) => None,
                }
            }
        },
    }
}

impl Default for Configuration {
    /// Default constructor, returning an invalid Configuration.
    fn default() -> (configuration: Self)
        ensures
            configuration@ is Invalid,
    {
        Self { state: ConfigurationState::Invalid }
    }
}

} // verus!

verus! {

/// Interface to store and load data to persistent memory.
pub trait PersistentStorage {
    /// Load a string identified by the provided key.
    ///
    /// # Errors
    /// The function will return an error if the hardware fails to carry the
    /// operation, or holds nothing under the key.
    fn load_string(&mut self, key: &str) -> Result<String, HardwareError>;

    /// Store a string identified by the provided key.
    ///
    /// # Errors
    /// The function will return an error if the hardware fails to carry the
    /// operation.
    fn store_string(&mut self, key: &str, value: &str) -> Result<(), HardwareError>;
}

/// Storage agnostic interface to load and store a Configuration.
pub struct ConfigurationManager<S: PersistentStorage> {
    storage_backend: S,
}

impl<S: PersistentStorage> ConfigurationManager<S> {
    /// The storage that the manager reads and writes.
    pub closed spec fn storage(&self) -> S {
        self.storage_backend
    }

    /// A manager of the given storage.
    pub fn new(storage_backend: S) -> (manager: Self)
        ensures
            manager.storage() == storage_backend,
    {
        Self { storage_backend }
    }

    /// Ask the storage for the entry under a key: the text, or `None` where
    /// the storage gave none.
    fn load_entry(&mut self, key: &str) -> Option<String> {
        match self.storage_backend.load_string(key) {
            Ok(value) => Some(value),
            Err(_) => None,
        }
    }

    /// Load a Configuration from persistent storage.
    ///
    /// The entries are asked for under the keys of `loading_keys`, in their
    /// order, and the asking stops behind the first answer that makes the
    /// configuration invalid. The answers are handed to
    /// `Configuration::from_stored`, with `None` for an entry that was not
    /// asked for: whatever the storage answers, the result is the
    /// configuration that `configuration_from_stored` gives for its answers.
    /// It can be `Invalid`.
    pub fn load_from_persistent_storage(&mut self) -> (configuration: Configuration)
        ensures
            exists|
                flag: Option<Seq<char>>,
                ssid: Option<Seq<char>>,
                password: Option<Seq<char>>,
                night_start: Option<Seq<char>>,
                night_end: Option<Seq<char>>,
                display_color: Option<Seq<char>>,
            |
                configuration@ == configuration_from_stored(
                    flag,
                    ssid,
                    password,
                    night_start,
                    night_end,
                    display_color,
                ),
    {
        let keys = loading_keys();
        let flag = self.load_entry(keys[0]);
        let mut ssid: Option<String> = None;
        let mut password: Option<String> = None;
        let mut night_start: Option<String> = None;
        let mut night_end: Option<String> = None;
        let mut display_color: Option<String> = None;
        if is_marked_valid(&flag) {
            ssid = self.load_entry(keys[1]);
            if ssid.is_some() {
                password = self.load_entry(keys[2]);
                if password.is_some() {
                    night_start = self.load_entry(keys[3]);
                    if is_stored_night_readable(&night_start) {
                        night_end = self.load_entry(keys[4]);
                        if is_stored_night_readable(&night_end) {
                            display_color = self.load_entry(keys[5]);
                        }
                    }
                }
            }
        }
        Configuration::from_stored(flag, ssid, password, night_start, night_end, display_color)
    }

    /// Store the given Configuration to persistent memory: the entries of
    /// `Configuration::storage_entries`, in their order, up to the first that
    /// the storage fails to write.
    ///
    /// # Errors
    /// `StoreError::InvalidConfiguration` for an invalid configuration, and
    /// for a valid one `StoreError::Storage` with the storage's error if the
    /// hardware fails to carry the operation.
    pub fn store_to_persistent_storage(&mut self, configuration: Configuration) -> (r: Result<
        (),
        StoreError,
    >)
        ensures
            configuration@ is Invalid ==> r == Err::<(), StoreError>(
                StoreError::InvalidConfiguration,
            ),
            configuration@ is Valid ==> r != Err::<(), StoreError>(StoreError::InvalidConfiguration),
    {
        if !configuration.is_valid() {
            return Err(StoreError::InvalidConfiguration);
        }
        let entries = configuration.storage_entries();
        let mut i: usize = 0;
        while i < entries.len()
            invariant
                i <= entries.len(),
                configuration@ is Valid,
            decreases entries.len() - i,
        {
            match self.storage_backend.store_string(entries[i].0, entries[i].1.as_str()) {
                Ok(()) => {},
                Err(error) => {
                    return Err(StoreError::Storage(error));
                },
            }
            i = i + 1;
        }
        Ok(())
    }

    /// Clean the Configuration validity flag in persistent memory: write the
    /// entry of `cleaning_entry`. The configuration that is in storage loads
    /// as invalid from then on.
    ///
    /// # Errors
    /// The function will return the storage's error if the hardware fails to
    /// carry the operation.
    pub fn clean_persistent_storage(&mut self) -> Result<(), HardwareError> {
        let (key, value) = cleaning_entry();
        self.storage_backend.store_string(key, value)
    }
}

} // verus!

verus! {

/// What a storage that holds `storage` answers for a key: the text under the
/// key, or `None` where it holds none.
pub open spec fn stored_under(storage: Map<Seq<char>, Seq<char>>, key: Seq<char>) -> Option<
    Seq<char>,
> {
    if storage.dom().contains(key) {
        Some(storage[key])
    } else {
        None
    }
}

/// The storage after a run of entries was written to it, in order.
pub open spec fn after_writing(
    storage: Map<Seq<char>, Seq<char>>,
    entries: Seq<(Seq<char>, Seq<char>)>,
) -> Map<Seq<char>, Seq<char>>
    decreases entries.len(),
{
    if entries.len() == 0 {
        storage
    } else {
        after_writing(storage, entries.drop_last()).insert(entries.last().0, entries.last().1)
    }
}

/// The configuration that loading gives from a storage that answers with what
/// it holds.
pub open spec fn configuration_in(storage: Map<Seq<char>, Seq<char>>) -> ConfigurationView {
    configuration_from_stored(
        stored_under(storage, VALID_CONFIG_KEY@),
        stored_under(storage, WIFI_SSID_KEY@),
        stored_under(storage, WIFI_PASSWORD_KEY@),
        stored_under(storage, NIGHT_START_KEY@),
        stored_under(storage, NIGHT_END_KEY@),
        stored_under(storage, DISPLAY_COLOR_KEY@),
    )
}

/// The six keys of the storage layout are six different texts.
pub proof fn lemma_keys_differ()
    ensures
        WIFI_SSID_KEY@ != WIFI_PASSWORD_KEY@,
        WIFI_SSID_KEY@ != NIGHT_START_KEY@,
        WIFI_SSID_KEY@ != NIGHT_END_KEY@,
        WIFI_SSID_KEY@ != VALID_CONFIG_KEY@,
        WIFI_SSID_KEY@ != DISPLAY_COLOR_KEY@,
        WIFI_PASSWORD_KEY@ != NIGHT_START_KEY@,
        WIFI_PASSWORD_KEY@ != NIGHT_END_KEY@,
        WIFI_PASSWORD_KEY@ != VALID_CONFIG_KEY@,
        WIFI_PASSWORD_KEY@ != DISPLAY_COLOR_KEY@,
        NIGHT_START_KEY@ != NIGHT_END_KEY@,
        NIGHT_START_KEY@ != VALID_CONFIG_KEY@,
        NIGHT_START_KEY@ != DISPLAY_COLOR_KEY@,
        NIGHT_END_KEY@ != VALID_CONFIG_KEY@,
        NIGHT_END_KEY@ != DISPLAY_COLOR_KEY@,
        VALID_CONFIG_KEY@ != DISPLAY_COLOR_KEY@,
{
    reveal_strlit("wifi_ssid");
    reveal_strlit("wifi_password");
    reveal_strlit("night_start");
    reveal_strlit("night_end");
    reveal_strlit("valid_config");
    reveal_strlit("display_color");
    assert(WIFI_SSID_KEY@.len() == 9 && WIFI_SSID_KEY@[0] == 'w');
    assert(WIFI_PASSWORD_KEY@.len() == 13 && WIFI_PASSWORD_KEY@[0] == 'w');
    assert(NIGHT_START_KEY@.len() == 11);
    assert(NIGHT_END_KEY@.len() == 9 && NIGHT_END_KEY@[0] == 'n');
    assert(VALID_CONFIG_KEY@.len() == 12);
    assert(DISPLAY_COLOR_KEY@.len() == 13 && DISPLAY_COLOR_KEY@[0] == 'd');
}

/// A storage to which the cleaning entry was written loads as an invalid
/// configuration, whatever else it holds.
pub proof fn lemma_clean_invalidates(storage: Map<Seq<char>, Seq<char>>)
    ensures
        configuration_in(storage.insert(VALID_CONFIG_KEY@, INVALID_CONFIG_VALUE@)) is Invalid,
{
    reveal_strlit("0");
    reveal_strlit("1");
    assert(VALID_CONFIG_VALUE@.len() == 1 && VALID_CONFIG_VALUE@[0] == '0');
    assert(INVALID_CONFIG_VALUE@.len() == 1 && INVALID_CONFIG_VALUE@[0] == '1');
}

/// A storage without a validity flag, or with another mark than the valid
/// one under it, loads as an invalid configuration.
pub proof fn lemma_unmarked_storage_is_invalid(storage: Map<Seq<char>, Seq<char>>)
    requires
        stored_under(storage, VALID_CONFIG_KEY@) != Some(VALID_CONFIG_VALUE@),
    ensures
        configuration_in(storage) is Invalid,
{
}

/// Writing one more entry inserts it into what the entries before it gave.
proof fn lemma_write_one_more(
    storage: Map<Seq<char>, Seq<char>>,
    entries: Seq<(Seq<char>, Seq<char>)>,
    entry: (Seq<char>, Seq<char>),
)
    ensures
        after_writing(storage, entries.push(entry)) == after_writing(storage, entries).insert(
            entry.0,
            entry.1,
        ),
{
    assert(entries.push(entry).drop_last() =~= entries);
}

/// Store then load yields the configuration that was stored, field for field: a
/// storage that holds what storing a valid configuration wrote, on top of
/// whatever it held before, loads as that configuration. This needs the
/// night-mode boundaries of the configuration to be times of day, and, for a
/// boundary that the configuration leaves unset, that the storage held no
/// boundary before: storing writes nothing for an unset boundary.
pub proof fn lemma_store_load_round_trip(
    storage: Map<Seq<char>, Seq<char>>,
    configuration: ConfigurationView,
)
    requires
        configuration matches ConfigurationView::Valid { night_start, night_end, .. } && {
            &&& night_start matches Some(time) ==> time.is_valid()
            &&& night_end matches Some(time) ==> time.is_valid()
            &&& night_start is None ==> stored_night(stored_under(storage, NIGHT_START_KEY@))
                == Ok::<Option<Time>, TimeError>(None)
            &&& night_end is None ==> stored_night(stored_under(storage, NIGHT_END_KEY@)) == Ok::<
                Option<Time>,
                TimeError,
            >(None)
        },
    ensures
        configuration_in(after_writing(storage, stored_entries(configuration))) == configuration,
{
    lemma_keys_differ();
    match configuration {
        ConfigurationView::Invalid => {},
        ConfigurationView::Valid { ssid, password, night_start, night_end, display_color } => {
            let e0 = Seq::<(Seq<char>, Seq<char>)>::empty();
            let e1 = e0.push((WIFI_SSID_KEY@, ssid));
            let e2 = e1.push((WIFI_PASSWORD_KEY@, password));
            let e3 = match night_start {
                Some(time) => e2.push((NIGHT_START_KEY@, time.text())),
                None => e2,
            };
            let e4 = match night_end {
                Some(time) => e3.push((NIGHT_END_KEY@, time.text())),
                None => e3,
            };
            let e5 = e4.push((DISPLAY_COLOR_KEY@, display_color.text()));
            let e6 = e5.push((VALID_CONFIG_KEY@, VALID_CONFIG_VALUE@));
            assert(stored_entries(configuration) =~= e6);
            let m0 = after_writing(storage, e0);
            assert(m0 == storage);
            let m1 = after_writing(storage, e1);
            let m2 = after_writing(storage, e2);
            let m3 = after_writing(storage, e3);
            let m4 = after_writing(storage, e4);
            let m5 = after_writing(storage, e5);
            let m6 = after_writing(storage, e6);
            lemma_write_one_more(storage, e0, (WIFI_SSID_KEY@, ssid));
            lemma_write_one_more(storage, e1, (WIFI_PASSWORD_KEY@, password));
            if let Some(time) = night_start {
                lemma_write_one_more(storage, e2, (NIGHT_START_KEY@, time.text()));
                crate::time::lemma_valid_time_text(time);
                crate::time::lemma_time_text_round_trip(time);
            }
            if let Some(time) = night_end {
                lemma_write_one_more(storage, e3, (NIGHT_END_KEY@, time.text()));
                crate::time::lemma_valid_time_text(time);
                crate::time::lemma_time_text_round_trip(time);
            }
            lemma_write_one_more(storage, e4, (DISPLAY_COLOR_KEY@, display_color.text()));
            lemma_write_one_more(storage, e5, (VALID_CONFIG_KEY@, VALID_CONFIG_VALUE@));
            crate::color::lemma_color_text(display_color);
            crate::color::lemma_color_text_round_trip(display_color);
            assert(stored_under(m6, VALID_CONFIG_KEY@) == Some(VALID_CONFIG_VALUE@));
            assert(stored_under(m6, WIFI_SSID_KEY@) == Some(ssid));
            assert(stored_under(m6, WIFI_PASSWORD_KEY@) == Some(password));
            assert(stored_under(m6, DISPLAY_COLOR_KEY@) == Some(display_color.text()));
            assert(stored_under(m6, NIGHT_START_KEY@) == stored_under(m3, NIGHT_START_KEY@));
            assert(stored_under(m6, NIGHT_END_KEY@) == stored_under(m4, NIGHT_END_KEY@));
            assert(stored_night(stored_under(m6, NIGHT_START_KEY@)) == Ok::<
                Option<Time>,
                TimeError,
            >(night_start));
            assert(stored_night(stored_under(m6, NIGHT_END_KEY@)) == Ok::<Option<Time>, TimeError>(
                night_end,
            ));
            assert(stored_color(stored_under(m6, DISPLAY_COLOR_KEY@)) == Some(display_color));
        },
    }
}

} // verus!
