//! What the debouncer is configured with: the keys to watch, the delay, and
//! the keyboard to listen to.

use crate::error::UnknownKeyName;
use crate::linux::keys::{
    all_keys, available_keys, get_all_keys_code, get_available_keys_code, key_name,
    key_name_spec, lemma_available_keys_hold, parse_name, parse_name_spec,
};
use crate::number::{decimal_spec, parse_number_spec, parse_u32, parse_u64, to_decimal};
use crate::text::{join, join_spec, split, split_spec, views};
use vstd::prelude::*;
use vstd::string::StringExecFns;

verus! {

/// The delay where the settings give none, in milliseconds.
pub const DEFAULT_DELAY_MS: u64 = 85;

/// The codes of the keys that are debounced, the least time in milliseconds
/// between a release and the next press of one of them, and the keyboard that
/// was chosen: its vendor and product number packed into one id, and its name.
/// An id of zero stands for no keyboard.
pub struct ConfigHolder {
    pub keys: Vec<u16>,
    pub device_id: u32,
    pub device_name: String,
    pub delay_ms: u64,
}

/// Why settings were not accepted.
#[derive(Debug)]
pub enum ConfigError {
    /// The key list names keys that do not exist.
    UnknownKeyName(UnknownKeyName),
    /// The delay is not a number of at most 64 bits.
    InvalidDelay,
    /// The device id is not a number of at most 32 bits.
    InvalidDeviceId,
}

/// The names of a key list that stand for no key, in the order of the list.
pub open spec fn unknown_names(names: Seq<Seq<char>>) -> Seq<Seq<char>> {
    names.filter(|name: Seq<char>| parse_name_spec(name) is None)
}

/// The key codes that a key list stands for: its names are separated by
/// commas, and each has to be the name of a key. Where some are not, the list
/// stands for nothing, and all of those are reported.
pub open spec fn key_codes_spec(keys: Seq<char>) -> Result<Seq<u16>, Seq<Seq<char>>> {
    let names = split_spec(keys, ',');
    if unknown_names(names).len() == 0 {
        Ok(names.map_values(|name: Seq<char>| parse_name_spec(name).unwrap()))
    } else {
        Err(unknown_names(names))
    }
}

/// The names of the keys of `codes` that are among `keys`, in the order of
/// `codes`.
pub open spec fn names_among(codes: Seq<u16>, keys: Seq<u16>) -> Seq<Seq<char>> {
    codes.filter(|code: u16| keys.contains(code)).map_values(
        |code: u16| key_name_spec(code).unwrap(),
    )
}

/// The settings as the lines of a settings file: the watched keys that have a
/// name, by name and in the order of `available_keys`, then the delay, the
/// device id and the device name.
pub open spec fn config_text(config: ConfigHolder) -> Seq<char> {
    "keys="@ + join_spec(names_among(available_keys(), config.keys@), ","@) + "\ndelay_ms="@
        + decimal_spec(config.delay_ms as nat) + "\ndevice_id="@ + decimal_spec(
        config.device_id as nat,
    ) + "\ndevice_name="@ + config.device_name@
}

/// Reads a key list.
pub fn get_keys_code(keys: &str) -> (codes: Result<Vec<u16>, UnknownKeyName>)
    ensures
        match codes {
            Ok(found) => key_codes_spec(keys@) == Ok::<Seq<u16>, Seq<Seq<char>>>(found@),
            Err(unknown) => key_codes_spec(keys@) == Err::<Seq<u16>, Seq<Seq<char>>>(
                unknown.names.deep_view(),
            ),
        },
{
    let names = split(keys, ',');
    let ghost all = split_spec(keys@, ',');
    let mut found: Vec<u16> = Vec::new();
    let mut unknown: Vec<String> = Vec::new();
    let mut i: usize = 0;
    proof {
        reveal(Seq::filter);
    }
    while i < names.len()
        invariant
            i <= names.len(),
            views(names@) == all,
            unknown.deep_view() == unknown_names(all.take(i as int)),
            unknown@.len() == 0 ==> found@ == all.take(i as int).map_values(
                |name: Seq<char>| parse_name_spec(name).unwrap(),
            ),
        decreases names.len() - i,
    {
        let name = names[i];
        proof {
            reveal(Seq::filter);
            assert(all.take(i + 1).drop_last() == all.take(i as int));
        }
        match parse_name(name) {
            Some(code) => {
                found.push(code);
            },
            None => {
                unknown.push(name.to_owned());
            },
        }
        i += 1;
    }
    assert(all.take(names.len() as int) == all);
    if unknown.len() == 0 {
        Ok(found)
    } else {
        Err(UnknownKeyName { names: unknown })
    }
}

/// Puts settings together from what a settings file holds under `keys`,
/// `delay_ms`, `device_id` and `device_name`. A setting that is missing takes
/// its default: every key of `all_keys`, 85 milliseconds, no device, the name
/// `unknown`. The first setting in that order that cannot be read is reported.
pub fn load_config(
    keys: Option<&str>,
    delay_ms: Option<&str>,
    device_id: Option<&str>,
    device_name: Option<&str>,
) -> (loaded: Result<ConfigHolder, ConfigError>)
    ensures
        match loaded {
            Ok(config) => {
                &&& match keys {
                    Some(list) => key_codes_spec(list@) == Ok::<Seq<u16>, Seq<Seq<char>>>(
                        config.keys@,
                    ),
                    None => config.keys@ == all_keys(),
                }
                &&& match delay_ms {
                    Some(text) => parse_number_spec(text@, u64::MAX as int) == Some(
                        config.delay_ms as int,
                    ),
                    None => config.delay_ms == DEFAULT_DELAY_MS,
                }
                &&& match device_id {
                    Some(text) => parse_number_spec(text@, u32::MAX as int) == Some(
                        config.device_id as int,
                    ),
                    None => config.device_id == 0,
                }
                &&& match device_name {
                    Some(text) => config.device_name@ == text@,
                    None => config.device_name@ == "unknown"@,
                }
            },
            Err(ConfigError::UnknownKeyName(unknown)) => {
                &&& keys is Some
                &&& key_codes_spec(keys.unwrap()@) == Err::<Seq<u16>, Seq<Seq<char>>>(
                    unknown.names.deep_view(),
                )
            },
            Err(ConfigError::InvalidDelay) => {
                &&& keys is Some ==> key_codes_spec(keys.unwrap()@) is Ok
                &&& delay_ms is Some
                &&& parse_number_spec(delay_ms.unwrap()@, u64::MAX as int) is None
            },
            Err(ConfigError::InvalidDeviceId) => {
                &&& keys is Some ==> key_codes_spec(keys.unwrap()@) is Ok
                &&& delay_ms is Some ==> parse_number_spec(delay_ms.unwrap()@, u64::MAX as int)
                    is Some
                &&& device_id is Some
                &&& parse_number_spec(device_id.unwrap()@, u32::MAX as int) is None
            },
        },
{
    let keys = match keys {
        Some(list) => match get_keys_code(list) {
            Ok(found) => found,
            Err(unknown) => {
                return Err(ConfigError::UnknownKeyName(unknown));
            },
        },
        None => get_all_keys_code(),
    };
    let delay_ms = match delay_ms {
        Some(text) => match parse_u64(text) {
            Some(number) => number,
            None => {
                return Err(ConfigError::InvalidDelay);
            },
        },
        None => DEFAULT_DELAY_MS,
    };
    let device_id = match device_id {
        Some(text) => match parse_u32(text) {
            Some(number) => number,
            None => {
                return Err(ConfigError::InvalidDeviceId);
            },
        },
        None => 0,
    };
    let device_name = match device_name {
        Some(text) => String::from_str(text),
        None => String::from_str("unknown"),
    };
    Ok(ConfigHolder { keys, device_id, device_name, delay_ms })
}

impl ConfigHolder {
    /// Whether `code` is one of the keys to debounce.
    pub fn watches(&self, code: u16) -> (watched: bool)
        ensures
            watched == self.keys@.contains(code),
    {
        let mut i: usize = 0;
        while i < self.keys.len()
            invariant
                i <= self.keys.len(),
                forall|j: int| 0 <= j < i ==> self.keys@[j] != code,
            decreases self.keys.len() - i,
        {
            if self.keys[i] == code {
                return true;
            }
            i += 1;
        }
        false
    }

    /// The settings as the text of a settings file.
    pub fn to_string(&self) -> (text: String)
        ensures
            text@ == config_text(*self),
    {
        let codes = get_available_keys_code();
        let mut names: Vec<&'static str> = Vec::new();
        let mut i: usize = 0;
        proof {
            reveal(Seq::filter);
        }
        while i < codes.len()
            invariant
                i <= codes.len(),
                codes@ == available_keys(),
                views(names@) == names_among(available_keys().take(i as int), self.keys@),
            decreases codes.len() - i,
        {
            let code = codes[i];
            proof {
                reveal(Seq::filter);
                assert(available_keys().take(i + 1).drop_last() == available_keys().take(i as int));
                lemma_available_keys_hold(code);
            }
            if self.watches(code) {
                if let Some(name) = key_name(code) {
                    proof {
                        let kept = available_keys().take(i as int).filter(
                            |code: u16| self.keys@.contains(code),
                        );
                        assert(kept.push(code).map_values(
                            |code: u16| key_name_spec(code).unwrap(),
                        ) == kept.map_values(|code: u16| key_name_spec(code).unwrap()).push(
                            name@,
                        ));
                    }
                    names.push(name);
                }
            }
            i += 1;
        }
        assert(available_keys().take(codes.len() as int) == available_keys());
        let mut text = String::from_str("keys=");
        text.append(join(&names, ",").as_str());
        text.append("\ndelay_ms=");
        text.append(to_decimal(self.delay_ms).as_str());
        text.append("\ndevice_id=");
        text.append(to_decimal(self.device_id as u64).as_str());
        text.append("\ndevice_name=");
        text.append(self.device_name.as_str());
        text
    }
}

} // verus!
