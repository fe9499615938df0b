//! What the debouncer is configured with: the keys to watch and the delay.

use crate::error::UnknownKeyName;
use crate::number::{decimal_spec, parse_number_spec, parse_u64, to_decimal};
use crate::text::{join, join_spec, split, split_spec, views};
use crate::windows::keys::{
    all_keys, get_all_keys_code, lemma_all_keys_hold, parse_name, parse_name_spec, MappedKey,
};
use vstd::prelude::*;
use vstd::string::StringExecFns;

verus! {

/// The delay where the settings give none, in milliseconds.
pub const DEFAULT_DELAY_MS: u64 = 85;

/// The keys that are debounced and the least time, in milliseconds, between
/// two presses of one of them.
pub struct ConfigHolder {
    pub keys: Vec<MappedKey>,
    pub delay_ms: u64,
}

/// Why settings were not accepted.
#[derive(Debug)]
pub enum ConfigError {
    /// The key list names keys that do not exist.
    UnknownKeyName(UnknownKeyName),
    /// The delay is not a number of at most 64 bits.
    InvalidDelay,
}

/// The names of a key list that stand for no key, in the order of the list.
pub open spec fn unknown_names(names: Seq<Seq<char>>) -> Seq<Seq<char>> {
    names.filter(|name: Seq<char>| parse_name_spec(name) is None)
}

/// The keys that a key list stands for: its names are separated by commas,
/// and each has to be the name of a key. Where some are not, the list stands
/// for nothing, and all of those are reported.
pub open spec fn key_codes_spec(keys: Seq<char>) -> Result<Seq<MappedKey>, Seq<Seq<char>>> {
    let names = split_spec(keys, ',');
    if unknown_names(names).len() == 0 {
        Ok(names.map_values(|name: Seq<char>| parse_name_spec(name).unwrap()))
    } else {
        Err(unknown_names(names))
    }
}

/// The names of the keys of `named` that are among `keys`, in the order of
/// `named`.
pub open spec fn names_among(named: Seq<MappedKey>, keys: Seq<MappedKey>) -> Seq<Seq<char>> {
    named.filter(|key: MappedKey| keys.contains(key)).map_values(
        |key: MappedKey| key.name_spec().unwrap(),
    )
}

/// The settings as the lines of a settings file: the watched keys that have a
/// name, by name and in the order of `all_keys`, then the delay.
pub open spec fn config_text(config: ConfigHolder) -> Seq<char> {
    "keys="@ + join_spec(names_among(all_keys(), config.keys@), ","@) + "\ndelay_ms="@
        + decimal_spec(config.delay_ms as nat)
}

/// Reads a key list.
pub fn get_keys_code(keys: &str) -> (codes: Result<Vec<MappedKey>, UnknownKeyName>)
    ensures
        match codes {
            Ok(found) => key_codes_spec(keys@) == Ok::<Seq<MappedKey>, Seq<Seq<char>>>(found@),
            Err(unknown) => key_codes_spec(keys@) == Err::<Seq<MappedKey>, Seq<Seq<char>>>(
                unknown.names.deep_view(),
            ),
        },
{
    let names = split(keys, ',');
    let ghost all = split_spec(keys@, ',');
    let mut found: Vec<MappedKey> = Vec::new();
    let mut unknown: Vec<String> = Vec::new();
    let mut i: usize = 0;
    proof {
        reveal(Seq::filter);
    }
    while i < names.len()
        invariant
            i <= names.len(),
            views(names@) == all,
            unknown.deep_view() == unknown_names(all.take(i as int)),
            unknown@.len() == 0 ==> found@ == all.take(i as int).map_values(
                |name: Seq<char>| parse_name_spec(name).unwrap(),
            ),
        decreases names.len() - i,
    {
        let name = names[i];
        proof {
            reveal(Seq::filter);
            assert(all.take(i + 1).drop_last() == all.take(i as int));
        }
        match parse_name(name) {
            Some(key) => {
                found.push(key);
            },
            None => {
                unknown.push(name.to_owned());
            },
        }
        i += 1;
    }
    assert(all.take(names.len() as int) == all);
    if unknown.len() == 0 {
        Ok(found)
    } else {
        Err(UnknownKeyName { names: unknown })
    }
}

/// Puts settings together from what a settings file holds under `keys` and
/// `delay_ms`. A setting that is missing takes its default: every key of
/// `all_keys`, 85 milliseconds. The first setting in that order that cannot be
/// read is reported.
pub fn load_config(keys: Option<&str>, delay_ms: Option<&str>) -> (loaded: Result<
    ConfigHolder,
    ConfigError,
>)
    ensures
        match loaded {
            Ok(config) => {
                &&& match keys {
                    Some(list) => key_codes_spec(list@) == Ok::<
                        Seq<MappedKey>,
                        Seq<Seq<char>>,
                    >(config.keys@),
                    None => config.keys@ == all_keys(),
                }
                &&& match delay_ms {
                    Some(text) => parse_number_spec(text@, u64::MAX as int) == Some(
                        config.delay_ms as int,
                    ),
                    None => config.delay_ms == DEFAULT_DELAY_MS,
                }
            },
            Err(ConfigError::UnknownKeyName(unknown)) => {
                &&& keys is Some
                &&& key_codes_spec(keys.unwrap()@) == Err::<Seq<MappedKey>, Seq<Seq<char>>>(
                    unknown.names.deep_view(),
                )
            },
            Err(ConfigError::InvalidDelay) => {
                &&& keys is Some ==> key_codes_spec(keys.unwrap()@) is Ok
                &&& delay_ms is Some
                &&& parse_number_spec(delay_ms.unwrap()@, u64::MAX as int) is None
            },
        },
{
    let keys = match keys {
        Some(list) => match get_keys_code(list) {
            Ok(found) => found,
            Err(unknown) => {
                return Err(ConfigError::UnknownKeyName(unknown));
            },
        },
        None => get_all_keys_code(),
    };
    let delay_ms = match delay_ms {
        Some(text) => match parse_u64(text) {
            Some(number) => number,
            None => {
                return Err(ConfigError::InvalidDelay);
            },
        },
        None => DEFAULT_DELAY_MS,
    };
    Ok(ConfigHolder { keys, delay_ms })
}

impl ConfigHolder {
    /// Whether `key` is one of the keys to debounce.
    pub fn watches(&self, key: MappedKey) -> (watched: bool)
        ensures
            watched == self.keys@.contains(key),
    {
        let mut i: usize = 0;
        while i < self.keys.len()
            invariant
                i <= self.keys.len(),
                forall|j: int| 0 <= j < i ==> self.keys@[j] != key,
            decreases self.keys.len() - i,
        {
            if self.keys[i] == key {
                return true;
            }
            i += 1;
        }
        false
    }

    /// The settings as the text of a settings file.
    pub fn to_string(&self) -> (text: String)
        ensures
            text@ == config_text(*self),
    {
        let named = get_all_keys_code();
        let mut names: Vec<&'static str> = Vec::new();
        let mut i: usize = 0;
        proof {
            reveal(Seq::filter);
        }
        while i < named.len()
            invariant
                i <= named.len(),
                named@ == all_keys(),
                views(names@) == names_among(all_keys().take(i as int), self.keys@),
            decreases named.len() - i,
        {
            let key = named[i];
            proof {
                reveal(Seq::filter);
                assert(all_keys().take(i + 1).drop_last() == all_keys().take(i as int));
                lemma_all_keys_hold(key);
            }
            if self.watches(key) {
                if let Some(name) = key.name() {
                    proof {
                        let kept = all_keys().take(i as int).filter(
                            |key: MappedKey| self.keys@.contains(key),
                        );
                        assert(kept.push(key).map_values(
                            |key: MappedKey| key.name_spec().unwrap(),
                        ) == kept.map_values(|key: MappedKey| key.name_spec().unwrap()).push(
                            name@,
                        ));
                    }
                    names.push(name);
                }
            }
            i += 1;
        }
        assert(all_keys().take(named.len() as int) == all_keys());
        let mut text = String::from_str("keys=");
        text.append(join(&names, ",").as_str());
        text.append("\ndelay_ms=");
        text.append(to_decimal(self.delay_ms).as_str());
        text
    }
}

} // verus!
