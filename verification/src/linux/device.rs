//! Which keyboard to listen to, and which keys the virtual keyboard offers
//! that the debounced events are sent out through.

use crate::linux::config::ConfigHolder;
use crate::linux::keys::{all_keys, get_all_keys_code, lemma_all_keys_bounds};
use crate::text::str_eq;
use vstd::prelude::*;
use vstd::string::StringExecFns;

verus! {

/// A keyboard as its maker numbers it.
#[derive(Debug, Clone, Copy, PartialEq, Eq, Structural)]
pub struct Device {
    pub vendor: u16,
    pub product: u16,
}

impl Device {
    pub fn new(vendor: u16, product: u16) -> (device: Device)
        ensures
            device == (Device { vendor, product }),
    {
        Device { vendor, product }
    }
}

/// Two numbers of sixteen bits as one of thirty-two: `high` in the upper
/// half, `low` in the lower.
pub open spec fn combined(high: u16, low: u16) -> int {
    high * 0x1_0000 + low
}

/// Packs the vendor and the product number of a keyboard into one id.
pub fn combine_u16_to_u32(high: u16, low: u16) -> (value: u32)
    ensures
        value == combined(high, low),
{
    let wide_high: u32 = high as u32;
    let wide_low: u32 = low as u32;
    assert((wide_high << 16) | wide_low == wide_high * 0x1_0000 + wide_low) by (bit_vector)
        requires
            wide_high < 0x1_0000,
            wide_low < 0x1_0000,
    ;
    (wide_high << 16) | wide_low
}

/// The upper and the lower half of `value`: the two numbers that
/// `combine_u16_to_u32` makes `value` of.
pub fn split_u32_to_u16(value: u32) -> (halves: (u16, u16))
    ensures
        combined(halves.0, halves.1) == value,
        halves.0 == value / 0x1_0000,
        halves.1 == value % 0x1_0000,
{
    assert(value >> 16 == value / 0x1_0000 && (value >> 16) < 0x1_0000) by (bit_vector);
    assert(value & 0xFFFF == value % 0x1_0000 && (value & 0xFFFF) < 0x1_0000) by (bit_vector);
    let high = (value >> 16) as u16;
    let low = (value & 0xFFFF) as u16;
    (high, low)
}

/// Which keyboard to listen to.
#[derive(Debug, Clone, Copy, PartialEq, Eq, Structural)]
pub enum DeviceChoice {
    /// None was asked for and none is remembered.
    Missing,
    /// The keyboard that the settings remember.
    Remembered(Device),
    /// The keyboard with this number in the list of keyboards.
    Listed(u32),
}

/// The keyboard to listen to when number `device_number` was asked for and
/// the settings remember `device_id`. Zero stands for no number and for no id;
/// a number that was asked for comes before what is remembered.
pub open spec fn device_choice(device_number: u32, device_id: u32) -> DeviceChoice {
    if device_number != 0 {
        DeviceChoice::Listed(device_number)
    } else if device_id != 0 {
        DeviceChoice::Remembered(
            Device { vendor: (device_id / 0x1_0000) as u16, product: (device_id % 0x1_0000) as u16 },
        )
    } else {
        DeviceChoice::Missing
    }
}

/// Chooses the keyboard to listen to.
pub fn choose_device(device_number: u32, config: &ConfigHolder) -> (choice: DeviceChoice)
    ensures
        choice == device_choice(device_number, config.device_id),
{
    if device_number == 0 && config.device_id == 0 {
        DeviceChoice::Missing
    } else if device_number == 0 {
        let (vendor, product) = split_u32_to_u16(config.device_id);
        DeviceChoice::Remembered(Device::new(vendor, product))
    } else {
        DeviceChoice::Listed(device_number)
    }
}

impl ConfigHolder {
    /// Whether a keyboard with these numbers and this name is the one that the
    /// settings remember.
    pub fn remembers(&self, device: &Device, name: &str) -> (remembered: bool)
        ensures
            remembered == (combined(device.vendor, device.product) == self.device_id && name@
                == self.device_name@),
    {
        let (vendor, product) = split_u32_to_u16(self.device_id);
        device.vendor == vendor && device.product == product && str_eq(
            name,
            self.device_name.as_str(),
        )
    }

    /// Makes the settings remember a keyboard.
    pub fn remember(&mut self, device: &Device, name: &str)
        ensures
            final(self).device_id == combined(device.vendor, device.product),
            final(self).device_name@ == name@,
            final(self).keys == old(self).keys,
            final(self).delay_ms == old(self).delay_ms,
    {
        self.device_id = combine_u16_to_u32(device.vendor, device.product);
        self.device_name = String::from_str(name);
    }
}

/// How many key codes the input layer has; every code is below this.
pub const KEY_COUNT: u16 = 0x300;

/// A set of keys as `evdev` holds it and as the builder of a virtual keyboard
/// takes it: an `evdev::AttributeSet` with one bit for each key code. All that
/// is known of it here is which codes it holds, `key_set_codes`.
#[verifier::external_body]
pub struct KeySet {
    pub keys: evdev::AttributeSet<evdev::KeyCode>,
}

/// The key codes whose bit is set in a key set.
pub uninterp spec fn key_set_codes(set: KeySet) -> Set<u16>;

/// `evdev::AttributeSet::new`, which makes a set with every bit cleared.
#[verifier::external_body]
fn empty_key_set() -> (set: KeySet)
    ensures
        key_set_codes(set) == Set::<u16>::empty(),
{
    KeySet { keys: evdev::AttributeSet::new() }
}

/// `evdev::AttributeSetRef::insert`, which sets the bit of a key code and
/// leaves the others as they are. It reaches past the end of the bits, and
/// panics, for a code that is not below `KEY_COUNT`.
#[verifier::external_body]
fn insert_key(set: &mut KeySet, code: u16)
    requires
        code < KEY_COUNT,
    ensures
        key_set_codes(*final(set)) == key_set_codes(*old(set)).insert(code),
{
    set.keys.insert(evdev::KeyCode::new(code));
}

/// The keys that the virtual keyboard offers: those of `all_keys`.
pub fn virtual_device_keys() -> (set: KeySet)
    ensures
        key_set_codes(set) == all_keys().to_set(),
{
    let codes = get_all_keys_code();
    let mut set = empty_key_set();
    let mut i: usize = 0;
    proof {
        lemma_all_keys_bounds();
        assert(all_keys().take(0).to_set() == Set::<u16>::empty());
    }
    while i < codes.len()
        invariant
            i <= codes.len(),
            codes@ == all_keys(),
            forall|j: int| 0 <= j < all_keys().len() ==> #[trigger] all_keys()[j] <= 248,
            key_set_codes(set) == all_keys().take(i as int).to_set(),
        decreases codes.len() - i,
    {
        let code = codes[i];
        insert_key(&mut set, code);
        proof {
            let shorter = all_keys().take(i as int);
            assert(all_keys().take(i + 1) == shorter.push(code));
            shorter.lemma_push_to_set_commute(code);
        }
        i += 1;
    }
    assert(all_keys().take(codes.len() as int) == all_keys());
    set
}

} // verus!
