//! Application preferences: the stored brightness and rotation values,
//! their defaults when unset, and validation of configured values.
//!
//! Reading and writing the preference file itself is plain I/O and lives
//! outside the library; everything here is a pure function of the parsed
//! preference values.

use vstd::prelude::*;

verus! {

/// Brightness applied when no preference is stored.
pub const DEFAULT_BRIGHTNESS: u8 = 0x80;

/// Rotation (in degrees) applied when no preference is stored.
pub const DEFAULT_ROTATION: u16 = 0;

/// The persisted preferences; an absent field means "use the default".
#[derive(Debug, Clone, Copy, PartialEq, Eq, Structural)]
pub struct AppPrefs {
    pub brightness: Option<u8>,
    pub rotation: Option<u16>,
}

impl Default for AppPrefs {
    /// Fresh preferences have no stored values.
    fn default() -> (r: AppPrefs)
        ensures
            r.brightness is None,
            r.rotation is None,
    {
        AppPrefs { brightness: None, rotation: None }
    }
}

/// The brightness to apply for these preferences: the stored value, or the
/// default when none is stored.
pub fn load_brightness(prefs: &AppPrefs) -> (r: u8)
    ensures
        r == match prefs.brightness {
            Some(b) => b,
            None => DEFAULT_BRIGHTNESS,
        },
{
    match prefs.brightness {
        Some(b) => b,
        None => DEFAULT_BRIGHTNESS,
    }
}

/// Stores a brightness value, leaving every other preference unchanged.
pub fn save_brightness(prefs: &mut AppPrefs, brightness: u8)
    ensures
        final(prefs).brightness == Some(brightness),
        final(prefs).rotation == old(prefs).rotation,
{
    prefs.brightness = Some(brightness);
}

/// The rotation in degrees to apply for these preferences: the stored
/// value, or the default when none is stored.
pub fn load_rotation(prefs: &AppPrefs) -> (r: u16)
    ensures
        r == match prefs.rotation {
            Some(d) => d,
            None => DEFAULT_ROTATION,
        },
{
    match prefs.rotation {
        Some(d) => d,
        None => DEFAULT_ROTATION,
    }
}

/// Stores a rotation value in degrees, leaving every other preference
/// unchanged.
pub fn save_rotation(prefs: &mut AppPrefs, rotation: u16)
    ensures
        final(prefs).rotation == Some(rotation),
        final(prefs).brightness == old(prefs).brightness,
{
    prefs.rotation = Some(rotation);
}

/// Checks a configured brightness override: values outside `[1, 255]` are
/// rejected as a startup error.
pub fn validate_brightness(value: u32) -> (r: Option<u8>)
    ensures
        r is Some <==> 1 <= value <= 255,
        r matches Some(b) ==> b == value as u8,
{
    if 1 <= value && value <= 255 {
        Some(value as u8)
    } else {
        None
    }
}

/// Checks a configured display rotation: only whole quarter turns are
/// accepted; anything else is a startup error.
pub fn validate_rotation(deg: u16) -> (r: bool)
    ensures
        r <==> (deg == 0 || deg == 90 || deg == 180 || deg == 270),
{
    deg == 0 || deg == 90 || deg == 180 || deg == 270
}

} // verus!
