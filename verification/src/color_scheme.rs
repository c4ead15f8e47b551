//! Whether dark or light decorations are wanted.

use vstd::prelude::*;
use crate::text::same_text;

verus! {

/// The settings namespace of the desktop portal that is listened to.
pub const APPEARANCE_NAMESPACE: &'static str = "org.freedesktop.appearance";

/// The setting that is listened to.
pub const COLOR_SCHEME_KEY: &'static str = "color-scheme";

/// The colours that decorations are drawn in.
#[derive(Clone, Copy, Debug, PartialEq, Eq, Structural)]
pub enum ColorScheme {
    Light,
    Dark,
}

/// A portal value that is not a number.
#[derive(Clone, Copy, Debug, PartialEq, Eq, Structural)]
pub struct InvalidPortalValue;

/// Why a portal signal was not understood.
#[derive(Clone, Copy, Debug, PartialEq, Eq, Structural)]
pub enum SettingError {
    InvalidBody,
    InvalidValue,
}

/// The colours in use.
#[derive(Clone, Copy, Debug, PartialEq, Eq, Structural)]
pub struct ColorSchemeState {
    pub current: ColorScheme,
}

#[verifier::external_type_specification]
#[verifier::external_body]
pub struct ExOwnedValue(zbus::zvariant::OwnedValue);

#[verifier::external_type_specification]
#[verifier::external_body]
pub struct ExVariantError(zbus::zvariant::Error);

#[verifier::external_type_specification]
#[verifier::external_body]
pub struct ExBusError(zbus::Error);

/// The number that a D-Bus value holds, itself or inside one variant.
pub uninterp spec fn portal_number(value: zbus::zvariant::OwnedValue) -> Option<u32>;

/// `zvariant::Value::downcast` to `u32`: the number in a value, if it holds one.
#[verifier::external_body]
fn downcast_u32(value: &zbus::zvariant::OwnedValue) -> (number: Result<u32, zbus::zvariant::Error>)
    ensures
        (match number {
            Ok(number) => portal_number(*value) == Some(number),
            Err(_) => portal_number(*value) is None,
        }),
{
    zbus::zvariant::Value::try_from(value).and_then(zbus::zvariant::Value::downcast::<u32>)
}

/// A byte in lower case, if it is an ASCII letter.
pub open spec fn lower(byte: u8) -> u8 {
    if 0x41 <= byte <= 0x5a {
        (byte + 0x20) as u8
    } else {
        byte
    }
}

/// Whether the word "dark" stands at a place in a text, in whatever case.
pub open spec fn dark_at(bytes: Seq<u8>, i: int) -> bool {
    &&& 0 <= i
    &&& i + 4 <= bytes.len()
    &&& lower(bytes[i]) == 0x64
    &&& lower(bytes[i + 1]) == 0x61
    &&& lower(bytes[i + 2]) == 0x72
    &&& lower(bytes[i + 3]) == 0x6b
}

/// Whether a text holds the word "dark", in whatever case.
pub open spec fn says_dark(bytes: Seq<u8>) -> bool {
    exists|i: int| #[trigger] dark_at(bytes, i)
}

fn lower_byte(byte: u8) -> (r: u8)
    ensures
        r == lower(byte),
{
    if 0x41 <= byte && byte <= 0x5a {
        byte + 0x20
    } else {
        byte
    }
}

/// Whether a text holds the word "dark", in whatever case.
pub fn contains_dark_case_insensitive(value: &str) -> (r: bool)
    ensures
        r == says_dark(vstd::utf8::encode_utf8(value@)),
{
    let bytes = value.as_bytes();
    let mut i: usize = 0;
    while i < bytes.len()
        invariant
            i <= bytes@.len(),
            bytes@ == vstd::utf8::encode_utf8(value@),
            forall|k: int| 0 <= k < i ==> !#[trigger] dark_at(bytes@, k),
        decreases bytes.len() - i,
    {
        if bytes.len() - i >= 4 && lower_byte(bytes[i]) == 0x64 && lower_byte(bytes[i + 1]) == 0x61
            && lower_byte(bytes[i + 2]) == 0x72 && lower_byte(bytes[i + 3]) == 0x6b {
            assert(dark_at(bytes@, i as int));
            return true;
        }
        assert(!dark_at(bytes@, i as int));
        i += 1;
    }
    false
}

/// The colours that a portal number asks for.
pub open spec fn scheme_of(number: u32) -> ColorScheme {
    if number == 1 {
        ColorScheme::Dark
    } else {
        ColorScheme::Light
    }
}

impl ColorScheme {
    /// The colours that an environment variable asks for.
    pub fn from_env_value(value: Option<&str>) -> (scheme: ColorScheme)
        ensures
            scheme == (match value {
                Some(value) if says_dark(vstd::utf8::encode_utf8(value@)) => ColorScheme::Dark,
                _ => ColorScheme::Light,
            }),
    {
        match value {
            Some(value) => if contains_dark_case_insensitive(value) {
                ColorScheme::Dark
            } else {
                ColorScheme::Light
            },
            None => ColorScheme::Light,
        }
    }

    /// The colours that a portal number asks for.
    pub fn from_portal_number(number: u32) -> (scheme: ColorScheme)
        ensures
            scheme == scheme_of(number),
    {
        match number {
            1 => ColorScheme::Dark,
            _ => ColorScheme::Light,
        }
    }

    /// The colours that a portal value asks for.
    pub fn from_portal_value(value: &zbus::zvariant::OwnedValue) -> (scheme: Result<
        ColorScheme,
        InvalidPortalValue,
    >)
        ensures
            scheme == (match portal_number(*value) {
                Some(number) => Ok(scheme_of(number)),
                None => Err(InvalidPortalValue),
            }),
    {
        match downcast_u32(value) {
            Ok(number) => Ok(ColorScheme::from_portal_number(number)),
            Err(_) => Err(InvalidPortalValue),
        }
    }

    /// The name of the colours.
    pub open spec fn name(self) -> Seq<char> {
        match self {
            ColorScheme::Light => seq!['l', 'i', 'g', 'h', 't'],
            ColorScheme::Dark => seq!['d', 'a', 'r', 'k'],
        }
    }

    /// The name of the colours.
    pub fn as_str(self) -> (name: &'static str)
        ensures
            name@ == self.name(),
    {
        proof {
            reveal_strlit("light");
            reveal_strlit("dark");
        }
        match self {
            ColorScheme::Light => {
                assert("light"@ =~= self.name());
                "light"
            },
            ColorScheme::Dark => {
                assert("dark"@ =~= self.name());
                "dark"
            },
        }
    }
}

impl ColorSchemeState {
    /// Light colours, until something else is known.
    pub fn new() -> (state: ColorSchemeState)
        ensures
            state.current == ColorScheme::Light,
    {
        ColorSchemeState { current: ColorScheme::Light }
    }

    /// The colours in use.
    pub fn current_color_scheme(&self) -> (scheme: ColorScheme)
        ensures
            scheme == self.current,
    {
        self.current
    }

    /// Changes the colours. Returns whether they are others than before.
    pub fn set_current_color_scheme(&mut self, color_scheme: ColorScheme) -> (changed: bool)
        ensures
            final(self).current == color_scheme,
            changed == (old(self).current != color_scheme),
    {
        let changed = self.current != color_scheme;
        self.current = color_scheme;
        changed
    }
}

/// Whether a portal signal speaks of the setting that is listened to.
pub open spec fn is_color_scheme_setting(namespace: Seq<char>, key: Seq<char>) -> bool {
    namespace == APPEARANCE_NAMESPACE@ && key == COLOR_SCHEME_KEY@
}

/// What a portal's signal that a setting changed asks for: `None` for other settings.
pub fn parse_setting_changed(
    body: Result<(String, String, zbus::zvariant::OwnedValue), zbus::Error>,
) -> (change: Result<Option<ColorScheme>, SettingError>)
    ensures
        change == (match body {
            Ok((namespace, key, value)) => if !is_color_scheme_setting(namespace@, key@) {
                Ok(None)
            } else {
                match portal_number(value) {
                    Some(number) => Ok(Some(scheme_of(number))),
                    None => Err(SettingError::InvalidValue),
                }
            },
            Err(_) => Err(SettingError::InvalidBody),
        }),
{
    let (namespace, key, value) = match body {
        Ok(body) => body,
        Err(_) => return Err(SettingError::InvalidBody),
    };
    if !same_text(namespace.as_str(), APPEARANCE_NAMESPACE) || !same_text(
        key.as_str(),
        COLOR_SCHEME_KEY,
    ) {
        return Ok(None);
    }
    match ColorScheme::from_portal_value(&value) {
        Ok(scheme) => Ok(Some(scheme)),
        Err(_) => Err(SettingError::InvalidValue),
    }
}

/// Colours are dark exactly if the portal says one.
pub proof fn law_portal_numbers(number: u32)
    ensures
        scheme_of(number) == ColorScheme::Dark <==> number == 1,
        scheme_of(number) == ColorScheme::Light <==> number != 1,
        ColorScheme::Dark.name().len() == 4 && ColorScheme::Light.name().len() == 5,
{
}

/// Letters are compared without their case, and nothing else is changed.
pub proof fn law_case_does_not_count(byte: u8)
    ensures
        65 <= byte <= 90 ==> lower(byte) == byte + 32,
        !(65 <= byte <= 90) ==> lower(byte) == byte,
        lower(lower(byte)) == lower(byte),
{
}

/// A text says dark wherever the word stands in it, in whatever case, and not otherwise.
pub proof fn law_dark_is_found_anywhere(before: Seq<u8>, word: Seq<u8>, after: Seq<u8>)
    requires
        word.len() == 4,
        word[0] == 100 || word[0] == 68,
        word[1] == 97 || word[1] == 65,
        word[2] == 114 || word[2] == 82,
        word[3] == 107 || word[3] == 75,
    ensures
        says_dark(before + word + after),
        before.len() < 4 ==> !says_dark(before),
{
    let bytes = before + word + after;
    let i = before.len() as int;
    assert(bytes[i] == word[0]);
    assert(bytes[i + 1] == word[1]);
    assert(bytes[i + 2] == word[2]);
    assert(bytes[i + 3] == word[3]);
    assert(dark_at(bytes, i));
}

} // verus!
