//! What X11 events and properties mean.

use vstd::prelude::*;
use crate::geometry;
use crate::geometry::{ConfigWindowMask, WinSize, WindowDims};
use crate::window::WmNormalHints;

verus! {

/// Flag in `WM_NORMAL_HINTS`: the program gave a least size.
pub const PROGRAM_MIN_SIZE: u32 = 16;

/// Flag in `WM_NORMAL_HINTS`: the program gave a greatest size.
pub const PROGRAM_MAX_SIZE: u32 = 32;

/// Flag in `WM_HINTS`: the input field is filled in.
pub const INPUT_HINT: u32 = 1;

/// Flag in `WM_HINTS`: the window group is filled in.
pub const WINDOW_GROUP_HINT: u32 = 64;

/// The title of a window, by the property that it came from.
#[derive(Debug)]
pub enum WmName {
    WmName(String),
    NetWmName(String),
}

impl WmName {
    /// The characters of the title.
    pub open spec fn text(self) -> Seq<char> {
        match self {
            WmName::WmName(name) => name@,
            WmName::NetWmName(name) => name@,
        }
    }

    /// The title itself.
    pub fn name(&self) -> (name: &str)
        ensures
            name@ == self.text(),
    {
        match self {
            WmName::WmName(name) => name.as_str(),
            WmName::NetWmName(name) => name.as_str(),
        }
    }
}

/// The parts of `WM_HINTS` that are used.
#[derive(Clone, Copy, Debug, Default, PartialEq, Eq, Structural)]
pub struct WmHints {
    pub input: Option<bool>,
    pub window_group: Option<u32>,
}

/// How a window state is to change.
#[derive(Clone, Copy, Debug, PartialEq, Eq, Structural)]
pub enum SetState {
    Remove,
    Add,
    Toggle,
}

impl SetState {
    /// Whether the state is on after the change.
    pub open spec fn asks_for(self, current: bool) -> bool {
        match self {
            SetState::Remove => false,
            SetState::Add => true,
            SetState::Toggle => !current,
        }
    }

    /// Whether the state is on after the change.
    pub fn apply(self, current: bool) -> (r: bool)
        ensures
            r == self.asks_for(current),
    {
        match self {
            SetState::Remove => false,
            SetState::Add => true,
            SetState::Toggle => !current,
        }
    }
}

/// Toggling a state twice leaves it as it was; adding or removing it twice is doing so once.
pub proof fn law_set_state_twice(current: bool)
    ensures
        SetState::Toggle.asks_for(SetState::Toggle.asks_for(current)) == current,
        SetState::Add.asks_for(SetState::Add.asks_for(current)) == SetState::Add.asks_for(current),
        SetState::Remove.asks_for(SetState::Remove.asks_for(current))
            == SetState::Remove.asks_for(current),
{
}

/// Whether the bit of a flag, which is a power of two, is set.
pub open spec fn has_flag(flags: u32, flag: u32) -> bool {
    (flags as int / flag as int) % 2 == 1
}

/// A number of a property, read as a signed one.
pub open spec fn signed(value: u32) -> int {
    geometry::low_i32(value as int)
}

fn to_signed(value: u32) -> (r: i32)
    ensures
        r == signed(value),
{
    assert((value as i32) as int == (value + 0x8000_0000) % 0x1_0000_0000 - 0x8000_0000)
        by (bit_vector);
    #[verifier::truncate] (value as i32)
}

/// The size in two numbers of a property that start at `i`.
pub open spec fn size_at(value: Seq<u32>, i: int) -> WinSize {
    WinSize { width: signed(value[i]) as i32, height: signed(value[i + 1]) as i32 }
}

/// What the numbers of a `WM_NORMAL_HINTS` property say, if those that its flags announce are
/// there.
pub open spec fn normal_hints(value: Seq<u32>) -> Option<WmNormalHints> {
    if value.len() == 0 || (has_flag(value[0], PROGRAM_MIN_SIZE) && value.len() < 7) || (has_flag(
        value[0],
        PROGRAM_MAX_SIZE,
    ) && value.len() < 9) {
        None
    } else {
        Some(
            WmNormalHints {
                min_size: if has_flag(value[0], PROGRAM_MIN_SIZE) {
                    Some(size_at(value, 5))
                } else {
                    None
                },
                max_size: if has_flag(value[0], PROGRAM_MAX_SIZE) {
                    Some(size_at(value, 7))
                } else {
                    None
                },
            },
        )
    }
}

/// What the numbers of a `WM_HINTS` property say, if those that its flags announce are there.
pub open spec fn wm_hints(value: Seq<u32>) -> Option<WmHints> {
    if value.len() == 0 || (has_flag(value[0], INPUT_HINT) && value.len() < 2) || (has_flag(
        value[0],
        WINDOW_GROUP_HINT,
    ) && value.len() < 9) {
        None
    } else {
        Some(
            WmHints {
                input: if has_flag(value[0], INPUT_HINT) {
                    Some(value[1] == 1)
                } else {
                    None
                },
                window_group: if has_flag(value[0], WINDOW_GROUP_HINT) {
                    Some(value[8])
                } else {
                    None
                },
            },
        )
    }
}

impl WmNormalHints {
    /// Reads a `WM_NORMAL_HINTS` property.
    pub fn from_property(value: &[u32]) -> (hints: Option<WmNormalHints>)
        ensures
            hints == normal_hints(value@),
    {
        if value.len() == 0 {
            return None;
        }
        let flags: u32 = value[0];
        assert((flags & 16 != 0) == ((flags / 16) % 2 == 1)) by (bit_vector);
        assert((flags & 32 != 0) == ((flags / 32) % 2 == 1)) by (bit_vector);
        let mut hints = WmNormalHints { min_size: None, max_size: None };
        if flags & PROGRAM_MIN_SIZE != 0 {
            if value.len() < 7 {
                return None;
            }
            hints.min_size = Some(
                WinSize { width: to_signed(value[5]), height: to_signed(value[6]) },
            );
        }
        if flags & PROGRAM_MAX_SIZE != 0 {
            if value.len() < 9 {
                return None;
            }
            hints.max_size = Some(
                WinSize { width: to_signed(value[7]), height: to_signed(value[8]) },
            );
        }
        Some(hints)
    }
}

impl WmHints {
    /// Reads a `WM_HINTS` property.
    pub fn from_property(value: &[u32]) -> (hints: Option<WmHints>)
        ensures
            hints == wm_hints(value@),
    {
        if value.len() == 0 {
            return None;
        }
        let flags: u32 = value[0];
        assert((flags & 1 != 0) == ((flags / 1) % 2 == 1)) by (bit_vector);
        assert((flags & 64 != 0) == ((flags / 64) % 2 == 1)) by (bit_vector);
        let mut hints = WmHints { input: None, window_group: None };
        if flags & INPUT_HINT != 0 {
            if value.len() < 2 {
                return None;
            }
            hints.input = Some(value[1] == 1);
        }
        if flags & WINDOW_GROUP_HINT != 0 {
            if value.len() < 9 {
                return None;
            }
            hints.window_group = Some(value[8]);
        }
        Some(hints)
    }

    /// Whether a window with these hints is to be given the input focus. One without hints is.
    pub fn takes_focus(hints: Option<WmHints>) -> (r: bool)
        ensures
            r == !(hints matches Some(WmHints { input: Some(false), .. })),
    {
        match hints {
            Some(hints) => match hints.input {
                Some(input) => input,
                None => true,
            },
            None => true,
        }
    }
}

impl SetState {
    /// The change that a `_NET_WM_STATE` message asks for by number.
    pub fn from_number(value: u32) -> (state: Option<SetState>)
        ensures
            state == (match value {
                0 => Some(SetState::Remove),
                1 => Some(SetState::Add),
                2 => Some(SetState::Toggle),
                _ => None,
            }),
    {
        match value {
            0 => Some(SetState::Remove),
            1 => Some(SetState::Add),
            2 => Some(SetState::Toggle),
            _ => None,
        }
    }
}

/// `String::from_utf8`: the text that the bytes encode, or `None` where they are not UTF-8.
#[verifier::external_body]
pub(crate) fn utf8_text(bytes: Vec<u8>) -> (text: Option<String>)
    ensures
        match text {
            Some(text) => vstd::utf8::valid_utf8(bytes@) && text@ == vstd::utf8::decode_utf8(
                bytes@,
            ),
            None => !vstd::utf8::valid_utf8(bytes@),
        },
{
    String::from_utf8(bytes).ok()
}

/// The text that bytes stand for when whatever is not UTF-8 is replaced.
pub uninterp spec fn lossy_text(bytes: Seq<u8>) -> Seq<char>;

/// `String::from_utf8_lossy`: the text that the bytes encode where they are UTF-8; otherwise
/// replacement characters stand for what is not.
#[verifier::external_body]
pub(crate) fn replaced_text(bytes: &[u8]) -> (text: String)
    ensures
        text@ == lossy_text(bytes@),
        vstd::utf8::valid_utf8(bytes@) ==> text@ == vstd::utf8::decode_utf8(bytes@),
{
    String::from_utf8_lossy(bytes).into_owned()
}

/// Whether a list of bytes has its first zero at a place.
pub open spec fn first_zero(data: Seq<u8>, k: int) -> bool {
    &&& 0 <= k < data.len()
    &&& data[k] == 0
    &&& forall|j: int| 0 <= j < k ==> #[trigger] data[j] != 0
}

/// Whether a `WM_CLASS` property is an instance and a class, each ended by its only zero: the
/// instance ends at `k`.
pub open spec fn is_wm_class(data: Seq<u8>, k: int) -> bool {
    &&& first_zero(data, k)
    &&& first_zero(data.skip(k + 1), data.len() - k - 2)
}

/// Whether a slice has its first zero at a place; the place, if there is any.
pub(crate) fn find_zero(data: &[u8], start: usize) -> (place: Option<usize>)
    requires
        start <= data@.len(),
    ensures
        match place {
            Some(k) => start <= k < data@.len() && first_zero(data@.skip(start as int), k - start),
            None => forall|j: int| 0 <= j < data@.len() - start ==> data@.skip(start as int)[j] != 0,
        },
{
    let mut i: usize = start;
    while i < data.len()
        invariant
            start <= i <= data@.len(),
            forall|j: int| start <= j < i ==> data@[j] != 0,
        decreases data.len() - i,
    {
        if data[i] == 0 {
            assert(first_zero(data@.skip(start as int), i - start));
            return Some(i);
        }
        i += 1;
    }
    None
}

/// The bytes of the class in a `WM_CLASS` property, if it is well formed.
pub fn class_bytes(data: &[u8]) -> (class: Option<Vec<u8>>)
    ensures
        match class {
            Some(class) => exists|k: int| #[trigger]
                is_wm_class(data@, k) && class@ == data@.subrange(k + 1, data@.len() - 1),
            None => forall|k: int| !is_wm_class(data@, k),
        },
{
    let len: usize = data.len();
    assert(data@.skip(0) =~= data@);
    let instance_end = match find_zero(data, 0) {
        Some(place) => place,
        None => {
            assert forall|k: int| !is_wm_class(data@, k) by {
                if first_zero(data@, k) {
                    assert(data@.skip(0)[k] == 0);
                }
            }
            return None;
        },
    };
    let start: usize = instance_end + 1;
    assert forall|k: int| first_zero(data@, k) implies k == instance_end by {
        if k < instance_end {
            assert(data@[k] != 0);
        }
        if instance_end < k {
            assert(data@[instance_end as int] != 0);
        }
    }
    let end = match find_zero(data, start) {
        Some(place) => place,
        None => {
            assert forall|k: int| !is_wm_class(data@, k) by {
                if is_wm_class(data@, k) {
                    assert(data@.skip(start as int)[data@.len() - k - 2] == 0);
                }
            }
            return None;
        },
    };
    if end != len - 1 {
        assert forall|k: int| !is_wm_class(data@, k) by {
            if is_wm_class(data@, k) {
                assert(data@.skip(start as int)[end - start] == 0);
            }
        }
        return None;
    }
    let class = vstd::slice::slice_to_vec(vstd::slice::slice_subrange(data, start, end));
    assert(is_wm_class(data@, instance_end as int));
    assert(class@ =~= data@.subrange(instance_end + 1, data@.len() - 1));
    Some(class)
}

/// The class in a `WM_CLASS` property, if it is well formed.
pub fn wm_class(data: &[u8]) -> (class: Option<String>)
    ensures
        match class {
            Some(class) => exists|k: int| #[trigger]
                is_wm_class(data@, k) && class@ == lossy_text(
                    data@.subrange(k + 1, data@.len() - 1),
                ),
            None => forall|k: int| !is_wm_class(data@, k),
        },
{
    match class_bytes(data) {
        Some(bytes) => Some(replaced_text(bytes.as_slice())),
        None => None,
    }
}

/// A title read from `_NET_WM_NAME`, or from `WM_NAME`. There is none where the bytes are not
/// UTF-8.
pub fn wm_name(net: bool, data: &[u8]) -> (title: Option<WmName>)
    ensures
        match title {
            Some(title) => vstd::utf8::valid_utf8(data@) && title.text()
                == vstd::utf8::decode_utf8(data@) && net == (title is NetWmName),
            None => !vstd::utf8::valid_utf8(data@),
        },
{
    let bytes = vstd::slice::slice_to_vec(data);
    assert(bytes@ =~= data@);
    match utf8_text(bytes) {
        Some(text) => Some(
            if net {
                WmName::NetWmName(text)
            } else {
                WmName::WmName(text)
            },
        ),
        None => None,
    }
}

/// A value in an X11 `ConfigureWindow` request.
#[derive(Clone, Copy, Debug, PartialEq, Eq, Structural)]
pub enum ConfigWindow {
    X(i32),
    Y(i32),
    Width(u32),
    Height(u32),
}

/// A list of a value that is there or not.
pub open spec fn if_masked(masked: bool, value: ConfigWindow) -> Seq<ConfigWindow> {
    if masked {
        seq![value]
    } else {
        Seq::empty()
    }
}

/// The values that a window asked to be configured with, in the order that the protocol wants.
pub fn configure_values(mask: ConfigWindowMask, dims: WindowDims) -> (values: Vec<ConfigWindow>)
    ensures
        values@ == if_masked(mask.x, ConfigWindow::X(dims.x as i32)) + if_masked(
            mask.y,
            ConfigWindow::Y(dims.y as i32),
        ) + if_masked(mask.width, ConfigWindow::Width(dims.width as u32)) + if_masked(
            mask.height,
            ConfigWindow::Height(dims.height as u32),
        ),
{
    let mut values: Vec<ConfigWindow> = Vec::new();
    if mask.x {
        values.push(ConfigWindow::X(dims.x as i32));
    }
    if mask.y {
        values.push(ConfigWindow::Y(dims.y as i32));
    }
    if mask.width {
        values.push(ConfigWindow::Width(dims.width as u32));
    }
    if mask.height {
        values.push(ConfigWindow::Height(dims.height as u32));
    }
    values
}

/// The atoms of window types.
#[derive(Clone, Copy, Debug, PartialEq, Eq, Structural)]
pub struct WindowTypes {
    pub normal: u32,
    pub dialog: u32,
    pub splash: u32,
    pub menu: u32,
    pub utility: u32,
}

impl WindowTypes {
    /// What a window type is called.
    pub fn get_type(&self, atom: u32) -> (name: Option<&'static str>)
        ensures
            match name {
                Some(name) => name@ == (if atom == self.normal {
                    "Normal"@
                } else if atom == self.dialog {
                    "Dialog"@
                } else if atom == self.utility {
                    "Utility"@
                } else {
                    "Menu"@
                }),
                None => true,
            },
            name is Some <==> (atom == self.normal || atom == self.dialog || atom == self.utility
                || atom == self.menu),
    {
        if atom == self.normal {
            Some("Normal")
        } else if atom == self.dialog {
            Some("Dialog")
        } else if atom == self.utility {
            Some("Utility")
        } else if atom == self.menu {
            Some("Menu")
        } else {
            None
        }
    }
}

/// Whatever instance and class a program gives, as long as neither holds a zero, the class is read
/// back from the property that joins them.
pub proof fn law_class_is_read_back(instance: Seq<u8>, class: Seq<u8>)
    requires
        forall|j: int| 0 <= j < instance.len() ==> instance[j] != 0,
        forall|j: int| 0 <= j < class.len() ==> class[j] != 0,
    ensures
        ({
            let data = instance.push(0) + class.push(0);
            &&& forall|k: int| #[trigger] is_wm_class(data, k) <==> k == instance.len()
            &&& data.subrange(instance.len() as int + 1, data.len() - 1) == class
        }),
{
    let data = instance.push(0) + class.push(0);
    let n = instance.len() as int;
    assert(data.skip(n + 1) =~= class.push(0));
    assert forall|j: int| 0 <= j < n implies #[trigger] data[j] != 0 by {
        assert(data[j] == instance[j]);
    }
    assert(data[n] == 0);
    assert(first_zero(data, n));
    assert(first_zero(class.push(0), class.len() as int));
    assert(is_wm_class(data, n));
    assert forall|k: int| #[trigger] is_wm_class(data, k) implies k == n by {
        if k < n {
            assert(data[k] != 0);
        }
    }
    assert(data.subrange(n + 1, data.len() - 1) =~= class);
}

/// A state that is added is on, one that is removed is off, and one that is toggled is the other.
pub proof fn law_set_state(current: bool)
    ensures
        SetState::Add.asks_for(current),
        !SetState::Remove.asks_for(current),
        SetState::Toggle.asks_for(current) != current,
{
}

/// A flag is set if its bit is.
pub proof fn law_flags_are_bits(flags: u32)
    ensures
        has_flag(flags, 1) <==> flags % 2 == 1,
        has_flag(flags, 16) <==> flags % 32 >= 16,
        has_flag(flags, 32) <==> flags % 64 >= 32,
        has_flag(flags, 64) <==> flags % 128 >= 64,
{
}

/// Of the size hints the least size is read where its flag says so, the greatest where its does,
/// each from its own place. A property that is too short for what it promises is not read at all.
pub proof fn law_size_hints_are_read(value: Seq<u32>)
    requires
        value.len() >= 9,
        forall|k: int| 0 <= k < 9 ==> #[trigger] value[k] <= i32::MAX,
    ensures
        ({
            let hints = normal_hints(value);
            let least = value[0] % 32 >= 16;
            let most = value[0] % 64 >= 32;
            &&& hints matches Some(hints) && {
                &&& hints.min_size is Some <==> least
                &&& hints.max_size is Some <==> most
                &&& least ==> hints.min_size->0.width == value[5] && hints.min_size->0.height
                    == value[6]
                &&& most ==> hints.max_size->0.width == value[7] && hints.max_size->0.height
                    == value[8]
            }
        }),
        normal_hints(Seq::empty()) is None,
        value[0] % 32 >= 16 ==> normal_hints(value.take(6)) is None,
        value[0] % 64 >= 32 ==> normal_hints(value.take(8)) is None,
{
    law_flags_are_bits(value[0]);
}

/// A number of a property is read with its sign.
pub proof fn law_numbers_have_a_sign(value: u32)
    ensures
        i32::MIN <= signed(value) <= i32::MAX,
        value <= i32::MAX ==> signed(value) == value,
        value > i32::MAX ==> signed(value) == value - 0x1_0000_0000,
{
}

/// Of the window manager hints the input hint and the group are read where their flags say so.
pub proof fn law_hints_are_read(value: Seq<u32>)
    requires
        value.len() >= 9,
    ensures
        wm_hints(value) matches Some(hints) && {
            &&& hints.input is Some <==> value[0] % 2 == 1
            &&& hints.input matches Some(input) ==> (input <==> value[1] == 1)
            &&& hints.window_group is Some <==> value[0] % 128 >= 64
            &&& hints.window_group matches Some(group) ==> group == value[8]
        },
        wm_hints(Seq::empty()) is None,
        value[0] % 128 >= 64 ==> wm_hints(value.take(8)) is None,
{
    law_flags_are_bits(value[0]);
}

/// The text of a title is what it was set to, however it came.
pub proof fn law_text_of_a_title(text: String)
    ensures
        WmName::WmName(text).text() == text@,
        WmName::NetWmName(text).text() == text@,
{
}

/// A value is sent exactly if it is named, and as it is.
pub proof fn law_named_values_are_sent(masked: bool, value: ConfigWindow)
    ensures
        masked ==> if_masked(masked, value).len() == 1 && if_masked(masked, value)[0] == value,
        !masked ==> if_masked(masked, value).len() == 0,
{
}

} // verus!
