//! Rectangles and positions as the two protocols carry them.

use vstd::prelude::*;

verus! {

/// The place and size of an X11 window, in X11 pixels.
#[derive(Clone, Copy, Debug, Default, PartialEq, Eq, Structural)]
pub struct WindowDims {
    pub x: i16,
    pub y: i16,
    pub width: u16,
    pub height: u16,
}

/// A size limit taken from `WM_NORMAL_HINTS`.
#[derive(Clone, Copy, Debug, PartialEq, Eq, Structural)]
pub struct WinSize {
    pub width: i32,
    pub height: i32,
}

/// The position and size a surface is about to take.
#[derive(Clone, Copy, Debug, Default, PartialEq, Eq, Structural)]
pub struct PendingSurfaceState {
    pub x: i32,
    pub y: i32,
    pub width: i32,
    pub height: i32,
}

/// Which fields of an X11 `ConfigureRequest` were filled in.
#[derive(Clone, Copy, Debug, PartialEq, Eq, Structural)]
pub struct ConfigWindowMask {
    pub x: bool,
    pub y: bool,
    pub width: bool,
    pub height: bool,
}

/// The value of the 16-bit two's complement number made of the low bits of `value`.
pub open spec fn low_i16(value: int) -> int {
    (value + 0x8000) % 0x10000 - 0x8000
}

/// The value of the 32-bit two's complement number made of the low bits of `value`.
pub open spec fn low_i32(value: int) -> int {
    (value + 0x8000_0000) % 0x1_0000_0000 - 0x8000_0000
}

/// Keeps the low sixteen bits of a coordinate, as X11 window positions do.
pub fn truncate_i16(value: i32) -> (low: i16)
    ensures
        low == low_i16(value as int),
{
    assert((value as i16) as int == (value + 0x8000) % 0x10000 - 0x8000) by (bit_vector);
    #[verifier::truncate] (value as i16)
}

/// Adds two coordinates and keeps the low sixteen bits.
pub fn add_i16(a: i16, b: i16) -> (sum: i16)
    ensures
        sum == low_i16(a + b),
{
    truncate_i16(a as i32 + b as i32)
}

/// Subtracts two coordinates and keeps the low sixteen bits.
pub fn sub_i16(a: i16, b: i16) -> (difference: i16)
    ensures
        difference == low_i16(a - b),
{
    truncate_i16(a as i32 - b as i32)
}

/// Subtracts two coordinates and keeps the low thirty-two bits.
pub fn sub_i32(a: i32, b: i32) -> (difference: i32)
    ensures
        difference == low_i32(a - b),
{
    a.wrapping_sub(b)
}

/// Adds two coordinates and keeps the low thirty-two bits.
pub fn add_i32(a: i32, b: i32) -> (sum: i32)
    ensures
        sum == low_i32(a + b),
{
    a.wrapping_add(b)
}

/// Truncating a difference before it is added changes nothing in the low sixteen bits.
pub proof fn lemma_low_i16_sum(a: int, b: int)
    ensures
        low_i16(a + low_i16(low_i32(b))) == low_i16(a + b),
{
    let wide = (b + 0x8000_0000) / 0x1_0000_0000;
    assert(low_i32(b) == b - wide * 0x1_0000_0000);
    let narrow = (low_i32(b) + 0x8000) / 0x10000;
    assert(low_i16(low_i32(b)) == b - wide * 0x1_0000_0000 - narrow * 0x10000);
    let steps = wide * 0x10000 + narrow;
    assert(a + low_i16(low_i32(b)) + 0x8000 == a + b + 0x8000 - steps * 0x10000);
    vstd::arithmetic::div_mod::lemma_mod_multiples_vanish(-steps, a + b + 0x8000, 0x10000);
}

/// The requested rectangle: the masked fields of `dims` over the current one.
pub open spec fn masked_dims(
    current_dims: WindowDims,
    dims: WindowDims,
    mask: ConfigWindowMask,
) -> WindowDims {
    WindowDims {
        x: if mask.x { dims.x } else { current_dims.x },
        y: if mask.y { dims.y } else { current_dims.y },
        width: if mask.width { dims.width } else { current_dims.width },
        height: if mask.height { dims.height } else { current_dims.height },
    }
}

/// Lays the fields that a configure request names over the current rectangle.
pub fn requested_dims_from_mask(
    current_dims: WindowDims,
    dims: WindowDims,
    mask: ConfigWindowMask,
) -> (requested: WindowDims)
    ensures
        requested == masked_dims(current_dims, dims, mask),
{
    WindowDims {
        x: if mask.x { dims.x } else { current_dims.x },
        y: if mask.y { dims.y } else { current_dims.y },
        width: if mask.width { dims.width } else { current_dims.width },
        height: if mask.height { dims.height } else { current_dims.height },
    }
}

/// Applying a configure request twice is the same as applying it once.
pub proof fn law_masked_dims_settle(
    current_dims: WindowDims,
    dims: WindowDims,
    mask: ConfigWindowMask,
)
    ensures
        masked_dims(masked_dims(current_dims, dims, mask), dims, mask) == masked_dims(
            current_dims,
            dims,
            mask,
        ),
{
}

/// The low bits of a number are a number of their width that differs from it by a multiple of what
/// they can hold. A number that fits is its own low bits.
pub proof fn law_low_bits(value: int)
    ensures
        i16::MIN <= low_i16(value) <= i16::MAX,
        (low_i16(value) - value) % 0x10000 == 0,
        i16::MIN <= value <= i16::MAX ==> low_i16(value) == value,
        i32::MIN <= low_i32(value) <= i32::MAX,
        (low_i32(value) - value) % 0x1_0000_0000 == 0,
        i32::MIN <= value <= i32::MAX ==> low_i32(value) == value,
{
}

/// A configure request changes the fields that it names to what it says, and no others.
pub proof fn law_request_changes_what_it_names(
    current_dims: WindowDims,
    dims: WindowDims,
    mask: ConfigWindowMask,
)
    ensures
        ({
            let requested = masked_dims(current_dims, dims, mask);
            &&& mask.x ==> requested.x == dims.x
            &&& !mask.x ==> requested.x == current_dims.x
            &&& mask.y ==> requested.y == dims.y
            &&& !mask.y ==> requested.y == current_dims.y
            &&& mask.width ==> requested.width == dims.width
            &&& !mask.width ==> requested.width == current_dims.width
            &&& mask.height ==> requested.height == dims.height
            &&& !mask.height ==> requested.height == current_dims.height
        }),
{
}

} // verus!
