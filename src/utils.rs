//! The format table: for each internal (GPU-side) texture format, the pixel
//! transfer format and component type used when copying pixels to the GPU.
use vstd::prelude::*;
use crate::gl::{
    RED, RED_INTEGER, RG, RG_INTEGER, RGB, RGB_INTEGER, RGBA, RGBA_INTEGER, DEPTH_STENCIL,
    DEPTH24_STENCIL8, DEPTH_COMPONENT, DEPTH_COMPONENT16, DEPTH_COMPONENT24,
    DEPTH_COMPONENT32, DEPTH_COMPONENT32F, STENCIL_INDEX, STENCIL_INDEX8, R8, R16, R16F,
    R32F, R8I, R8UI, R16I, R16UI, R32I, R32UI, RG8, RG16, RG16F, RG32F, RG8I, RG8UI, RG16I,
    RG16UI, RG32I, RG32UI, RGB8, RGB16, RGB16F, RGB32F, RGB8I, RGB8UI, RGB16I, RGB16UI,
    RGB32I, RGB32UI, RGBA8, RGBA16, RGBA16F, RGBA32F, RGBA8I, RGBA8UI, RGBA16I, RGBA16UI,
    RGBA32I, RGBA32UI, UNSIGNED_BYTE, UNSIGNED_SHORT, SHORT, INT, UNSIGNED_INT, HALF_FLOAT,
    FLOAT, UNSIGNED_INT_24_8,
};

verus! {

/// Normalized or floating single-channel formats.
pub open spec fn is_red(f: u32) -> bool {
    f == R8 || f == R16 || f == R16F || f == R32F
}

pub open spec fn is_red_integer(f: u32) -> bool {
    f == R8I || f == R8UI || f == R16I || f == R16UI || f == R32I || f == R32UI
}

pub open spec fn is_rg(f: u32) -> bool {
    f == RG8 || f == RG16 || f == RG16F || f == RG32F
}

pub open spec fn is_rg_integer(f: u32) -> bool {
    f == RG8I || f == RG8UI || f == RG16I || f == RG16UI || f == RG32I || f == RG32UI
}

pub open spec fn is_rgb(f: u32) -> bool {
    f == RGB8 || f == RGB16 || f == RGB16F || f == RGB32F
}

pub open spec fn is_rgb_integer(f: u32) -> bool {
    f == RGB8I || f == RGB8UI || f == RGB16I || f == RGB16UI || f == RGB32I || f == RGB32UI
}

pub open spec fn is_rgba(f: u32) -> bool {
    f == RGBA8 || f == RGBA16 || f == RGBA16F || f == RGBA32F
}

pub open spec fn is_rgba_integer(f: u32) -> bool {
    f == RGBA8I || f == RGBA8UI || f == RGBA16I || f == RGBA16UI || f == RGBA32I || f
        == RGBA32UI
}

pub open spec fn is_depth_stencil(f: u32) -> bool {
    f == DEPTH_STENCIL || f == DEPTH24_STENCIL8
}

pub open spec fn is_depth(f: u32) -> bool {
    f == DEPTH_COMPONENT || f == DEPTH_COMPONENT16 || f == DEPTH_COMPONENT24 || f
        == DEPTH_COMPONENT32 || f == DEPTH_COMPONENT32F
}

pub open spec fn is_stencil(f: u32) -> bool {
    f == STENCIL_INDEX || f == STENCIL_INDEX8
}

/// The internal formats that have an entry in the transfer-format table.
pub open spec fn has_transfer_format(f: u32) -> bool {
    is_red(f) || is_red_integer(f) || is_rg(f) || is_rg_integer(f) || is_rgb(f)
        || is_rgb_integer(f) || is_rgba(f) || is_rgba_integer(f) || is_depth_stencil(f)
        || is_depth(f) || is_stencil(f)
}

/// The transfer format of an internal format; four channels where the table
/// has no entry.
pub open spec fn transfer_format(f: u32) -> u32 {
    if is_red(f) {
        RED
    } else if is_red_integer(f) {
        RED_INTEGER
    } else if is_rg(f) {
        RG
    } else if is_rg_integer(f) {
        RG_INTEGER
    } else if is_rgb(f) {
        RGB
    } else if is_rgb_integer(f) {
        RGB_INTEGER
    } else if is_rgba(f) {
        RGBA
    } else if is_rgba_integer(f) {
        RGBA_INTEGER
    } else if is_depth_stencil(f) {
        DEPTH_STENCIL
    } else if is_depth(f) {
        DEPTH_COMPONENT
    } else if is_stencil(f) {
        STENCIL_INDEX
    } else {
        RGBA
    }
}

pub open spec fn is_8bit(f: u32) -> bool {
    f == R8 || f == RG8 || f == RGB8 || f == RGBA8
}

pub open spec fn is_16bit_normalized(f: u32) -> bool {
    f == R16 || f == RG16 || f == RGB16 || f == RGBA16
}

pub open spec fn is_16bit_unsigned(f: u32) -> bool {
    f == R16UI || f == RG16UI || f == RGB16UI || f == RGBA16UI
}

pub open spec fn is_16bit_signed(f: u32) -> bool {
    f == R16I || f == RG16I || f == RGB16I || f == RGBA16I
}

pub open spec fn is_32bit_signed(f: u32) -> bool {
    f == R32I || f == RG32I || f == RGB32I || f == RGBA32I
}

pub open spec fn is_half_float(f: u32) -> bool {
    f == R16F || f == RG16F || f == RGB16F || f == RGBA16F
}

pub open spec fn is_float(f: u32) -> bool {
    f == R32F || f == RG32F || f == RGB32F || f == RGBA32F
}

/// The internal formats that have an entry in the component-type table.
pub open spec fn has_transfer_type(f: u32) -> bool {
    is_8bit(f) || is_16bit_normalized(f) || is_16bit_unsigned(f) || is_16bit_signed(f)
        || is_32bit_signed(f) || is_half_float(f) || is_float(f) || is_depth_stencil(f)
        || f == DEPTH_COMPONENT16 || f == DEPTH_COMPONENT || f == DEPTH_COMPONENT24 || f
        == DEPTH_COMPONENT32 || f == DEPTH_COMPONENT32F || is_stencil(f)
}

/// The component type of an internal format; unsigned bytes where the table
/// has no entry.
pub open spec fn transfer_type(f: u32) -> u32 {
    if is_8bit(f) {
        UNSIGNED_BYTE
    } else if is_16bit_normalized(f) || is_16bit_unsigned(f) {
        UNSIGNED_SHORT
    } else if is_16bit_signed(f) {
        SHORT
    } else if is_32bit_signed(f) {
        INT
    } else if is_half_float(f) {
        HALF_FLOAT
    } else if is_float(f) {
        FLOAT
    } else if is_depth_stencil(f) {
        UNSIGNED_INT_24_8
    } else if f == DEPTH_COMPONENT16 {
        UNSIGNED_SHORT
    } else if f == DEPTH_COMPONENT || f == DEPTH_COMPONENT24 || f == DEPTH_COMPONENT32 {
        UNSIGNED_INT
    } else if f == DEPTH_COMPONENT32F {
        FLOAT
    } else if is_stencil(f) {
        UNSIGNED_BYTE
    } else {
        UNSIGNED_BYTE
    }
}

/// Transfer format for `internal_format`. Never fails: a format outside the
/// table gets `RGBA`.
pub fn get_gl_format_from_internal(internal_format: u32) -> (r: u32)
    ensures
        r == transfer_format(internal_format),
        !has_transfer_format(internal_format) ==> r == RGBA,
{
    let f = internal_format;
    if f == R8 || f == R16 || f == R16F || f == R32F {
        RED
    } else if f == R8I || f == R8UI || f == R16I || f == R16UI || f == R32I || f == R32UI {
        RED_INTEGER
    } else if f == RG8 || f == RG16 || f == RG16F || f == RG32F {
        RG
    } else if f == RG8I || f == RG8UI || f == RG16I || f == RG16UI || f == RG32I || f == RG32UI {
        RG_INTEGER
    } else if f == RGB8 || f == RGB16 || f == RGB16F || f == RGB32F {
        RGB
    } else if f == RGB8I || f == RGB8UI || f == RGB16I || f == RGB16UI || f == RGB32I || f
        == RGB32UI {
        RGB_INTEGER
    } else if f == RGBA8 || f == RGBA16 || f == RGBA16F || f == RGBA32F {
        RGBA
    } else if f == RGBA8I || f == RGBA8UI || f == RGBA16I || f == RGBA16UI || f == RGBA32I || f
        == RGBA32UI {
        RGBA_INTEGER
    } else if f == DEPTH_STENCIL || f == DEPTH24_STENCIL8 {
        DEPTH_STENCIL
    } else if f == DEPTH_COMPONENT || f == DEPTH_COMPONENT16 || f == DEPTH_COMPONENT24 || f
        == DEPTH_COMPONENT32 || f == DEPTH_COMPONENT32F {
        DEPTH_COMPONENT
    } else if f == STENCIL_INDEX || f == STENCIL_INDEX8 {
        STENCIL_INDEX
    } else {
        RGBA
    }
}

/// Component type for `internal_format`. Never fails: a format outside the
/// table gets `UNSIGNED_BYTE`.
pub fn get_gl_type_from_internal(internal_format: u32) -> (r: u32)
    ensures
        r == transfer_type(internal_format),
        !has_transfer_type(internal_format) ==> r == UNSIGNED_BYTE,
{
    let f = internal_format;
    if f == R8 || f == RG8 || f == RGB8 || f == RGBA8 {
        UNSIGNED_BYTE
    } else if f == R16 || f == RG16 || f == RGB16 || f == RGBA16 {
        UNSIGNED_SHORT
    } else if f == R16UI || f == RG16UI || f == RGB16UI || f == RGBA16UI {
        UNSIGNED_SHORT
    } else if f == R16I || f == RG16I || f == RGB16I || f == RGBA16I {
        SHORT
    } else if f == R32I || f == RG32I || f == RGB32I || f == RGBA32I {
        INT
    } else if f == R16F || f == RG16F || f == RGB16F || f == RGBA16F {
        HALF_FLOAT
    } else if f == R32F || f == RG32F || f == RGB32F || f == RGBA32F {
        FLOAT
    } else if f == DEPTH_STENCIL || f == DEPTH24_STENCIL8 {
        UNSIGNED_INT_24_8
    } else if f == DEPTH_COMPONENT16 {
        UNSIGNED_SHORT
    } else if f == DEPTH_COMPONENT || f == DEPTH_COMPONENT24 || f == DEPTH_COMPONENT32 {
        UNSIGNED_INT
    } else if f == DEPTH_COMPONENT32F {
        FLOAT
    } else if f == STENCIL_INDEX || f == STENCIL_INDEX8 {
        UNSIGNED_BYTE
    } else {
        UNSIGNED_BYTE
    }
}

/// The transfer format and component type for `internal_format`, as the two
/// tables give them.
pub fn format_for(internal_format: u32) -> (r: (u32, u32))
    ensures
        r == (transfer_format(internal_format), transfer_type(internal_format)),
        !has_transfer_format(internal_format) ==> r.0 == RGBA,
        !has_transfer_type(internal_format) ==> r.1 == UNSIGNED_BYTE,
{
    (get_gl_format_from_internal(internal_format), get_gl_type_from_internal(internal_format))
}

/// Whether `internal_format` has entries in both tables; where it has not, the
/// defaults stand in and a caller may want to say so in its log.
pub fn is_known_internal_format(internal_format: u32) -> (r: bool)
    ensures
        r == (has_transfer_format(internal_format) && has_transfer_type(internal_format)),
{
    let f = internal_format;
    let has_format = f == R8 || f == R16 || f == R16F || f == R32F || f == R8I || f == R8UI
        || f == R16I || f == R16UI || f == R32I || f == R32UI || f == RG8 || f == RG16 || f
        == RG16F || f == RG32F || f == RG8I || f == RG8UI || f == RG16I || f == RG16UI || f
        == RG32I || f == RG32UI || f == RGB8 || f == RGB16 || f == RGB16F || f == RGB32F || f
        == RGB8I || f == RGB8UI || f == RGB16I || f == RGB16UI || f == RGB32I || f == RGB32UI
        || f == RGBA8 || f == RGBA16 || f == RGBA16F || f == RGBA32F || f == RGBA8I || f
        == RGBA8UI || f == RGBA16I || f == RGBA16UI || f == RGBA32I || f == RGBA32UI || f
        == DEPTH_STENCIL || f == DEPTH24_STENCIL8 || f == DEPTH_COMPONENT || f
        == DEPTH_COMPONENT16 || f == DEPTH_COMPONENT24 || f == DEPTH_COMPONENT32 || f
        == DEPTH_COMPONENT32F || f == STENCIL_INDEX || f == STENCIL_INDEX8;
    let has_type = f == R8 || f == RG8 || f == RGB8 || f == RGBA8 || f == R16 || f == RG16
        || f == RGB16 || f == RGBA16 || f == R16UI || f == RG16UI || f == RGB16UI || f
        == RGBA16UI || f == R16I || f == RG16I || f == RGB16I || f == RGBA16I || f == R32I || f
        == RG32I || f == RGB32I || f == RGBA32I || f == R16F || f == RG16F || f == RGB16F || f
        == RGBA16F || f == R32F || f == RG32F || f == RGB32F || f == RGBA32F || f
        == DEPTH_STENCIL || f == DEPTH24_STENCIL8 || f == DEPTH_COMPONENT16 || f
        == DEPTH_COMPONENT || f == DEPTH_COMPONENT24 || f == DEPTH_COMPONENT32 || f
        == DEPTH_COMPONENT32F || f == STENCIL_INDEX || f == STENCIL_INDEX8;
    has_format && has_type
}

} // verus!
