use vstd::prelude::*;

verus! {

// Enumerants of the OpenGL API, as the GL registry assigns them.

pub const RED: u32 = 0x1903;
pub const RED_INTEGER: u32 = 0x8D94;
pub const RG: u32 = 0x8227;
pub const RG_INTEGER: u32 = 0x8228;
pub const RGB: u32 = 0x1907;
pub const RGB_INTEGER: u32 = 0x8D98;
pub const RGBA: u32 = 0x1908;
pub const RGBA_INTEGER: u32 = 0x8D99;
pub const DEPTH_STENCIL: u32 = 0x84F9;
pub const DEPTH24_STENCIL8: u32 = 0x88F0;
pub const DEPTH_COMPONENT: u32 = 0x1902;
pub const DEPTH_COMPONENT16: u32 = 0x81A5;
pub const DEPTH_COMPONENT24: u32 = 0x81A6;
pub const DEPTH_COMPONENT32: u32 = 0x81A7;
pub const DEPTH_COMPONENT32F: u32 = 0x8CAC;
pub const STENCIL_INDEX: u32 = 0x1901;
pub const STENCIL_INDEX8: u32 = 0x8D48;
pub const R8: u32 = 0x8229;
pub const R16: u32 = 0x822A;
pub const R16F: u32 = 0x822D;
pub const R32F: u32 = 0x822E;
pub const R8I: u32 = 0x8231;
pub const R8UI: u32 = 0x8232;
pub const R16I: u32 = 0x8233;
pub const R16UI: u32 = 0x8234;
pub const R32I: u32 = 0x8235;
pub const R32UI: u32 = 0x8236;
pub const RG8: u32 = 0x822B;
pub const RG16: u32 = 0x822C;
pub const RG16F: u32 = 0x822F;
pub const RG32F: u32 = 0x8230;
pub const RG8I: u32 = 0x8237;
pub const RG8UI: u32 = 0x8238;
pub const RG16I: u32 = 0x8239;
pub const RG16UI: u32 = 0x823A;
pub const RG32I: u32 = 0x823B;
pub const RG32UI: u32 = 0x823C;
pub const RGB8: u32 = 0x8051;
pub const RGB16: u32 = 0x8054;
pub const RGB16F: u32 = 0x881B;
pub const RGB32F: u32 = 0x8815;
pub const RGB8I: u32 = 0x8D8F;
pub const RGB8UI: u32 = 0x8D7D;
pub const RGB16I: u32 = 0x8D89;
pub const RGB16UI: u32 = 0x8D77;
pub const RGB32I: u32 = 0x8D83;
pub const RGB32UI: u32 = 0x8D71;
pub const RGBA8: u32 = 0x8058;
pub const RGBA16: u32 = 0x805B;
pub const RGBA16F: u32 = 0x881A;
pub const RGBA32F: u32 = 0x8814;
pub const RGBA8I: u32 = 0x8D8E;
pub const RGBA8UI: u32 = 0x8D7C;
pub const RGBA16I: u32 = 0x8D88;
pub const RGBA16UI: u32 = 0x8D76;
pub const RGBA32I: u32 = 0x8D82;
pub const RGBA32UI: u32 = 0x8D70;
pub const UNSIGNED_BYTE: u32 = 0x1401;
pub const UNSIGNED_SHORT: u32 = 0x1403;
pub const SHORT: u32 = 0x1402;
pub const INT: u32 = 0x1404;
pub const UNSIGNED_INT: u32 = 0x1405;
pub const HALF_FLOAT: u32 = 0x140B;
pub const FLOAT: u32 = 0x1406;
pub const UNSIGNED_INT_24_8: u32 = 0x84FA;
pub const TEXTURE_1D: u32 = 0x0DE0;
pub const TEXTURE_2D: u32 = 0x0DE1;
pub const TEXTURE_3D: u32 = 0x806F;
pub const TEXTURE_MIN_FILTER: u32 = 0x2801;
pub const TEXTURE_MAG_FILTER: u32 = 0x2800;
pub const TEXTURE_WRAP_S: u32 = 0x2802;
pub const TEXTURE_WRAP_T: u32 = 0x2803;
pub const TEXTURE_WRAP_R: u32 = 0x8072;
pub const LINEAR: u32 = 0x2601;
pub const CLAMP_TO_EDGE: u32 = 0x812F;
pub const TEXTURE0: u32 = 0x84C0;
pub const VERTEX_SHADER: u32 = 0x8B31;
pub const FRAGMENT_SHADER: u32 = 0x8B30;

/// One call into the graphics driver that changes its state. Object names are
/// the driver's own (nonzero) names; floating-point uniform values travel as
/// their IEEE-754 bit patterns and are passed to the driver unchanged.
#[derive(PartialEq, Eq, Debug, Clone)]
pub enum GlCommand {
    BindVertexArray { vertex_array: Option<u32> },
    DeleteVertexArray { vertex_array: u32 },
    UseProgram { program: Option<u32> },
    DetachShader { program: u32, shader: u32 },
    DeleteShader { shader: u32 },
    DeleteProgram { program: u32 },
    BindTexture { target: u32, texture: Option<u32> },
    DeleteTexture { texture: u32 },
    ActiveTexture { unit: u32 },
    TexParameter { target: u32, parameter: u32, value: i32 },
    TexImage1D {
        target: u32,
        internal_format: u32,
        width: usize,
        format: u32,
        texture_type: u32,
        pixels: Option<Vec<u8>>,
    },
    TexImage2D {
        target: u32,
        internal_format: u32,
        width: usize,
        height: usize,
        format: u32,
        texture_type: u32,
        pixels: Option<Vec<u8>>,
    },
    TexImage3D {
        target: u32,
        internal_format: u32,
        width: usize,
        height: usize,
        depth: usize,
        format: u32,
        texture_type: u32,
        pixels: Option<Vec<u8>>,
    },
    TexSubImage2D {
        target: u32,
        x_offset: usize,
        y_offset: usize,
        width: usize,
        height: usize,
        format: u32,
        texture_type: u32,
        pixels: Vec<u8>,
    },
    TexSubImage3D {
        target: u32,
        x_offset: usize,
        y_offset: usize,
        z_offset: usize,
        width: usize,
        height: usize,
        depth: usize,
        format: u32,
        texture_type: u32,
        pixels: Vec<u8>,
    },
    Uniform1i { location: u32, x: i32 },
    Uniform2i { location: u32, x: i32, y: i32 },
    Uniform3i { location: u32, x: i32, y: i32, z: i32 },
    Uniform1f { location: u32, x_bits: u32 },
    Uniform2f { location: u32, x_bits: u32, y_bits: u32 },
    Uniform3f { location: u32, x_bits: u32, y_bits: u32, z_bits: u32 },
    UniformMatrix3 { location: u32, values: Vec<u32> },
    UniformMatrix4 { location: u32, values: Vec<u32> },
}

} // verus!
