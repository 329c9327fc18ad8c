//! Textures of one, two or three dimensions. Creation is split in two: a
//! [`TextureLayout`] is validated and resolved first, so that no driver name is
//! requested for a texture that cannot be made; [`TextureData::new`] then takes
//! the name the driver handed out and returns the commands that set the
//! texture up.
use vstd::prelude::*;
use crate::gl::{
    GlCommand, CLAMP_TO_EDGE, LINEAR, TEXTURE_1D, TEXTURE_2D, TEXTURE_3D, TEXTURE_MAG_FILTER,
    TEXTURE_MIN_FILTER, TEXTURE_WRAP_R, TEXTURE_WRAP_S, TEXTURE_WRAP_T,
};
use crate::utils::{
    get_gl_format_from_internal, get_gl_type_from_internal, transfer_format, transfer_type,
};

verus! {

/// Why a texture could not be made.
#[derive(PartialEq, Eq, Structural, Debug, Clone, Copy)]
pub enum TextureError {
    /// The target is none of `TEXTURE_1D`, `TEXTURE_2D`, `TEXTURE_3D`.
    UnsupportedTarget(u32),
}

pub open spec fn is_supported_target(target: u32) -> bool {
    target == TEXTURE_1D || target == TEXTURE_2D || target == TEXTURE_3D
}

/// What a layout holds, as a value.
pub struct LayoutView {
    pub target: u32,
    pub width: usize,
    pub height: usize,
    pub depth: usize,
    pub internal_format: u32,
    pub format: u32,
    pub texture_type: u32,
}

/// The layout that a request resolves to: an omitted transfer format or type
/// comes from the format table.
pub open spec fn resolved_layout(
    target: u32,
    width: usize,
    height: usize,
    depth: usize,
    internal_format: u32,
    format: Option<u32>,
    texture_type: Option<u32>,
) -> LayoutView {
    LayoutView {
        target,
        width,
        height,
        depth,
        internal_format,
        format: match format {
            Some(f) => f,
            None => transfer_format(internal_format),
        },
        texture_type: match texture_type {
            Some(t) => t,
            None => transfer_type(internal_format),
        },
    }
}

/// The dimensionality, size and formats of a texture, fixed for its lifetime.
pub struct TextureLayout {
    target: u32,
    width: usize,
    height: usize,
    depth: usize,
    internal_format: u32,
    format: u32,
    texture_type: u32,
}

impl View for TextureLayout {
    type V = LayoutView;

    closed spec fn view(&self) -> LayoutView {
        LayoutView {
            target: self.target,
            width: self.width,
            height: self.height,
            depth: self.depth,
            internal_format: self.internal_format,
            format: self.format,
            texture_type: self.texture_type,
        }
    }
}

impl TextureLayout {
    #[verifier::type_invariant]
    spec fn supported(self) -> bool {
        is_supported_target(self.target)
    }

    /// Validates a texture request and fills in the transfer format and type
    /// that it leaves out. Fails exactly on an unsupported target.
    pub fn new(
        target: u32,
        width: usize,
        height: usize,
        depth: usize,
        internal_format: u32,
        format: Option<u32>,
        texture_type: Option<u32>,
    ) -> (r: Result<TextureLayout, TextureError>)
        ensures
            is_supported_target(target) ==> (r matches Ok(l) && l@ == resolved_layout(
                target,
                width,
                height,
                depth,
                internal_format,
                format,
                texture_type,
            )),
            !is_supported_target(target) ==> r == Err::<TextureLayout, _>(
                TextureError::UnsupportedTarget(target),
            ),
    {
        if target != TEXTURE_1D && target != TEXTURE_2D && target != TEXTURE_3D {
            return Err(TextureError::UnsupportedTarget(target));
        }
        Ok(
            TextureLayout::resolve(
                target,
                width,
                height,
                depth,
                internal_format,
                format,
                texture_type,
            ),
        )
    }

    fn resolve(
        target: u32,
        width: usize,
        height: usize,
        depth: usize,
        internal_format: u32,
        format: Option<u32>,
        texture_type: Option<u32>,
    ) -> (r: TextureLayout)
        requires
            is_supported_target(target),
        ensures
            r@ == resolved_layout(
                target,
                width,
                height,
                depth,
                internal_format,
                format,
                texture_type,
            ),
    {
        let format = match format {
            Some(f) => f,
            None => get_gl_format_from_internal(internal_format),
        };
        let texture_type = match texture_type {
            Some(t) => t,
            None => get_gl_type_from_internal(internal_format),
        };
        TextureLayout { target, width, height, depth, internal_format, format, texture_type }
    }
}

/// What a texture holds, as a value: its driver name and its layout.
pub struct TextureView {
    pub id: u32,
    pub layout: LayoutView,
}

pub open spec fn bind_command(t: TextureView) -> GlCommand {
    GlCommand::BindTexture { target: t.layout.target, texture: Some(t.id) }
}

pub open spec fn unbind_command(t: TextureView) -> GlCommand {
    GlCommand::BindTexture { target: t.layout.target, texture: None }
}

pub open spec fn parameter_command(target: u32, parameter: u32, value: u32) -> GlCommand {
    GlCommand::TexParameter { target, parameter, value: value as i32 }
}

/// The sampler state every new texture gets: linear filtering both ways and
/// clamping to the edge on every axis.
pub open spec fn default_sampler_commands(target: u32) -> Seq<GlCommand> {
    seq![
        parameter_command(target, TEXTURE_MIN_FILTER, LINEAR),
        parameter_command(target, TEXTURE_MAG_FILTER, LINEAR),
        parameter_command(target, TEXTURE_WRAP_S, CLAMP_TO_EDGE),
        parameter_command(target, TEXTURE_WRAP_T, CLAMP_TO_EDGE),
        parameter_command(target, TEXTURE_WRAP_R, CLAMP_TO_EDGE),
    ]
}

/// The command that allocates storage of the texture's size, by its
/// dimensionality.
pub open spec fn storage_command(l: LayoutView, pixels: Option<Vec<u8>>) -> GlCommand {
    if l.target == TEXTURE_1D {
        GlCommand::TexImage1D {
            target: l.target,
            internal_format: l.internal_format,
            width: l.width,
            format: l.format,
            texture_type: l.texture_type,
            pixels,
        }
    } else if l.target == TEXTURE_2D {
        GlCommand::TexImage2D {
            target: l.target,
            internal_format: l.internal_format,
            width: l.width,
            height: l.height,
            format: l.format,
            texture_type: l.texture_type,
            pixels,
        }
    } else {
        GlCommand::TexImage3D {
            target: l.target,
            internal_format: l.internal_format,
            width: l.width,
            height: l.height,
            depth: l.depth,
            format: l.format,
            texture_type: l.texture_type,
            pixels,
        }
    }
}

/// Bind, default sampler state, storage, unbind.
pub open spec fn creation_commands(t: TextureView, pixels: Option<Vec<u8>>) -> Seq<GlCommand> {
    seq![bind_command(t)] + default_sampler_commands(t.layout.target) + seq![
        storage_command(t.layout, pixels),
        unbind_command(t),
    ]
}

/// The sub-image command for a region: three-dimensional textures take the
/// volumetric call, the others the two-dimensional one (a one-dimensional
/// region is a single row).
pub open spec fn upload_command(
    l: LayoutView,
    pixels: Vec<u8>,
    x_offset: usize,
    y_offset: usize,
    z_offset: usize,
    width: usize,
    height: usize,
    depth: usize,
) -> GlCommand {
    if l.target == TEXTURE_3D {
        GlCommand::TexSubImage3D {
            target: l.target,
            x_offset,
            y_offset,
            z_offset,
            width,
            height,
            depth,
            format: l.format,
            texture_type: l.texture_type,
            pixels,
        }
    } else {
        GlCommand::TexSubImage2D {
            target: l.target,
            x_offset,
            y_offset,
            width,
            height,
            format: l.format,
            texture_type: l.texture_type,
            pixels,
        }
    }
}

/// Bind, upload, unbind.
pub open spec fn upload_commands(
    t: TextureView,
    pixels: Vec<u8>,
    x_offset: usize,
    y_offset: usize,
    z_offset: usize,
    width: usize,
    height: usize,
    depth: usize,
) -> Seq<GlCommand> {
    seq![
        bind_command(t),
        upload_command(t.layout, pixels, x_offset, y_offset, z_offset, width, height, depth),
        unbind_command(t),
    ]
}

/// Bind, set one sampler parameter, unbind.
pub open spec fn parameter_commands(t: TextureView, parameter: u32, value: u32) -> Seq<
    GlCommand,
> {
    seq![
        bind_command(t),
        parameter_command(t.layout.target, parameter, value),
        unbind_command(t),
    ]
}

/// A texture object: its driver name and its layout.
pub struct TextureData {
    id: u32,
    layout: TextureLayout,
}

impl View for TextureData {
    type V = TextureView;

    closed spec fn view(&self) -> TextureView {
        TextureView { id: self.id, layout: self.layout@ }
    }
}

impl TextureData {
    /// Takes the name the driver gave the new texture and returns the texture
    /// with the commands that set it up: bind it, give it the default sampler
    /// state, allocate its storage (filled from `pixels` where given), unbind.
    pub fn new(id: u32, layout: TextureLayout, pixels: Option<Vec<u8>>) -> (r: (
        TextureData,
        Vec<GlCommand>,
    ))
        ensures
            r.0@ == (TextureView { id, layout: layout@ }),
            is_supported_target(r.0@.layout.target),
            r.1@ == creation_commands(r.0@, pixels),
    {
        proof {
            use_type_invariant(&layout);
        }
        let target = layout.target;
        let storage = if target == TEXTURE_1D {
            GlCommand::TexImage1D {
                target,
                internal_format: layout.internal_format,
                width: layout.width,
                format: layout.format,
                texture_type: layout.texture_type,
                pixels,
            }
        } else if target == TEXTURE_2D {
            GlCommand::TexImage2D {
                target,
                internal_format: layout.internal_format,
                width: layout.width,
                height: layout.height,
                format: layout.format,
                texture_type: layout.texture_type,
                pixels,
            }
        } else {
            GlCommand::TexImage3D {
                target,
                internal_format: layout.internal_format,
                width: layout.width,
                height: layout.height,
                depth: layout.depth,
                format: layout.format,
                texture_type: layout.texture_type,
                pixels,
            }
        };
        let commands = vec![
            GlCommand::BindTexture { target, texture: Some(id) },
            GlCommand::TexParameter {
                target,
                parameter: TEXTURE_MIN_FILTER,
                value: LINEAR as i32,
            },
            GlCommand::TexParameter {
                target,
                parameter: TEXTURE_MAG_FILTER,
                value: LINEAR as i32,
            },
            GlCommand::TexParameter {
                target,
                parameter: TEXTURE_WRAP_S,
                value: CLAMP_TO_EDGE as i32,
            },
            GlCommand::TexParameter {
                target,
                parameter: TEXTURE_WRAP_T,
                value: CLAMP_TO_EDGE as i32,
            },
            GlCommand::TexParameter {
                target,
                parameter: TEXTURE_WRAP_R,
                value: CLAMP_TO_EDGE as i32,
            },
            storage,
            GlCommand::BindTexture { target, texture: None },
        ];
        let t = TextureData { id, layout };
        assert(commands@ =~= creation_commands(t@, pixels));
        (t, commands)
    }

    /// The command that releases the texture's name; the texture is gone
    /// afterwards.
    pub fn delete(self) -> (r: GlCommand)
        ensures
            r == (GlCommand::DeleteTexture { texture: self@.id }),
    {
        GlCommand::DeleteTexture { texture: self.id }
    }

    /// Uploads a region of pixels: bind, the sub-image call that fits the
    /// texture's dimensionality, unbind. The region is not checked against
    /// the allocated size.
    pub fn load_data(
        &self,
        data: Vec<u8>,
        x_offset: usize,
        y_offset: usize,
        z_offset: usize,
        width: usize,
        height: usize,
        depth: usize,
    ) -> (r: Vec<GlCommand>)
        ensures
            r@ == upload_commands(
                self@,
                data,
                x_offset,
                y_offset,
                z_offset,
                width,
                height,
                depth,
            ),
    {
        let target = self.layout.target;
        let format = self.layout.format;
        let texture_type = self.layout.texture_type;
        let upload = if target == TEXTURE_3D {
            GlCommand::TexSubImage3D {
                target,
                x_offset,
                y_offset,
                z_offset,
                width,
                height,
                depth,
                format,
                texture_type,
                pixels: data,
            }
        } else {
            GlCommand::TexSubImage2D {
                target,
                x_offset,
                y_offset,
                width,
                height,
                format,
                texture_type,
                pixels: data,
            }
        };
        let r = vec![
            GlCommand::BindTexture { target, texture: Some(self.id) },
            upload,
            GlCommand::BindTexture { target, texture: None },
        ];
        assert(r@ =~= upload_commands(
            self@,
            data,
            x_offset,
            y_offset,
            z_offset,
            width,
            height,
            depth,
        ));
        r
    }
}

/// Behaviour shared by textures of every dimensionality: accessors, binding
/// and sampler state. An implementor gives access to its [`TextureData`].
pub trait TextureTrait {
    spec fn texture(&self) -> TextureView;

    fn get_texture_data(&self) -> (r: &TextureData)
        ensures
            r@ == self.texture(),
    ;

    fn get_id(&self) -> (r: u32)
        ensures
            r == self.texture().id,
    {
        self.get_texture_data().id
    }

    fn get_target(&self) -> (r: u32)
        ensures
            r == self.texture().layout.target,
    {
        self.get_texture_data().layout.target
    }

    fn get_width(&self) -> (r: usize)
        ensures
            r == self.texture().layout.width,
    {
        self.get_texture_data().layout.width
    }

    fn get_height(&self) -> (r: usize)
        ensures
            r == self.texture().layout.height,
    {
        self.get_texture_data().layout.height
    }

    fn get_depth(&self) -> (r: usize)
        ensures
            r == self.texture().layout.depth,
    {
        self.get_texture_data().layout.depth
    }

    fn get_internal_format(&self) -> (r: u32)
        ensures
            r == self.texture().layout.internal_format,
    {
        self.get_texture_data().layout.internal_format
    }

    fn get_format(&self) -> (r: u32)
        ensures
            r == self.texture().layout.format,
    {
        self.get_texture_data().layout.format
    }

    fn get_texture_type(&self) -> (r: u32)
        ensures
            r == self.texture().layout.texture_type,
    {
        self.get_texture_data().layout.texture_type
    }

    /// Binds the texture to its target.
    fn bind(&self) -> (r: Vec<GlCommand>)
        ensures
            r@ == seq![bind_command(self.texture())],
    {
        let t = self.get_texture_data();
        vec![GlCommand::BindTexture { target: t.layout.target, texture: Some(t.id) }]
    }

    /// Clears the binding of the texture's target.
    fn unbind(&self) -> (r: Vec<GlCommand>)
        ensures
            r@ == seq![unbind_command(self.texture())],
    {
        let t = self.get_texture_data();
        vec![GlCommand::BindTexture { target: t.layout.target, texture: None }]
    }

    fn set_min_filter(&self, filter: u32) -> (r: Vec<GlCommand>)
        ensures
            r@ == parameter_commands(self.texture(), TEXTURE_MIN_FILTER, filter),
    {
        self.get_texture_data().parameter(TEXTURE_MIN_FILTER, filter)
    }

    fn set_mag_filter(&self, filter: u32) -> (r: Vec<GlCommand>)
        ensures
            r@ == parameter_commands(self.texture(), TEXTURE_MAG_FILTER, filter),
    {
        self.get_texture_data().parameter(TEXTURE_MAG_FILTER, filter)
    }

    fn set_wrap_s(&self, wrap: u32) -> (r: Vec<GlCommand>)
        ensures
            r@ == parameter_commands(self.texture(), TEXTURE_WRAP_S, wrap),
    {
        self.get_texture_data().parameter(TEXTURE_WRAP_S, wrap)
    }

    fn set_wrap_t(&self, wrap: u32) -> (r: Vec<GlCommand>)
        ensures
            r@ == parameter_commands(self.texture(), TEXTURE_WRAP_T, wrap),
    {
        self.get_texture_data().parameter(TEXTURE_WRAP_T, wrap)
    }

    fn set_wrap_r(&self, wrap: u32) -> (r: Vec<GlCommand>)
        ensures
            r@ == parameter_commands(self.texture(), TEXTURE_WRAP_R, wrap),
    {
        self.get_texture_data().parameter(TEXTURE_WRAP_R, wrap)
    }
}

impl TextureData {
    /// Bind, set `parameter` to `value`, unbind.
    fn parameter(&self, parameter: u32, value: u32) -> (r: Vec<GlCommand>)
        ensures
            r@ == parameter_commands(self@, parameter, value),
    {
        let target = self.layout.target;
        let r = vec![
            GlCommand::BindTexture { target, texture: Some(self.id) },
            GlCommand::TexParameter { target, parameter, value: value as i32 },
            GlCommand::BindTexture { target, texture: None },
        ];
        assert(r@ =~= parameter_commands(self@, parameter, value));
        r
    }
}

impl TextureTrait for TextureData {
    open spec fn texture(&self) -> TextureView {
        self@
    }

    fn get_texture_data(&self) -> (r: &TextureData) {
        self
    }
}

/// A one-dimensional texture: a single row of `width` texels.
pub struct Texture1D {
    data: TextureData,
}

impl Texture1D {
    /// A 1D texture of `width` texels under the name `id`, with the commands
    /// that set it up. Transfer format and type default from the format table.
    pub fn new(
        id: u32,
        width: usize,
        internal_format: u32,
        format: Option<u32>,
        texture_type: Option<u32>,
        data: Option<Vec<u8>>,
    ) -> (r: (Texture1D, Vec<GlCommand>))
        ensures
            r.0.texture() == (TextureView {
                id,
                layout: resolved_layout(
                    TEXTURE_1D,
                    width,
                    1,
                    1,
                    internal_format,
                    format,
                    texture_type,
                ),
            }),
            r.1@ == creation_commands(r.0.texture(), data),
    {
        let layout = TextureLayout::resolve(
            TEXTURE_1D,
            width,
            1,
            1,
            internal_format,
            format,
            texture_type,
        );
        let (data, commands) = TextureData::new(id, layout, data);
        (Texture1D { data }, commands)
    }

    /// Uploads `width` texels starting at `x_offset`, as a one-row region.
    pub fn load_data(&self, data: Vec<u8>, width: usize, x_offset: usize) -> (r: Vec<GlCommand>)
        ensures
            r@ == upload_commands(self.texture(), data, x_offset, 0, 0, width, 1, 1),
    {
        self.data.load_data(data, x_offset, 0, 0, width, 1, 1)
    }

    pub fn delete(self) -> (r: GlCommand)
        ensures
            r == (GlCommand::DeleteTexture { texture: self.texture().id }),
    {
        self.data.delete()
    }
}

impl TextureTrait for Texture1D {
    closed spec fn texture(&self) -> TextureView {
        self.data@
    }

    fn get_texture_data(&self) -> (r: &TextureData) {
        &self.data
    }
}

/// A two-dimensional texture of `width` by `height` texels.
pub struct Texture2D {
    data: TextureData,
}

impl Texture2D {
    /// A 2D texture under the name `id`, with the commands that set it up.
    pub fn new(
        id: u32,
        width: usize,
        height: usize,
        internal_format: u32,
        format: Option<u32>,
        texture_type: Option<u32>,
        data: Option<Vec<u8>>,
    ) -> (r: (Texture2D, Vec<GlCommand>))
        ensures
            r.0.texture() == (TextureView {
                id,
                layout: resolved_layout(
                    TEXTURE_2D,
                    width,
                    height,
                    1,
                    internal_format,
                    format,
                    texture_type,
                ),
            }),
            r.1@ == creation_commands(r.0.texture(), data),
    {
        let layout = TextureLayout::resolve(
            TEXTURE_2D,
            width,
            height,
            1,
            internal_format,
            format,
            texture_type,
        );
        let (data, commands) = TextureData::new(id, layout, data);
        (Texture2D { data }, commands)
    }

    /// Uploads the `width` by `height` region at (`x_offset`, `y_offset`).
    pub fn load_data(
        &self,
        data: Vec<u8>,
        x_offset: usize,
        y_offset: usize,
        width: usize,
        height: usize,
    ) -> (r: Vec<GlCommand>)
        ensures
            r@ == upload_commands(self.texture(), data, x_offset, y_offset, 0, width, height, 1),
    {
        self.data.load_data(data, x_offset, y_offset, 0, width, height, 1)
    }

    pub fn delete(self) -> (r: GlCommand)
        ensures
            r == (GlCommand::DeleteTexture { texture: self.texture().id }),
    {
        self.data.delete()
    }
}

impl TextureTrait for Texture2D {
    closed spec fn texture(&self) -> TextureView {
        self.data@
    }

    fn get_texture_data(&self) -> (r: &TextureData) {
        &self.data
    }
}

/// A three-dimensional texture of `width` by `height` by `depth` texels.
pub struct Texture3D {
    data: TextureData,
}

impl Texture3D {
    /// A 3D texture under the name `id`, with the commands that set it up.
    pub fn new(
        id: u32,
        width: usize,
        height: usize,
        depth: usize,
        internal_format: u32,
        format: Option<u32>,
        texture_type: Option<u32>,
        data: Option<Vec<u8>>,
    ) -> (r: (Texture3D, Vec<GlCommand>))
        ensures
            r.0.texture() == (TextureView {
                id,
                layout: resolved_layout(
                    TEXTURE_3D,
                    width,
                    height,
                    depth,
                    internal_format,
                    format,
                    texture_type,
                ),
            }),
            r.1@ == creation_commands(r.0.texture(), data),
    {
        let layout = TextureLayout::resolve(
            TEXTURE_3D,
            width,
            height,
            depth,
            internal_format,
            format,
            texture_type,
        );
        let (data, commands) = TextureData::new(id, layout, data);
        (Texture3D { data }, commands)
    }

    /// Uploads the box of `width` by `height` by `depth` texels at
    /// (`x_offset`, `y_offset`, `z_offset`).
    pub fn load_data(
        &self,
        data: Vec<u8>,
        x_offset: usize,
        y_offset: usize,
        z_offset: usize,
        width: usize,
        height: usize,
        depth: usize,
    ) -> (r: Vec<GlCommand>)
        ensures
            r@ == upload_commands(
                self.texture(),
                data,
                x_offset,
                y_offset,
                z_offset,
                width,
                height,
                depth,
            ),
    {
        self.data.load_data(data, x_offset, y_offset, z_offset, width, height, depth)
    }

    pub fn delete(self) -> (r: GlCommand)
        ensures
            r == (GlCommand::DeleteTexture { texture: self.texture().id }),
    {
        self.data.delete()
    }
}

impl TextureTrait for Texture3D {
    closed spec fn texture(&self) -> TextureView {
        self.data@
    }

    fn get_texture_data(&self) -> (r: &TextureData) {
        &self.data
    }
}

/// The extent a texture's storage has, in texels along each axis: a 1D
/// texture is one row, a 2D texture one layer.
pub open spec fn full_extent(l: LayoutView) -> (usize, usize, usize) {
    if l.target == TEXTURE_1D {
        (l.width, 1, 1)
    } else if l.target == TEXTURE_2D {
        (l.width, l.height, 1)
    } else {
        (l.width, l.height, l.depth)
    }
}

/// The extent a storage command allocates.
pub open spec fn allocated_extent(c: GlCommand) -> Option<(usize, usize, usize)> {
    match c {
        GlCommand::TexImage1D { width, .. } => Some((width, 1, 1)),
        GlCommand::TexImage2D { width, height, .. } => Some((width, height, 1)),
        GlCommand::TexImage3D { width, height, depth, .. } => Some((width, height, depth)),
        _ => None,
    }
}

/// The origin and extent of the region a sub-image command writes.
pub open spec fn written_region(c: GlCommand) -> Option<
    ((usize, usize, usize), (usize, usize, usize)),
> {
    match c {
        GlCommand::TexSubImage2D { x_offset, y_offset, width, height, .. } => Some(
            ((x_offset, y_offset, 0), (width, height, 1)),
        ),
        GlCommand::TexSubImage3D { x_offset, y_offset, z_offset, width, height, depth, .. } => Some(
            ((x_offset, y_offset, z_offset), (width, height, depth)),
        ),
        _ => None,
    }
}

/// The transfer format and component type a pixel command uses.
pub open spec fn pixel_transfer(c: GlCommand) -> Option<(u32, u32)> {
    match c {
        GlCommand::TexImage1D { format, texture_type, .. } => Some((format, texture_type)),
        GlCommand::TexImage2D { format, texture_type, .. } => Some((format, texture_type)),
        GlCommand::TexImage3D { format, texture_type, .. } => Some((format, texture_type)),
        GlCommand::TexSubImage2D { format, texture_type, .. } => Some((format, texture_type)),
        GlCommand::TexSubImage3D { format, texture_type, .. } => Some((format, texture_type)),
        _ => None,
    }
}

/// The pixels a sub-image command writes.
pub open spec fn written_pixels(c: GlCommand) -> Option<Vec<u8>> {
    match c {
        GlCommand::TexSubImage2D { pixels, .. } => Some(pixels),
        GlCommand::TexSubImage3D { pixels, .. } => Some(pixels),
        _ => None,
    }
}

/// Uploading a full-extent region to a freshly created texture, of any
/// dimensionality, writes exactly the storage that creation allocated, with
/// the transfer format and type it was allocated with, under the same binding,
/// and carries the caller's bytes unchanged; so reading the texture back
/// gives those bytes.
pub proof fn lemma_full_extent_upload(
    id: u32,
    layout: LayoutView,
    initial: Option<Vec<u8>>,
    data: Vec<u8>,
)
    requires
        is_supported_target(layout.target),
    ensures
        ({
            let t = TextureView { id, layout };
            let created = creation_commands(t, initial);
            let e = full_extent(layout);
            let uploaded = upload_commands(t, data, 0, 0, 0, e.0, e.1, e.2);
            &&& allocated_extent(created[6]) == Some(e)
            &&& written_region(uploaded[1]) == Some(((0usize, 0usize, 0usize), e))
            &&& pixel_transfer(uploaded[1]) == pixel_transfer(created[6])
            &&& pixel_transfer(uploaded[1]) == Some((layout.format, layout.texture_type))
            &&& written_pixels(uploaded[1]) == Some(data)
            &&& uploaded[0] == created[0]
            &&& uploaded[2] == created[7]
        }),
{
}

} // verus!
