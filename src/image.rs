//! Images uploaded into 2D textures. Decoding happens outside the library;
//! what it yields (size, pixel layout, bytes) comes in here.
use vstd::prelude::*;
use crate::gl::{
    GlCommand, R16, R8, RG16, RG8, RGB16, RGB32F, RGB8, RGBA16, RGBA32F, RGBA8, TEXTURE_2D,
};
use crate::texture::{
    creation_commands, resolved_layout, upload_commands, Texture2D, TextureTrait, TextureView,
};

verus! {

/// The channel layout and sample type of decoded pixels.
#[derive(PartialEq, Eq, Structural, Debug, Clone, Copy)]
pub enum PixelLayout {
    Luma8,
    LumaA8,
    Rgb8,
    Rgba8,
    Luma16,
    LumaA16,
    Rgb16,
    Rgba16,
    Rgb32F,
    Rgba32F,
    /// Any layout the decoder may yield besides those above.
    Other,
}

#[derive(PartialEq, Eq, Structural, Debug, Clone, Copy)]
pub enum ImageError {
    UnsupportedFormat,
}

/// The internal format for a pixel layout: one to four channels, with the
/// layout's bit depth or float type.
pub open spec fn layout_format(layout: PixelLayout) -> Option<u32> {
    match layout {
        PixelLayout::Luma8 => Some(R8),
        PixelLayout::LumaA8 => Some(RG8),
        PixelLayout::Rgb8 => Some(RGB8),
        PixelLayout::Rgba8 => Some(RGBA8),
        PixelLayout::Luma16 => Some(R16),
        PixelLayout::LumaA16 => Some(RG16),
        PixelLayout::Rgb16 => Some(RGB16),
        PixelLayout::Rgba16 => Some(RGBA16),
        PixelLayout::Rgb32F => Some(RGB32F),
        PixelLayout::Rgba32F => Some(RGBA32F),
        PixelLayout::Other => None,
    }
}

/// What loading an image issues: create the texture with the pixels as its
/// initial contents, then upload them once more over the full extent.
pub open spec fn load_commands(t: TextureView, initial: Vec<u8>, upload: Vec<u8>) -> Seq<
    GlCommand,
> {
    creation_commands(t, Some(initial)) + upload_commands(
        t,
        upload,
        0,
        0,
        0,
        t.layout.width,
        t.layout.height,
        1,
    )
}

/// Decoded pixels and the 2D texture they were uploaded into.
pub struct Image {
    pub texture: Texture2D,
    pub data: Vec<u8>,
}

impl Image {
    /// The internal format for `layout`; layouts outside the table are
    /// refused.
    pub fn internal_format_for(layout: PixelLayout) -> (r: Result<u32, ImageError>)
        ensures
            r == match layout_format(layout) {
                Some(f) => Ok::<u32, ImageError>(f),
                None => Err(ImageError::UnsupportedFormat),
            },
    {
        match layout {
            PixelLayout::Luma8 => Ok(R8),
            PixelLayout::LumaA8 => Ok(RG8),
            PixelLayout::Rgb8 => Ok(RGB8),
            PixelLayout::Rgba8 => Ok(RGBA8),
            PixelLayout::Luma16 => Ok(R16),
            PixelLayout::LumaA16 => Ok(RG16),
            PixelLayout::Rgb16 => Ok(RGB16),
            PixelLayout::Rgba16 => Ok(RGBA16),
            PixelLayout::Rgb32F => Ok(RGB32F),
            PixelLayout::Rgba32F => Ok(RGBA32F),
            PixelLayout::Other => Err(ImageError::UnsupportedFormat),
        }
    }

    /// An image from decoded pixels, in a 2D texture under the name `id`
    /// sized to the image, with the commands that fill it. A caller asks the
    /// driver for `id` only once [`Image::internal_format_for`] accepted the
    /// layout.
    pub fn from_decoded(
        id: u32,
        width: u32,
        height: u32,
        layout: PixelLayout,
        data: Vec<u8>,
    ) -> (r: Result<(Image, Vec<GlCommand>), ImageError>)
        ensures
            layout_format(layout) is None ==> r == Err::<(Image, Vec<GlCommand>), _>(
                ImageError::UnsupportedFormat,
            ),
            layout_format(layout) matches Some(f) ==> (r matches Ok((image, commands)) && {
                let t = TextureView {
                    id,
                    layout: resolved_layout(
                        TEXTURE_2D,
                        width as usize,
                        height as usize,
                        1,
                        f,
                        None,
                        None,
                    ),
                };
                &&& image.data@ == data@
                &&& image.texture.texture() == t
                &&& exists|initial: Vec<u8>, upload: Vec<u8>|
                    initial@ == data@ && upload@ == data@ && commands@ == load_commands(
                        t,
                        initial,
                        upload,
                    )
            }),
    {
        let format = match Image::internal_format_for(layout) {
            Ok(f) => f,
            Err(e) => {
                return Err(e);
            },
        };
        let initial = data.clone();
        let upload = data.clone();
        assert(initial@ =~= data@);
        assert(upload@ =~= data@);
        let ghost initial_g = initial;
        let ghost upload_g = upload;
        let (texture, mut commands) = Texture2D::new(
            id,
            width as usize,
            height as usize,
            format,
            None,
            None,
            Some(initial),
        );
        let mut more = texture.load_data(upload, 0, 0, width as usize, height as usize);
        commands.append(&mut more);
        assert(commands@ =~= load_commands(texture.texture(), initial_g, upload_g));
        Ok((Image { texture, data }, commands))
    }
}

} // verus!
