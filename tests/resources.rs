use paxil::gl::{RG, RG16, RGB, RGB8, TEXTURE_2D, UNSIGNED_BYTE, UNSIGNED_SHORT};
use paxil::{GlCommand, Image, ImageError, PixelLayout, TextureTrait, VAO};

#[test]
fn vao_creation_leaves_it_bound() {
    let (vao, commands) = VAO::new(4);
    assert_eq!(commands, vec![GlCommand::BindVertexArray { vertex_array: Some(4) }]);
    assert_eq!(vao.get_id(), 4);
    assert_eq!(vao.bind(), vec![GlCommand::BindVertexArray { vertex_array: Some(4) }]);
    assert_eq!(vao.unbind(), vec![GlCommand::BindVertexArray { vertex_array: None }]);
    assert_eq!(vao.delete(), GlCommand::DeleteVertexArray { vertex_array: 4 });
}

#[test]
fn image_layout_table() {
    assert_eq!(Image::internal_format_for(PixelLayout::Rgb8), Ok(RGB8));
    assert_eq!(Image::internal_format_for(PixelLayout::LumaA16), Ok(RG16));
    assert_eq!(Image::internal_format_for(PixelLayout::Other), Err(ImageError::UnsupportedFormat));
}

#[test]
fn image_uploads_twice() {
    let data: Vec<u8> = (0..12u8).collect();
    let (image, commands) = Image::from_decoded(7, 2, 2, PixelLayout::Rgb8, data.clone()).ok().unwrap();
    assert_eq!(image.data, data);
    assert_eq!(image.texture.get_id(), 7);
    assert_eq!((image.texture.get_width(), image.texture.get_height()), (2, 2));
    assert_eq!(image.texture.get_format(), RGB);
    assert_eq!(commands.len(), 11);
    assert_eq!(
        commands[6],
        GlCommand::TexImage2D {
            target: TEXTURE_2D,
            internal_format: RGB8,
            width: 2,
            height: 2,
            format: RGB,
            texture_type: UNSIGNED_BYTE,
            pixels: Some(data.clone()),
        }
    );
    assert_eq!(
        commands[9],
        GlCommand::TexSubImage2D {
            target: TEXTURE_2D,
            x_offset: 0,
            y_offset: 0,
            width: 2,
            height: 2,
            format: RGB,
            texture_type: UNSIGNED_BYTE,
            pixels: data,
        }
    );
}

#[test]
fn sixteen_bit_gray_alpha_is_two_channels() {
    let (image, _) = Image::from_decoded(1, 1, 1, PixelLayout::LumaA16, vec![0; 4]).ok().unwrap();
    assert_eq!(image.texture.get_internal_format(), RG16);
    assert_eq!(image.texture.get_format(), RG);
    assert_eq!(image.texture.get_texture_type(), UNSIGNED_SHORT);
}

#[test]
fn unsupported_layout_is_refused() {
    assert!(matches!(
        Image::from_decoded(1, 1, 1, PixelLayout::Other, vec![0; 4]),
        Err(ImageError::UnsupportedFormat)
    ));
}
