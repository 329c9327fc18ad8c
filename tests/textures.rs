use paxil::gl::{
    CLAMP_TO_EDGE, LINEAR, R8, RED, RGBA, RGBA8, RGBA32F, FLOAT, TEXTURE_1D, TEXTURE_2D,
    TEXTURE_3D, TEXTURE_MAG_FILTER, TEXTURE_MIN_FILTER, TEXTURE_WRAP_R, TEXTURE_WRAP_S,
    TEXTURE_WRAP_T, UNSIGNED_BYTE,
};
use paxil::{GlCommand, Texture1D, Texture2D, Texture3D, TextureData, TextureError, TextureLayout, TextureTrait};

const CUBE_MAP: u32 = 0x8513;
const NEAREST: u32 = 0x2600;
const REPEAT: u32 = 0x2901;

fn sampler_defaults(target: u32) -> Vec<GlCommand> {
    vec![
        GlCommand::TexParameter { target, parameter: TEXTURE_MIN_FILTER, value: LINEAR as i32 },
        GlCommand::TexParameter { target, parameter: TEXTURE_MAG_FILTER, value: LINEAR as i32 },
        GlCommand::TexParameter { target, parameter: TEXTURE_WRAP_S, value: CLAMP_TO_EDGE as i32 },
        GlCommand::TexParameter { target, parameter: TEXTURE_WRAP_T, value: CLAMP_TO_EDGE as i32 },
        GlCommand::TexParameter { target, parameter: TEXTURE_WRAP_R, value: CLAMP_TO_EDGE as i32 },
    ]
}

#[test]
fn unsupported_target_is_refused() {
    assert!(matches!(
        TextureLayout::new(CUBE_MAP, 4, 4, 1, RGBA8, None, None),
        Err(TextureError::UnsupportedTarget(CUBE_MAP))
    ));
    assert!(matches!(
        TextureLayout::new(0, 4, 4, 1, RGBA8, None, None),
        Err(TextureError::UnsupportedTarget(0))
    ));
}

#[test]
fn layout_on_each_supported_target() {
    assert!(TextureLayout::new(TEXTURE_1D, 4, 1, 1, RGBA8, None, None).is_ok());
    assert!(TextureLayout::new(TEXTURE_2D, 4, 4, 1, RGBA8, None, None).is_ok());
    assert!(TextureLayout::new(TEXTURE_3D, 4, 4, 4, RGBA8, None, None).is_ok());
}

#[test]
fn creation_commands_for_2d_with_data() {
    let layout = TextureLayout::new(TEXTURE_2D, 2, 3, 1, RGBA8, None, None).ok().unwrap();
    let pixels = vec![7u8; 24];
    let (t, commands) = TextureData::new(9, layout, Some(pixels.clone()));
    let mut expected = vec![GlCommand::BindTexture { target: TEXTURE_2D, texture: Some(9) }];
    expected.extend(sampler_defaults(TEXTURE_2D));
    expected.push(GlCommand::TexImage2D {
        target: TEXTURE_2D,
        internal_format: RGBA8,
        width: 2,
        height: 3,
        format: RGBA,
        texture_type: UNSIGNED_BYTE,
        pixels: Some(pixels),
    });
    expected.push(GlCommand::BindTexture { target: TEXTURE_2D, texture: None });
    assert_eq!(commands, expected);
    assert_eq!(t.get_id(), 9);
    assert_eq!(t.get_format(), RGBA);
    assert_eq!(t.get_texture_type(), UNSIGNED_BYTE);
}

#[test]
fn explicit_format_and_type_are_kept() {
    let (t, _) = Texture2D::new(3, 8, 8, RGBA8, Some(RED), Some(FLOAT), None);
    assert_eq!(t.get_internal_format(), RGBA8);
    assert_eq!(t.get_format(), RED);
    assert_eq!(t.get_texture_type(), FLOAT);
}

#[test]
fn texture_1d_allocates_one_row() {
    let (t, commands) = Texture1D::new(4, 16, R8, None, None, None);
    assert_eq!(commands.len(), 8);
    assert_eq!(
        commands[6],
        GlCommand::TexImage1D {
            target: TEXTURE_1D,
            internal_format: R8,
            width: 16,
            format: RED,
            texture_type: UNSIGNED_BYTE,
            pixels: None,
        }
    );
    assert_eq!((t.get_target(), t.get_width(), t.get_height(), t.get_depth()), (TEXTURE_1D, 16, 1, 1));
}

#[test]
fn texture_3d_allocates_a_volume() {
    let (t, commands) = Texture3D::new(5, 2, 3, 4, RGBA32F, None, None, None);
    assert_eq!(commands[0], GlCommand::BindTexture { target: TEXTURE_3D, texture: Some(5) });
    assert_eq!(&commands[1..6], &sampler_defaults(TEXTURE_3D)[..]);
    assert_eq!(
        commands[6],
        GlCommand::TexImage3D {
            target: TEXTURE_3D,
            internal_format: RGBA32F,
            width: 2,
            height: 3,
            depth: 4,
            format: RGBA,
            texture_type: FLOAT,
            pixels: None,
        }
    );
    assert_eq!(commands[7], GlCommand::BindTexture { target: TEXTURE_3D, texture: None });
    assert_eq!(t.get_depth(), 4);
}

#[test]
fn sampler_state_setters() {
    let (t, _) = Texture2D::new(6, 1, 1, RGBA8, None, None, None);
    let bind = GlCommand::BindTexture { target: TEXTURE_2D, texture: Some(6) };
    let unbind = GlCommand::BindTexture { target: TEXTURE_2D, texture: None };
    assert_eq!(t.bind(), vec![bind.clone()]);
    assert_eq!(t.unbind(), vec![unbind.clone()]);
    assert_eq!(
        t.set_min_filter(NEAREST),
        vec![
            bind.clone(),
            GlCommand::TexParameter { target: TEXTURE_2D, parameter: TEXTURE_MIN_FILTER, value: NEAREST as i32 },
            unbind.clone(),
        ]
    );
    assert_eq!(t.set_mag_filter(NEAREST)[1], GlCommand::TexParameter { target: TEXTURE_2D, parameter: TEXTURE_MAG_FILTER, value: NEAREST as i32 });
    assert_eq!(t.set_wrap_s(REPEAT)[1], GlCommand::TexParameter { target: TEXTURE_2D, parameter: TEXTURE_WRAP_S, value: REPEAT as i32 });
    assert_eq!(t.set_wrap_t(REPEAT)[1], GlCommand::TexParameter { target: TEXTURE_2D, parameter: TEXTURE_WRAP_T, value: REPEAT as i32 });
    assert_eq!(t.set_wrap_r(REPEAT)[1], GlCommand::TexParameter { target: TEXTURE_2D, parameter: TEXTURE_WRAP_R, value: REPEAT as i32 });
}

#[test]
fn one_dimensional_upload_goes_through_two_dimensional_call() {
    let (t, _) = Texture1D::new(2, 8, R8, None, None, None);
    let commands = t.load_data(vec![1, 2, 3], 3, 5);
    assert_eq!(
        commands,
        vec![
            GlCommand::BindTexture { target: TEXTURE_1D, texture: Some(2) },
            GlCommand::TexSubImage2D {
                target: TEXTURE_1D,
                x_offset: 5,
                y_offset: 0,
                width: 3,
                height: 1,
                format: RED,
                texture_type: UNSIGNED_BYTE,
                pixels: vec![1, 2, 3],
            },
            GlCommand::BindTexture { target: TEXTURE_1D, texture: None },
        ]
    );
}

#[test]
fn three_dimensional_upload_region() {
    let (t, _) = Texture3D::new(8, 4, 4, 4, R8, None, None, None);
    let commands = t.load_data(vec![0; 8], 1, 2, 3, 2, 2, 2);
    assert_eq!(
        commands[1],
        GlCommand::TexSubImage3D {
            target: TEXTURE_3D,
            x_offset: 1,
            y_offset: 2,
            z_offset: 3,
            width: 2,
            height: 2,
            depth: 2,
            format: RED,
            texture_type: UNSIGNED_BYTE,
            pixels: vec![0; 8],
        }
    );
}

fn allocated(c: &GlCommand) -> (usize, usize, usize, u32, u32) {
    match c {
        GlCommand::TexImage1D { width, format, texture_type, .. } => (*width, 1, 1, *format, *texture_type),
        GlCommand::TexImage2D { width, height, format, texture_type, .. } => (*width, *height, 1, *format, *texture_type),
        GlCommand::TexImage3D { width, height, depth, format, texture_type, .. } => (*width, *height, *depth, *format, *texture_type),
        _ => panic!("not a storage command"),
    }
}

fn written(c: &GlCommand) -> (usize, usize, usize, usize, usize, usize, u32, u32, Vec<u8>) {
    match c {
        GlCommand::TexSubImage2D { x_offset, y_offset, width, height, format, texture_type, pixels, .. } => {
            (*x_offset, *y_offset, 0, *width, *height, 1, *format, *texture_type, pixels.clone())
        }
        GlCommand::TexSubImage3D { x_offset, y_offset, z_offset, width, height, depth, format, texture_type, pixels, .. } => {
            (*x_offset, *y_offset, *z_offset, *width, *height, *depth, *format, *texture_type, pixels.clone())
        }
        _ => panic!("not an upload command"),
    }
}

#[test]
fn full_extent_upload_matches_allocation() {
    let bytes: Vec<u8> = (0..24u8).collect();

    let (t1, c1) = Texture1D::new(1, 6, RGBA8, None, None, None);
    let u1 = t1.load_data(bytes.clone(), 6, 0);
    assert_eq!(written(&u1[1]), (0, 0, 0, 6, 1, 1, RGBA, UNSIGNED_BYTE, bytes.clone()));
    assert_eq!(allocated(&c1[6]), (6, 1, 1, RGBA, UNSIGNED_BYTE));

    let (t2, c2) = Texture2D::new(2, 3, 2, RGBA8, None, None, None);
    let u2 = t2.load_data(bytes.clone(), 0, 0, 3, 2);
    assert_eq!(written(&u2[1]), (0, 0, 0, 3, 2, 1, RGBA, UNSIGNED_BYTE, bytes.clone()));
    assert_eq!(allocated(&c2[6]), (3, 2, 1, RGBA, UNSIGNED_BYTE));

    let (t3, c3) = Texture3D::new(3, 2, 3, 1, RGBA8, None, None, None);
    let u3 = t3.load_data(bytes.clone(), 0, 0, 0, 2, 3, 1);
    assert_eq!(written(&u3[1]), (0, 0, 0, 2, 3, 1, RGBA, UNSIGNED_BYTE, bytes.clone()));
    assert_eq!(allocated(&c3[6]), (2, 3, 1, RGBA, UNSIGNED_BYTE));
    assert_eq!(u3[0], c3[0]);
    assert_eq!(u3[2], c3[7]);
}

#[test]
fn delete_releases_the_name() {
    let (t, _) = Texture2D::new(11, 1, 1, RGBA8, None, None, None);
    assert_eq!(t.delete(), GlCommand::DeleteTexture { texture: 11 });
    let (t1, _) = Texture1D::new(12, 1, RGBA8, None, None, None);
    assert_eq!(t1.delete(), GlCommand::DeleteTexture { texture: 12 });
    let (t3, _) = Texture3D::new(13, 1, 1, 1, RGBA8, None, None, None);
    assert_eq!(t3.delete(), GlCommand::DeleteTexture { texture: 13 });
}
