use paxil::gl::{
    DEPTH24_STENCIL8, DEPTH_COMPONENT, DEPTH_COMPONENT16, DEPTH_COMPONENT32F, DEPTH_STENCIL,
    FLOAT, HALF_FLOAT, INT, R32I, R32UI, R8, RED, RED_INTEGER, RG16I, RGB, RGB16F, RGBA,
    RGBA16UI, RGBA32F, RGBA_INTEGER, RG_INTEGER, SHORT, STENCIL_INDEX, STENCIL_INDEX8,
    UNSIGNED_BYTE, UNSIGNED_INT_24_8, UNSIGNED_SHORT,
};
use paxil::{format_for, get_gl_format_from_internal, get_gl_type_from_internal, is_known_internal_format};

#[test]
fn format_for_table_entries() {
    assert_eq!(format_for(R8), (RED, UNSIGNED_BYTE));
    assert_eq!(format_for(RGBA32F), (RGBA, FLOAT));
    assert_eq!(format_for(RG16I), (RG_INTEGER, SHORT));
    assert_eq!(format_for(RGB16F), (RGB, HALF_FLOAT));
    assert_eq!(format_for(R32I), (RED_INTEGER, INT));
    assert_eq!(format_for(RGBA16UI), (RGBA_INTEGER, UNSIGNED_SHORT));
    assert_eq!(format_for(DEPTH24_STENCIL8), (DEPTH_STENCIL, UNSIGNED_INT_24_8));
    assert_eq!(format_for(DEPTH_COMPONENT16), (DEPTH_COMPONENT, UNSIGNED_SHORT));
    assert_eq!(format_for(STENCIL_INDEX8), (STENCIL_INDEX, UNSIGNED_BYTE));
}

#[test]
fn format_for_unknown_falls_back() {
    assert_eq!(format_for(0), (RGBA, UNSIGNED_BYTE));
    assert_eq!(format_for(u32::MAX), (RGBA, UNSIGNED_BYTE));
    assert!(!is_known_internal_format(0));
    assert!(is_known_internal_format(R8));
}

#[test]
fn depth_formats_get_depth_pairs() {
    assert_eq!(format_for(DEPTH_COMPONENT32F), (DEPTH_COMPONENT, FLOAT));
    assert_eq!(get_gl_format_from_internal(DEPTH_COMPONENT32F), DEPTH_COMPONENT);
    assert_eq!(get_gl_type_from_internal(DEPTH_COMPONENT32F), FLOAT);
    assert!(is_known_internal_format(DEPTH_COMPONENT32F));
}

#[test]
fn tables_are_independent() {
    // The type table has no entry for R32UI; its type falls back.
    assert_eq!(get_gl_format_from_internal(R32UI), RED_INTEGER);
    assert_eq!(get_gl_type_from_internal(R32UI), UNSIGNED_BYTE);
    assert!(!is_known_internal_format(R32UI));
}
