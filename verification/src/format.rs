//! Pixel formats and their split into depth and color formats.

use vstd::prelude::*;

verus! {

/// The sized internal formats a texture or renderbuffer can be allocated with.
#[allow(non_camel_case_types)]
#[derive(Clone, Copy, Debug, PartialEq, Eq, Hash)]
pub enum TextureInternalFormat {
    R8,
    R8_SNORM,
    R8UI,
    R8I,
    R16UI,
    R16I,
    R16F,
    R32UI,
    R32I,
    R32F,
    RG8,
    RG8_SNORM,
    RG8UI,
    RG8I,
    RG16UI,
    RG16I,
    RG16F,
    RG32UI,
    RG32I,
    RG32F,
    RGB8,
    SRGB8,
    RGB565,
    RGB8_SNORM,
    R11F_G11F_B10F,
    RGB9_E5,
    RGB16F,
    RGB32F,
    RGB8UI,
    RGB8I,
    RGB16UI,
    RGB16I,
    RGB32UI,
    RGB32I,
    RGBA8,
    SRGB8_ALPHA8,
    RGBA8_SNORM,
    RGB5_A1,
    RGBA4,
    RGB10_A2,
    RGB10_A2UI,
    RGBA16F,
    RGBA32F,
    RGBA8UI,
    RGBA8I,
    RGBA16UI,
    RGBA16I,
    RGBA32UI,
    RGBA32I,
    DEPTH_COMPONENT16,
    DEPTH_COMPONENT24,
    DEPTH_COMPONENT32F,
    DEPTH24_STENCIL8,
}

/// The formats that store depth, with or without stencil.
pub open spec fn depth_formats() -> Set<TextureInternalFormat> {
    set![
        TextureInternalFormat::DEPTH24_STENCIL8,
        TextureInternalFormat::DEPTH_COMPONENT16,
        TextureInternalFormat::DEPTH_COMPONENT24,
        TextureInternalFormat::DEPTH_COMPONENT32F,
    ]
}

/// The formats that store color: all that are not depth formats.
pub open spec fn color_formats() -> Set<TextureInternalFormat> {
    Set::new(|format: TextureInternalFormat| !depth_formats().contains(format))
}

/// Whether `format` is a depth or depth-stencil format.
pub open spec fn is_depth_format(format: TextureInternalFormat) -> bool {
    depth_formats().contains(format)
}

/// Tells depth and depth-stencil formats from color formats.
pub fn is_depth(format: TextureInternalFormat) -> (depth: bool)
    ensures
        depth == is_depth_format(format),
{
    match format {
        TextureInternalFormat::DEPTH24_STENCIL8
        | TextureInternalFormat::DEPTH_COMPONENT16
        | TextureInternalFormat::DEPTH_COMPONENT24
        | TextureInternalFormat::DEPTH_COMPONENT32F => true,
        _ => false,
    }
}

/// There are exactly four depth formats, and every format is either a depth
/// format or a color format, never both.
pub proof fn lemma_formats_partition()
    ensures
        depth_formats().finite(),
        depth_formats().len() == 4,
        forall|format: TextureInternalFormat|
            is_depth_format(format) <==> (format == TextureInternalFormat::DEPTH24_STENCIL8
                || format == TextureInternalFormat::DEPTH_COMPONENT16
                || format == TextureInternalFormat::DEPTH_COMPONENT24
                || format == TextureInternalFormat::DEPTH_COMPONENT32F),
        forall|format: TextureInternalFormat|
            depth_formats().contains(format) != color_formats().contains(format),
{
}

} // verus!
