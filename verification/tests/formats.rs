use framebuffer::{is_depth, TextureInternalFormat};

fn depth_formats() -> Vec<TextureInternalFormat> {
    vec![
        TextureInternalFormat::DEPTH24_STENCIL8,
        TextureInternalFormat::DEPTH_COMPONENT16,
        TextureInternalFormat::DEPTH_COMPONENT24,
        TextureInternalFormat::DEPTH_COMPONENT32F,
    ]
}

fn color_formats() -> Vec<TextureInternalFormat> {
    vec![
        TextureInternalFormat::R8,
        TextureInternalFormat::R8_SNORM,
        TextureInternalFormat::R8UI,
        TextureInternalFormat::R8I,
        TextureInternalFormat::R16UI,
        TextureInternalFormat::R16I,
        TextureInternalFormat::R16F,
        TextureInternalFormat::R32UI,
        TextureInternalFormat::R32I,
        TextureInternalFormat::R32F,
        TextureInternalFormat::RG8,
        TextureInternalFormat::RG8_SNORM,
        TextureInternalFormat::RG8UI,
        TextureInternalFormat::RG8I,
        TextureInternalFormat::RG16UI,
        TextureInternalFormat::RG16I,
        TextureInternalFormat::RG16F,
        TextureInternalFormat::RG32UI,
        TextureInternalFormat::RG32I,
        TextureInternalFormat::RG32F,
        TextureInternalFormat::RGB8,
        TextureInternalFormat::SRGB8,
        TextureInternalFormat::RGB565,
        TextureInternalFormat::RGB8_SNORM,
        TextureInternalFormat::R11F_G11F_B10F,
        TextureInternalFormat::RGB9_E5,
        TextureInternalFormat::RGB16F,
        TextureInternalFormat::RGB32F,
        TextureInternalFormat::RGB8UI,
        TextureInternalFormat::RGB8I,
        TextureInternalFormat::RGB16UI,
        TextureInternalFormat::RGB16I,
        TextureInternalFormat::RGB32UI,
        TextureInternalFormat::RGB32I,
        TextureInternalFormat::RGBA8,
        TextureInternalFormat::SRGB8_ALPHA8,
        TextureInternalFormat::RGBA8_SNORM,
        TextureInternalFormat::RGB5_A1,
        TextureInternalFormat::RGBA4,
        TextureInternalFormat::RGB10_A2,
        TextureInternalFormat::RGB10_A2UI,
        TextureInternalFormat::RGBA16F,
        TextureInternalFormat::RGBA32F,
        TextureInternalFormat::RGBA8UI,
        TextureInternalFormat::RGBA8I,
        TextureInternalFormat::RGBA16UI,
        TextureInternalFormat::RGBA16I,
        TextureInternalFormat::RGBA32UI,
        TextureInternalFormat::RGBA32I,
    ]
}

#[test]
fn combined_depth_stencil_format_is_depth() {
    assert!(is_depth(TextureInternalFormat::DEPTH24_STENCIL8));
}

#[test]
fn depth_only_formats_are_depth() {
    assert!(is_depth(TextureInternalFormat::DEPTH_COMPONENT16));
    assert!(is_depth(TextureInternalFormat::DEPTH_COMPONENT24));
    assert!(is_depth(TextureInternalFormat::DEPTH_COMPONENT32F));
}

#[test]
fn eight_bit_color_formats_are_not_depth() {
    assert!(!is_depth(TextureInternalFormat::RGBA8));
    assert!(!is_depth(TextureInternalFormat::RGB8));
    assert!(!is_depth(TextureInternalFormat::R8));
}

#[test]
fn every_color_format_is_not_depth() {
    for format in color_formats() {
        assert!(!is_depth(format), "{:?} is a color format", format);
    }
}

#[test]
fn exactly_four_formats_are_depth() {
    let mut all = depth_formats();
    all.extend(color_formats());
    assert_eq!(all.len(), 53);
    let depth: Vec<TextureInternalFormat> =
        all.iter().copied().filter(|format| is_depth(*format)).collect();
    assert_eq!(depth, depth_formats());
}

#[test]
fn is_depth_gives_the_same_answer_each_time() {
    let mut all = depth_formats();
    all.extend(color_formats());
    for format in all {
        assert_eq!(is_depth(format), is_depth(format));
    }
}
