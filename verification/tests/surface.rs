use graphics_env::scan::first_set_index;
use graphics_env::surface::classify;
use graphics_env::surface::select_format;
use graphics_env::surface::PhysicalSize;
use graphics_env::surface::PresentMode;
use graphics_env::surface::SurfaceCapabilities;
use graphics_env::surface::SurfaceConfig;
use graphics_env::surface::TextureUsages;
use wgpu::CompositeAlphaMode;
use wgpu::TextureFormat;

#[test]
fn first_set_index_of_empty_list_is_zero() {
    assert_eq!(first_set_index(&vec![]), 0);
}

#[test]
fn first_set_index_skips_clear_flags() {
    assert_eq!(first_set_index(&vec![false, true, true]), 1);
    assert_eq!(first_set_index(&vec![false, false, false, true]), 3);
}

#[test]
fn first_set_index_takes_the_front_when_set() {
    assert_eq!(first_set_index(&vec![true]), 0);
    assert_eq!(first_set_index(&vec![true, true, false]), 0);
}

#[test]
fn first_set_index_is_zero_when_nothing_is_set() {
    assert_eq!(first_set_index(&vec![false]), 0);
    assert_eq!(first_set_index(&vec![false, false, false]), 0);
}

#[test]
fn classify_tells_srgb_formats_apart() {
    let formats = vec![
        TextureFormat::Rgba8Unorm,
        TextureFormat::Rgba8UnormSrgb,
        TextureFormat::Bgra8Unorm,
        TextureFormat::Bgra8UnormSrgb,
        TextureFormat::Rgba16Float,
    ];
    assert_eq!(classify(&formats), vec![false, true, false, true, false]);
}

#[test]
fn classify_of_empty_list_is_empty() {
    assert_eq!(classify(&vec![]), Vec::<bool>::new());
}

#[test]
fn select_format_takes_the_first_srgb_format() {
    let formats = vec![
        TextureFormat::Rgba8Unorm,
        TextureFormat::Bgra8UnormSrgb,
        TextureFormat::Rgba8UnormSrgb,
    ];
    assert_eq!(select_format(&formats), TextureFormat::Bgra8UnormSrgb);
}

#[test]
fn select_format_takes_an_srgb_format_in_last_place() {
    let formats = vec![
        TextureFormat::Bgra8Unorm,
        TextureFormat::Rgba16Float,
        TextureFormat::Rgba8UnormSrgb,
    ];
    assert_eq!(select_format(&formats), TextureFormat::Rgba8UnormSrgb);
}

#[test]
fn select_format_falls_back_to_the_first_format() {
    let formats = vec![
        TextureFormat::Rgba16Float,
        TextureFormat::Bgra8Unorm,
        TextureFormat::Rgba8Unorm,
    ];
    assert_eq!(select_format(&formats), TextureFormat::Rgba16Float);
}

#[test]
fn select_format_depends_on_the_order_listed() {
    let one = vec![TextureFormat::Rgba8UnormSrgb, TextureFormat::Bgra8UnormSrgb];
    let other = vec![TextureFormat::Bgra8UnormSrgb, TextureFormat::Rgba8UnormSrgb];
    assert_eq!(select_format(&one), TextureFormat::Rgba8UnormSrgb);
    assert_eq!(select_format(&other), TextureFormat::Bgra8UnormSrgb);
}

#[test]
fn select_format_of_a_single_format_is_that_format() {
    assert_eq!(select_format(&vec![TextureFormat::Bgra8Unorm]), TextureFormat::Bgra8Unorm);
    assert_eq!(
        select_format(&vec![TextureFormat::Bgra8UnormSrgb]),
        TextureFormat::Bgra8UnormSrgb
    );
}

#[test]
fn capabilities_are_usable_only_with_a_format_and_an_alpha_mode() {
    let full = SurfaceCapabilities {
        formats: vec![TextureFormat::Bgra8Unorm],
        alpha_modes: vec![CompositeAlphaMode::Opaque],
    };
    let no_formats = SurfaceCapabilities {
        formats: vec![],
        alpha_modes: vec![CompositeAlphaMode::Opaque],
    };
    let no_alpha_modes = SurfaceCapabilities {
        formats: vec![TextureFormat::Bgra8Unorm],
        alpha_modes: vec![],
    };
    assert!(full.is_usable());
    assert!(!no_formats.is_usable());
    assert!(!no_alpha_modes.is_usable());
}

#[test]
fn derived_configuration_has_every_field_settled() {
    let capabilities = SurfaceCapabilities {
        formats: vec![TextureFormat::Bgra8Unorm, TextureFormat::Bgra8UnormSrgb],
        alpha_modes: vec![CompositeAlphaMode::PreMultiplied, CompositeAlphaMode::Opaque],
    };
    let config = SurfaceConfig::derive(&capabilities, PhysicalSize { width: 1920, height: 1080 });
    assert_eq!(
        config,
        SurfaceConfig {
            usage: TextureUsages {
                copy_src: false,
                copy_dst: false,
                texture_binding: false,
                storage_binding: false,
                render_attachment: true,
            },
            format: TextureFormat::Bgra8UnormSrgb,
            width: 1920,
            height: 1080,
            present_mode: PresentMode::AutoNoVsync,
            alpha_mode: CompositeAlphaMode::PreMultiplied,
        }
    );
}

#[test]
fn derived_configuration_without_srgb_takes_the_first_format() {
    let capabilities = SurfaceCapabilities {
        formats: vec![TextureFormat::Rgba8Unorm, TextureFormat::Bgra8Unorm],
        alpha_modes: vec![CompositeAlphaMode::Inherit],
    };
    let config = SurfaceConfig::derive(&capabilities, PhysicalSize { width: 1, height: 0 });
    assert_eq!(config.format, TextureFormat::Rgba8Unorm);
    assert_eq!(config.alpha_mode, CompositeAlphaMode::Inherit);
    assert_eq!(config.width, 1);
    assert_eq!(config.height, 0);
}
