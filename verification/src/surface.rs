//! Surface formats, capabilities and the configuration derived from them.

use vstd::prelude::*;
use crate::scan::any_set;
use crate::scan::first_set;
use crate::scan::first_set_index;
use crate::scan::lemma_first_set_in_range;
use crate::scan::lemma_set_flag_has_leader;
use wgpu::CompositeAlphaMode;
use wgpu::TextureFormat;

verus! {

/// `wgpu::TextureFormat`, carried through as an opaque value.
#[verifier::external_type_specification]
#[verifier::external_body]
pub struct ExTextureFormat(wgpu::TextureFormat);

/// `wgpu::CompositeAlphaMode`, carried through as an opaque value.
#[verifier::external_type_specification]
#[verifier::external_body]
pub struct ExCompositeAlphaMode(wgpu::CompositeAlphaMode);

/// Whether `wgpu` classifies `format` as sRGB-encoded.
pub uninterp spec fn srgb_encoded(format: TextureFormat) -> bool;

/// `wgpu::TextureFormat::is_srgb` answers from the format alone and never
/// panics. Its answer is given the name `srgb_encoded`; which formats it
/// holds for is not claimed here.
pub assume_specification[ wgpu::TextureFormat::is_srgb ](format: &wgpu::TextureFormat) -> (srgb: bool)
    ensures
        srgb == srgb_encoded(*format),
;

/// For each format, whether it is sRGB-encoded.
pub open spec fn srgb_flags(formats: Seq<TextureFormat>) -> Seq<bool> {
    Seq::new(formats.len(), |i: int| srgb_encoded(formats[i]))
}

/// Some format of the list is sRGB-encoded.
pub open spec fn has_srgb(formats: Seq<TextureFormat>) -> bool {
    exists|i: int| 0 <= i < formats.len() && srgb_encoded(formats[i])
}

/// The format a surface is configured with: the first sRGB-encoded format
/// listed, and the first format listed when none is sRGB-encoded.
pub open spec fn preferred_format(formats: Seq<TextureFormat>) -> TextureFormat
    recommends
        formats.len() > 0,
{
    formats[first_set(srgb_flags(formats))]
}

/// The selection rule over format lists: with an sRGB-encoded format present,
/// the preferred format is sRGB-encoded and is the first such format listed;
/// with none present, it is the first format listed.
pub proof fn lemma_preferred_format_rule(formats: Seq<TextureFormat>)
    requires
        formats.len() > 0,
    ensures
        0 <= first_set(srgb_flags(formats)) < formats.len(),
        formats.contains(preferred_format(formats)),
        has_srgb(formats) ==> srgb_encoded(preferred_format(formats)),
        has_srgb(formats) ==> forall|j: int|
            0 <= j < first_set(srgb_flags(formats)) ==> !srgb_encoded(#[trigger] formats[j]),
        !has_srgb(formats) ==> preferred_format(formats) == formats[0],
{
    let flags = srgb_flags(formats);
    lemma_first_set_in_range(flags);
    if has_srgb(formats) {
        let i = choose|i: int| 0 <= i < formats.len() && srgb_encoded(formats[i]);
        assert(flags[i]);
        lemma_set_flag_has_leader(flags, i);
        let p = first_set(flags);
        assert(flags[p]);
        assert forall|j: int| 0 <= j < p implies !srgb_encoded(#[trigger] formats[j]) by {
            assert(!flags[j]);
        }
    } else {
        if any_set(flags) {
            let i = choose|i: int| 0 <= i < flags.len() && flags[i];
            assert(srgb_encoded(formats[i]));
        }
    }
}

/// Asks `wgpu` of each format whether it is sRGB-encoded.
pub fn classify(formats: &Vec<TextureFormat>) -> (flags: Vec<bool>)
    ensures
        flags@ == srgb_flags(formats@),
{
    let mut flags: Vec<bool> = Vec::new();
    let mut i: usize = 0;
    while i < formats.len()
        invariant
            i <= formats.len(),
            flags.len() == i,
            forall|j: int| 0 <= j < i ==> flags@[j] == srgb_encoded(formats@[j]),
        decreases formats.len() - i,
    {
        let srgb = formats[i].is_srgb();
        flags.push(srgb);
        i += 1;
    }
    assert(flags@ =~= srgb_flags(formats@));
    flags
}

/// Selects the format to configure a surface with from the formats it
/// supports, in the order reported: the first sRGB-encoded one, else the first.
pub fn select_format(formats: &Vec<TextureFormat>) -> (chosen: TextureFormat)
    requires
        formats.len() > 0,
    ensures
        chosen == preferred_format(formats@),
        formats@.contains(chosen),
        has_srgb(formats@) ==> srgb_encoded(chosen),
        !has_srgb(formats@) ==> chosen == formats@[0],
{
    let flags = classify(formats);
    let index = first_set_index(&flags);
    proof {
        lemma_preferred_format_rule(formats@);
    }
    formats[index]
}

/// A size in physical pixels.
#[derive(Clone, Copy, Debug, PartialEq, Eq, Structural)]
pub struct PhysicalSize {
    pub width: u32,
    pub height: u32,
}

/// When a presented image becomes visible relative to the display's refresh.
#[derive(Clone, Copy, Debug, PartialEq, Eq, Structural)]
pub enum PresentMode {
    AutoVsync,
    AutoNoVsync,
    Fifo,
    FifoRelaxed,
    Immediate,
    Mailbox,
}

/// The ways in which the textures of a surface may be used, one flag each.
#[derive(Clone, Copy, Debug, PartialEq, Eq, Structural)]
pub struct TextureUsages {
    pub copy_src: bool,
    pub copy_dst: bool,
    pub texture_binding: bool,
    pub storage_binding: bool,
    pub render_attachment: bool,
}

impl TextureUsages {
    /// Use as a render attachment and nothing else.
    pub open spec fn render_attachment_only() -> TextureUsages {
        TextureUsages {
            copy_src: false,
            copy_dst: false,
            texture_binding: false,
            storage_binding: false,
            render_attachment: true,
        }
    }
}

/// What a surface supports against the adapter it was queried with, each list
/// in the order reported.
#[derive(Clone, Debug, PartialEq, Eq)]
pub struct SurfaceCapabilities {
    pub formats: Vec<TextureFormat>,
    pub alpha_modes: Vec<CompositeAlphaMode>,
}

impl SurfaceCapabilities {
    /// Both lists name at least one entry, so that a configuration can be
    /// derived.
    pub open spec fn usable(self) -> bool {
        self.formats.len() > 0 && self.alpha_modes.len() > 0
    }

    /// Tests `usable`.
    pub fn is_usable(&self) -> (usable: bool)
        ensures
            usable == self.usable(),
    {
        self.formats.len() > 0 && self.alpha_modes.len() > 0
    }
}

/// The parameters a surface is configured with.
#[derive(Clone, Copy, Debug, PartialEq, Eq)]
pub struct SurfaceConfig {
    pub usage: TextureUsages,
    pub format: TextureFormat,
    pub width: u32,
    pub height: u32,
    pub present_mode: PresentMode,
    pub alpha_mode: CompositeAlphaMode,
}

impl SurfaceConfig {
    /// The configuration that follows from what a surface supports and from
    /// the size measured on its window: the preferred format, the measured
    /// size, presentation without vertical sync, the first alpha mode
    /// reported, and use as a render attachment.
    pub open spec fn derived(capabilities: SurfaceCapabilities, size: PhysicalSize) -> SurfaceConfig
        recommends
            capabilities.usable(),
    {
        SurfaceConfig {
            usage: TextureUsages::render_attachment_only(),
            format: preferred_format(capabilities.formats@),
            width: size.width,
            height: size.height,
            present_mode: PresentMode::AutoNoVsync,
            alpha_mode: capabilities.alpha_modes@[0],
        }
    }

    /// Derives the configuration of a surface from its capabilities and the
    /// physical size measured on its window.
    pub fn derive(capabilities: &SurfaceCapabilities, size: PhysicalSize) -> (config: SurfaceConfig)
        requires
            capabilities.usable(),
        ensures
            config == SurfaceConfig::derived(*capabilities, size),
            capabilities.formats@.contains(config.format),
            capabilities.alpha_modes@.contains(config.alpha_mode),
            config.width == size.width,
            config.height == size.height,
            has_srgb(capabilities.formats@) ==> srgb_encoded(config.format),
            !has_srgb(capabilities.formats@) ==> config.format == capabilities.formats@[0],
    {
        SurfaceConfig {
            usage: TextureUsages {
                copy_src: false,
                copy_dst: false,
                texture_binding: false,
                storage_binding: false,
                render_attachment: true,
            },
            format: select_format(&capabilities.formats),
            width: size.width,
            height: size.height,
            present_mode: PresentMode::AutoNoVsync,
            alpha_mode: capabilities.alpha_modes[0],
        }
    }
}

} // verus!
