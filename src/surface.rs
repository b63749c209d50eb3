//! Choosing a surface configuration from what the surface reports it supports.
use vstd::prelude::*;

verus! {

#[verifier::external_type_specification]
#[verifier::external_body]
pub struct ExTextureFormat(wgpu::TextureFormat);

#[verifier::external_type_specification]
#[verifier::external_body]
pub struct ExPresentMode(wgpu::PresentMode);

#[verifier::external_type_specification]
#[verifier::external_body]
pub struct ExCompositeAlphaMode(wgpu::CompositeAlphaMode);

/// Whether wgpu counts a texture format as gamma-corrected (sRGB).
pub uninterp spec fn srgb_of(f: wgpu::TextureFormat) -> bool;

/// Relies on `TextureFormat::is_srgb` of wgpu-types: the answer depends on the
/// format alone (it compares the format with its sRGB-stripped counterpart).
pub assume_specification[ wgpu::TextureFormat::is_srgb ](f: &wgpu::TextureFormat) -> (r: bool)
    ensures
        r == srgb_of(*f),
;

/// The gamma-correction flag of each format, in order.
pub open spec fn srgb_flags(formats: Seq<wgpu::TextureFormat>) -> Seq<bool> {
    Seq::new(formats.len(), |i: int| srgb_of(formats[i]))
}

/// `i` is the position of the first raised flag.
pub open spec fn is_first_flag(flags: Seq<bool>, i: int) -> bool {
    &&& 0 <= i < flags.len()
    &&& flags[i]
    &&& forall|j: int| 0 <= j < i ==> !#[trigger] flags[j]
}

/// Some flag is raised.
pub open spec fn has_flag(flags: Seq<bool>) -> bool {
    exists|i: int| 0 <= i < flags.len() && #[trigger] flags[i]
}

/// The preferred position: the first raised flag if there is one, otherwise the first
/// position.
pub open spec fn preferred_index(flags: Seq<bool>) -> int {
    if has_flag(flags) {
        choose|i: int| is_first_flag(flags, i)
    } else {
        0
    }
}

/// The preferred format of a non-empty list: the first gamma-corrected one if there
/// is one, otherwise the first one listed.
pub open spec fn chosen_format(formats: Seq<wgpu::TextureFormat>) -> wgpu::TextureFormat {
    formats[preferred_index(srgb_flags(formats))]
}

/// A list has at most one first raised flag.
proof fn lemma_first_flag_unique(flags: Seq<bool>, i: int, k: int)
    requires
        is_first_flag(flags, i),
        is_first_flag(flags, k),
    ensures
        i == k,
{
    if i < k {
        assert(!flags[i]);
    } else if k < i {
        assert(!flags[k]);
    }
}

/// A list with a raised flag at `i` has a first one, at or before `i`.
proof fn lemma_first_flag_exists(flags: Seq<bool>, i: int)
    requires
        0 <= i < flags.len(),
        flags[i],
    ensures
        exists|k: int| #[trigger] is_first_flag(flags, k) && k <= i,
    decreases i,
{
    if exists|j: int| 0 <= j < i && #[trigger] flags[j] {
        let j = choose|j: int| 0 <= j < i && #[trigger] flags[j];
        lemma_first_flag_exists(flags, j);
    } else {
        assert(is_first_flag(flags, i));
    }
}

/// The position to pick from a non-empty list whose entries are flagged: the first
/// flagged one, or the first one when none is flagged.
pub fn preferred_position(flags: &Vec<bool>) -> (r: usize)
    requires
        flags@.len() > 0,
    ensures
        r == preferred_index(flags@),
        r < flags@.len(),
{
    let mut i: usize = 0;
    while i < flags.len()
        invariant
            0 <= i <= flags@.len(),
            forall|j: int| 0 <= j < i ==> !#[trigger] flags@[j],
        decreases flags@.len() - i,
    {
        if flags[i] {
            proof {
                assert(is_first_flag(flags@, i as int));
                let k = choose|k: int| is_first_flag(flags@, k);
                lemma_first_flag_unique(flags@, i as int, k);
            }
            return i;
        }
        i += 1;
    }
    0
}

/// The format to configure the surface with, out of the non-empty list it reports.
pub fn select_format(formats: &Vec<wgpu::TextureFormat>) -> (r: wgpu::TextureFormat)
    requires
        formats@.len() > 0,
    ensures
        r == chosen_format(formats@),
{
    let mut flags: Vec<bool> = Vec::new();
    let mut i: usize = 0;
    while i < formats.len()
        invariant
            0 <= i <= formats@.len(),
            flags@ == srgb_flags(formats@).take(i as int),
        decreases formats@.len() - i,
    {
        flags.push(formats[i].is_srgb());
        i += 1;
        assert(flags@ =~= srgb_flags(formats@).take(i as int));
    }
    assert(flags@ =~= srgb_flags(formats@));
    let k = preferred_position(&flags);
    formats[k]
}

/// The most frames the surface is asked to queue ahead of presentation.
pub const FRAME_LATENCY: u32 = 2;

/// What a surface reports it supports, each list in the platform's order of preference.
#[derive(Clone, Debug)]
pub struct SurfaceCaps {
    pub formats: Vec<wgpu::TextureFormat>,
    pub present_modes: Vec<wgpu::PresentMode>,
    pub alpha_modes: Vec<wgpu::CompositeAlphaMode>,
}

/// How the surface is to be configured. `render_attachment` says that the surface's
/// textures are used as render targets and for nothing else; `extra_view_formats`
/// says whether views in formats other than `format` are allowed.
#[derive(Clone, Copy, Debug)]
pub struct SurfacePlan {
    pub format: wgpu::TextureFormat,
    pub width: u32,
    pub height: u32,
    pub present_mode: wgpu::PresentMode,
    pub alpha_mode: wgpu::CompositeAlphaMode,
    pub frame_latency: u32,
    pub render_attachment: bool,
    pub extra_view_formats: bool,
}

impl SurfaceCaps {
    /// Every list holds at least one entry, so a configuration can be chosen.
    pub open spec fn usable(&self) -> bool {
        &&& self.formats@.len() > 0
        &&& self.present_modes@.len() > 0
        &&& self.alpha_modes@.len() > 0
    }

    /// Whether every list holds at least one entry.
    pub fn is_usable(&self) -> (r: bool)
        ensures
            r == self.usable(),
    {
        self.formats.len() > 0 && self.present_modes.len() > 0 && self.alpha_modes.len() > 0
    }
}

/// The configuration chosen for usable capabilities and a canvas of the given size:
/// the preferred format, the first present mode and alpha mode listed, textures used
/// only as render targets, and no view formats besides the surface's own.
pub open spec fn planned_surface(caps: SurfaceCaps, width: u32, height: u32) -> SurfacePlan {
    SurfacePlan {
        format: chosen_format(caps.formats@),
        width,
        height,
        present_mode: caps.present_modes@[0],
        alpha_mode: caps.alpha_modes@[0],
        frame_latency: FRAME_LATENCY,
        render_attachment: true,
        extra_view_formats: false,
    }
}

/// The surface configuration for a canvas of `width` by `height` pixels.
pub fn plan_surface(caps: &SurfaceCaps, width: u32, height: u32) -> (r: SurfacePlan)
    requires
        caps.usable(),
    ensures
        r == planned_surface(*caps, width, height),
{
    SurfacePlan {
        format: select_format(&caps.formats),
        width,
        height,
        present_mode: caps.present_modes[0],
        alpha_mode: caps.alpha_modes[0],
        frame_latency: FRAME_LATENCY,
        render_attachment: true,
        extra_view_formats: false,
    }
}

/// A gamma-corrected format is preferred wherever it stands in the list: when the
/// list holds one, the chosen format is gamma-corrected, and it is the first such.
pub proof fn lemma_srgb_preferred(formats: Seq<wgpu::TextureFormat>, i: int)
    requires
        0 <= i < formats.len(),
        srgb_of(formats[i]),
    ensures
        srgb_of(chosen_format(formats)),
        exists|k: int|
            0 <= k <= i && chosen_format(formats) == #[trigger] formats[k] && srgb_of(formats[k])
                && forall|j: int| 0 <= j < k ==> !srgb_of(#[trigger] formats[j]),
{
    let flags = srgb_flags(formats);
    assert(flags[i]);
    lemma_first_flag_exists(flags, i);
    let k = choose|k: int| is_first_flag(flags, k) && k <= i;
    assert(has_flag(flags));
    let c = choose|c: int| is_first_flag(flags, c);
    lemma_first_flag_unique(flags, k, c);
    assert forall|j: int| 0 <= j < k implies !srgb_of(#[trigger] formats[j]) by {
        assert(!flags[j]);
    }
}

/// Without a gamma-corrected format, the first format listed is chosen.
pub proof fn lemma_first_format_otherwise(formats: Seq<wgpu::TextureFormat>)
    requires
        formats.len() > 0,
        forall|i: int| 0 <= i < formats.len() ==> !srgb_of(#[trigger] formats[i]),
    ensures
        chosen_format(formats) == formats[0],
{
    let flags = srgb_flags(formats);
    assert forall|i: int| 0 <= i < flags.len() implies !#[trigger] flags[i] by {
        assert(!srgb_of(formats[i]));
    }
}

} // verus!
