use vstd::prelude::*;
use wgpu_types::{Features, TextureFormat};

verus! {

#[verifier::external_type_specification]
#[verifier::external_body]
pub struct ExTextureFormat(TextureFormat);

#[verifier::external_type_specification]
#[verifier::external_body]
pub struct ExFeatures(Features);

/// The sRGB form of a texture format: the format that reads and writes the
/// same texels with gamma correction applied.
pub uninterp spec fn srgb_form(f: TextureFormat) -> TextureFormat;

/// Whether a device feature set holds line-polygon rasterisation.
pub uninterp spec fn has_polygon_mode_line(f: Features) -> bool;

/// Relies on wgpu_types::TextureFormat::add_srgb_suffix, which maps each
/// unorm format that has an sRGB twin to that twin and leaves every other
/// format as it is; its result depends on the format alone.
#[verifier::external_body]
pub(crate) fn add_srgb_suffix(f: &TextureFormat) -> (r: TextureFormat)
    ensures
        r == srgb_form(*f),
{
    f.add_srgb_suffix()
}

/// Relies on wgpu_types::Features::contains with Features::POLYGON_MODE_LINE:
/// whether the set holds that one flag; its result depends on the set alone.
#[verifier::external_body]
pub(crate) fn polygon_mode_line_supported(f: &Features) -> (r: bool)
    ensures
        r == has_polygon_mode_line(*f),
{
    f.contains(Features::POLYGON_MODE_LINE)
}

} // verus!
