use luxlib::bind::ShaderStage;
use luxlib::model::{circle_indices, circle_resolution};
use luxlib::pipeline::PipelineLayoutBuilder;
use luxlib::texture::{
    texel_copy_layout, SamplerBuilder, TexelCopyLayout, TextureAddressMode, TextureBuilder,
    TextureDimension, TextureFilter,
};
use luxlib::math::UVec3;
use luxlib::LuxError;

#[test]
fn error_messages() {
    assert_eq!(
        LuxError::WgpuFailedInit { error: "no adapter".to_string() }.message(),
        "wgpu failed to be initialized: no adapter"
    );
    assert_eq!(
        LuxError::IoError("missing.png".to_string()).message(),
        "failed reading file: missing.png"
    );
    assert_eq!(LuxError::AppInitFailed.message(), "issue found while starting app");
    assert_eq!(LuxError::AppFrameFailed.message(), "issue found on app's frame");
}

#[test]
fn circle_indices_form_a_fan() {
    assert_eq!(circle_indices(3), vec![0, 1, 2, 0, 2, 3, 0, 3, 1]);
    assert_eq!(circle_indices(4), vec![0, 1, 2, 0, 2, 3, 0, 3, 4, 0, 4, 1]);
}

#[test]
fn circle_resolution_is_at_least_three() {
    assert_eq!(circle_resolution(0), 3);
    assert_eq!(circle_resolution(2), 3);
    assert_eq!(circle_resolution(3), 3);
    assert_eq!(circle_resolution(32), 32);
    assert_eq!(circle_indices(1), circle_indices(3));
}

#[test]
fn circle_indices_stay_within_vertices() {
    let indices = circle_indices(32);
    assert_eq!(indices.len(), 96);
    assert!(indices.iter().all(|&i| i <= 32));
    assert_eq!(indices[95], 1);
}

#[test]
fn circle_indices_wrap_at_sixteen_bits() {
    let indices = circle_indices(70_000);
    assert_eq!(indices.len(), 210_000);
    // triangle 65535 points at perimeter vertex 65536, which wraps to 0
    assert_eq!(indices[3 * 65_535 + 1], 0);
    assert_eq!(indices[3 * 65_535 + 2], 1);
}

#[test]
fn texture_builder_defaults() {
    let b = TextureBuilder::default();
    assert!(b.label.is_none());
    assert_eq!(b.size, UVec3::new(1, 1, 1));
    assert_eq!(b.mipmap, 1);
    assert_eq!(b.samples, 1);
    assert_eq!(b.dimensions, TextureDimension::D2);
    assert!(b.content.is_none());
}

#[test]
fn sampler_builder_defaults() {
    let b = SamplerBuilder::default();
    assert!(b.get_label().is_none());
    assert_eq!(b.get_address_mode(), TextureAddressMode::Clamp);
    assert_eq!(b.get_filter(), TextureFilter::Nearest);
}

#[test]
fn texel_copy_layout_packs_rows() {
    assert_eq!(
        texel_copy_layout(256, 128),
        TexelCopyLayout { offset: 0, bytes_per_row: Some(1024), rows_per_image: Some(128) }
    );
    assert_eq!(
        texel_copy_layout(1, 1),
        TexelCopyLayout { offset: 0, bytes_per_row: Some(4), rows_per_image: Some(1) }
    );
}

#[test]
fn pipeline_layout_builder_label() {
    let mut b = PipelineLayoutBuilder::new();
    assert!(b.get_label().is_none());
    b.label("2d layout");
    assert_eq!(b.get_label().map(|s| s.as_str()), Some("2d layout"));
    b.label("other").label("last");
    assert_eq!(b.get_label().map(|s| s.as_str()), Some("last"));
}

#[test]
fn shader_stage_bits() {
    let v = ShaderStage::vertex();
    let f = ShaderStage::fragment();
    assert_eq!(v.bits(), 2);
    assert_eq!(f.bits(), 4);
    let both = v.union(f);
    assert_eq!(both.bits(), 6);
    assert!(both.contains(v));
    assert!(both.contains(f));
    assert!(!v.contains(f));
    assert!(v.contains(ShaderStage::empty()));
    assert!(!ShaderStage::empty().contains(v));
}
