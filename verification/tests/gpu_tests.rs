use luxlib::bind::ShaderStage;
use luxlib::gpu::{preferred_format_index, render_order};

#[test]
fn prefers_first_srgb_format() {
    assert_eq!(preferred_format_index(&[false, true, true]), 1);
    assert_eq!(preferred_format_index(&[true, false]), 0);
    assert_eq!(preferred_format_index(&[false, false, false]), 0);
    assert_eq!(preferred_format_index(&[false]), 0);
}

#[test]
fn render_order_is_reverse_once_surface_is_ready() {
    assert_eq!(render_order(false, 3), None);
    assert_eq!(render_order(true, 3), Some(vec![2, 1, 0]));
    assert_eq!(render_order(true, 0), Some(vec![]));
    assert_eq!(render_order(false, 0), None);
}

#[test]
fn shader_stage_set_operations() {
    let v = ShaderStage::vertex();
    let f = ShaderStage::fragment();
    assert_eq!((v | f).bits(), 6);
    assert_eq!(ShaderStage::all(), v | f);
    assert!(ShaderStage::all().is_all());
    assert!(!v.is_all());
    assert!(ShaderStage::empty().is_empty());
    assert!(!f.is_empty());
    assert!(v.intersects(ShaderStage::all()));
    assert!(!v.intersects(f));
    assert_eq!(ShaderStage::all().intersection(f), f);
    assert_eq!(ShaderStage::all().difference(f), v);

    let mut s = ShaderStage::empty();
    s.insert(v);
    assert_eq!(s, v);
    s.insert(f);
    assert!(s.is_all());
    s.remove(v);
    assert_eq!(s, f);
    s.set(v, true);
    assert_eq!(s.bits(), 6);
    s.set(f, false);
    assert_eq!(s, v);

    assert_eq!(ShaderStage::from_bits(4), Some(f));
    assert_eq!(ShaderStage::from_bits(1), None);
    assert_eq!(ShaderStage::from_bits(0), Some(ShaderStage::empty()));
    assert_eq!(ShaderStage::from_bits_truncate(0xff).bits(), 6);
}
