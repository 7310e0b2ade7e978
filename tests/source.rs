use render_color::asset::Handle;
use render_color::bind::{GetBytes, ShaderDefSuffixProvider};
use render_color::color::Color;
use render_color::source::{ColorSource, Texture};

#[test]
fn constant_source_reports_color() {
    let s = ColorSource::from(Color::rgb(1.0f32.to_bits(), 0, 0));
    assert_eq!(s.get_shader_def(), Some("_COLOR"));
    assert_eq!(s.get_bytes().len(), 16);
    assert_eq!(
        s.get_bytes(),
        vec![0x00, 0x00, 0x80, 0x3f, 0, 0, 0, 0, 0, 0, 0, 0, 0x00, 0x00, 0x80, 0x3f]
    );
}

#[test]
fn texture_source_reports_texture() {
    let s = ColorSource::from(Handle::<Texture>::from_u128(42));
    assert_eq!(s.get_shader_def(), Some("_TEXTURE"));
    assert_eq!(s.get_bytes().len(), 0);
    assert_eq!(s.get_bytes_ref(), None);
    assert!(matches!(s, ColorSource::Texture(h) if h.id == 42));
}

#[test]
fn tag_depends_on_variant_only() {
    let colors = [Color::rgba(0, 0, 0, 0), Color::white(), Color::rgba(7, 8, 9, 10)];
    for c in colors {
        let s = ColorSource::from(c);
        assert_eq!(s.get_shader_def(), Some("_COLOR"));
        assert_eq!(s.get_bytes().len(), 16);
        assert_eq!(s.get_bytes(), c.get_bytes());
    }
    for id in [0u128, 1, u128::MAX] {
        let s = ColorSource::from(Handle::<Texture>::from_u128(id));
        assert_eq!(s.get_shader_def(), Some("_TEXTURE"));
        assert!(s.get_bytes().is_empty());
    }
}

#[test]
fn source_view_matches_owned() {
    let s = ColorSource::Color(Color::rgba(1, 2, 3, 4));
    let owned = s.get_bytes();
    if let Some(view) = s.get_bytes_ref() {
        assert_eq!(view, &owned[..]);
    }
    if u32::from_ne_bytes([1, 0, 0, 0]) == 1 {
        assert!(s.get_bytes_ref().is_some());
    }
}

#[test]
fn source_of_symmetric_color_always_has_view() {
    let s = ColorSource::from(Color::rgba(0, 0, 0, 0));
    assert_eq!(s.get_bytes_ref(), Some(&[0u8; 16][..]));
}
