use glquad::error::GlError;
use glquad::geometry::quad_geometry;
use glquad::input::{PointerState, SurfaceSize, normalized_coordinate};

#[test]
fn quad_geometry_holds_the_four_corners() {
    let g = quad_geometry();
    assert_eq!(g.positions, vec![-1, 1, 0, 1, 1, 0, -1, -1, 0, 1, -1, 0]);
    assert_eq!(g.components, 3);
    assert_eq!(g.vertex_count(), 4);
}

#[test]
fn quad_indices_draw_two_triangles_over_all_corners() {
    let g = quad_geometry();
    assert_eq!(g.indices, vec![0, 2, 1, 1, 2, 3]);
    assert_eq!(g.index_count(), 6);
    for &i in &g.indices {
        assert!((i as usize) < g.vertex_count());
    }
    for v in 0..4u16 {
        assert!(g.indices.contains(&v));
    }
}

#[test]
fn surface_size_accepts_positive_extent() {
    let s = SurfaceSize::new(640, 480).unwrap();
    assert_eq!(s.width, 640);
    assert_eq!(s.height, 480);
}

#[test]
fn surface_size_rejects_degenerate_extent() {
    assert!(matches!(
        SurfaceSize::new(0, 480),
        Err(GlError::SurfaceAcquisition { .. })
    ));
    assert!(matches!(
        SurfaceSize::new(640, -1),
        Err(GlError::SurfaceAcquisition { .. })
    ));
}

#[test]
fn normalization_is_the_exact_pixel_ratio() {
    let f = normalized_coordinate(160, 640);
    assert_eq!(f.num, 160);
    assert_eq!(f.den, 640);
    assert!((f.num as f64 / f.den as f64 - 0.25).abs() < 1e-12);
}

#[test]
fn in_surface_offsets_normalize_into_the_unit_interval() {
    for (offset, extent) in [(0, 480), (1, 480), (479, 480), (480, 480)] {
        let f = normalized_coordinate(offset, extent);
        assert!(0 <= f.num && f.num <= f.den);
        let value = f.num as f64 / f.den as f64;
        assert!((0.0..=1.0).contains(&value));
    }
}

#[test]
fn pointer_state_tracks_the_latest_move() {
    let mut p = PointerState::new();
    assert_eq!((p.x, p.y), (0, 0));
    p.update(12, 34);
    p.update(56, 78);
    assert_eq!((p.x, p.y), (56, 78));
}

#[test]
fn error_messages_carry_the_diagnostic_text() {
    let e = GlError::ShaderCompile { log: "bad shader".to_string() };
    assert_eq!(e.message(), "bad shader");
    let e = GlError::ProgramLink { log: "bad link".to_string() };
    assert_eq!(e.message(), "bad link");
    let e = GlError::SurfaceAcquisition { reason: "no context".to_string() };
    assert_eq!(e.message(), "no context");
}
