use cube_harness::cube::{
    create_vertex_layout, create_view_projection_matrix, Axis, Cube, PipelineKind, PolygonMode,
    Tenths,
};
use cube_harness::driver::{Action, App, Phase, WindowEvent};
use cube_harness::geometry::{create_cube_geometry, Color};
use cube_harness::surface::{
    build_surface_config, select_surface_format, AlphaMode, PresentMode, SurfaceState,
};
use cube_harness::ShaderStage;
use wgpu_types::{Features, TextureFormat};

fn surface_800_600() -> SurfaceState {
    SurfaceState::new(800, 600, &vec![TextureFormat::Bgra8Unorm, TextureFormat::Rgba8Unorm])
        .unwrap()
}

#[test]
fn geometry_has_24_vertices_and_36_indices_in_range() {
    let (vertices, indices) = create_cube_geometry();
    assert_eq!(vertices.len(), 24);
    assert_eq!(indices.len(), 36);
    assert!(indices.iter().all(|&i| i < 24));
}

#[test]
fn geometry_index_pattern() {
    let (_, indices) = create_cube_geometry();
    assert_eq!(&indices[0..6], &[0, 1, 2, 2, 3, 0]);
    assert_eq!(&indices[30..36], &[20, 21, 22, 22, 23, 20]);
}

#[test]
fn geometry_faces_share_one_color_and_colors_differ() {
    let (vertices, _) = create_cube_geometry();
    let mut colors: Vec<Color> = Vec::new();
    for face in 0..6 {
        let c = vertices[4 * face].color;
        for k in 0..4 {
            assert_eq!(vertices[4 * face + k].color, c);
        }
        colors.push(c);
    }
    for a in 0..6 {
        for b in 0..6 {
            if a != b {
                assert_ne!(colors[a], colors[b]);
            }
        }
    }
    assert_eq!(colors[0], Color { r: 9, g: 4, b: 3, a: 10 });
    assert_eq!(colors[5], Color { r: 3, g: 9, b: 9, a: 10 });
}

#[test]
fn geometry_triangles_wind_outward() {
    let (vertices, indices) = create_cube_geometry();
    for t in 0..12 {
        let p = |k: usize| {
            let v = vertices[indices[3 * t + k] as usize].position;
            (v.x as i32, v.y as i32, v.z as i32, v.w)
        };
        let (a, b, c) = (p(0), p(1), p(2));
        assert_eq!(a.3, 1);
        let u = (b.0 - a.0, b.1 - a.1, b.2 - a.2);
        let v = (c.0 - a.0, c.1 - a.1, c.2 - a.2);
        let n = (u.1 * v.2 - u.2 * v.1, u.2 * v.0 - u.0 * v.2, u.0 * v.1 - u.1 * v.0);
        assert!(n.0 * a.0 + n.1 * a.1 + n.2 * a.2 > 0, "triangle {}", t);
    }
}

#[test]
fn surface_config_for_format_and_size() {
    let config = build_surface_config(&TextureFormat::Bgra8Unorm, 800, 600);
    assert_eq!(config.format, TextureFormat::Bgra8Unorm);
    assert_eq!(config.view_formats, vec![TextureFormat::Bgra8UnormSrgb]);
    assert_eq!((config.width, config.height), (800, 600));
    assert_eq!(config.present_mode, PresentMode::AutoVsync);
    assert_eq!(config.alpha_mode, AlphaMode::Auto);
    assert_eq!(config.desired_maximum_frame_latency, 2);
}

#[test]
fn surface_config_keeps_format_without_srgb_twin() {
    let config = build_surface_config(&TextureFormat::Rgba16Float, 10, 20);
    assert_eq!(config.view_formats, vec![TextureFormat::Rgba16Float]);
}

#[test]
fn first_reported_format_is_selected() {
    let formats = vec![TextureFormat::Rgba8Unorm, TextureFormat::Bgra8Unorm];
    assert_eq!(select_surface_format(&formats), Some(TextureFormat::Rgba8Unorm));
    assert_eq!(select_surface_format(&Vec::new()), None);
    assert!(SurfaceState::new(800, 600, &Vec::new()).is_none());
}

#[test]
fn surface_state_configures_current_size() {
    let s = surface_800_600();
    let config = s.configure_surface();
    assert_eq!(config.format, TextureFormat::Bgra8Unorm);
    assert_eq!((config.width, config.height), (800, 600));
    assert_eq!(s.target_format(), TextureFormat::Bgra8UnormSrgb);
}

#[test]
fn resize_sets_configuration_to_last_size() {
    let mut s = surface_800_600();
    s.resize(1024, 768);
    let config = s.resize(400, 300);
    assert_eq!((config.width, config.height), (400, 300));
    assert_eq!((s.width, s.height), (400, 300));
    let again = s.configure_surface();
    assert_eq!((again.width, again.height), (400, 300));
    assert_eq!(again.format, TextureFormat::Bgra8Unorm);
}

#[test]
fn init_at_800_by_600_builds_projection() {
    let s = surface_800_600();
    let cube = Cube::with_capability(&s.configure_surface(), false);
    let t = cube.transform;
    assert_eq!((t.aspect_width, t.aspect_height), (800, 600));
    let aspect = t.aspect_width as f32 / t.aspect_height as f32;
    assert!((aspect - 1.3333).abs() < 1e-4);
    assert_eq!(t.fov_y_degrees, 45);
    assert_eq!((t.z_near, t.z_far), (1, 10));
    assert_eq!(t.eye, Tenths { x: 15, y: -50, z: 30 });
    assert_eq!(t.target, Tenths { x: 0, y: 0, z: 0 });
    assert_eq!(t.up, Axis::Z);
    assert_eq!(cube.index_count, 36);
}

#[test]
fn transform_is_deterministic() {
    assert_eq!(create_view_projection_matrix(640, 480), create_view_projection_matrix(640, 480));
    assert_ne!(create_view_projection_matrix(640, 480), create_view_projection_matrix(480, 640));
}

#[test]
fn resize_800_600_to_400_300_keeps_ratio_and_updates_size() {
    let mut s = surface_800_600();
    let mut cube = Cube::with_capability(&s.configure_surface(), true);
    let before = cube.transform;
    let config = s.resize(400, 300);
    let written = cube.resize(&config);
    assert_eq!((config.width, config.height), (400, 300));
    assert_eq!((written.aspect_width, written.aspect_height), (400, 300));
    assert_eq!(cube.transform, written);
    assert_eq!(
        before.aspect_width as u64 * written.aspect_height as u64,
        written.aspect_width as u64 * before.aspect_height as u64
    );
    let a0 = before.aspect_width as f32 / before.aspect_height as f32;
    let a1 = written.aspect_width as f32 / written.aspect_height as f32;
    assert_eq!(a0, a1);
    assert_eq!(cube.index_count, 36);
    assert!(cube.wireframe);
}

#[test]
fn features_decide_wireframe_pipeline() {
    let config = build_surface_config(&TextureFormat::Bgra8Unorm, 800, 600);
    assert!(Cube::new(&config, &Features::POLYGON_MODE_LINE).wireframe);
    assert!(!Cube::new(&config, &Features::empty()).wireframe);
    assert!(!Cube::new(&config, &Features::DEPTH_CLIP_CONTROL).wireframe);
}

#[test]
fn render_without_line_mode_draws_solid_only() {
    let config = build_surface_config(&TextureFormat::Bgra8Unorm, 800, 600);
    let plan = Cube::with_capability(&config, false).render();
    assert_eq!(plan.passes.len(), 1);
    assert_eq!(plan.passes[0].pipeline, PipelineKind::Solid);
    assert_eq!(plan.passes[0].polygon_mode, PolygonMode::Fill);
    assert!(plan.passes[0].cull_back_faces);
    assert_eq!(plan.passes[0].element_count, 36);
    assert_eq!(plan.passes[0].instance_count, 1);
    assert_eq!(plan.clear, Color { r: 1, g: 2, b: 3, a: 10 });
}

#[test]
fn render_with_line_mode_draws_solid_then_wireframe() {
    let config = build_surface_config(&TextureFormat::Bgra8Unorm, 800, 600);
    let plan = Cube::with_capability(&config, true).render();
    assert_eq!(plan.passes.len(), 2);
    assert_eq!(plan.passes[0].pipeline, PipelineKind::Solid);
    assert_eq!(plan.passes[1].pipeline, PipelineKind::Wireframe);
    assert_eq!(plan.passes[1].polygon_mode, PolygonMode::Line);
    assert!(plan.passes[1].cull_back_faces);
    assert_eq!(plan.passes[1].element_count, 36);
}

#[test]
fn update_leaves_cube_unchanged() {
    let config = build_surface_config(&TextureFormat::Bgra8Unorm, 320, 200);
    let mut cube = Cube::with_capability(&config, true);
    cube.update();
    assert_eq!(cube.transform, create_view_projection_matrix(320, 200));
    assert!(cube.wireframe);
    assert_eq!(cube.index_count, 36);
}

#[test]
fn vertex_layout_matches_vertex() {
    let layout = create_vertex_layout();
    assert_eq!(layout.array_stride, 32);
    assert_eq!(layout.attributes.len(), 2);
    assert_eq!((layout.attributes[0].offset, layout.attributes[0].shader_location), (0, 0));
    assert_eq!((layout.attributes[1].offset, layout.attributes[1].shader_location), (16, 1));
}

#[test]
fn driver_initializes_on_first_resume_only() {
    let mut app = App::new();
    assert_eq!(app.phase, Phase::Uninitialized);
    assert_eq!(app.window_event(WindowEvent::RedrawRequested), Action::Ignore);
    assert_eq!(app.resumed(), Action::Initialize);
    assert_eq!(app.phase, Phase::Running);
    assert_eq!(app.resumed(), Action::Ignore);
}

#[test]
fn driver_dispatches_while_running() {
    let mut app = App::new();
    app.resumed();
    assert_eq!(app.window_event(WindowEvent::RedrawRequested), Action::RenderAndRedraw);
    assert_eq!(
        app.window_event(WindowEvent::Resized { width: 400, height: 300 }),
        Action::Resize { width: 400, height: 300 }
    );
    assert_eq!(app.window_event(WindowEvent::Other), Action::Forward);
    assert_eq!(app.phase, Phase::Running);
}

#[test]
fn close_request_stops_driver_and_rendering() {
    let mut app = App::new();
    app.resumed();
    assert_eq!(app.window_event(WindowEvent::CloseRequested), Action::Exit);
    assert_eq!(app.phase, Phase::Stopped);
    assert_eq!(app.window_event(WindowEvent::RedrawRequested), Action::Ignore);
    assert_eq!(app.window_event(WindowEvent::Resized { width: 1, height: 1 }), Action::Ignore);
    assert_eq!(app.resumed(), Action::Ignore);
    assert_eq!(app.phase, Phase::Stopped);
}

#[test]
fn shader_stages_are_distinct() {
    assert_ne!(ShaderStage::Vertex, ShaderStage::Fragment);
    assert_ne!(ShaderStage::Fragment, ShaderStage::Compute);
}
