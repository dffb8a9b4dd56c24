use glquad::clock::FrameClock;
use glquad::geometry::quad_geometry;
use glquad::input::{Fraction, SurfaceSize};
use glquad::program::{LinkedProgram, NamedLocation, finish_link};
use glquad::renderer::{GlCommand, Renderer, position_binding};
use glquad::scheduler::{LoopPhase, RenderLoop};
use glquad::shader::{finish_compile, fragment_shader_source, vertex_shader_source};

fn linked_program(uniform_names: &[&str]) -> LinkedProgram {
    let vs = finish_compile(&vertex_shader_source(), 1, true, String::new()).unwrap();
    let fs = finish_compile(&fragment_shader_source(), 2, true, String::new()).unwrap();
    let attributes = vec![NamedLocation { name: "position".to_string(), location: 0 }];
    let uniforms = uniform_names
        .iter()
        .enumerate()
        .map(|(i, name)| NamedLocation { name: name.to_string(), location: i as u32 })
        .collect();
    finish_link(&vs, &fs, 3, true, String::new(), attributes, uniforms).unwrap()
}

fn renderer(uniform_names: &[&str], start_ms: u64) -> Renderer {
    let surface = SurfaceSize::new(640, 480).unwrap();
    Renderer::new(linked_program(uniform_names), quad_geometry(), surface, start_ms)
}

#[test]
fn elapsed_time_is_relative_to_the_start() {
    let clock = FrameClock::new(1000);
    assert_eq!(clock.elapsed_ms(1000), 0);
    assert_eq!(clock.elapsed_ms(1500), 500);
    assert_eq!(clock.elapsed_ms(900), 0);
}

#[test]
fn elapsed_time_never_decreases_over_a_frame_sequence() {
    let clock = FrameClock::new(2000);
    let readings = [1990, 2000, 2016, 2033, 2033, 2050];
    let mut previous = 0;
    for now in readings {
        let elapsed = clock.elapsed_ms(now);
        assert!(elapsed >= previous);
        previous = elapsed;
    }
}

#[test]
fn loop_starts_idle_and_arms_once() {
    let mut l = RenderLoop::new();
    assert_eq!(l.phase, LoopPhase::Idle);
    assert_eq!(l.frames_completed, 0);
    l.start();
    assert_eq!(l.phase, LoopPhase::Scheduled);
    assert_eq!(l.frames_completed, 0);
}

#[test]
fn one_pacing_tick_invokes_the_callback_exactly_once() {
    let mut r = renderer(&["time", "mouse", "resolution"], 1000);
    r.start();
    assert_eq!(r.render_loop.frames_completed, 0);
    let _ = r.frame(1016);
    assert_eq!(r.render_loop.frames_completed, 1);
    assert_eq!(r.render_loop.phase, LoopPhase::Scheduled);
    let _ = r.frame(1033);
    assert_eq!(r.render_loop.frames_completed, 2);
}

#[test]
fn frame_issues_the_commands_in_order() {
    let mut r = renderer(&["time", "mouse", "resolution"], 1000);
    r.start();
    r.pointer_moved(160, 120);
    let cmds = r.frame(1500);
    assert_eq!(
        cmds,
        vec![
            GlCommand::Clear,
            GlCommand::SetTime { location: 0, elapsed_ms: 500 },
            GlCommand::SetMouse {
                location: 1,
                x: Fraction { num: 160, den: 640 },
                y: Fraction { num: 120, den: 480 },
            },
            GlCommand::SetResolution { location: 2, width: 640, height: 480 },
            GlCommand::DrawTriangles { index_count: 6 },
            GlCommand::Flush,
        ]
    );
}

#[test]
fn frame_skips_every_absent_uniform_without_error() {
    let mut r = renderer(&["time"], 1000);
    r.start();
    let cmds = r.frame(1250);
    assert_eq!(
        cmds,
        vec![
            GlCommand::Clear,
            GlCommand::SetTime { location: 0, elapsed_ms: 250 },
            GlCommand::DrawTriangles { index_count: 6 },
            GlCommand::Flush,
        ]
    );
    let mut bare = renderer(&[], 1000);
    bare.start();
    let cmds = bare.frame(1250);
    assert_eq!(
        cmds,
        vec![
            GlCommand::Clear,
            GlCommand::DrawTriangles { index_count: 6 },
            GlCommand::Flush,
        ]
    );
}

#[test]
fn repeated_frames_reuse_the_latest_pointer_state() {
    let mut r = renderer(&["mouse"], 0);
    r.start();
    r.pointer_moved(640, 480);
    let cmds = r.frame(16);
    assert_eq!(
        cmds[1],
        GlCommand::SetMouse {
            location: 0,
            x: Fraction { num: 640, den: 640 },
            y: Fraction { num: 480, den: 480 },
        }
    );
    let cmds = r.frame(33);
    assert_eq!(
        cmds[1],
        GlCommand::SetMouse {
            location: 0,
            x: Fraction { num: 640, den: 640 },
            y: Fraction { num: 480, den: 480 },
        }
    );
}

#[test]
fn linking_the_built_in_pair_exposes_the_position_attribute() {
    let program = linked_program(&["time", "mouse", "resolution"]);
    let location = program.attribute_location(&"position".to_string());
    assert_eq!(location, Some(0));
    let plan = position_binding(&program, &quad_geometry()).unwrap();
    assert_eq!(plan.location, 0);
    assert_eq!(plan.components, 3);
    assert!(!plan.normalized);
    assert_eq!(plan.stride, 0);
    assert_eq!(plan.offset, 0);
}

#[test]
fn position_binding_reports_a_missing_attribute() {
    let vs = finish_compile(&vertex_shader_source(), 1, true, String::new()).unwrap();
    let fs = finish_compile(&fragment_shader_source(), 2, true, String::new()).unwrap();
    let program =
        finish_link(&vs, &fs, 3, true, String::new(), Vec::new(), Vec::new()).unwrap();
    assert!(position_binding(&program, &quad_geometry()).is_none());
}
