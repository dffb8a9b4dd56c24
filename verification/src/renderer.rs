use vstd::prelude::*;
use crate::clock::{FrameClock, spec_elapsed};
use crate::geometry::Geometry;
use crate::input::{Fraction, PointerState, SurfaceSize, normalized_coordinate, spec_normalized};
use crate::program::{LinkedProgram, spec_lookup};
use crate::scheduler::RenderLoop;

verus! {

/// The uniform locations the per-frame update path pushes to, resolved
/// once after linking. An absent location is the expected outcome for a
/// uniform the shader does not declare or that the compiler optimized
/// out; the update path skips it.
#[derive(Clone, Copy, PartialEq, Eq, Structural, Debug)]
pub struct UniformLocations {
    pub time: Option<u32>,
    pub mouse: Option<u32>,
    pub resolution: Option<u32>,
}

/// One graphics-context operation of a frame, in the order the loop
/// issues them. The unverified shell interprets each against the real
/// context; uniform updates name the location they write and the exact
/// value to write, with pointer coordinates as exact pixel ratios.
#[derive(Clone, Copy, PartialEq, Eq, Structural, Debug)]
pub enum GlCommand {
    Clear,
    SetTime { location: u32, elapsed_ms: u64 },
    SetMouse { location: u32, x: Fraction, y: Fraction },
    SetResolution { location: u32, width: i32, height: i32 },
    DrawTriangles { index_count: usize },
    Flush,
}

/// The per-run rendering state: the linked program and its resolved
/// uniform locations, the static geometry, the surface extent, the frame
/// clock, the shared pointer state, and the loop scheduler.
#[derive(Debug)]
pub struct Renderer {
    pub program: LinkedProgram,
    pub uniforms: UniformLocations,
    pub geometry: Geometry,
    pub surface: SurfaceSize,
    pub clock: FrameClock,
    pub pointer: PointerState,
    pub render_loop: RenderLoop,
}

/// The name of the vertex attribute the geometry binds to.
pub fn position_attribute_name() -> (s: String)
    ensures
        s@ == "position"@,
{
    "position".to_owned()
}

/// The name of the elapsed-time uniform.
pub fn time_uniform_name() -> (s: String)
    ensures
        s@ == "time"@,
{
    "time".to_owned()
}

/// The name of the normalized-pointer uniform.
pub fn mouse_uniform_name() -> (s: String)
    ensures
        s@ == "mouse"@,
{
    "mouse".to_owned()
}

/// The name of the surface-resolution uniform.
pub fn resolution_uniform_name() -> (s: String)
    ensures
        s@ == "resolution"@,
{
    "resolution".to_owned()
}

/// How the position buffer is bound to the program's vertex attribute:
/// the resolved attribute location and the component-count, stride and
/// offset triple that must match the byte layout the shader expects.
#[derive(Clone, Copy, PartialEq, Eq, Structural, Debug)]
pub struct AttributeBindingPlan {
    pub location: u32,
    pub components: u32,
    pub normalized: bool,
    pub stride: u32,
    pub offset: u32,
}

/// Plans the binding of the geometry's position data to the program's
/// `position` attribute: tightly packed from the start of the buffer,
/// with the geometry's own component count. `None` signals that the
/// program does not declare the attribute, which the caller must treat
/// as a configuration error because the geometry requires it.
pub fn position_binding(program: &LinkedProgram, geometry: &Geometry) -> (r: Option<
    AttributeBindingPlan,
>)
    requires
        geometry.wf(),
    ensures
        r is Some <==> spec_lookup(program.attributes@, "position"@) is Some,
        (r matches Some(plan) ==> spec_lookup(program.attributes@, "position"@) == Some(
            plan.location,
        ) && plan.components == geometry.components && plan.normalized == false && plan.stride == 0
            && plan.offset == 0),
{
    match program.attribute_location(&position_attribute_name()) {
        Some(location) => Some(
            AttributeBindingPlan {
                location,
                components: geometry.components,
                normalized: false,
                stride: 0,
                offset: 0,
            },
        ),
        None => None,
    }
}

/// The elapsed-time update of a frame: one command when the location is
/// present, none when it is absent.
pub open spec fn spec_time_commands(r: Renderer, now_ms: u64) -> Seq<GlCommand> {
    match r.uniforms.time {
        Some(location) => seq![
            GlCommand::SetTime {
                location,
                elapsed_ms: spec_elapsed(r.clock.start_ms, now_ms),
            },
        ],
        None => Seq::empty(),
    }
}

/// The pointer update of a frame: the pointer offset normalized against
/// the surface extent, when the location is present.
pub open spec fn spec_mouse_commands(r: Renderer) -> Seq<GlCommand> {
    match r.uniforms.mouse {
        Some(location) => seq![
            GlCommand::SetMouse {
                location,
                x: spec_normalized(r.pointer.x, r.surface.width),
                y: spec_normalized(r.pointer.y, r.surface.height),
            },
        ],
        None => Seq::empty(),
    }
}

/// The resolution update of a frame, when the location is present.
pub open spec fn spec_resolution_commands(r: Renderer) -> Seq<GlCommand> {
    match r.uniforms.resolution {
        Some(location) => seq![
            GlCommand::SetResolution { location, width: r.surface.width, height: r.surface.height },
        ],
        None => Seq::empty(),
    }
}

/// Everything one frame does, in order: clear the framebuffer, push the
/// elapsed time, the normalized pointer position and the resolution into
/// whichever of the three uniforms is present, draw the indexed
/// triangles, and flush.
pub open spec fn spec_frame_commands(r: Renderer, now_ms: u64) -> Seq<GlCommand> {
    seq![GlCommand::Clear] + spec_time_commands(r, now_ms) + spec_mouse_commands(r)
        + spec_resolution_commands(r) + seq![
        GlCommand::DrawTriangles { index_count: r.geometry.indices@.len() as usize },
        GlCommand::Flush,
    ]
}

impl Renderer {
    /// The surface can be rendered to, the geometry is coherent, and the
    /// stored uniform locations are exactly what the program resolves
    /// for the three well-known names.
    pub open spec fn wf(self) -> bool {
        &&& self.surface.wf()
        &&& self.geometry.wf()
        &&& self.uniforms.time == spec_lookup(self.program.uniforms@, "time"@)
        &&& self.uniforms.mouse == spec_lookup(self.program.uniforms@, "mouse"@)
        &&& self.uniforms.resolution == spec_lookup(self.program.uniforms@, "resolution"@)
    }

    /// Assembles the per-run state once setup succeeded: resolves the
    /// three uniform locations from the program, captures the start
    /// timestamp, and leaves the loop idle with the pointer at the
    /// origin.
    pub fn new(program: LinkedProgram, geometry: Geometry, surface: SurfaceSize, start_ms: u64) -> (r:
        Renderer)
        requires
            geometry.wf(),
            surface.wf(),
        ensures
            r.wf(),
            r.program == program,
            r.geometry == geometry,
            r.surface == surface,
            r.clock.start_ms == start_ms,
            r.pointer.x == 0 && r.pointer.y == 0,
            r.render_loop.phase is Idle,
            r.render_loop.frames_completed == 0,
    {
        let time = program.uniform_location(&time_uniform_name());
        let mouse = program.uniform_location(&mouse_uniform_name());
        let resolution = program.uniform_location(&resolution_uniform_name());
        Renderer {
            program,
            uniforms: UniformLocations { time, mouse, resolution },
            geometry,
            surface,
            clock: FrameClock::new(start_ms),
            pointer: PointerState::new(),
            render_loop: RenderLoop::new(),
        }
    }

    /// Starts the render loop by registering the first frame callback.
    pub fn start(&mut self)
        requires
            old(self).render_loop.phase is Idle,
        ensures
            final(self).render_loop.phase is Scheduled,
            final(self).render_loop.frames_completed == old(self).render_loop.frames_completed,
            final(self).program == old(self).program,
            final(self).uniforms == old(self).uniforms,
            final(self).geometry == old(self).geometry,
            final(self).surface == old(self).surface,
            final(self).clock == old(self).clock,
            final(self).pointer == old(self).pointer,
    {
        self.render_loop.start();
    }

    /// Records a pointer-move event from the surface's event stream.
    pub fn pointer_moved(&mut self, x: i32, y: i32)
        ensures
            final(self).pointer.x == x,
            final(self).pointer.y == y,
            final(self).program == old(self).program,
            final(self).uniforms == old(self).uniforms,
            final(self).geometry == old(self).geometry,
            final(self).surface == old(self).surface,
            final(self).clock == old(self).clock,
            final(self).render_loop == old(self).render_loop,
    {
        self.pointer.update(x, y);
    }

    /// Runs one invocation of the frame callback at clock reading
    /// `now_ms`: returns the frame's commands, exactly in issue order,
    /// and re-arms the loop for the next pacing tick.
    pub fn frame(&mut self, now_ms: u64) -> (cmds: Vec<GlCommand>)
        requires
            old(self).wf(),
            old(self).render_loop.phase is Scheduled,
            old(self).render_loop.frames_completed < u64::MAX,
        ensures
            cmds@ == spec_frame_commands(*old(self), now_ms),
            final(self).render_loop.phase is Scheduled,
            final(self).render_loop.frames_completed == old(self).render_loop.frames_completed + 1,
            final(self).program == old(self).program,
            final(self).uniforms == old(self).uniforms,
            final(self).geometry == old(self).geometry,
            final(self).surface == old(self).surface,
            final(self).clock == old(self).clock,
            final(self).pointer == old(self).pointer,
            final(self).wf(),
    {
        let mut cmds: Vec<GlCommand> = Vec::new();
        cmds.push(GlCommand::Clear);
        match self.uniforms.time {
            Some(location) => {
                let elapsed_ms = self.clock.elapsed_ms(now_ms);
                cmds.push(GlCommand::SetTime { location, elapsed_ms });
            },
            None => {},
        }
        match self.uniforms.mouse {
            Some(location) => {
                let x = normalized_coordinate(self.pointer.x, self.surface.width);
                let y = normalized_coordinate(self.pointer.y, self.surface.height);
                cmds.push(GlCommand::SetMouse { location, x, y });
            },
            None => {},
        }
        match self.uniforms.resolution {
            Some(location) => {
                cmds.push(
                    GlCommand::SetResolution {
                        location,
                        width: self.surface.width,
                        height: self.surface.height,
                    },
                );
            },
            None => {},
        }
        let index_count = self.geometry.index_count();
        cmds.push(GlCommand::DrawTriangles { index_count });
        cmds.push(GlCommand::Flush);
        self.render_loop.frame_delivered();
        proof {
            assert(cmds@ =~= spec_frame_commands(*old(self), now_ms));
        }
        cmds
    }
}

/// A uniform whose location is absent from the program is skipped by the
/// per-frame update path as an idempotent no-op: the frame's command
/// sequence carries no update for it, and every other command of the
/// frame is issued as usual. Stated here for the elapsed-time uniform.
pub proof fn lemma_absent_uniform_skipped(r: Renderer, now_ms: u64)
    requires
        r.wf(),
        spec_lookup(r.program.uniforms@, "time"@) is None,
    ensures
        forall|i: int|
            0 <= i < spec_frame_commands(r, now_ms).len() ==> !(#[trigger] spec_frame_commands(
                r,
                now_ms,
            )[i] is SetTime),
        spec_frame_commands(r, now_ms)[0] is Clear,
        spec_frame_commands(r, now_ms).last() is Flush,
        spec_frame_commands(r, now_ms)[spec_frame_commands(r, now_ms).len() - 2] is DrawTriangles,
{
    let cmds = spec_frame_commands(r, now_ms);
    let head = seq![GlCommand::Clear];
    let t = spec_time_commands(r, now_ms);
    let m = spec_mouse_commands(r);
    let s = spec_resolution_commands(r);
    let tail = seq![
        GlCommand::DrawTriangles { index_count: r.geometry.indices@.len() as usize },
        GlCommand::Flush,
    ];
    assert(t =~= Seq::<GlCommand>::empty());
    assert(cmds == head + t + m + s + tail);
    assert forall|i: int| 0 <= i < cmds.len() implies !(#[trigger] cmds[i] is SetTime) by {
        if i == 0 {
            assert(cmds[i] == GlCommand::Clear);
        } else if i < 1 + m.len() {
            assert(cmds[i] == m[i - 1]);
            assert(m[i - 1] is SetMouse);
        } else if i < 1 + m.len() + s.len() {
            assert(cmds[i] == s[i - 1 - m.len()]);
            assert(s[i - 1 - m.len()] is SetResolution);
        } else {
            assert(cmds[i] == tail[i - 1 - m.len() - s.len()]);
        }
    }
    assert(cmds[0] == GlCommand::Clear);
    assert(cmds.last() == tail[1]);
    assert(cmds[cmds.len() - 2] == tail[0]);
}

} // verus!
