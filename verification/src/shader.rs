use vstd::prelude::*;
use crate::error::GlError;

verus! {

/// The pipeline stage a shader belongs to.
#[derive(Clone, Copy, PartialEq, Eq, Structural, Debug)]
pub enum ShaderStage {
    Vertex,
    Fragment,
}

/// Immutable GLSL source text tagged with its stage, consumed once by the
/// compiler.
#[derive(Debug)]
pub struct ShaderSource {
    pub stage: ShaderStage,
    pub text: String,
}

/// An opaque GPU shader handle together with its stage. A value of this
/// type exists only for a shader whose compilation succeeded, so linking
/// can never be attempted with a failed shader.
#[derive(Debug)]
pub struct CompiledShader {
    pub stage: ShaderStage,
    pub handle: u32,
}

/// The built-in vertex shader: passes the `position` attribute through to
/// clip space.
pub open spec fn vertex_shader_glsl() -> Seq<char> {
    "\nattribute vec3 position;\n\nvoid main(void){\n    gl_Position = vec4(position, 1.0);\n}\n"@
}

/// The built-in fragment shader: shades each fragment from the `time`,
/// `mouse` and `resolution` uniforms.
pub open spec fn fragment_shader_glsl() -> Seq<char> {
    "\nprecision mediump float;\nuniform float time;\nuniform vec2 mouse;\nuniform vec2 resolution;\n\nvoid main(void){\n    vec2 m = vec2(mouse.x * 2.0 - 1.0, -mouse.y * 2.0 + 1.0);\n    vec2 p = (gl_FragCoord.xy * 2.0 - resolution) / min(resolution.x, resolution.y);\n    float t = sin(length(m - p) * 30.0 + time * 5.0);\n    gl_FragColor = vec4(vec3(t), 1.0);\n}\n"@
}

impl ShaderSource {
    pub fn new(stage: ShaderStage, text: String) -> (s: ShaderSource)
        ensures
            s.stage == stage,
            s.text@ == text@,
    {
        ShaderSource { stage, text }
    }
}

/// The built-in vertex shader source.
pub fn vertex_shader_source() -> (s: ShaderSource)
    ensures
        s.stage is Vertex,
        s.text@ == vertex_shader_glsl(),
{
    ShaderSource {
        stage: ShaderStage::Vertex,
        text: "\nattribute vec3 position;\n\nvoid main(void){\n    gl_Position = vec4(position, 1.0);\n}\n".to_owned(),
    }
}

/// The built-in fragment shader source.
pub fn fragment_shader_source() -> (s: ShaderSource)
    ensures
        s.stage is Fragment,
        s.text@ == fragment_shader_glsl(),
{
    ShaderSource {
        stage: ShaderStage::Fragment,
        text: "\nprecision mediump float;\nuniform float time;\nuniform vec2 mouse;\nuniform vec2 resolution;\n\nvoid main(void){\n    vec2 m = vec2(mouse.x * 2.0 - 1.0, -mouse.y * 2.0 + 1.0);\n    vec2 p = (gl_FragCoord.xy * 2.0 - resolution) / min(resolution.x, resolution.y);\n    float t = sin(length(m - p) * 30.0 + time * 5.0);\n    gl_FragColor = vec4(vec3(t), 1.0);\n}\n".to_owned(),
    }
}

/// The diagnostic text a failed compilation carries: the driver log when
/// the driver reported one, and a fixed non-empty message otherwise, so a
/// compile failure is never silent.
pub open spec fn spec_compile_log(driver_log: Seq<char>) -> Seq<char> {
    if driver_log.len() > 0 {
        driver_log
    } else {
        "shader compilation failed without a driver log"@
    }
}

/// Decides the outcome of compiling `source`. The driver has already been
/// handed the source text and queried for its compile status (`status`)
/// and info log (`log`); `handle` identifies the shader object it
/// allocated. A true status yields a usable handle bound to the source's
/// stage; a false status yields a `ShaderCompile` error with non-empty
/// diagnostic text and never a handle.
pub fn finish_compile(source: &ShaderSource, handle: u32, status: bool, log: String) -> (r: Result<
    CompiledShader,
    GlError,
>)
    ensures
        r is Ok <==> status,
        status ==> r->Ok_0.stage == source.stage && r->Ok_0.handle == handle,
        !status ==> (r->Err_0 matches GlError::ShaderCompile { log: l } && l@ == spec_compile_log(
            log@,
        ) && l@.len() > 0),
{
    if status {
        Ok(CompiledShader { stage: source.stage, handle })
    } else {
        proof {
            reveal_strlit("shader compilation failed without a driver log");
        }
        let l = if log.as_str().is_empty() {
            "shader compilation failed without a driver log".to_owned()
        } else {
            log
        };
        Err(GlError::ShaderCompile { log: l })
    }
}

} // verus!
