//! One compiled shader stage.
//!
//! A `Shader` value exists only for an object the device accepted: building
//! one either returns the value, bound to a fresh non-zero identifier and
//! ready on the device, or reports the device's diagnostic log and hands no
//! value out.
use vstd::prelude::*;

use crate::Error;
use crate::device::GlDevice;
use crate::device::Phase;
use crate::device::ShaderKind;
use crate::device::ShaderModel;
use crate::device::accepts_source;
use crate::device::compile_failure_log;
use crate::device::compiled_model;
use crate::device::lemma_failure_logs_nonempty;
use crate::handle::Gl;
use crate::resources::ResourceError;
use crate::resources::Resources;
use crate::text::ends_with_text;
use crate::text::text_ends_with;

verus! {

/// The resource-name suffix that selects the vertex stage.
pub open spec fn vert_suffix() -> Seq<char> {
    ".vert"@
}

/// The resource-name suffix that selects the fragment stage.
pub open spec fn frag_suffix() -> Seq<char> {
    ".frag"@
}

/// The stage a resource name selects through its suffix, if any.
pub open spec fn kind_for_name(name: Seq<char>) -> Option<ShaderKind> {
    if ends_with_text(name, vert_suffix()) {
        Some(ShaderKind::Vertex)
    } else if ends_with_text(name, frag_suffix()) {
        Some(ShaderKind::Fragment)
    } else {
        None
    }
}

/// No resource name carries both stage suffixes at once.
pub proof fn lemma_suffixes_distinct(x: Seq<char>)
    ensures
        !(ends_with_text(x, vert_suffix()) && ends_with_text(x, frag_suffix())),
{
    reveal_strlit(".vert");
    reveal_strlit(".frag");
    if ends_with_text(x, vert_suffix()) && ends_with_text(x, frag_suffix()) {
        assert(vert_suffix().len() == 5);
        assert(frag_suffix().len() == 5);
        assert(x.subrange(x.len() - 5, x.len() as int) == vert_suffix());
        assert(x.subrange(x.len() - 5, x.len() as int) == frag_suffix());
        assert(vert_suffix()[1] == 'v');
        assert(frag_suffix()[1] == 'f');
    }
}

/// An owned, successfully compiled shader stage.
pub struct Shader {
    gl: Gl,
    id: u32,
    kind: ShaderKind,
}

impl Shader {
    /// The device identifier this shader owns.
    pub closed spec fn spec_id(self) -> u32 {
        self.id
    }

    /// The stage this shader was compiled for.
    pub closed spec fn spec_kind(self) -> ShaderKind {
        self.kind
    }

    /// The function table of the handle this shader keeps alive.
    pub closed spec fn spec_gl(self) -> Seq<usize> {
        self.gl@
    }

    /// The shader owns a non-zero identifier whose device object is ready
    /// and of the shader's stage.
    pub open spec fn valid(self, dev: GlDevice) -> bool {
        self.spec_id() != 0 && dev.shader_ready_as(self.spec_id(), self.spec_kind())
    }

    /// The device identifier of this shader.
    pub fn id(&self) -> (id: u32)
        ensures
            id == self.spec_id(),
    {
        self.id
    }

    /// The stage of this shader.
    pub fn kind(&self) -> (kind: ShaderKind)
        ensures
            kind == self.spec_kind(),
    {
        self.kind
    }

    /// Compiles `source` for stage `kind` on the device. On success the
    /// returned shader is bound to a fresh, non-zero identifier and is ready
    /// on the device; on failure the error carries the device's non-empty
    /// diagnostic log, and the rejected object stays behind in the failed
    /// phase. The device gains exactly one shader object either way.
    pub fn from_source(gl: &Gl, dev: &mut GlDevice, source: &str, kind: ShaderKind) -> (r: Result<
        Shader,
        Error,
    >)
        requires
            old(dev).shader_count() < 0xFFFF_FFFF,
        ensures
            final(dev).programs_model() == old(dev).programs_model(),
            final(dev).spec_active() == old(dev).spec_active(),
            final(dev).shaders_model() == old(dev).shaders_model().push(
                Some(
                    compiled_model(
                        ShaderModel {
                            kind,
                            source: source@,
                            phase: Phase::Pending,
                            log: Seq::empty(),
                        },
                    ),
                ),
            ),
            r is Ok <==> accepts_source(source@),
            match r {
                Ok(s) => {
                    &&& s.valid(*final(dev))
                    &&& s.spec_kind() == kind
                    &&& s.spec_gl() == gl@
                    &&& s.spec_id() == old(dev).shader_count() + 1
                    &&& old(dev).spec_shader(s.spec_id()) is None
                },
                Err(e) => {
                    &&& e matches Error::CompileError { message, .. } && message@
                        == compile_failure_log() && message@.len() > 0
                },
            },
    {
        let id = dev.create_shader(kind);
        dev.shader_source(id, source);
        dev.compile_shader(id);
        let ok = dev.compile_status(id);
        proof {
            assert(dev.shaders_model() =~= old(dev).shaders_model().push(
                Some(
                    compiled_model(
                        ShaderModel {
                            kind,
                            source: source@,
                            phase: Phase::Pending,
                            log: Seq::empty(),
                        },
                    ),
                ),
            ));
        }
        if !ok {
            let message = dev.shader_info_log(id);
            proof {
                lemma_failure_logs_nonempty();
            }
            return Err(Error::CompileError { name: String::new(), message });
        }
        Ok(Shader { gl: gl.clone(), id, kind })
    }

    /// Compiles `source` as a vertex shader.
    pub fn from_vert_source(gl: &Gl, dev: &mut GlDevice, source: &str) -> (r: Result<Shader, Error>)
        requires
            old(dev).shader_count() < 0xFFFF_FFFF,
        ensures
            final(dev).programs_model() == old(dev).programs_model(),
            final(dev).spec_active() == old(dev).spec_active(),
            final(dev).shaders_model() == old(dev).shaders_model().push(
                Some(
                    compiled_model(
                        ShaderModel {
                            kind: ShaderKind::Vertex,
                            source: source@,
                            phase: Phase::Pending,
                            log: Seq::empty(),
                        },
                    ),
                ),
            ),
            r is Ok <==> accepts_source(source@),
            match r {
                Ok(s) => {
                    &&& s.valid(*final(dev))
                    &&& s.spec_kind() == ShaderKind::Vertex
                    &&& s.spec_gl() == gl@
                    &&& s.spec_id() == old(dev).shader_count() + 1
                    &&& old(dev).spec_shader(s.spec_id()) is None
                },
                Err(e) => e matches Error::CompileError { message, .. } && message@
                    == compile_failure_log() && message@.len() > 0,
            },
    {
        Shader::from_source(gl, dev, source, ShaderKind::Vertex)
    }

    /// Compiles `source` as a fragment shader.
    pub fn from_frag_source(gl: &Gl, dev: &mut GlDevice, source: &str) -> (r: Result<Shader, Error>)
        requires
            old(dev).shader_count() < 0xFFFF_FFFF,
        ensures
            final(dev).programs_model() == old(dev).programs_model(),
            final(dev).spec_active() == old(dev).spec_active(),
            final(dev).shaders_model() == old(dev).shaders_model().push(
                Some(
                    compiled_model(
                        ShaderModel {
                            kind: ShaderKind::Fragment,
                            source: source@,
                            phase: Phase::Pending,
                            log: Seq::empty(),
                        },
                    ),
                ),
            ),
            r is Ok <==> accepts_source(source@),
            match r {
                Ok(s) => {
                    &&& s.valid(*final(dev))
                    &&& s.spec_kind() == ShaderKind::Fragment
                    &&& s.spec_gl() == gl@
                    &&& s.spec_id() == old(dev).shader_count() + 1
                    &&& old(dev).spec_shader(s.spec_id()) is None
                },
                Err(e) => e matches Error::CompileError { message, .. } && message@
                    == compile_failure_log() && message@.len() > 0,
            },
    {
        Shader::from_source(gl, dev, source, ShaderKind::Fragment)
    }

    /// Loads the source text named `name` from the resource store and
    /// compiles it for the stage its suffix selects: `.vert` for vertex,
    /// `.frag` for fragment. Any other name is rejected without touching
    /// the device, as is a name the store does not know.
    pub fn from_res(gl: &Gl, dev: &mut GlDevice, res: &Resources, name: &str) -> (r: Result<
        Shader,
        Error,
    >)
        requires
            old(dev).shader_count() < 0xFFFF_FFFF,
        ensures
            final(dev).programs_model() == old(dev).programs_model(),
            final(dev).spec_active() == old(dev).spec_active(),
            r is Ok <==> (kind_for_name(name@) is Some && res.spec_lookup(name@) is Some
                && accepts_source(res.spec_lookup(name@)->Some_0)),
            match r {
                Ok(s) => {
                    &&& s.valid(*final(dev))
                    &&& s.spec_kind() == kind_for_name(name@)->Some_0
                    &&& s.spec_gl() == gl@
                    &&& s.spec_id() == old(dev).shader_count() + 1
                    &&& final(dev).shaders_model() == old(dev).shaders_model().push(
                        Some(
                            compiled_model(
                                ShaderModel {
                                    kind: kind_for_name(name@)->Some_0,
                                    source: res.spec_lookup(name@)->Some_0,
                                    phase: Phase::Pending,
                                    log: Seq::empty(),
                                },
                            ),
                        ),
                    )
                },
                Err(e) => match e {
                    Error::CanNotDetermineShaderTypeForResource { name: n } => {
                        &&& kind_for_name(name@) is None
                        &&& n@ == name@
                        &&& final(dev).shaders_model() == old(dev).shaders_model()
                    },
                    Error::ResourceLoad { name: n, inner } => {
                        &&& kind_for_name(name@) is Some
                        &&& res.spec_lookup(name@) is None
                        &&& n@ == name@
                        &&& inner matches ResourceError::NotFound { name: missing } && missing@
                            == name@
                        &&& final(dev).shaders_model() == old(dev).shaders_model()
                    },
                    Error::CompileError { message, .. } => {
                        &&& kind_for_name(name@) is Some
                        &&& res.spec_lookup(name@) is Some
                        &&& !accepts_source(res.spec_lookup(name@)->Some_0)
                        &&& message@ == compile_failure_log()
                        &&& message@.len() > 0
                        &&& final(dev).shaders_model() == old(dev).shaders_model().push(
                            Some(
                                compiled_model(
                                    ShaderModel {
                                        kind: kind_for_name(name@)->Some_0,
                                        source: res.spec_lookup(name@)->Some_0,
                                        phase: Phase::Pending,
                                        log: Seq::empty(),
                                    },
                                ),
                            ),
                        )
                    },
                    Error::LinkError { .. } => false,
                },
            },
    {
        let kind = if text_ends_with(name, ".vert") {
            ShaderKind::Vertex
        } else if text_ends_with(name, ".frag") {
            ShaderKind::Fragment
        } else {
            return Err(Error::CanNotDetermineShaderTypeForResource { name: name.to_owned() });
        };
        let source = match res.load_text(name) {
            Ok(text) => text,
            Err(inner) => {
                return Err(Error::ResourceLoad { name: name.to_owned(), inner });
            },
        };
        Shader::from_source(gl, dev, source.as_str(), kind)
    }

    /// A shader's validity depends on the device's shader objects alone:
    /// whatever happens to program objects or to the active program —
    /// including destroying a linked program — the shader stays valid.
    pub proof fn lemma_validity_from_shader_objects_alone(self, d1: GlDevice, d2: GlDevice)
        requires
            self.valid(d1),
            d2.shaders_model() == d1.shaders_model(),
        ensures
            self.valid(d2),
    {
    }

    /// Releases the shader's device object. Consuming the value releases the
    /// object exactly once; every other object is untouched.
    pub fn delete(self, dev: &mut GlDevice)
        requires
            old(dev).spec_shader(self.spec_id()) is Some,
        ensures
            final(dev).shaders_model() == old(dev).shaders_model().update(
                self.spec_id() - 1,
                None::<ShaderModel>,
            ),
            final(dev).spec_shader(self.spec_id()) is None,
            forall|j: u32|
                j != self.spec_id() ==> final(dev).spec_shader(j) == old(dev).spec_shader(j),
            final(dev).programs_model() == old(dev).programs_model(),
            final(dev).spec_active() == old(dev).spec_active(),
    {
        dev.delete_shader(self.id);
    }
}

} // verus!
