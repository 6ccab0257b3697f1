//! One linked shader program.
//!
//! A `Program` value exists only for a program object the device linked:
//! building one attaches already-compiled shaders, links, and on success
//! detaches them again, so the program never extends a shader's lifetime.
//! On failure the error carries the device's non-empty diagnostic log and
//! the attachments stay behind on the failed object.
use vstd::prelude::*;

use crate::Error;
use crate::device::GlDevice;
use crate::device::Phase;
use crate::device::ProgramModel;
use crate::device::ShaderKind;
use crate::device::ShaderModel;
use crate::device::accepts_source;
use crate::device::compile_failure_log;
use crate::device::compiled_model;
use crate::device::lemma_failure_logs_nonempty;
use crate::device::link_failure_log;
use crate::device::without_id;
use crate::handle::Gl;
use crate::resources::Resources;
use crate::shader::Shader;
use crate::shader::frag_suffix;
use crate::shader::kind_for_name;
use crate::shader::vert_suffix;
use crate::text::lemma_concat_ends_with;

verus! {

/// The device identifiers of a sequence of shaders, in order.
pub open spec fn ids_of(shaders: Seq<Shader>) -> Seq<u32> {
    shaders.map_values(|s: Shader| s.spec_id())
}

/// Exactly one vertex stage and one fragment stage, in either order.
pub open spec fn stages_match(shaders: Seq<Shader>) -> bool {
    shaders.len() == 2 && ((shaders[0].spec_kind() is Vertex && shaders[1].spec_kind() is Fragment)
        || (shaders[0].spec_kind() is Fragment && shaders[1].spec_kind() is Vertex))
}

/// An owned, successfully linked shader program.
pub struct Program {
    gl: Gl,
    id: u32,
}

impl Program {
    /// The device identifier this program owns.
    pub closed spec fn spec_id(self) -> u32 {
        self.id
    }

    /// The function table of the handle this program keeps alive.
    pub closed spec fn spec_gl(self) -> Seq<usize> {
        self.gl@
    }

    /// The program owns a non-zero identifier whose device object linked
    /// successfully.
    pub open spec fn valid(self, dev: GlDevice) -> bool {
        self.spec_id() != 0 && dev.program_ready(self.spec_id())
    }

    /// The device identifier of this program.
    pub fn id(&self) -> (id: u32)
        ensures
            id == self.spec_id(),
    {
        self.id
    }

    /// Attaches the given already-compiled shaders — all sharing the handle
    /// `gl` — to a fresh program object and links it. On success every
    /// shader is detached again and stays valid — the program does not own
    /// them. On failure the error carries the device's non-empty diagnostic
    /// log and the attachments stay behind on the failed object. The shader
    /// objects themselves are never touched.
    pub fn from_shaders(gl: &Gl, dev: &mut GlDevice, shaders: &[Shader]) -> (r: Result<
        Program,
        Error,
    >)
        requires
            old(dev).program_count() < 0xFFFF_FFFF,
            forall|i: int| 0 <= i < shaders@.len() ==> (#[trigger] shaders@[i]).valid(*old(dev)),
            forall|i: int| 0 <= i < shaders@.len() ==> (#[trigger] shaders@[i]).spec_gl() == gl@,
        ensures
            final(dev).shaders_model() == old(dev).shaders_model(),
            final(dev).spec_active() == old(dev).spec_active(),
            r is Ok <==> stages_match(shaders@),
            match r {
                Ok(p) => {
                    &&& p.valid(*final(dev))
                    &&& p.spec_gl() == gl@
                    &&& p.spec_id() == old(dev).program_count() + 1
                    &&& old(dev).spec_program(p.spec_id()) is None
                    &&& final(dev).programs_model() == old(dev).programs_model().push(
                        Some(
                            ProgramModel {
                                attached: Seq::empty(),
                                phase: Phase::Ready,
                                log: Seq::empty(),
                            },
                        ),
                    )
                },
                Err(e) => {
                    &&& e matches Error::LinkError { message, .. } && message@
                        == link_failure_log() && message@.len() > 0
                    &&& final(dev).programs_model() == old(dev).programs_model().push(
                        Some(
                            ProgramModel {
                                attached: ids_of(shaders@),
                                phase: Phase::Failed,
                                log: link_failure_log(),
                            },
                        ),
                    )
                },
            },
    {
        let pid = dev.create_program();
        proof {
            assert(ids_of(shaders@.subrange(0, 0)) =~= Seq::<u32>::empty());
        }
        let mut i: usize = 0;
        while i < shaders.len()
            invariant
                0 <= i <= shaders@.len(),
                forall|k: int| 0 <= k < shaders@.len() ==> (#[trigger] shaders@[k]).valid(*old(dev)),
                old(dev).program_count() < 0xFFFF_FFFF,
                pid == old(dev).program_count() + 1,
                pid != 0,
                old(dev).spec_program(pid) is None,
                dev.shaders_model() == old(dev).shaders_model(),
                dev.spec_active() == old(dev).spec_active(),
                dev.programs_model() == old(dev).programs_model().push(
                    Some(
                        ProgramModel {
                            attached: ids_of(shaders@.subrange(0, i as int)),
                            phase: Phase::Pending,
                            log: Seq::empty(),
                        },
                    ),
                ),
            decreases shaders@.len() - i,
        {
            proof {
                assert(shaders@[i as int].valid(*old(dev)));
                assert(dev.spec_program(pid) == Some(
                    ProgramModel {
                        attached: ids_of(shaders@.subrange(0, i as int)),
                        phase: Phase::Pending,
                        log: Seq::empty(),
                    },
                ));
            }
            let sid = shaders[i].id();
            dev.attach_shader(pid, sid);
            proof {
                assert(ids_of(shaders@.subrange(0, i + 1)) =~= ids_of(
                    shaders@.subrange(0, i as int),
                ).push(shaders@[i as int].spec_id()));
                assert(dev.programs_model() =~= old(dev).programs_model().push(
                    Some(
                        ProgramModel {
                            attached: ids_of(shaders@.subrange(0, i + 1)),
                            phase: Phase::Pending,
                            log: Seq::empty(),
                        },
                    ),
                ));
            }
            i += 1;
        }
        proof {
            assert(shaders@.subrange(0, shaders@.len() as int) =~= shaders@);
        }
        dev.link_program(pid);
        proof {
            let ids = ids_of(shaders@);
            if shaders@.len() == 2 {
                assert(shaders@[0].valid(*old(dev)));
                assert(shaders@[1].valid(*old(dev)));
                assert(ids[0] == shaders@[0].spec_id());
                assert(ids[1] == shaders@[1].spec_id());
            }
        }
        let ok = dev.link_status(pid);
        if !ok {
            let message = dev.program_info_log(pid);
            proof {
                lemma_failure_logs_nonempty();
                assert(dev.programs_model() =~= old(dev).programs_model().push(
                    Some(
                        ProgramModel {
                            attached: ids_of(shaders@),
                            phase: Phase::Failed,
                            log: link_failure_log(),
                        },
                    ),
                ));
            }
            return Err(Error::LinkError { name: String::new(), message });
        }
        let sid0 = shaders[0].id();
        let sid1 = shaders[1].id();
        proof {
            // the two stages differ, so the two identifiers differ
            assert(shaders@[0].valid(*old(dev)));
            assert(shaders@[1].valid(*old(dev)));
            assert(sid0 != sid1);
            reveal_with_fuel(Seq::<_>::filter, 4);
            assert(ids_of(shaders@) =~= Seq::<u32>::empty().push(sid0).push(sid1));
            assert(without_id(ids_of(shaders@), sid0) =~= Seq::<u32>::empty().push(sid1));
            assert(without_id(Seq::<u32>::empty().push(sid1), sid1) =~= Seq::<u32>::empty());
        }
        dev.detach_shader(pid, sid0);
        dev.detach_shader(pid, sid1);
        proof {
            assert(dev.programs_model() =~= old(dev).programs_model().push(
                Some(
                    ProgramModel {
                        attached: Seq::empty(),
                        phase: Phase::Ready,
                        log: Seq::empty(),
                    },
                ),
            ));
        }
        Ok(Program { gl: gl.clone(), id: pid })
    }

    /// Derives the two resource names `base.vert` and `base.frag`, compiles
    /// each through the resource store, links the pair, and releases the
    /// two shader objects again: on success only the ready program object
    /// remains. The first failure is reported and nothing of the attempt is
    /// left behind except failed shader objects the device keeps for their
    /// logs.
    pub fn from_res(gl: &Gl, dev: &mut GlDevice, res: &Resources, name: &str) -> (r: Result<
        Program,
        Error,
    >)
        requires
            old(dev).shader_count() + 1 < 0xFFFF_FFFF,
            old(dev).program_count() < 0xFFFF_FFFF,
        ensures
            final(dev).spec_active() == old(dev).spec_active(),
            ({
                let vt = res.spec_lookup(name@ + vert_suffix());
                let ft = res.spec_lookup(name@ + frag_suffix());
                &&& (r is Ok <==> (vt is Some && accepts_source(vt->Some_0) && ft is Some
                    && accepts_source(ft->Some_0)))
                &&& match r {
                    Ok(p) => {
                        &&& p.valid(*final(dev))
                        &&& p.spec_gl() == gl@
                        &&& p.spec_id() == old(dev).program_count() + 1
                        &&& final(dev).programs_model() == old(dev).programs_model().push(
                            Some(
                                ProgramModel {
                                    attached: Seq::empty(),
                                    phase: Phase::Ready,
                                    log: Seq::empty(),
                                },
                            ),
                        )
                        &&& final(dev).shaders_model() == old(dev).shaders_model().push(
                            None::<ShaderModel>,
                        ).push(None::<ShaderModel>)
                    },
                    Err(e) => {
                        &&& final(dev).programs_model() == old(dev).programs_model()
                        &&& match e {
                            Error::ResourceLoad { name: n, .. } => {
                                ||| (vt is None && n@ == name@ + vert_suffix() && final(dev).shaders_model() == old(dev).shaders_model())
                                ||| (vt is Some && accepts_source(vt->Some_0) && ft is None && n@
                                    == name@ + frag_suffix() && final(dev).shaders_model() == old(
                                    dev,
                                ).shaders_model().push(None::<ShaderModel>))
                            },
                            Error::CompileError { message, .. } => {
                                &&& message@ == compile_failure_log()
                                &&& {
                                    ||| (vt is Some && !accepts_source(vt->Some_0) && final(dev).shaders_model() == old(dev).shaders_model().push(
                                        Some(
                                            compiled_model(
                                                ShaderModel {
                                                    kind: ShaderKind::Vertex,
                                                    source: vt->Some_0,
                                                    phase: Phase::Pending,
                                                    log: Seq::empty(),
                                                },
                                            ),
                                        ),
                                    ))
                                    ||| (vt is Some && accepts_source(vt->Some_0) && ft is Some
                                        && !accepts_source(ft->Some_0) && final(dev).shaders_model() == old(dev).shaders_model().push(
                                        None::<ShaderModel>,
                                    ).push(
                                        Some(
                                            compiled_model(
                                                ShaderModel {
                                                    kind: ShaderKind::Fragment,
                                                    source: ft->Some_0,
                                                    phase: Phase::Pending,
                                                    log: Seq::empty(),
                                                },
                                            ),
                                        ),
                                    ))
                                }
                            },
                            _ => false,
                        }
                    },
                }
            }),
    {
        let mut vname = name.to_owned();
        vname.append(".vert");
        let mut fname = name.to_owned();
        fname.append(".frag");
        proof {
            lemma_concat_ends_with(name@, ".vert"@);
            lemma_concat_ends_with(name@, ".frag"@);
            crate::shader::lemma_suffixes_distinct(fname@);
            assert(kind_for_name(vname@) == Some(ShaderKind::Vertex));
            assert(kind_for_name(fname@) == Some(ShaderKind::Fragment));
        }
        let first = match Shader::from_res(gl, dev, res, vname.as_str()) {
            Ok(s) => s,
            Err(e) => {
                return Err(e);
            },
        };
        let second = match Shader::from_res(gl, dev, res, fname.as_str()) {
            Ok(s) => s,
            Err(e) => {
                first.delete(dev);
                proof {
                    if res.spec_lookup(fname@) is None {
                        // the fragment resource was missing: only the
                        // released vertex slot remains
                        assert(dev.shaders_model() =~= old(dev).shaders_model().push(
                            None::<ShaderModel>,
                        ));
                    } else {
                        // the fragment source was rejected: its failed
                        // object stays behind for its log
                        assert(dev.shaders_model() =~= old(dev).shaders_model().push(
                            None::<ShaderModel>,
                        ).push(
                            Some(
                                compiled_model(
                                    ShaderModel {
                                        kind: ShaderKind::Fragment,
                                        source: res.spec_lookup(fname@)->Some_0,
                                        phase: Phase::Pending,
                                        log: Seq::empty(),
                                    },
                                ),
                            ),
                        ));
                    }
                }
                return Err(e);
            },
        };
        let mut pair: Vec<Shader> = Vec::new();
        pair.push(first);
        pair.push(second);
        proof {
            assert(pair@.len() == 2);
            assert(pair@[0] == first && pair@[1] == second);
            assert(pair@[0].spec_gl() == gl@ && pair@[1].spec_gl() == gl@);
        }
        let linked = Program::from_shaders(gl, dev, pair.as_slice());
        let second = match pair.pop() {
            Some(s) => s,
            None => vstd::pervasive::unreached(),
        };
        let first = match pair.pop() {
            Some(s) => s,
            None => vstd::pervasive::unreached(),
        };
        second.delete(dev);
        first.delete(dev);
        proof {
            assert(dev.shaders_model() =~= old(dev).shaders_model().push(
                None::<ShaderModel>,
            ).push(None::<ShaderModel>));
        }
        match linked {
            Ok(p) => Ok(p),
            Err(_) => vstd::pervasive::unreached(),
        }
    }

    /// Makes this program the active one for subsequent draw calls. The
    /// effect depends on the program alone, so repeating it changes
    /// nothing further.
    pub fn set_used(&self, dev: &mut GlDevice)
        requires
            self.valid(*old(dev)),
        ensures
            final(dev).spec_active() == self.spec_id(),
            final(dev).shaders_model() == old(dev).shaders_model(),
            final(dev).programs_model() == old(dev).programs_model(),
    {
        dev.use_program(self.id);
    }

    /// A program's validity depends on the device's program objects alone:
    /// whatever happens to shader objects — including destroying a shader
    /// that was linked into it — the program stays valid.
    pub proof fn lemma_validity_from_program_objects_alone(self, d1: GlDevice, d2: GlDevice)
        requires
            self.valid(d1),
            d2.programs_model() == d1.programs_model(),
        ensures
            self.valid(d2),
    {
    }

    /// Releases the program's device object. Consuming the value releases
    /// the object exactly once; every shader object is untouched.
    pub fn delete(self, dev: &mut GlDevice)
        requires
            old(dev).spec_program(self.spec_id()) is Some,
        ensures
            final(dev).programs_model() == old(dev).programs_model().update(
                self.spec_id() - 1,
                None::<ProgramModel>,
            ),
            final(dev).spec_program(self.spec_id()) is None,
            forall|j: u32|
                j != self.spec_id() ==> final(dev).spec_program(j) == old(dev).spec_program(j),
            final(dev).shaders_model() == old(dev).shaders_model(),
            final(dev).spec_active() == old(dev).spec_active(),
    {
        dev.delete_program(self.id);
    }
}

} // verus!
