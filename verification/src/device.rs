//! The modeled graphics device: owner of every shader and program object.
//!
//! The device hands out non-zero, never-reused identifiers, stores shader
//! source text, and decides compilation and linking. A shader source is
//! accepted exactly when it declares a `void main` entry point; a program
//! links exactly when one ready vertex stage and one ready fragment stage
//! are attached. Rejections leave a non-empty diagnostic log behind. Each
//! operation's contract states the whole effect on the device model, so
//! callers can reason about freshness, frame conditions and object phases.
use vstd::prelude::*;

use crate::text::contains_text;
use crate::text::text_contains;

verus! {

/// The two shader stages a device object can hold.
#[derive(Clone, Copy, PartialEq, Eq, Debug, Structural)]
pub enum ShaderKind {
    Vertex,
    Fragment,
}

/// The lifecycle phase of a device object: freshly created, successfully
/// compiled or linked, or rejected.
#[derive(Clone, Copy, PartialEq, Eq, Debug, Structural)]
pub enum Phase {
    Pending,
    Ready,
    Failed,
}

/// A shader object as the device stores it.
pub struct ShaderObject {
    pub kind: ShaderKind,
    pub source: String,
    pub phase: Phase,
    pub log: String,
}

/// The mathematical model of a shader object.
pub ghost struct ShaderModel {
    pub kind: ShaderKind,
    pub source: Seq<char>,
    pub phase: Phase,
    pub log: Seq<char>,
}

impl View for ShaderObject {
    type V = ShaderModel;

    open spec fn view(&self) -> ShaderModel {
        ShaderModel { kind: self.kind, source: self.source@, phase: self.phase, log: self.log@ }
    }
}

/// A program object as the device stores it.
pub struct ProgramObject {
    pub attached: Vec<u32>,
    pub phase: Phase,
    pub log: String,
}

/// The mathematical model of a program object.
pub ghost struct ProgramModel {
    pub attached: Seq<u32>,
    pub phase: Phase,
    pub log: Seq<char>,
}

impl View for ProgramObject {
    type V = ProgramModel;

    open spec fn view(&self) -> ProgramModel {
        ProgramModel { attached: self.attached@, phase: self.phase, log: self.log@ }
    }
}

/// The model of one object slot: the object, or nothing once it was deleted.
pub open spec fn shader_slot(o: Option<ShaderObject>) -> Option<ShaderModel> {
    match o {
        Some(s) => Some(s@),
        None => None,
    }
}

/// The model of one program slot.
pub open spec fn program_slot(o: Option<ProgramObject>) -> Option<ProgramModel> {
    match o {
        Some(p) => Some(p@),
        None => None,
    }
}

/// The marker a shader source must contain for the device to accept it.
pub open spec fn entry_marker() -> Seq<char> {
    "void main"@
}

/// The device accepts a shader source exactly when it declares an entry
/// point.
pub open spec fn accepts_source(src: Seq<char>) -> bool {
    contains_text(src, entry_marker())
}

/// The diagnostic log the device leaves behind on a failed compilation.
pub open spec fn compile_failure_log() -> Seq<char> {
    "shader rejected: no 'void main' entry point"@
}

/// The diagnostic log the device leaves behind on a failed link.
pub open spec fn link_failure_log() -> Seq<char> {
    "program rejected: one ready vertex and one ready fragment shader are required"@
}

/// Both diagnostic logs carry text.
pub proof fn lemma_failure_logs_nonempty()
    ensures
        compile_failure_log().len() > 0,
        link_failure_log().len() > 0,
{
    reveal_strlit("shader rejected: no 'void main' entry point");
    reveal_strlit("program rejected: one ready vertex and one ready fragment shader are required");
}

/// A shader model after the device decided its compilation.
pub open spec fn compiled_model(m: ShaderModel) -> ShaderModel {
    if accepts_source(m.source) {
        ShaderModel { kind: m.kind, source: m.source, phase: Phase::Ready, log: Seq::empty() }
    } else {
        ShaderModel { kind: m.kind, source: m.source, phase: Phase::Failed, log: compile_failure_log() }
    }
}

/// An attachment list with every occurrence of `x` removed.
pub open spec fn without_id(s: Seq<u32>, x: u32) -> Seq<u32> {
    s.filter(|y: u32| y != x)
}

/// The device that owns every shader and program object. Identifiers are
/// slot positions shifted by one, so they are never zero and never reused.
pub struct GlDevice {
    shaders: Vec<Option<ShaderObject>>,
    programs: Vec<Option<ProgramObject>>,
    active: u32,
}

impl GlDevice {
    /// The model of all shader slots, in creation order.
    pub closed spec fn shaders_model(self) -> Seq<Option<ShaderModel>> {
        self.shaders@.map_values(|o: Option<ShaderObject>| shader_slot(o))
    }

    /// The model of all program slots, in creation order.
    pub closed spec fn programs_model(self) -> Seq<Option<ProgramModel>> {
        self.programs@.map_values(|o: Option<ProgramObject>| program_slot(o))
    }

    /// How many shader identifiers were ever handed out.
    pub open spec fn shader_count(self) -> nat {
        self.shaders_model().len()
    }

    /// How many program identifiers were ever handed out.
    pub open spec fn program_count(self) -> nat {
        self.programs_model().len()
    }

    /// The identifier of the program last made active, or zero.
    pub closed spec fn spec_active(self) -> u32 {
        self.active
    }

    /// The shader object behind `id`, if `id` was handed out and the object
    /// was not deleted.
    pub open spec fn spec_shader(self, id: u32) -> Option<ShaderModel> {
        if 1 <= id && id - 1 < self.shaders_model().len() {
            self.shaders_model()[id - 1]
        } else {
            None
        }
    }

    /// The program object behind `id`, if `id` was handed out and the object
    /// was not deleted.
    pub open spec fn spec_program(self, id: u32) -> Option<ProgramModel> {
        if 1 <= id && id - 1 < self.programs_model().len() {
            self.programs_model()[id - 1]
        } else {
            None
        }
    }

    /// The shader behind `id` exists, compiled successfully, and is of
    /// stage `kind`.
    pub open spec fn shader_ready_as(self, id: u32, kind: ShaderKind) -> bool {
        match self.spec_shader(id) {
            Some(m) => m.phase is Ready && m.kind == kind,
            None => false,
        }
    }

    /// The program behind `id` exists and linked successfully.
    pub open spec fn program_ready(self, id: u32) -> bool {
        match self.spec_program(id) {
            Some(m) => m.phase is Ready,
            None => false,
        }
    }

    /// An attachment list links exactly when it holds one ready vertex
    /// stage and one ready fragment stage.
    pub open spec fn links_ok(self, attached: Seq<u32>) -> bool {
        attached.len() == 2 && ((self.shader_ready_as(attached[0], ShaderKind::Vertex)
            && self.shader_ready_as(attached[1], ShaderKind::Fragment)) || (
        self.shader_ready_as(attached[0], ShaderKind::Fragment) && self.shader_ready_as(
            attached[1],
            ShaderKind::Vertex,
        )))
    }

    /// A program model after the device decided its link, judged against the
    /// shader objects of the device state `pre`.
    pub open spec fn linked_model(pre: GlDevice, m: ProgramModel) -> ProgramModel {
        if pre.links_ok(m.attached) {
            ProgramModel { attached: m.attached, phase: Phase::Ready, log: Seq::empty() }
        } else {
            ProgramModel { attached: m.attached, phase: Phase::Failed, log: link_failure_log() }
        }
    }

    /// A fresh device: no objects yet, no active program.
    pub fn new() -> (d: GlDevice)
        ensures
            d.shader_count() == 0,
            d.program_count() == 0,
            d.spec_active() == 0,
    {
        let d = GlDevice { shaders: Vec::new(), programs: Vec::new(), active: 0 };
        proof {
            assert(d.shaders_model() =~= Seq::<Option<ShaderModel>>::empty());
            assert(d.programs_model() =~= Seq::<Option<ProgramModel>>::empty());
        }
        d
    }

    /// Creates a fresh shader object of stage `kind` and returns its
    /// identifier: non-zero, never handed out before.
    pub fn create_shader(&mut self, kind: ShaderKind) -> (id: u32)
        requires
            old(self).shader_count() < 0xFFFF_FFFF,
        ensures
            id != 0,
            id == old(self).shader_count() + 1,
            old(self).spec_shader(id) is None,
            final(self).shaders_model() == old(self).shaders_model().push(
                Some(
                    ShaderModel {
                        kind,
                        source: Seq::empty(),
                        phase: Phase::Pending,
                        log: Seq::empty(),
                    },
                ),
            ),
            final(self).spec_shader(id) == Some(
                ShaderModel { kind, source: Seq::empty(), phase: Phase::Pending, log: Seq::empty() },
            ),
            forall|j: u32| j != id ==> final(self).spec_shader(j) == old(self).spec_shader(j),
            final(self).programs_model() == old(self).programs_model(),
            final(self).spec_active() == old(self).spec_active(),
    {
        let n = self.shaders.len();
        let obj = ShaderObject { kind, source: String::new(), phase: Phase::Pending, log: String::new() };
        self.shaders.push(Some(obj));
        proof {
            assert(self.shaders_model() =~= old(self).shaders_model().push(
                Some(
                    ShaderModel {
                        kind,
                        source: Seq::empty(),
                        phase: Phase::Pending,
                        log: Seq::empty(),
                    },
                ),
            ));
        }
        (n + 1) as u32
    }

    /// Replaces the stored source text of shader `id`.
    pub fn shader_source(&mut self, id: u32, source: &str)
        requires
            old(self).spec_shader(id) is Some,
        ensures
            ({
                let m = old(self).spec_shader(id)->Some_0;
                let updated = ShaderModel {
                    kind: m.kind,
                    source: source@,
                    phase: m.phase,
                    log: m.log,
                };
                &&& final(self).shaders_model() == old(self).shaders_model().update(
                    id - 1,
                    Some(updated),
                )
                &&& final(self).spec_shader(id) == Some(updated)
            }),
            forall|j: u32| j != id ==> final(self).spec_shader(j) == old(self).spec_shader(j),
            final(self).programs_model() == old(self).programs_model(),
            final(self).spec_active() == old(self).spec_active(),
    {
        let idx = (id - 1) as usize;
        let (kind, phase, log) = match &self.shaders[idx] {
            Some(s) => (s.kind, s.phase, s.log.clone()),
            None => vstd::pervasive::unreached(),
        };
        self.shaders.set(idx, Some(ShaderObject { kind, source: source.to_owned(), phase, log }));
        proof {
            let m = old(self).spec_shader(id)->Some_0;
            let updated = ShaderModel { kind: m.kind, source: source@, phase: m.phase, log: m.log };
            assert(self.shaders_model() =~= old(self).shaders_model().update(
                id - 1,
                Some(updated),
            ));
        }
    }

    /// Compiles shader `id`: it becomes ready exactly when its stored source
    /// is accepted, and failed with a non-empty log otherwise.
    pub fn compile_shader(&mut self, id: u32)
        requires
            old(self).spec_shader(id) is Some,
        ensures
            ({
                let updated = compiled_model(old(self).spec_shader(id)->Some_0);
                &&& final(self).shaders_model() == old(self).shaders_model().update(
                    id - 1,
                    Some(updated),
                )
                &&& final(self).spec_shader(id) == Some(updated)
            }),
            forall|j: u32| j != id ==> final(self).spec_shader(j) == old(self).spec_shader(j),
            final(self).programs_model() == old(self).programs_model(),
            final(self).spec_active() == old(self).spec_active(),
    {
        let idx = (id - 1) as usize;
        let (kind, source) = match &self.shaders[idx] {
            Some(s) => (s.kind, s.source.clone()),
            None => vstd::pervasive::unreached(),
        };
        let ok = text_contains(source.as_str(), "void main");
        let obj = if ok {
            ShaderObject { kind, source, phase: Phase::Ready, log: String::new() }
        } else {
            ShaderObject {
                kind,
                source,
                phase: Phase::Failed,
                log: "shader rejected: no 'void main' entry point".to_owned(),
            }
        };
        self.shaders.set(idx, Some(obj));
        proof {
            let updated = compiled_model(old(self).spec_shader(id)->Some_0);
            assert(self.shaders_model() =~= old(self).shaders_model().update(
                id - 1,
                Some(updated),
            ));
        }
    }

    /// Whether shader `id` compiled successfully.
    pub fn compile_status(&self, id: u32) -> (ok: bool)
        requires
            self.spec_shader(id) is Some,
        ensures
            ok == (self.spec_shader(id)->Some_0.phase is Ready),
    {
        let idx = (id - 1) as usize;
        match &self.shaders[idx] {
            Some(s) => s.phase == Phase::Ready,
            None => vstd::pervasive::unreached(),
        }
    }

    /// The diagnostic log of shader `id`.
    pub fn shader_info_log(&self, id: u32) -> (log: String)
        requires
            self.spec_shader(id) is Some,
        ensures
            log@ == self.spec_shader(id)->Some_0.log,
    {
        let idx = (id - 1) as usize;
        match &self.shaders[idx] {
            Some(s) => s.log.clone(),
            None => vstd::pervasive::unreached(),
        }
    }

    /// Whether shader `id` exists, is ready, and is of stage `kind`.
    pub fn shader_is_ready_as(&self, id: u32, kind: ShaderKind) -> (r: bool)
        ensures
            r == self.shader_ready_as(id, kind),
    {
        if id >= 1 {
            let idx = (id - 1) as usize;
            if idx < self.shaders.len() {
                match &self.shaders[idx] {
                    Some(s) => s.phase == Phase::Ready && s.kind == kind,
                    None => false,
                }
            } else {
                false
            }
        } else {
            false
        }
    }

    /// Deletes shader `id`; every other object is untouched.
    pub fn delete_shader(&mut self, id: u32)
        requires
            old(self).spec_shader(id) is Some,
        ensures
            final(self).shaders_model() == old(self).shaders_model().update(
                id - 1,
                None::<ShaderModel>,
            ),
            final(self).spec_shader(id) is None,
            forall|j: u32| j != id ==> final(self).spec_shader(j) == old(self).spec_shader(j),
            final(self).programs_model() == old(self).programs_model(),
            final(self).spec_active() == old(self).spec_active(),
    {
        let idx = (id - 1) as usize;
        self.shaders.set(idx, None);
        proof {
            assert(self.shaders_model() =~= old(self).shaders_model().update(
                id - 1,
                None::<ShaderModel>,
            ));
        }
    }

    /// Creates a fresh program object and returns its identifier: non-zero,
    /// never handed out before.
    pub fn create_program(&mut self) -> (id: u32)
        requires
            old(self).program_count() < 0xFFFF_FFFF,
        ensures
            id != 0,
            id == old(self).program_count() + 1,
            old(self).spec_program(id) is None,
            final(self).programs_model() == old(self).programs_model().push(
                Some(ProgramModel { attached: Seq::empty(), phase: Phase::Pending, log: Seq::empty() }),
            ),
            final(self).spec_program(id) == Some(
                ProgramModel { attached: Seq::empty(), phase: Phase::Pending, log: Seq::empty() },
            ),
            forall|j: u32| j != id ==> final(self).spec_program(j) == old(self).spec_program(j),
            final(self).shaders_model() == old(self).shaders_model(),
            final(self).spec_active() == old(self).spec_active(),
    {
        let n = self.programs.len();
        let obj = ProgramObject { attached: Vec::new(), phase: Phase::Pending, log: String::new() };
        self.programs.push(Some(obj));
        proof {
            assert(self.programs_model() =~= old(self).programs_model().push(
                Some(
                    ProgramModel { attached: Seq::empty(), phase: Phase::Pending, log: Seq::empty() },
                ),
            ));
        }
        (n + 1) as u32
    }

    /// Attaches shader `sid` to program `pid`.
    pub fn attach_shader(&mut self, pid: u32, sid: u32)
        requires
            old(self).spec_program(pid) is Some,
            old(self).spec_shader(sid) is Some,
        ensures
            ({
                let m = old(self).spec_program(pid)->Some_0;
                let updated = ProgramModel {
                    attached: m.attached.push(sid),
                    phase: m.phase,
                    log: m.log,
                };
                &&& final(self).programs_model() == old(self).programs_model().update(
                    pid - 1,
                    Some(updated),
                )
                &&& final(self).spec_program(pid) == Some(updated)
            }),
            forall|j: u32| j != pid ==> final(self).spec_program(j) == old(self).spec_program(j),
            final(self).shaders_model() == old(self).shaders_model(),
            final(self).spec_active() == old(self).spec_active(),
    {
        let idx = (pid - 1) as usize;
        let (mut attached, phase, log) = match &self.programs[idx] {
            Some(p) => (p.attached.clone(), p.phase, p.log.clone()),
            None => vstd::pervasive::unreached(),
        };
        attached.push(sid);
        self.programs.set(idx, Some(ProgramObject { attached, phase, log }));
        proof {
            let m = old(self).spec_program(pid)->Some_0;
            let updated = ProgramModel { attached: m.attached.push(sid), phase: m.phase, log: m.log };
            assert(self.programs_model() =~= old(self).programs_model().update(
                pid - 1,
                Some(updated),
            ));
        }
    }

    /// Links program `pid`: it becomes ready exactly when one ready vertex
    /// stage and one ready fragment stage are attached, and failed with a
    /// non-empty log otherwise.
    pub fn link_program(&mut self, pid: u32)
        requires
            old(self).spec_program(pid) is Some,
        ensures
            ({
                let updated = GlDevice::linked_model(
                    *old(self),
                    old(self).spec_program(pid)->Some_0,
                );
                &&& final(self).programs_model() == old(self).programs_model().update(
                    pid - 1,
                    Some(updated),
                )
                &&& final(self).spec_program(pid) == Some(updated)
            }),
            forall|j: u32| j != pid ==> final(self).spec_program(j) == old(self).spec_program(j),
            final(self).shaders_model() == old(self).shaders_model(),
            final(self).spec_active() == old(self).spec_active(),
    {
        let idx = (pid - 1) as usize;
        let (attached, log) = match &self.programs[idx] {
            Some(p) => (p.attached.clone(), p.log.clone()),
            None => vstd::pervasive::unreached(),
        };
        let ok = if attached.len() == 2 {
            let a0 = attached[0];
            let a1 = attached[1];
            (self.shader_is_ready_as(a0, ShaderKind::Vertex) && self.shader_is_ready_as(
                a1,
                ShaderKind::Fragment,
            )) || (self.shader_is_ready_as(a0, ShaderKind::Fragment) && self.shader_is_ready_as(
                a1,
                ShaderKind::Vertex,
            ))
        } else {
            false
        };
        let obj = if ok {
            ProgramObject { attached, phase: Phase::Ready, log: String::new() }
        } else {
            ProgramObject {
                attached,
                phase: Phase::Failed,
                log: "program rejected: one ready vertex and one ready fragment shader are required".to_owned(),
            }
        };
        self.programs.set(idx, Some(obj));
        proof {
            let updated = GlDevice::linked_model(*old(self), old(self).spec_program(pid)->Some_0);
            assert(self.programs_model() =~= old(self).programs_model().update(
                pid - 1,
                Some(updated),
            ));
        }
    }

    /// Whether program `pid` linked successfully.
    pub fn link_status(&self, pid: u32) -> (ok: bool)
        requires
            self.spec_program(pid) is Some,
        ensures
            ok == (self.spec_program(pid)->Some_0.phase is Ready),
    {
        let idx = (pid - 1) as usize;
        match &self.programs[idx] {
            Some(p) => p.phase == Phase::Ready,
            None => vstd::pervasive::unreached(),
        }
    }

    /// Whether program `pid` exists and linked successfully.
    pub fn program_is_ready(&self, pid: u32) -> (r: bool)
        ensures
            r == self.program_ready(pid),
    {
        if pid >= 1 {
            let idx = (pid - 1) as usize;
            if idx < self.programs.len() {
                match &self.programs[idx] {
                    Some(p) => p.phase == Phase::Ready,
                    None => false,
                }
            } else {
                false
            }
        } else {
            false
        }
    }

    /// The diagnostic log of program `pid`.
    pub fn program_info_log(&self, pid: u32) -> (log: String)
        requires
            self.spec_program(pid) is Some,
        ensures
            log@ == self.spec_program(pid)->Some_0.log,
    {
        let idx = (pid - 1) as usize;
        match &self.programs[idx] {
            Some(p) => p.log.clone(),
            None => vstd::pervasive::unreached(),
        }
    }

    /// The attachments of program `pid`, in attachment order.
    pub fn program_attachments(&self, pid: u32) -> (ids: Vec<u32>)
        requires
            self.spec_program(pid) is Some,
        ensures
            ids@ == self.spec_program(pid)->Some_0.attached,
    {
        let idx = (pid - 1) as usize;
        match &self.programs[idx] {
            Some(p) => p.attached.clone(),
            None => vstd::pervasive::unreached(),
        }
    }

    /// Detaches shader `sid` from program `pid`; the shader object itself is
    /// untouched.
    pub fn detach_shader(&mut self, pid: u32, sid: u32)
        requires
            old(self).spec_program(pid) is Some,
        ensures
            ({
                let m = old(self).spec_program(pid)->Some_0;
                let updated = ProgramModel {
                    attached: without_id(m.attached, sid),
                    phase: m.phase,
                    log: m.log,
                };
                &&& final(self).programs_model() == old(self).programs_model().update(
                    pid - 1,
                    Some(updated),
                )
                &&& final(self).spec_program(pid) == Some(updated)
            }),
            forall|j: u32| j != pid ==> final(self).spec_program(j) == old(self).spec_program(j),
            final(self).shaders_model() == old(self).shaders_model(),
            final(self).spec_active() == old(self).spec_active(),
    {
        let idx = (pid - 1) as usize;
        let (attached, phase, log) = match &self.programs[idx] {
            Some(p) => (p.attached.clone(), p.phase, p.log.clone()),
            None => vstd::pervasive::unreached(),
        };
        let mut kept: Vec<u32> = Vec::new();
        let mut i: usize = 0;
        while i < attached.len()
            invariant
                0 <= i <= attached@.len(),
                kept@ == without_id(attached@.subrange(0, i as int), sid),
            decreases attached@.len() - i,
        {
            let a = attached[i];
            proof {
                reveal(Seq::filter);
                assert(attached@.subrange(0, i + 1).drop_last() =~= attached@.subrange(0, i as int));
                assert(attached@.subrange(0, i + 1).last() == attached@[i as int]);
            }
            if a != sid {
                kept.push(a);
            }
            i += 1;
        }
        proof {
            assert(attached@.subrange(0, attached@.len() as int) =~= attached@);
        }
        self.programs.set(idx, Some(ProgramObject { attached: kept, phase, log }));
        proof {
            let m = old(self).spec_program(pid)->Some_0;
            let updated = ProgramModel {
                attached: without_id(m.attached, sid),
                phase: m.phase,
                log: m.log,
            };
            assert(self.programs_model() =~= old(self).programs_model().update(
                pid - 1,
                Some(updated),
            ));
        }
    }

    /// Deletes program `pid`; every shader object is untouched.
    pub fn delete_program(&mut self, pid: u32)
        requires
            old(self).spec_program(pid) is Some,
        ensures
            final(self).programs_model() == old(self).programs_model().update(
                pid - 1,
                None::<ProgramModel>,
            ),
            final(self).spec_program(pid) is None,
            forall|j: u32| j != pid ==> final(self).spec_program(j) == old(self).spec_program(j),
            final(self).shaders_model() == old(self).shaders_model(),
            final(self).spec_active() == old(self).spec_active(),
    {
        let idx = (pid - 1) as usize;
        self.programs.set(idx, None);
        proof {
            assert(self.programs_model() =~= old(self).programs_model().update(
                pid - 1,
                None::<ProgramModel>,
            ));
        }
    }

    /// Makes program `pid` the active one (or deactivates with zero). The
    /// operation is idempotent: the outcome depends on `pid` alone.
    pub fn use_program(&mut self, pid: u32)
        requires
            pid == 0 || old(self).program_ready(pid),
        ensures
            final(self).spec_active() == pid,
            final(self).shaders_model() == old(self).shaders_model(),
            final(self).programs_model() == old(self).programs_model(),
    {
        self.active = pid;
    }

    /// The identifier of the program last made active, or zero.
    pub fn active_program(&self) -> (id: u32)
        ensures
            id == self.spec_active(),
    {
        self.active
    }

    /// Issues a draw call over a range of staged vertices. The device
    /// renders without error exactly when a ready program is active; the
    /// range itself does not matter to the model.
    pub fn draw_arrays(&self, _first: u32, _count: u32) -> (ok: bool)
        ensures
            ok == self.program_ready(self.spec_active()),
    {
        self.program_is_ready(self.active_program())
    }
}

} // verus!
