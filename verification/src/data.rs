//! The vertex data layout the draw loop describes to the device.
//!
//! One vertex is six 32-bit floats: a three-component position followed by
//! a three-component color, interleaved in one buffer. The descriptors
//! computed here pin that format down: position at offset zero, color right
//! behind it, both with the stride of a whole vertex, both plain
//! (non-normalized) floats.
use vstd::prelude::*;

verus! {

/// The byte size of one 32-bit float vertex component.
pub const FLOAT_BYTES: usize = 4;

/// The scalar type of a vertex component; this pipeline stages 32-bit
/// floats only.
#[derive(Clone, Copy, PartialEq, Eq, Debug, Structural)]
pub enum ComponentKind {
    Float,
}

/// How the device reads one vertex attribute out of an interleaved buffer.
#[derive(Clone, Copy, PartialEq, Eq, Debug, Structural)]
pub struct AttribPointer {
    pub location: u32,
    pub components: u32,
    pub component_kind: ComponentKind,
    pub normalized: bool,
    pub stride: usize,
    pub offset: usize,
}

/// The attribute descriptors of one interleaved vertex: a three-float
/// position at offset zero, then a three-float color right after it, both
/// non-normalized and strided by the byte size of the six floats together.
pub fn vertex_attrib_pointers() -> (v: Vec<AttribPointer>)
    ensures
        v@.len() == 2,
        v@[0] == (AttribPointer {
            location: 0,
            components: 3,
            component_kind: ComponentKind::Float,
            normalized: false,
            stride: 24,
            offset: 0,
        }),
        v@[1] == (AttribPointer {
            location: 1,
            components: 3,
            component_kind: ComponentKind::Float,
            normalized: false,
            stride: 24,
            offset: 12,
        }),
{
    let stride = 6 * FLOAT_BYTES;
    let mut v: Vec<AttribPointer> = Vec::new();
    v.push(
        AttribPointer {
            location: 0,
            components: 3,
            component_kind: ComponentKind::Float,
            normalized: false,
            stride,
            offset: 0,
        },
    );
    v.push(
        AttribPointer {
            location: 1,
            components: 3,
            component_kind: ComponentKind::Float,
            normalized: false,
            stride,
            offset: 3 * FLOAT_BYTES,
        },
    );
    v
}

} // verus!
