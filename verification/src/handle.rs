//! The shared handle to the table of resolved graphics entry points.
//!
//! `Gl::load_with` resolves every required entry point once through a
//! caller-supplied loader and stores the resulting addresses behind a
//! reference-counted, immutable table. Cloning the handle shares the table;
//! nothing is re-resolved and nothing is mutated after loading.
use vstd::prelude::*;

verus! {

/// How many graphics entry points a loaded handle resolves.
pub const SYMBOL_COUNT: usize = 14;

/// The name of the `i`-th required entry point, as text.
pub open spec fn symbol_model(i: int) -> Seq<char> {
    if i == 0 {
        "CreateShader"@
    } else if i == 1 {
        "ShaderSource"@
    } else if i == 2 {
        "CompileShader"@
    } else if i == 3 {
        "GetShaderiv"@
    } else if i == 4 {
        "GetShaderInfoLog"@
    } else if i == 5 {
        "DeleteShader"@
    } else if i == 6 {
        "CreateProgram"@
    } else if i == 7 {
        "AttachShader"@
    } else if i == 8 {
        "LinkProgram"@
    } else if i == 9 {
        "GetProgramiv"@
    } else if i == 10 {
        "GetProgramInfoLog"@
    } else if i == 11 {
        "DetachShader"@
    } else if i == 12 {
        "DeleteProgram"@
    } else {
        "UseProgram"@
    }
}

/// The name of the `i`-th required entry point.
pub fn required_symbol(i: usize) -> (s: &'static str)
    requires
        i < SYMBOL_COUNT,
    ensures
        s@ == symbol_model(i as int),
{
    match i {
        0 => "CreateShader",
        1 => "ShaderSource",
        2 => "CompileShader",
        3 => "GetShaderiv",
        4 => "GetShaderInfoLog",
        5 => "DeleteShader",
        6 => "CreateProgram",
        7 => "AttachShader",
        8 => "LinkProgram",
        9 => "GetProgramiv",
        10 => "GetProgramInfoLog",
        11 => "DetachShader",
        12 => "DeleteProgram",
        _ => "UseProgram",
    }
}

/// `address` is an answer the loader gave when asked for the `i`-th
/// required entry point's name.
pub open spec fn resolved_through<F: Fn(&'static str) -> usize>(
    loadfn: F,
    i: int,
    address: usize,
) -> bool {
    exists|s: &'static str| s@ == symbol_model(i) && call_ensures(loadfn, (s,), address)
}

/// The immutable table of resolved entry-point addresses.
pub struct FnTable {
    pub entries: Vec<usize>,
}

/// A shared, reference-counted handle to a loaded function table. Its view
/// is the sequence of resolved addresses.
pub struct Gl {
    inner: std::rc::Rc<FnTable>,
}

impl View for Gl {
    type V = Seq<usize>;

    closed spec fn view(&self) -> Seq<usize> {
        self.inner.entries@
    }
}

impl Clone for Gl {
    /// Cloning hands out the same handle again: the clone is equal to the
    /// original, and the reference-counted table inside is shared, not
    /// copied.
    fn clone(&self) -> (r: Self)
        ensures
            r == *self,
            r@ == self@,
    {
        Gl { inner: self.inner.clone() }
    }
}

impl Gl {
    /// Resolves every required entry point through `loadfn`, one call per
    /// symbol name, and wraps the addresses in a shared handle: the `i`-th
    /// table entry is the loader's answer for the `i`-th required symbol.
    pub fn load_with<F: Fn(&'static str) -> usize>(loadfn: F) -> (gl: Gl)
        requires
            forall|s: &'static str| call_requires(loadfn, (s,)),
        ensures
            gl@.len() == SYMBOL_COUNT,
            forall|i: int|
                0 <= i < SYMBOL_COUNT ==> #[trigger] resolved_through(loadfn, i, gl@[i]),
    {
        let mut entries: Vec<usize> = Vec::new();
        let mut i: usize = 0;
        while i < SYMBOL_COUNT
            invariant
                forall|s: &'static str| call_requires(loadfn, (s,)),
                entries@.len() == i,
                0 <= i <= SYMBOL_COUNT,
                forall|j: int|
                    0 <= j < i ==> #[trigger] resolved_through(loadfn, j, entries@[j]),
            decreases SYMBOL_COUNT - i,
        {
            let name = required_symbol(i);
            let address = loadfn(name);
            entries.push(address);
            proof {
                assert(entries@[i as int] == address);
                assert(name@ == symbol_model(i as int) && call_ensures(
                    loadfn,
                    (name,),
                    entries@[i as int],
                ));
                assert(resolved_through(loadfn, i as int, entries@[i as int]));
            }
            i += 1;
        }
        Gl { inner: std::rc::Rc::new(FnTable { entries }) }
    }

    /// How many entry points this handle resolved.
    pub fn entry_count(&self) -> (n: usize)
        ensures
            n == self@.len(),
    {
        self.inner.entries.len()
    }

    /// The resolved address of the `i`-th entry point.
    pub fn entry(&self, i: usize) -> (address: usize)
        requires
            i < self@.len(),
        ensures
            address == self@[i as int],
    {
        self.inner.entries[i]
    }
}

} // verus!
