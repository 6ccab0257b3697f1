//! The resource collaborator: a store of named shader source texts.
//!
//! The surrounding program fills the store with plain values; the library
//! looks texts up by name. A missing name is the one failure the
//! collaborator can report.
use vstd::prelude::*;

use crate::text::text_eq;

verus! {

/// The failure a resource lookup can report.
#[derive(Debug)]
pub enum ResourceError {
    /// No resource of this name is in the store.
    NotFound { name: String },
}

/// One named source text.
pub struct ResourceEntry {
    pub name: String,
    pub text: String,
}

/// A store of named source texts, searched front to back.
pub struct Resources {
    entries: Vec<ResourceEntry>,
}

/// The text of the first entry named `name`, if any.
pub open spec fn lookup(entries: Seq<(Seq<char>, Seq<char>)>, name: Seq<char>) -> Option<Seq<char>>
    decreases entries.len(),
{
    if entries.len() == 0 {
        None
    } else if entries[0].0 == name {
        Some(entries[0].1)
    } else {
        lookup(entries.drop_first(), name)
    }
}

impl View for Resources {
    type V = Seq<(Seq<char>, Seq<char>)>;

    closed spec fn view(&self) -> Seq<(Seq<char>, Seq<char>)> {
        self.entries@.map_values(|e: ResourceEntry| (e.name@, e.text@))
    }
}

impl Resources {
    /// The text stored under `name`, if any.
    pub open spec fn spec_lookup(self, name: Seq<char>) -> Option<Seq<char>> {
        lookup(self@, name)
    }

    /// An empty store.
    pub fn new() -> (r: Resources)
        ensures
            r@.len() == 0,
    {
        let r = Resources { entries: Vec::new() };
        proof {
            assert(r@ =~= Seq::<(Seq<char>, Seq<char>)>::empty());
        }
        r
    }

    /// Adds `text` under `name` at the end of the store.
    pub fn insert(&mut self, name: &str, text: &str)
        ensures
            final(self)@ == old(self)@.push((name@, text@)),
    {
        self.entries.push(ResourceEntry { name: name.to_owned(), text: text.to_owned() });
        proof {
            assert(self@ =~= old(self)@.push((name@, text@)));
        }
    }

    /// Looks the text for `name` up: the first entry of that name, or
    /// `ResourceError::NotFound` naming the missing resource.
    pub fn load_text(&self, name: &str) -> (r: Result<String, ResourceError>)
        ensures
            match r {
                Ok(text) => self.spec_lookup(name@) == Some(text@),
                Err(e) => {
                    &&& self.spec_lookup(name@) is None
                    &&& e matches ResourceError::NotFound { name: missing } && missing@ == name@
                },
            },
    {
        let n = self.entries.len();
        let mut i: usize = 0;
        proof {
            assert(self@.skip(0) =~= self@);
        }
        while i < n
            invariant
                n == self.entries@.len(),
                0 <= i <= n,
                lookup(self@, name@) == lookup(self@.skip(i as int), name@),
            decreases n - i,
        {
            proof {
                assert(self@[i as int] == (self.entries@[i as int].name@,
                self.entries@[i as int].text@));
                assert(self@.skip(i as int)[0] == self@[i as int]);
            }
            if text_eq(self.entries[i].name.as_str(), name) {
                proof {
                    assert(lookup(self@.skip(i as int), name@) == Some(self@[i as int].1));
                }
                return Ok(self.entries[i].text.clone());
            }
            proof {
                assert(self@.skip(i as int).drop_first() =~= self@.skip(i + 1));
            }
            i += 1;
        }
        proof {
            assert(self@.skip(n as int) =~= Seq::<(Seq<char>, Seq<char>)>::empty());
        }
        Err(ResourceError::NotFound { name: name.to_owned() })
    }
}

} // verus!
