use vstd::prelude::*;
use vstd::string::StringExecFns;

verus! {

/// An atomic named game item with a stable id and a description.
#[derive(Debug)]
pub struct Element {
    pub name: String,
    pub id: String,
    pub desc: String,
}

/// Field-by-field equality of two elements, over the character sequences
/// that their strings hold.
pub open spec fn elem_eq(a: Element, b: Element) -> bool {
    a.name@ == b.name@ && a.id@ == b.id@ && a.desc@ == b.desc@
}

impl PartialEq for Element {
    fn eq(&self, other: &Element) -> (r: bool) {
        self.name == other.name && self.id == other.id && self.desc == other.desc
    }
}

impl vstd::std_specs::cmp::PartialEqSpecImpl for Element {
    open spec fn obeys_eq_spec() -> bool {
        true
    }

    open spec fn eq_spec(&self, other: &Element) -> bool {
        elem_eq(*self, *other)
    }
}

impl Element {
    /// The sprite path derived from an element id: `sprites/<id>.png`.
    pub open spec fn spec_sprite_file_path(id: Seq<char>) -> Seq<char> {
        "sprites/"@ + id + ".png"@
    }

    /// Builds an element from its display name, stable id and description.
    pub fn new(name: &str, id: &str, desc: &str) -> (e: Element)
        ensures
            e.name@ == name@,
            e.id@ == id@,
            e.desc@ == desc@,
    {
        Element {
            name: String::from_str(name),
            id: String::from_str(id),
            desc: String::from_str(desc),
        }
    }

    /// Path of this element's sprite image.
    pub fn sprite_file_path(&self) -> (path: String)
        ensures
            path@ == Element::spec_sprite_file_path(self.id@),
    {
        String::from_str("sprites/").concat(self.id.as_str()).concat(".png")
    }

    /// An identical copy of this element.
    pub fn duplicate(&self) -> (e: Element)
        ensures
            e == *self,
    {
        Element { name: self.name.clone(), id: self.id.clone(), desc: self.desc.clone() }
    }
}

} // verus!
