//! The catalog of widget types a build may instantiate.
use vstd::prelude::*;
use crate::converter::NativeType;
use crate::text::str_eq;

verus! {

/// A property that a widget type declares: its native name and value type.
#[derive(Debug)]
pub struct PropertySpec {
    pub name: String,
    pub value_type: NativeType,
}

/// What the builder knows of a native type: its name, whether its
/// instances are widgets and windows, and the properties it declares.
#[derive(Debug)]
pub struct TypeDescriptor {
    pub name: String,
    pub is_widget: bool,
    pub is_window: bool,
    pub properties: Vec<PropertySpec>,
}

/// How a widget type accepts children.
#[derive(Clone, Copy, Debug, PartialEq, Eq, Structural)]
pub enum ContainerKind {
    /// Accepts no child.
    Leaf,
    /// Holds one child; a new child replaces the old one.
    Single,
    /// Appends children to an ordered list.
    Append,
    /// Attaches children at grid coordinates.
    Grid,
    /// Puts each child in its start, center or end slot.
    Slots,
    /// Packs children at the start.
    PackStart,
    /// Packs children at the end.
    PackEnd,
    /// Adds each child as a titled page.
    Stack,
    /// Adds each child as a tab with a label.
    Notebook,
    /// First child is the start pane, later ones the end pane.
    Paned,
}

/// One registration: a type and the way its instances take children.
#[derive(Debug)]
pub struct RegistryEntry {
    pub descriptor: TypeDescriptor,
    pub kind: ContainerKind,
}

/// The registration in force for `name`: the latest one under that name.
pub open spec fn find_entry(entries: Seq<RegistryEntry>, name: Seq<char>) -> Option<RegistryEntry>
    decreases entries.len(),
{
    if entries.len() == 0 {
        None
    } else if entries.last().descriptor.name@ == name {
        Some(entries.last())
    } else {
        find_entry(entries.drop_last(), name)
    }
}

/// Registered widget types, by name. Registration only adds; a second
/// registration under a name takes the place of the first.
#[derive(Debug)]
pub struct Registry {
    entries: Vec<RegistryEntry>,
}

impl Registry {
    /// All registrations, in the order they were made.
    pub closed spec fn registered(&self) -> Seq<RegistryEntry> {
        self.entries@
    }

    /// The registration in force for `name`.
    pub open spec fn entry(&self, name: Seq<char>) -> Option<RegistryEntry> {
        find_entry(self.registered(), name)
    }

    /// The descriptor registered under `name`.
    pub open spec fn type_of(&self, name: Seq<char>) -> Option<TypeDescriptor> {
        match self.entry(name) {
            Some(e) => Some(e.descriptor),
            None => None,
        }
    }

    /// The way instances of `name` take children; a leaf when unregistered.
    pub open spec fn kind_of(&self, name: Seq<char>) -> ContainerKind {
        match self.entry(name) {
            Some(e) => e.kind,
            None => ContainerKind::Leaf,
        }
    }

    /// The number of registrations made.
    pub open spec fn registrations(&self) -> nat {
        self.registered().len()
    }

    pub fn new() -> (r: Registry)
        ensures
            forall|n: Seq<char>| r.entry(n) is None,
            r.registrations() == 0,
    {
        Registry { entries: Vec::new() }
    }

    fn register_impl(&mut self, descriptor: TypeDescriptor, kind: ContainerKind)
        ensures
            final(self).registrations() == old(self).registrations() + 1,
            forall|n: Seq<char>| #[trigger] final(self).entry(n) == (if n == descriptor.name@ {
                Some(RegistryEntry { descriptor, kind })
            } else {
                old(self).entry(n)
            }),
    {
        let ghost d = descriptor;
        self.entries.push(RegistryEntry { descriptor, kind });
        assert(self.entries@.drop_last() =~= old(self).entries@);
    }

    /// Registers a type whose instances take no children.
    pub fn register_leaf(&mut self, descriptor: TypeDescriptor)
        ensures
            final(self).registrations() == old(self).registrations() + 1,
            forall|n: Seq<char>| #[trigger] final(self).entry(n) == (if n == descriptor.name@ {
                Some(RegistryEntry { descriptor, kind: ContainerKind::Leaf })
            } else {
                old(self).entry(n)
            }),
    {
        self.register_impl(descriptor, ContainerKind::Leaf)
    }

    /// Registers a type whose instances take children in the way `kind` says.
    pub fn register_container(&mut self, descriptor: TypeDescriptor, kind: ContainerKind)
        ensures
            final(self).registrations() == old(self).registrations() + 1,
            forall|n: Seq<char>| #[trigger] final(self).entry(n) == (if n == descriptor.name@ {
                Some(RegistryEntry { descriptor, kind })
            } else {
                old(self).entry(n)
            }),
    {
        self.register_impl(descriptor, kind)
    }

    fn find_index(&self, name: &str) -> (r: Option<usize>)
        ensures
            match r {
                Some(i) => i < self.entries@.len() && self.entry(name@) == Some(self.entries@[i as int]),
                None => self.entry(name@) is None,
            },
    {
        let mut i: usize = self.entries.len();
        assert(self.entries@.subrange(0, i as int) =~= self.entries@);
        while i > 0
            invariant
                i <= self.entries@.len(),
                self.entry(name@) == find_entry(self.entries@.subrange(0, i as int), name@),
            decreases i,
        {
            let ghost pre = self.entries@.subrange(0, i as int);
            assert(pre.drop_last() =~= self.entries@.subrange(0, i - 1));
            assert(pre.last() == self.entries@[i - 1]);
            if str_eq(self.entries[i - 1].descriptor.name.as_str(), name) {
                return Some(i - 1);
            }
            i -= 1;
        }
        None
    }

    /// The descriptor registered under `name`.
    pub fn get_type(&self, name: &str) -> (r: Option<&TypeDescriptor>)
        ensures
            match r {
                Some(d) => self.type_of(name@) == Some(*d),
                None => self.type_of(name@) is None,
            },
    {
        match self.find_index(name) {
            Some(i) => Some(&self.entries[i].descriptor),
            None => None,
        }
    }

    /// The way instances of `name` take children; a leaf when `name` is not
    /// registered, so that adding a child fails rather than the lookup.
    pub fn get_strategy(&self, name: &str) -> (r: ContainerKind)
        ensures
            r == self.kind_of(name@),
    {
        match self.find_index(name) {
            Some(i) => self.entries[i].kind,
            None => ContainerKind::Leaf,
        }
    }

    /// The names of all registrations, in the order they were made.
    pub fn get_all_types(&self) -> (r: Vec<String>)
        ensures
            r@.len() == self.registered().len(),
            forall|i: int| 0 <= i < r@.len() ==> r@[i] == self.registered()[i].descriptor.name,
    {
        let mut out: Vec<String> = Vec::new();
        let mut i: usize = 0;
        while i < self.entries.len()
            invariant
                i <= self.entries@.len(),
                out@.len() == i,
                forall|j: int| 0 <= j < i ==> out@[j] == self.entries@[j].descriptor.name,
            decreases self.entries@.len() - i,
        {
            out.push(self.entries[i].descriptor.name.clone());
            i += 1;
        }
        out
    }
}

} // verus!
