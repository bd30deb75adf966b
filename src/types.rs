use vstd::prelude::*;

verus! {

/// The container format of an object file.
#[derive(Clone, Copy, Debug, PartialEq, Eq, Structural)]
pub enum ObjectType {
    Elf,
    Macho,
    Pe,
    Wasm,
    Unknown,
}

/// The identity of an object file: any subset of its code and debug identifiers.
#[derive(Clone, Debug)]
pub struct ObjectId {
    pub code_id: Option<String>,
    pub code_file: Option<String>,
    pub debug_id: Option<String>,
    pub debug_file: Option<String>,
}

/// The mathematical value of an optional string.
pub open spec fn opt_view(o: Option<String>) -> Option<Seq<char>> {
    match o {
        Some(s) => Some(s@),
        None => None,
    }
}

pub fn copy_opt(o: &Option<String>) -> (r: Option<String>)
    ensures
        opt_view(r) == opt_view(*o),
{
    match o {
        Some(s) => Some(s.clone()),
        None => None,
    }
}

/// The mathematical value of an object identity.
pub struct ObjectIdView {
    pub code_id: Option<Seq<char>>,
    pub code_file: Option<Seq<char>>,
    pub debug_id: Option<Seq<char>>,
    pub debug_file: Option<Seq<char>>,
}

impl ObjectId {
    pub open spec fn view(&self) -> ObjectIdView {
        ObjectIdView {
            code_id: opt_view(self.code_id),
            code_file: opt_view(self.code_file),
            debug_id: opt_view(self.debug_id),
            debug_file: opt_view(self.debug_file),
        }
    }

    pub fn copy_id(&self) -> (r: ObjectId)
        ensures
            r.view() == self.view(),
    {
        ObjectId {
            code_id: copy_opt(&self.code_id),
            code_file: copy_opt(&self.code_file),
            debug_id: copy_opt(&self.debug_id),
            debug_file: copy_opt(&self.debug_file),
        }
    }
}

/// An access partition: entries of one scope are never served to another.
#[derive(Clone, Debug)]
pub enum Scope {
    Global,
    Scoped(String),
}

impl Scope {
    /// `None` for the global scope, the scope's name otherwise.
    pub open spec fn view(&self) -> Option<Seq<char>> {
        match self {
            Scope::Global => None,
            Scope::Scoped(s) => Some(s@),
        }
    }

    pub fn copy_scope(&self) -> (r: Scope)
        ensures
            r.view() == self.view(),
    {
        match self {
            Scope::Global => Scope::Global,
            Scope::Scoped(s) => Scope::Scoped(s.clone()),
        }
    }

    pub fn same_scope(&self, other: &Scope) -> (r: bool)
        ensures
            r == (self.view() == other.view()),
    {
        match self {
            Scope::Global => other.is_global(),
            Scope::Scoped(a) => match other {
                Scope::Global => false,
                Scope::Scoped(b) => {
                    let r = a.eq(b);
                    proof {
                        if !r {
                            assert(self.view()->0 != other.view()->0);
                        }
                    }
                    r
                },
            },
        }
    }

    pub fn is_global(&self) -> (r: bool)
        ensures
            r == (self.view() is None),
    {
        match self {
            Scope::Global => true,
            Scope::Scoped(_) => false,
        }
    }
}

/// What kinds of debug information an object file carries.
#[derive(Clone, Copy, Debug, PartialEq, Eq, Structural)]
pub struct ObjectFeatures {
    pub has_debug_info: bool,
    pub has_unwind_info: bool,
    pub has_symbols: bool,
    pub has_sources: bool,
}

impl ObjectFeatures {
    pub open spec fn is_empty(&self) -> bool {
        !self.has_debug_info && !self.has_unwind_info && !self.has_symbols && !self.has_sources
    }

    /// The features of an object about which nothing is known.
    pub fn none() -> (r: ObjectFeatures)
        ensures
            r.is_empty(),
    {
        ObjectFeatures {
            has_debug_info: false,
            has_unwind_info: false,
            has_symbols: false,
            has_sources: false,
        }
    }
}

impl Default for ObjectFeatures {
    fn default() -> (r: ObjectFeatures)
        ensures
            r.is_empty(),
    {
        ObjectFeatures::none()
    }
}

} // verus!
