//! The part of the virtual machine's state that the `Namespace` class reads
//! and writes.

use vstd::prelude::*;

use crate::namespace::{ApiVersion, Namespace};

verus! {

/// An error thrown by ActionScript code, carried back to the caller of a
/// native method.
#[derive(Debug, Clone, PartialEq, Eq)]
pub struct Error {
    pub message: String,
}

impl Error {
    /// A copy of the error.
    pub fn duplicate(&self) -> (e: Error)
        ensures
            e == *self,
    {
        Error { message: self.message.clone() }
    }
}

/// A part of the Flash API that the player does not implement yet, met
/// while running a movie: the class, and what in it is missing.
#[derive(Debug, Clone, PartialEq, Eq)]
pub struct Stub {
    pub class: String,
    pub specifics: String,
}

/// Whether `stubs` already records the stub `class` / `specifics`.
pub open spec fn has_stub(stubs: Seq<Stub>, class: Seq<char>, specifics: Seq<char>) -> bool {
    exists|i: int|
        0 <= i < stubs.len() && #[trigger] stubs[i].class@ == class && stubs[i].specifics@
            == specifics
}

/// Whether `after` is the record `before` once the stub `class` /
/// `specifics` has been met: unchanged where it was already recorded, else
/// with the stub added at the end.
pub open spec fn stub_encountered(
    before: Seq<Stub>,
    after: Seq<Stub>,
    class: Seq<char>,
    specifics: Seq<char>,
) -> bool {
    if has_stub(before, class, specifics) {
        after == before
    } else {
        &&& after.len() == before.len() + 1
        &&& after.take(before.len() as int) == before
        &&& after.last().class@ == class
        &&& after.last().specifics@ == specifics
    }
}

/// The state of the AVM2 virtual machine that a native method of the
/// `Namespace` class consults.
#[derive(Debug, Clone)]
pub struct Activation {
    /// The API version that the root movie was compiled for.
    pub root_api_version: ApiVersion,
    /// The public namespace `""` of the base API version.
    pub public_namespace_base_version: Namespace,
    /// The stubs met so far, each once, in the order they were first met.
    pub stubs: Vec<Stub>,
}

impl Activation {
    /// Whether the base public namespace is what its name says: the public
    /// namespace with the empty URI.
    pub open spec fn wf(self) -> bool {
        self.public_namespace_base_version matches Namespace::Namespace(uri, _) && uri@
            == Seq::<char>::empty()
    }

    /// The state of a virtual machine that runs a root movie of API version
    /// `root_api_version`, where `base_api_version` is the version that the
    /// base public namespace belongs to; no stub has been met yet.
    pub fn new(root_api_version: ApiVersion, base_api_version: ApiVersion) -> (a: Activation)
        ensures
            a.wf(),
            a.root_api_version == root_api_version,
            a.public_namespace_base_version matches Namespace::Namespace(_, v) && v
                == base_api_version,
            a.stubs@ == Seq::<Stub>::empty(),
    {
        Activation {
            root_api_version,
            public_namespace_base_version: Namespace::package(String::new(), base_api_version),
            stubs: Vec::new(),
        }
    }

    /// Records that the stub `class` / `specifics` was met, unless it was
    /// met before.
    pub fn encounter_stub(&mut self, class: &str, specifics: &str)
        ensures
            final(self).root_api_version == old(self).root_api_version,
            final(self).public_namespace_base_version == old(self).public_namespace_base_version,
            stub_encountered(old(self).stubs@, final(self).stubs@, class@, specifics@),
    {
        let class_name = String::from_str(class);
        let detail = String::from_str(specifics);
        let n = self.stubs.len();
        let mut i: usize = 0;
        while i < n
            invariant
                n == self.stubs@.len(),
                i <= n,
                class_name@ == class@,
                detail@ == specifics@,
                forall|j: int|
                    0 <= j < i ==> !(#[trigger] self.stubs@[j].class@ == class@
                        && self.stubs@[j].specifics@ == specifics@),
            decreases n - i,
        {
            if self.stubs[i].class == class_name && self.stubs[i].specifics == detail {
                assert(has_stub(self.stubs@, class@, specifics@));
                return;
            }
            i = i + 1;
        }
        let ghost before = self.stubs@;
        self.stubs.push(Stub { class: class_name, specifics: detail });
        proof {
            assert(!has_stub(before, class@, specifics@));
            assert(self.stubs@.take(before.len() as int) =~= before);
        }
    }
}

} // verus!
