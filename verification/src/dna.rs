//! The application descriptor: an immutable snapshot mapping zome names to
//! executable code and to named capabilities.
//!
//! This core only reads the descriptor: it resolves a call descriptor to a
//! capability (or a specific lookup failure) and locates the code blob of the
//! target zome. Lookup is by name, first match.

use vstd::prelude::*;

use crate::call::{CallId, ZomeFnCall};
use crate::capability::Capability;
use crate::error::{
    capability_not_found_error, spec_capability_not_found_msg, spec_zome_not_found_msg,
    zome_not_found_error, DnaErrorView, HolochainError, HolochainErrorView,
};

verus! {

/// One named unit of the application: its capabilities and its code blob.
pub struct Zome {
    pub capabilities: Vec<(String, Capability)>,
    pub code: Vec<u8>,
}

/// Mathematical model of a [`Zome`].
pub ghost struct ZomeView {
    pub capabilities: Seq<(Seq<char>, Capability)>,
    pub code: Seq<u8>,
}

impl View for Zome {
    type V = ZomeView;

    open spec fn view(&self) -> ZomeView {
        ZomeView {
            capabilities: self.capabilities@.map(
                |i: int, p: (String, Capability)| (p.0@, p.1),
            ),
            code: self.code@,
        }
    }
}

/// The application descriptor: a name and the zomes it carries.
pub struct Dna {
    pub name: String,
    pub zomes: Vec<(String, Zome)>,
}

/// Mathematical model of a [`Dna`].
pub ghost struct DnaView {
    pub name: Seq<char>,
    pub zomes: Seq<(Seq<char>, ZomeView)>,
}

impl View for Dna {
    type V = DnaView;

    open spec fn view(&self) -> DnaView {
        DnaView {
            name: self.name@,
            zomes: self.zomes@.map(|i: int, p: (String, Zome)| (p.0@, p.1@)),
        }
    }
}

/// First zome whose name equals `name`, if any.
pub open spec fn find_zome(zomes: Seq<(Seq<char>, ZomeView)>, name: Seq<char>) -> Option<ZomeView>
    decreases zomes.len(),
{
    if zomes.len() == 0 {
        None
    } else if zomes[0].0 == name {
        Some(zomes[0].1)
    } else {
        find_zome(zomes.drop_first(), name)
    }
}

/// First capability whose name equals `name`, if any.
pub open spec fn find_capability(caps: Seq<(Seq<char>, Capability)>, name: Seq<char>) -> Option<
    Capability,
>
    decreases caps.len(),
{
    if caps.len() == 0 {
        None
    } else if caps[0].0 == name {
        Some(caps[0].1)
    } else {
        find_capability(caps.drop_first(), name)
    }
}

/// The pure capability resolution decision: the capability named by the call,
/// or the specific lookup failure.
pub open spec fn spec_resolve_capability(dna: DnaView, c: CallId) -> Result<
    Capability,
    HolochainErrorView,
> {
    match find_zome(dna.zomes, c.zome_name) {
        None => Err(
            HolochainErrorView::Dna(DnaErrorView::ZomeNotFound(spec_zome_not_found_msg(c.zome_name))),
        ),
        Some(zome) => match find_capability(zome.capabilities, c.cap_name) {
            None => Err(
                HolochainErrorView::Dna(
                    DnaErrorView::CapabilityNotFound(
                        spec_capability_not_found_msg(c.cap_name, c.zome_name),
                    ),
                ),
            ),
            Some(cap) => Ok(cap),
        },
    }
}

impl Dna {
    /// The zome named `zome_name`, if any.
    pub fn get_zome(&self, zome_name: &String) -> (r: Option<&Zome>)
        ensures
            match r {
                Some(z) => find_zome(self@.zomes, zome_name@) == Some(z@),
                None => find_zome(self@.zomes, zome_name@) is None,
            },
    {
        let n = self.zomes.len();
        let mut i: usize = 0;
        proof {
            assert(self@.zomes.skip(0) =~= self@.zomes);
        }
        while i < n
            invariant
                i <= n,
                n == self.zomes.len(),
                find_zome(self@.zomes, zome_name@) == find_zome(
                    self@.zomes.skip(i as int),
                    zome_name@,
                ),
            decreases n - i,
        {
            proof {
                assert(self@.zomes[i as int] == (self.zomes@[i as int].0@, self.zomes@[i as int].1@));
                assert(self@.zomes.skip(i as int)[0] == self@.zomes[i as int]);
            }
            if self.zomes[i].0 == *zome_name {
                return Some(&self.zomes[i].1);
            }
            proof {
                assert(self@.zomes.skip(i as int).drop_first() =~= self@.zomes.skip(i + 1));
            }
            i = i + 1;
        }
        proof {
            assert(self@.zomes.skip(n as int) =~= Seq::<(Seq<char>, ZomeView)>::empty());
        }
        None
    }

    /// The code blob of the zome named `zome_name`, if that zome exists.
    pub fn get_wasm_from_zome_name(&self, zome_name: &String) -> (r: Option<&Vec<u8>>)
        ensures
            match r {
                Some(w) => find_zome(self@.zomes, zome_name@) matches Some(z) && z.code == w@,
                None => find_zome(self@.zomes, zome_name@) is None,
            },
    {
        match self.get_zome(zome_name) {
            Some(zome) => Some(&zome.code),
            None => None,
        }
    }

    /// The capability of `zome` named `cap_name`, if any.
    fn get_capability(zome: &Zome, cap_name: &String) -> (r: Option<Capability>)
        ensures
            match r {
                Some(c) => find_capability(zome@.capabilities, cap_name@) == Some(c),
                None => find_capability(zome@.capabilities, cap_name@) is None,
            },
    {
        let n = zome.capabilities.len();
        let mut i: usize = 0;
        proof {
            assert(zome@.capabilities.skip(0) =~= zome@.capabilities);
        }
        while i < n
            invariant
                i <= n,
                n == zome.capabilities.len(),
                find_capability(zome@.capabilities, cap_name@) == find_capability(
                    zome@.capabilities.skip(i as int),
                    cap_name@,
                ),
            decreases n - i,
        {
            proof {
                assert(zome@.capabilities[i as int] == (
                    zome.capabilities@[i as int].0@,
                    zome.capabilities@[i as int].1,
                ));
                assert(zome@.capabilities.skip(i as int)[0] == zome@.capabilities[i as int]);
            }
            if zome.capabilities[i].0 == *cap_name {
                return Some(zome.capabilities[i].1);
            }
            proof {
                assert(zome@.capabilities.skip(i as int).drop_first() =~= zome@.capabilities.skip(
                    i + 1,
                ));
            }
            i = i + 1;
        }
        proof {
            assert(zome@.capabilities.skip(n as int) =~= Seq::<(Seq<char>, Capability)>::empty());
        }
        None
    }
}

/// Law: capability resolution is idempotent. It is a pure decision over the
/// application descriptor and the call's identity, so re-resolving the same
/// descriptor against an unchanged application descriptor yields the same
/// decision, membrane included.
pub proof fn lemma_resolution_idempotent(
    dna: DnaView,
    c: CallId,
    r1: Result<Capability, HolochainErrorView>,
    r2: Result<Capability, HolochainErrorView>,
)
    requires
        r1 == spec_resolve_capability(dna, c),
        r2 == spec_resolve_capability(dna, c),
    ensures
        r1 == r2,
{
}

/// Resolve the capability a call addresses, or report the specific lookup
/// failure: the missing zome, or the missing capability within it.
pub fn get_capability_with_zome_call(dna: &Dna, zome_call: &ZomeFnCall) -> (r: Result<
    Capability,
    HolochainError,
>)
    ensures
        match r {
            Ok(cap) => spec_resolve_capability(dna@, zome_call@) == Ok::<
                Capability,
                HolochainErrorView,
            >(cap),
            Err(e) => spec_resolve_capability(dna@, zome_call@) == Err::<
                Capability,
                HolochainErrorView,
            >(e@),
        },
{
    match dna.get_zome(&zome_call.zome_name) {
        None => Err(zome_not_found_error(zome_call.zome_name.as_str())),
        Some(zome) => match Dna::get_capability(zome, &zome_call.cap_name) {
            None => Err(
                capability_not_found_error(
                    zome_call.cap_name.as_str(),
                    zome_call.zome_name.as_str(),
                ),
            ),
            Some(cap) => Ok(cap),
        },
    }
}

} // verus!
