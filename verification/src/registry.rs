use vstd::prelude::*;
use vstd::string::StringExecFns;

use crate::error::{Error, ErrorKind};

verus! {

/// One entry of the backend table: a stable identifier and whether a launcher
/// for it was compiled into this build. A backend that is known but not
/// compiled keeps its identifier with `available == false`, so a
/// configuration error stays distinguishable from a misspelled name.
pub struct BackendDescriptor {
    pub id: String,
    pub available: bool,
}

/// True when some entry of `table` carries the identifier `name`.
pub open spec fn spec_has_id(table: Seq<BackendDescriptor>, name: Seq<char>) -> bool {
    exists|i: int| 0 <= i < table.len() && (#[trigger] table[i].id@) == name
}

/// True when `i` is the position of the first entry carrying `name`.
pub open spec fn spec_is_first_id(table: Seq<BackendDescriptor>, name: Seq<char>, i: int) -> bool {
    &&& 0 <= i < table.len()
    &&& table[i].id@ == name
    &&& forall|j: int| 0 <= j < i ==> (#[trigger] table[j].id@) != name
}

/// True when some entry of `table` is compiled in.
pub open spec fn spec_has_available(table: Seq<BackendDescriptor>) -> bool {
    exists|i: int| 0 <= i < table.len() && (#[trigger] table[i].available)
}

/// True when `i` is the position of the first compiled-in entry.
pub open spec fn spec_is_first_available(table: Seq<BackendDescriptor>, i: int) -> bool {
    &&& 0 <= i < table.len()
    &&& table[i].available
    &&& forall|j: int| 0 <= j < i ==> !(#[trigger] table[j].available)
}

/// Resolves a backend over `table`.
///
/// With an explicit name, the first entry with that identifier decides: its
/// position if it is compiled in, `Unavailable` if it is known but not
/// compiled, `NotFound` if no entry carries the name. With no name, the first
/// compiled-in entry in table order wins; `Unavailable` if there is none.
/// The table's order is part of the contract: the first listed entry wins.
pub fn find(table: &Vec<BackendDescriptor>, name: Option<&str>) -> (r: Result<usize, Error>)
    ensures
        match name {
            Some(n) => match r {
                Ok(k) => spec_is_first_id(table@, n@, k as int) && table@[k as int].available,
                Err(e) => {
                    &&& (e.kind == ErrorKind::NotFound || e.kind == ErrorKind::Unavailable)
                    &&& (e.kind == ErrorKind::NotFound <==> !spec_has_id(table@, n@))
                    &&& (e.kind == ErrorKind::Unavailable ==> exists|i: int|
                        #[trigger] spec_is_first_id(table@, n@, i) && !table@[i].available)
                },
            },
            None => match r {
                Ok(k) => spec_is_first_available(table@, k as int),
                Err(e) => e.kind == ErrorKind::Unavailable && !spec_has_available(table@),
            },
        },
{
    match name {
        Some(n) => {
            let wanted = String::from_str(n);
            let mut i: usize = 0;
            while i < table.len()
                invariant
                    name == Some(n),
                    0 <= i <= table@.len(),
                    wanted@ == n@,
                    forall|j: int| 0 <= j < i ==> (#[trigger] table@[j].id@) != n@,
                decreases table@.len() - i,
            {
                if table[i].id == wanted {
                    if table[i].available {
                        proof {
                            assert(spec_is_first_id(table@, n@, i as int));
                        }
                        return Ok(i);
                    } else {
                        proof {
                            assert(spec_is_first_id(table@, n@, i as int));
                            assert(spec_has_id(table@, n@));
                        }
                        return Err(Error::unavailable(
                            "built without support for the requested zeroconf backend",
                        ));
                    }
                }
                i = i + 1;
            }
            Err(Error::not_found("unknown zeroconf backend"))
        },
        None => {
            let mut i: usize = 0;
            while i < table.len()
                invariant
                    name is None,
                    0 <= i <= table@.len(),
                    forall|j: int| 0 <= j < i ==> !(#[trigger] table@[j].available),
                decreases table@.len() - i,
            {
                if table[i].available {
                    return Ok(i);
                }
                i = i + 1;
            }
            Err(Error::unavailable("built without zeroconf backends"))
        },
    }
}

/// The default backend table in priority order. The order is stable API: the
/// first compiled-in entry is the one an unnamed lookup resolves to.
pub fn default_backends(avahi: bool, dns_sd: bool, libmdns: bool) -> (r: Vec<BackendDescriptor>)
    ensures
        r@.len() == 3,
        r@[0].id@ == "avahi"@ && r@[0].available == avahi,
        r@[1].id@ == "dns-sd"@ && r@[1].available == dns_sd,
        r@[2].id@ == "libmdns"@ && r@[2].available == libmdns,
{
    let mut table: Vec<BackendDescriptor> = Vec::new();
    table.push(BackendDescriptor { id: String::from_str("avahi"), available: avahi });
    table.push(BackendDescriptor { id: String::from_str("dns-sd"), available: dns_sd });
    table.push(BackendDescriptor { id: String::from_str("libmdns"), available: libmdns });
    table
}

} // verus!
