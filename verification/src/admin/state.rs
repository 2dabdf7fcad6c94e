//! The ledger's persistent state, as one explicit value.

use vstd::prelude::*;
use crate::admin::contract::{NEW_VERSION, OLD_VERSION};
use crate::host::views;

verus! {

/// The four slots of the ledger: the admins in the order of their admission,
/// the denomination of donations, the recorded version, and the verifier's
/// address.
#[derive(Clone, Debug, PartialEq, Eq)]
pub struct LedgerState {
    pub admins: Vec<String>,
    pub donation_denom: String,
    pub version: u32,
    pub verifier: String,
}

pub struct LedgerView {
    pub admins: Seq<Seq<char>>,
    pub donation_denom: Seq<char>,
    pub version: u32,
    pub verifier: Seq<char>,
}

impl View for LedgerState {
    type V = LedgerView;

    open spec fn view(&self) -> LedgerView {
        LedgerView {
            admins: views(self.admins@),
            donation_denom: self.donation_denom@,
            version: self.version,
            verifier: self.verifier@,
        }
    }
}

impl LedgerState {
    /// No address is an admin twice, and the version is one of the two that
    /// the ledger knows.
    pub open spec fn wf(&self) -> bool {
        &&& self@.admins.no_duplicates()
        &&& OLD_VERSION <= self.version <= NEW_VERSION
    }

    /// Tests the invariant on a state that was put together by hand.
    pub fn is_valid(&self) -> (r: bool)
        ensures
            r == self.wf(),
    {
        if self.version < OLD_VERSION || self.version > NEW_VERSION {
            return false;
        }
        let mut i: usize = 0;
        while i < self.admins.len()
            invariant
                i <= self.admins.len(),
                views(self.admins@).take(i as int).no_duplicates(),
            decreases self.admins.len() - i,
        {
            if find(&self.admins, i, &self.admins[i]).is_some() {
                proof {
                    let s = views(self.admins@);
                    let k = choose|k: int| 0 <= k < i && s.take(i as int)[k] == s[i as int];
                    assert(s[k] == s[i as int]);
                }
                return false;
            }
            proof {
                let s = views(self.admins@);
                let t = s.take(i + 1);
                let u = s.take(i as int);
                assert(!u.contains(s[i as int]));
                assert forall|a: int, b: int|
                    0 <= a < t.len() && 0 <= b < t.len() && a != b implies #[trigger] t[a]
                    != #[trigger] t[b] by {
                    if a < i && b < i {
                        assert(u[a] != u[b]);
                    } else if a < i {
                        assert(u[a] == t[a]);
                    } else {
                        assert(u[b] == t[b]);
                    }
                }
            }
            i += 1;
        }
        proof {
            assert(views(self.admins@).take(self.admins.len() as int) =~= views(self.admins@));
        }
        true
    }
}

/// Membership in the admin set: exact equality with one of its addresses.
pub open spec fn is_admin(admins: Seq<Seq<char>>, addr: Seq<char>) -> bool {
    admins.contains(addr)
}

/// The first place among the first `upto` addresses that holds `addr`.
pub fn find(admins: &Vec<String>, upto: usize, addr: &String) -> (r: Option<usize>)
    requires
        upto <= admins.len(),
    ensures
        r is Some <==> views(admins@).take(upto as int).contains(addr@),
        r matches Some(k) ==> k < upto && admins[k as int]@ == addr@ && forall|j: int|
            0 <= j < k ==> admins[j]@ != addr@,
{
    let mut i: usize = 0;
    while i < upto
        invariant
            i <= upto <= admins.len(),
            forall|j: int| 0 <= j < i ==> admins[j]@ != addr@,
        decreases upto - i,
    {
        if admins[i] == *addr {
            assert(views(admins@).take(upto as int)[i as int] == addr@);
            return Some(i);
        }
        i += 1;
    }
    None
}

/// Whether `addr` is one of `admins`.
pub fn is_member(admins: &Vec<String>, addr: &String) -> (r: bool)
    ensures
        r == is_admin(views(admins@), addr@),
{
    let r = find(admins, admins.len(), addr).is_some();
    assert(views(admins@).take(admins.len() as int) =~= views(admins@));
    r
}

} // verus!
