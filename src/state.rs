use crate::error::OrchError;
use crate::network::NetworkKind;
use vstd::prelude::*;

verus! {

/// What the store knows of one contract name: an address once it was
/// instantiated, a code id once it was uploaded.
#[derive(Debug, Clone)]
pub struct DeploymentRecord {
    pub address: Option<String>,
    pub code_id: Option<u64>,
}

/// A record seen as plain values: the address text and the code id.
pub type RecordView = (Option<Seq<char>>, Option<u64>);

impl DeploymentRecord {
    pub open spec fn view(&self) -> RecordView {
        (
            match self.address {
                Some(a) => Some(a@),
                None => None,
            },
            self.code_id,
        )
    }
}

/// The record held for `name` in a list of entries; the last entry for a name wins.
pub open spec fn lookup(s: Seq<(String, DeploymentRecord)>, name: Seq<char>) -> Option<RecordView>
    decreases s.len(),
{
    if s.len() == 0 {
        None
    } else if s.last().0@ == name {
        Some(s.last().1.view())
    } else {
        lookup(s.drop_last(), name)
    }
}

/// Replacing the last entry for a name changes what that name maps to, and nothing else.
proof fn lemma_lookup_update(
    s: Seq<(String, DeploymentRecord)>,
    i: int,
    e: (String, DeploymentRecord),
    k: Seq<char>,
)
    requires
        0 <= i < s.len(),
        s[i].0@ == e.0@,
        forall|j: int| i < j < s.len() ==> s[j].0@ != e.0@,
    ensures
        lookup(s.update(i, e), k) == if k == e.0@ {
            Some(e.1.view())
        } else {
            lookup(s, k)
        },
    decreases s.len(),
{
    let t = s.update(i, e);
    if i == s.len() - 1 {
        assert(t.drop_last() =~= s.drop_last());
    } else {
        assert(t.drop_last() =~= s.drop_last().update(i, e));
        lemma_lookup_update(s.drop_last(), i, e, k);
    }
}

/// Deployment bookkeeping of one deployment on one network: for each contract
/// name, its address and its code id.
pub struct DeployState {
    pub chain_id: String,
    pub kind: NetworkKind,
    pub deployment_id: String,
    pub entries: Vec<(String, DeploymentRecord)>,
}

impl DeployState {
    /// The record of `name`, if the store has one.
    pub open spec fn record(&self, name: Seq<char>) -> Option<RecordView> {
        lookup(self.entries@, name)
    }

    /// The address stored for `name`.
    pub open spec fn address_of(&self, name: Seq<char>) -> Option<Seq<char>> {
        match self.record(name) {
            Some(r) => r.0,
            None => None,
        }
    }

    /// The code id stored for `name`.
    pub open spec fn code_id_of(&self, name: Seq<char>) -> Option<u64> {
        match self.record(name) {
            Some(r) => r.1,
            None => None,
        }
    }

    /// `post` is this store with `address` recorded for `name`, all else kept.
    pub open spec fn is_address_update(&self, post: &Self, name: Seq<char>, address: Seq<char>) -> bool {
        &&& forall|n: Seq<char>| #[trigger] post.address_of(n) == if n == name {
            Some(address)
        } else {
            self.address_of(n)
        }
        &&& forall|n: Seq<char>| #[trigger] post.code_id_of(n) == self.code_id_of(n)
        &&& post.chain_id == self.chain_id
        &&& post.kind == self.kind
        &&& post.deployment_id == self.deployment_id
    }

    /// `post` is this store with `code_id` recorded for `name`, all else kept.
    pub open spec fn is_code_id_update(&self, post: &Self, name: Seq<char>, code_id: u64) -> bool {
        &&& forall|n: Seq<char>| #[trigger] post.code_id_of(n) == if n == name {
            Some(code_id)
        } else {
            self.code_id_of(n)
        }
        &&& forall|n: Seq<char>| #[trigger] post.address_of(n) == self.address_of(n)
        &&& post.chain_id == self.chain_id
        &&& post.kind == self.kind
        &&& post.deployment_id == self.deployment_id
    }

    /// An empty store for a deployment: every name is undeployed.
    pub fn new(chain_id: String, kind: NetworkKind, deployment_id: String) -> (r: Self)
        ensures
            r.chain_id == chain_id,
            r.kind == kind,
            r.deployment_id == deployment_id,
            forall|n: Seq<char>| #[trigger] r.record(n) is None,
    {
        DeployState { chain_id, kind, deployment_id, entries: Vec::new() }
    }

    /// Index of the last entry for `name`, if any.
    fn find(&self, name: &String) -> (r: Option<usize>)
        ensures
            match r {
                Some(i) => i < self.entries@.len() && self.entries@[i as int].0@ == name@
                    && forall|j: int| i < j < self.entries@.len() ==> self.entries@[j].0@ != name@,
                None => forall|j: int| 0 <= j < self.entries@.len() ==> self.entries@[j].0@ != name@,
            },
            r is None ==> self.record(name@) is None,
            r matches Some(i) ==> self.record(name@) == Some(self.entries@[i as int].1.view()),
    {
        let mut i: usize = self.entries.len();
        proof {
            assert(self.entries@.subrange(0, i as int) =~= self.entries@);
        }
        while i > 0
            invariant
                i <= self.entries@.len(),
                forall|j: int| i <= j < self.entries@.len() ==> self.entries@[j].0@ != name@,
                lookup(self.entries@.subrange(0, i as int), name@) == lookup(self.entries@, name@),
            decreases i,
        {
            proof {
                assert(self.entries@.subrange(0, i as int).drop_last() =~= self.entries@.subrange(
                    0,
                    i - 1,
                ));
            }
            if self.entries[i - 1].0 == *name {
                return Some(i - 1);
            }
            i = i - 1;
        }
        proof {
            assert(self.entries@.subrange(0, 0) =~= Seq::<(String, DeploymentRecord)>::empty());
        }
        None
    }

    /// The address of `name`; `AddressNotSet` where it was never instantiated.
    pub fn get_address(&self, name: &String) -> (r: Result<String, OrchError>)
        ensures
            r is Ok <==> self.address_of(name@) is Some,
            r matches Ok(a) ==> Some(a@) == self.address_of(name@),
            r matches Err(e) ==> e matches OrchError::AddressNotSet(n) && n@ == name@,
    {
        match self.find(name) {
            Some(i) => match &self.entries[i].1.address {
                Some(a) => Ok(a.clone()),
                None => Err(OrchError::AddressNotSet(name.clone())),
            },
            None => Err(OrchError::AddressNotSet(name.clone())),
        }
    }

    /// The code id of `name`; `CodeIdNotSet` where it was never uploaded.
    pub fn get_code_id(&self, name: &String) -> (r: Result<u64, OrchError>)
        ensures
            r is Ok <==> self.code_id_of(name@) is Some,
            r matches Ok(c) ==> Some(c) == self.code_id_of(name@),
            r matches Err(e) ==> e matches OrchError::CodeIdNotSet(n) && n@ == name@,
    {
        match self.find(name) {
            Some(i) => match self.entries[i].1.code_id {
                Some(c) => Ok(c),
                None => Err(OrchError::CodeIdNotSet(name.clone())),
            },
            None => Err(OrchError::CodeIdNotSet(name.clone())),
        }
    }

    /// Writes `rec` as the record of `name`, whatever it held before.
    fn put(&mut self, name: &String, rec: DeploymentRecord)
        ensures
            forall|n: Seq<char>| #[trigger] final(self).record(n) == if n == name@ {
                Some(rec.view())
            } else {
                old(self).record(n)
            },
            final(self).chain_id == old(self).chain_id,
            final(self).kind == old(self).kind,
            final(self).deployment_id == old(self).deployment_id,
    {
        let ghost before = self.entries@;
        match self.find(name) {
            Some(i) => {
                let e = (name.clone(), rec);
                proof {
                    assert forall|n: Seq<char>| #[trigger] lookup(before.update(i as int, e), n) == if n == name@ {
                        Some(rec.view())
                    } else {
                        lookup(before, n)
                    } by {
                        lemma_lookup_update(before, i as int, e, n);
                    }
                }
                self.entries.set(i, e);
            },
            None => {
                self.entries.push((name.clone(), rec));
                proof {
                    assert(self.entries@.drop_last() =~= before);
                }
            },
        }
    }

    /// Records `address` as the address of `name`; its code id is kept.
    pub fn set_address(&mut self, name: &String, address: &String)
        ensures
            old(self).is_address_update(final(self), name@, address@),
    {
        let code_id = match self.find(name) {
            Some(i) => self.entries[i].1.code_id,
            None => None,
        };
        let rec = DeploymentRecord { address: Some(address.clone()), code_id };
        self.put(name, rec);
        proof {
            assert forall|n: Seq<char>| #[trigger] final(self).code_id_of(n) == old(self).code_id_of(n) by {
                assert(final(self).record(n) == if n == name@ { Some(rec.view()) } else { old(self).record(n) });
            }
            assert forall|n: Seq<char>| #[trigger] final(self).address_of(n) == (if n == name@ { Some(address@) } else { old(self).address_of(n) }) by {
                assert(final(self).record(n) == if n == name@ { Some(rec.view()) } else { old(self).record(n) });
            }
        }
    }

    /// Records `code_id` as the code id of `name`; its address is kept.
    pub fn set_code_id(&mut self, name: &String, code_id: u64)
        ensures
            old(self).is_code_id_update(final(self), name@, code_id),
    {
        let address = match self.find(name) {
            Some(i) => self.entries[i].1.address.clone(),
            None => None,
        };
        let rec = DeploymentRecord { address, code_id: Some(code_id) };
        self.put(name, rec);
        proof {
            assert forall|n: Seq<char>| #[trigger] final(self).code_id_of(n) == (if n == name@ { Some(code_id) } else { old(self).code_id_of(n) }) by {
                assert(final(self).record(n) == if n == name@ { Some(rec.view()) } else { old(self).record(n) });
            }
            assert forall|n: Seq<char>| #[trigger] final(self).address_of(n) == old(self).address_of(n) by {
                assert(final(self).record(n) == if n == name@ { Some(rec.view()) } else { old(self).record(n) });
            }
        }
    }
}

} // verus!
