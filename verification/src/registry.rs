//! The tenant registry: which tenant is attached to which store adapter.
//! The registry is verified against a map model from tenant identity to
//! adapter; attach inserts (replacing any prior adapter), detach removes,
//! and a drain empties the whole map at shutdown. The embedding runtime
//! guards one registry value with a reader/writer lock and keeps each
//! mutation to the instant of the map change itself.

use vstd::prelude::*;

use crate::adapter::{StoreAdapter, StoreAdapterConfig, StoreError};
use crate::model::join_parts;

verus! {

/// The tenant-to-adapter mapping. At most one adapter is attached per
/// tenant identity at any time; insertion order is irrelevant.
pub struct TenantRegistry {
    entries: Vec<(String, StoreAdapter)>,
}

/// The map that a sequence of entries denotes: later entries win, though a
/// well-formed registry never repeats an identity.
pub open spec fn entries_map(s: Seq<(String, StoreAdapter)>) -> Map<Seq<char>, StoreAdapter>
    decreases s.len(),
{
    if s.len() == 0 {
        Map::empty()
    } else {
        entries_map(s.drop_last()).insert(s.last().0@, s.last().1)
    }
}

/// No two entries share a tenant identity.
pub open spec fn entries_unique(s: Seq<(String, StoreAdapter)>) -> bool {
    forall|i: int, j: int| 0 <= i < j < s.len() ==> s[i].0@ != s[j].0@
}

proof fn lemma_entries_map_contains(s: Seq<(String, StoreAdapter)>, k: Seq<char>)
    ensures
        entries_map(s).contains_key(k) <==> exists|i: int| 0 <= i < s.len() && s[i].0@ == k,
    decreases s.len(),
{
    if s.len() > 0 {
        lemma_entries_map_contains(s.drop_last(), k);
        if entries_map(s).contains_key(k) {
            if s.last().0@ == k {
                assert(s[s.len() - 1].0@ == k);
            } else {
                let i = choose|i: int| 0 <= i < s.drop_last().len() && s.drop_last()[i].0@ == k;
                assert(s[i].0@ == k);
            }
        }
        if exists|i: int| 0 <= i < s.len() && s[i].0@ == k {
            let i = choose|i: int| 0 <= i < s.len() && s[i].0@ == k;
            if i < s.len() - 1 {
                assert(s.drop_last()[i].0@ == k);
            }
        }
    }
}

proof fn lemma_entries_map_at(s: Seq<(String, StoreAdapter)>, i: int)
    requires
        entries_unique(s),
        0 <= i < s.len(),
    ensures
        entries_map(s).contains_key(s[i].0@),
        entries_map(s)[s[i].0@] == s[i].1,
    decreases s.len(),
{
    if i < s.len() - 1 {
        assert(entries_unique(s.drop_last()));
        lemma_entries_map_at(s.drop_last(), i);
        assert(s.last().0@ != s[i].0@);
        assert(s.drop_last()[i] == s[i]);
    }
}

proof fn lemma_entries_map_remove(s: Seq<(String, StoreAdapter)>, i: int)
    requires
        entries_unique(s),
        0 <= i < s.len(),
    ensures
        entries_map(s.remove(i)) =~= entries_map(s).remove(s[i].0@),
    decreases s.len(),
{
    if i == s.len() - 1 {
        assert(s.remove(i) =~= s.drop_last());
        lemma_entries_map_contains(s.drop_last(), s[i].0@);
        assert(forall|j: int|
            0 <= j < s.drop_last().len() ==> s.drop_last()[j] == s[j] && s[j].0@ != s[i].0@);
        assert(!entries_map(s.drop_last()).contains_key(s[i].0@));
    } else {
        assert(entries_unique(s.drop_last()));
        lemma_entries_map_remove(s.drop_last(), i);
        assert(s.remove(i).drop_last() =~= s.drop_last().remove(i));
        assert(s.remove(i).last() == s.last());
        assert(s.drop_last()[i] == s[i]);
        assert(entries_map(s.remove(i)) == entries_map(s.drop_last().remove(i)).insert(
            s.last().0@,
            s.last().1,
        ));
    }
}

impl TenantRegistry {
    /// The registry as the map it denotes.
    pub closed spec fn view(&self) -> Map<Seq<char>, StoreAdapter> {
        entries_map(self.entries@)
    }

    /// Internal shape: one entry per tenant identity.
    pub closed spec fn wf(&self) -> bool {
        entries_unique(self.entries@)
    }

    /// An empty registry: every tenant is unattached.
    pub fn new() -> (r: TenantRegistry)
        ensures
            r.wf(),
            r@ =~= Map::<Seq<char>, StoreAdapter>::empty(),
    {
        TenantRegistry { entries: Vec::new() }
    }

    /// The position of the entry for `tenant_id`, if one is attached.
    fn position_of(&self, tenant_id: &String) -> (r: Option<usize>)
        ensures
            match r {
                Some(i) => i < self.entries@.len() && self.entries@[i as int].0@ == tenant_id@,
                None => forall|j: int|
                    0 <= j < self.entries@.len() ==> self.entries@[j].0@ != tenant_id@,
            },
    {
        let mut i: usize = 0;
        while i < self.entries.len()
            invariant
                0 <= i <= self.entries@.len(),
                forall|j: int| 0 <= j < i ==> self.entries@[j].0@ != tenant_id@,
            decreases self.entries@.len() - i,
        {
            if self.entries[i].0 == *tenant_id {
                return Some(i);
            }
            i = i + 1;
        }
        None
    }

    /// Attaches `tenant_id` to a fresh adapter built from `config`,
    /// replacing and releasing any adapter previously attached for it.
    pub fn attach(&mut self, tenant_id: String, config: StoreAdapterConfig)
        requires
            old(self).wf(),
        ensures
            final(self).wf(),
            final(self)@ =~= old(self)@.insert(tenant_id@, (StoreAdapter { config })),
    {
        self.detach(&tenant_id);
        proof {
            lemma_entries_map_contains(self.entries@, tenant_id@);
            assert(forall|j: int|
                0 <= j < self.entries@.len() ==> self.entries@[j].0@ != tenant_id@);
        }
        let ghost mid = self.entries@;
        self.entries.push((tenant_id, StoreAdapter::new(config)));
        proof {
            assert(self.entries@.drop_last() =~= mid);
        }
    }

    /// Detaches `tenant_id`, releasing its adapter; a no-op if none is
    /// attached.
    pub fn detach(&mut self, tenant_id: &String)
        requires
            old(self).wf(),
        ensures
            final(self).wf(),
            final(self)@ =~= old(self)@.remove(tenant_id@),
    {
        match self.position_of(tenant_id) {
            None => {
                proof {
                    lemma_entries_map_contains(self.entries@, tenant_id@);
                    assert(!self@.contains_key(tenant_id@));
                }
            },
            Some(i) => {
                proof {
                    lemma_entries_map_remove(self.entries@, i as int);
                }
                self.entries.remove(i);
                proof {
                    assert(entries_unique(self.entries@));
                }
            },
        }
    }

    /// The adapter currently attached for `tenant_id`; fails iff the tenant
    /// is unattached.
    pub fn resolve(&self, tenant_id: &String) -> (r: Result<&StoreAdapter, StoreError>)
        requires
            self.wf(),
        ensures
            match r {
                Ok(a) => self@.contains_key(tenant_id@) && *a == self@[tenant_id@],
                Err(e) => !self@.contains_key(tenant_id@) && e is UnknownTenant
                    && e.message_model() == "tenant not attached: "@ + tenant_id@,
            },
    {
        proof {
            lemma_entries_map_contains(self.entries@, tenant_id@);
        }
        match self.position_of(tenant_id) {
            Some(i) => {
                proof {
                    lemma_entries_map_at(self.entries@, i as int);
                }
                Ok(&self.entries[i].1)
            },
            None => {
                let msg = join_parts("tenant not attached: ", tenant_id.as_str(), "", "");
                proof {
                    reveal_strlit("");
                    assert(msg@ =~= "tenant not attached: "@ + tenant_id@);
                }
                Err(StoreError::UnknownTenant(msg))
            },
        }
    }

    /// Detaches every tenant at shutdown; afterwards every resolution fails
    /// until new attaches occur.
    pub fn drain_all(&mut self)
        ensures
            final(self).wf(),
            final(self)@ =~= Map::<Seq<char>, StoreAdapter>::empty(),
    {
        self.entries.clear();
    }
}

} // verus!
