//! What servers were found to publish, kept by the server's name until an
//! update makes use of it.
//!
//! The cache is a list of entries in which no server stands twice; its
//! model is the map from the servers' names to what they published.

use crate::check_game::{VersionsInfo, VersionsInfoView};
use crate::text::lemma_push_deep_view;
use vstd::prelude::*;

verus! {

/// What one server published.
pub struct CacheEntry {
    pub server: String,
    pub versions: VersionsInfo,
}

/// The mathematical model of a [`CacheEntry`].
pub struct CacheEntryView {
    pub server: Seq<char>,
    pub versions: VersionsInfoView,
}

impl DeepView for CacheEntry {
    type V = CacheEntryView;

    open spec fn deep_view(&self) -> CacheEntryView {
        CacheEntryView { server: self.server@, versions: self.versions@ }
    }
}

/// The map that a list of entries stands for; of two entries for one server
/// the later one counts.
pub open spec fn as_map(entries: Seq<CacheEntryView>) -> Map<Seq<char>, VersionsInfoView>
    decreases entries.len(),
{
    if entries.len() == 0 {
        Map::empty()
    } else {
        as_map(entries.drop_last()).insert(entries.last().server, entries.last().versions)
    }
}

/// Does no server stand twice in the list?
pub open spec fn distinct(entries: Seq<CacheEntryView>) -> bool {
    forall|i: int, j: int|
        0 <= i < j < entries.len() ==> (#[trigger] entries[i]).server != (
        #[trigger] entries[j]).server
}

/// A server that stands in no entry has no place in the map.
pub proof fn lemma_absent(entries: Seq<CacheEntryView>, server: Seq<char>)
    requires
        forall|i: int| 0 <= i < entries.len() ==> (#[trigger] entries[i]).server != server,
    ensures
        !as_map(entries).contains_key(server),
    decreases entries.len(),
{
    if entries.len() > 0 {
        assert forall|i: int| 0 <= i < entries.drop_last().len() implies (
        #[trigger] entries.drop_last()[i]).server != server by {
            assert(entries.drop_last()[i] == entries[i]);
        }
        lemma_absent(entries.drop_last(), server);
        assert(entries.last() == entries[entries.len() - 1]);
    }
}

/// In a list where no server stands twice, the map holds each entry, and
/// taking an entry out of the list takes its server out of the map.
pub proof fn lemma_remove(entries: Seq<CacheEntryView>, i: int)
    requires
        distinct(entries),
        0 <= i < entries.len(),
    ensures
        as_map(entries).contains_key(entries[i].server),
        as_map(entries)[entries[i].server] == entries[i].versions,
        as_map(entries.remove(i)) == as_map(entries).remove(entries[i].server),
        distinct(entries.remove(i)),
    decreases entries.len(),
{
    let shorter = entries.drop_last();
    let last = entries.len() - 1;
    assert(distinct(entries.remove(i))) by {
        assert forall|a: int, b: int| 0 <= a < b < entries.remove(i).len() implies (
        #[trigger] entries.remove(i)[a]).server != (#[trigger] entries.remove(i)[b]).server by {
            let a0 = if a < i {
                a
            } else {
                a + 1
            };
            let b0 = if b < i {
                b
            } else {
                b + 1
            };
            assert(entries.remove(i)[a] == entries[a0]);
            assert(entries.remove(i)[b] == entries[b0]);
        }
    }
    if i == last {
        assert(entries.remove(i) =~= shorter);
        assert forall|j: int| 0 <= j < shorter.len() implies (#[trigger] shorter[j]).server
            != entries[i].server by {
            assert(shorter[j] == entries[j]);
        }
        lemma_absent(shorter, entries[i].server);
        assert(as_map(shorter) =~= as_map(entries).remove(entries[i].server));
    } else {
        assert(distinct(shorter)) by {
            assert forall|a: int, b: int| 0 <= a < b < shorter.len() implies (
            #[trigger] shorter[a]).server != (#[trigger] shorter[b]).server by {
                assert(shorter[a] == entries[a]);
                assert(shorter[b] == entries[b]);
            }
        }
        lemma_remove(shorter, i);
        assert(shorter[i] == entries[i]);
        assert(entries.remove(i).drop_last() =~= shorter.remove(i));
        assert(entries.remove(i).last() == entries.last());
        assert(entries[i].server != entries[last].server);
        assert(as_map(entries.remove(i)) =~= as_map(entries).remove(entries[i].server));
    }
}

/// What servers were found to publish, by the server's name.
pub struct UpdateCache {
    pub entries: Vec<CacheEntry>,
}

impl View for UpdateCache {
    type V = Map<Seq<char>, VersionsInfoView>;

    open spec fn view(&self) -> Map<Seq<char>, VersionsInfoView> {
        as_map(self.entries.deep_view())
    }
}

impl UpdateCache {
    /// The cache is well formed when no server stands twice in its list.
    pub open spec fn wf(&self) -> bool {
        distinct(self.entries.deep_view())
    }

    /// A cache without an entry.
    pub fn new() -> (r: UpdateCache)
        ensures
            r.wf(),
            r@ == Map::<Seq<char>, VersionsInfoView>::empty(),
    {
        let entries: Vec<CacheEntry> = Vec::new();
        assert(entries.deep_view() =~= Seq::<CacheEntryView>::empty());
        UpdateCache { entries }
    }

    /// The place of the server's entry in the list, if it has one.
    fn find(&self, server: &str) -> (r: Option<usize>)
        ensures
            match r {
                Some(i) => i < self.entries.len() && self.entries[i as int].server@ == server@,
                None => forall|i: int|
                    0 <= i < self.entries.len() ==> (#[trigger] self.entries.deep_view()[i]).server
                        != server@,
            },
    {
        let key = server.to_owned();
        let mut i: usize = 0;
        while i < self.entries.len()
            invariant
                i <= self.entries.len(),
                key@ == server@,
                forall|j: int|
                    0 <= j < i ==> (#[trigger] self.entries.deep_view()[j]).server != server@,
            decreases self.entries.len() - i,
        {
            if self.entries[i].server == key {
                return Some(i);
            }
            i += 1;
        }
        None
    }

    /// Is there an entry for the server?
    pub fn contains(&self, server: &str) -> (r: bool)
        requires
            self.wf(),
        ensures
            r == self@.contains_key(server@),
    {
        match self.find(server) {
            Some(i) => {
                proof {
                    lemma_remove(self.entries.deep_view(), i as int);
                }
                true
            },
            None => {
                proof {
                    lemma_absent(self.entries.deep_view(), server@);
                }
                false
            },
        }
    }

    /// Takes the server's entry out and hands out what it held, if there is one.
    pub fn remove(&mut self, server: &str) -> (r: Option<VersionsInfo>)
        requires
            old(self).wf(),
        ensures
            final(self).wf(),
            final(self)@ == old(self)@.remove(server@),
            r.deep_view() == if old(self)@.contains_key(server@) {
                Some(old(self)@[server@])
            } else {
                None
            },
    {
        match self.find(server) {
            Some(i) => {
                proof {
                    lemma_remove(self.entries.deep_view(), i as int);
                }
                let ghost before = self.entries;
                let entry = self.entries.remove(i);
                assert(self.entries.deep_view() =~= before.deep_view().remove(i as int));
                Some(entry.versions)
            },
            None => {
                proof {
                    lemma_absent(self.entries.deep_view(), server@);
                    assert(self@ =~= old(self)@.remove(server@));
                }
                None
            },
        }
    }

    /// Enters what the server published, in place of what was entered for
    /// it before.
    pub fn insert(&mut self, server: String, versions: VersionsInfo)
        requires
            old(self).wf(),
        ensures
            final(self).wf(),
            final(self)@ == old(self)@.insert(server@, versions@),
    {
        let _ = self.remove(server.as_str());
        let ghost removed = self.entries;
        assert forall|i: int| 0 <= i < removed.len() implies (
        #[trigger] removed.deep_view()[i]).server != server@ by {
            if removed.deep_view()[i].server == server@ {
                lemma_remove(removed.deep_view(), i);
            }
        }
        let entry = CacheEntry { server, versions };
        self.entries.push(entry);
        proof {
            lemma_push_deep_view(removed, self.entries, entry);
            assert(self.entries.deep_view().drop_last() =~= removed.deep_view());
            assert(self@ =~= old(self)@.insert(server@, versions@));
        }
    }
}

} // verus!
