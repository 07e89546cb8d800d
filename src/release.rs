use vstd::prelude::*;

verus! {

/// The map that a list of (name, location) pairs stands for; a later pair
/// wins over an earlier one with the same name.
pub open spec fn pairs_map(s: Seq<(String, String)>) -> Map<Seq<char>, Seq<char>>
    decreases s.len(),
{
    if s.len() == 0 {
        Map::empty()
    } else {
        pairs_map(s.drop_last()).insert(s.last().0@, s.last().1@)
    }
}

/// No two pairs share a name.
pub open spec fn names_unique(s: Seq<(String, String)>) -> bool {
    forall|i: int, j: int|
        0 <= i < s.len() && 0 <= j < s.len() && i != j ==> #[trigger] s[i].0@ != #[trigger] s[j].0@
}

proof fn lemma_pairs_map_domain(s: Seq<(String, String)>, k: Seq<char>)
    ensures
        pairs_map(s).contains_key(k) <==> exists|i: int| 0 <= i < s.len() && #[trigger] s[i].0@ == k,
    decreases s.len(),
{
    if s.len() > 0 {
        let p = s.drop_last();
        lemma_pairs_map_domain(p, k);
        if pairs_map(s).contains_key(k) {
            if s.last().0@ != k {
                let i = choose|i: int| 0 <= i < p.len() && #[trigger] p[i].0@ == k;
                assert(s[i] == p[i]);
            }
        }
        if exists|i: int| 0 <= i < s.len() && #[trigger] s[i].0@ == k {
            let i = choose|i: int| 0 <= i < s.len() && #[trigger] s[i].0@ == k;
            if i < s.len() - 1 {
                assert(p[i] == s[i]);
            }
        }
    }
}

proof fn lemma_pairs_map_at(s: Seq<(String, String)>, i: int)
    requires
        names_unique(s),
        0 <= i < s.len(),
    ensures
        pairs_map(s).contains_key(s[i].0@),
        pairs_map(s)[s[i].0@] == s[i].1@,
    decreases s.len(),
{
    let p = s.drop_last();
    if i < s.len() - 1 {
        assert(p[i] == s[i]);
        assert(names_unique(p)) by {
            assert forall|a: int, b: int|
                0 <= a < p.len() && 0 <= b < p.len() && a != b implies #[trigger] p[a].0@
                != #[trigger] p[b].0@ by {
                assert(p[a] == s[a] && p[b] == s[b]);
            }
        }
        lemma_pairs_map_at(p, i);
        assert(s[s.len() - 1].0@ != s[i].0@);
    }
}

proof fn lemma_pairs_map_update(s: Seq<(String, String)>, i: int, q: (String, String))
    requires
        names_unique(s),
        0 <= i < s.len(),
        s[i].0@ == q.0@,
    ensures
        names_unique(s.update(i, q)),
        pairs_map(s.update(i, q)) == pairs_map(s).insert(q.0@, q.1@),
    decreases s.len(),
{
    let t = s.update(i, q);
    assert(names_unique(t)) by {
        assert forall|a: int, b: int|
            0 <= a < t.len() && 0 <= b < t.len() && a != b implies #[trigger] t[a].0@
            != #[trigger] t[b].0@ by {
            assert(t[a].0@ == s[a].0@ && t[b].0@ == s[b].0@);
        }
    }
    let p = s.drop_last();
    if i == s.len() - 1 {
        assert(t.drop_last() == p);
        // the earlier pairs do not mention the name being replaced
        assert(!pairs_map(p).contains_key(q.0@)) by {
            lemma_pairs_map_domain(p, q.0@);
            if exists|j: int| 0 <= j < p.len() && #[trigger] p[j].0@ == q.0@ {
                let j = choose|j: int| 0 <= j < p.len() && #[trigger] p[j].0@ == q.0@;
                assert(s[j] == p[j]);
            }
        }
        assert(pairs_map(t) =~= pairs_map(s).insert(q.0@, q.1@));
    } else {
        assert(names_unique(p)) by {
            assert forall|a: int, b: int|
                0 <= a < p.len() && 0 <= b < p.len() && a != b implies #[trigger] p[a].0@
                != #[trigger] p[b].0@ by {
                assert(p[a] == s[a] && p[b] == s[b]);
            }
        }
        lemma_pairs_map_update(p, i, q);
        assert(t.drop_last() == p.update(i, q));
        assert(s.last().0@ != q.0@);
        assert(pairs_map(t) =~= pairs_map(s).insert(q.0@, q.1@));
    }
}

/// One published release: its version and where each of its assets can be
/// downloaded, by asset name (names are unique).
#[derive(Debug, PartialEq, Eq)]
pub struct ReleaseInfo {
    version: String,
    assets: Vec<(String, String)>,
}

impl ReleaseInfo {
    pub closed spec fn wf(&self) -> bool {
        names_unique(self.assets@)
    }

    pub closed spec fn version_view(&self) -> Seq<char> {
        self.version@
    }

    /// Asset name to download location.
    pub closed spec fn assets_view(&self) -> Map<Seq<char>, Seq<char>> {
        pairs_map(self.assets@)
    }

    /// A release with no assets yet.
    pub fn new(version: String) -> (r: ReleaseInfo)
        ensures
            r.wf(),
            r.version_view() == version@,
            r.assets_view() == Map::<Seq<char>, Seq<char>>::empty(),
    {
        ReleaseInfo { version, assets: Vec::new() }
    }

    pub fn version(&self) -> (r: &String)
        ensures
            r@ == self.version_view(),
    {
        &self.version
    }

    /// Number of distinct assets.
    pub fn asset_count(&self) -> (r: usize)
        requires
            self.wf(),
        ensures
            r == self.assets_view().len(),
    {
        proof {
            self.lemma_len();
        }
        self.assets.len()
    }

    /// Sets where the asset `name` is downloaded from, replacing any
    /// location it had.
    pub fn insert_asset(&mut self, name: String, location: String)
        requires
            old(self).wf(),
        ensures
            final(self).wf(),
            final(self).version_view() == old(self).version_view(),
            final(self).assets_view() == old(self).assets_view().insert(name@, location@),
    {
        let n = self.assets.len();
        let mut i: usize = 0;
        while i < n
            invariant
                n == self.assets@.len(),
                names_unique(self.assets@),
                self.version@ == old(self).version@,
                self.assets@ == old(self).assets@,
                0 <= i <= n,
                forall|j: int| 0 <= j < i ==> #[trigger] self.assets@[j].0@ != name@,
            decreases n - i,
        {
            if self.assets[i].0 == name {
                proof {
                    lemma_pairs_map_update(self.assets@, i as int, (name, location));
                }
                self.assets.set(i, (name, location));
                return;
            }
            i = i + 1;
        }
        let ghost s = self.assets@;
        self.assets.push((name, location));
        proof {
            let t = self.assets@;
            assert(t.drop_last() == s);
            assert forall|a: int, b: int|
                0 <= a < t.len() && 0 <= b < t.len() && a != b implies #[trigger] t[a].0@
                != #[trigger] t[b].0@ by {
                if a < s.len() && b < s.len() {
                    assert(t[a] == s[a] && t[b] == s[b]);
                } else if a < s.len() {
                    assert(t[a] == s[a]);
                } else {
                    assert(t[b] == s[b]);
                }
            }
        }
    }

    /// Where the asset `name` is downloaded from, if the release has it.
    pub fn asset(&self, name: &String) -> (r: Option<&String>)
        requires
            self.wf(),
        ensures
            r is Some <==> self.assets_view().contains_key(name@),
            r is Some ==> r->0@ == self.assets_view()[name@],
    {
        let n = self.assets.len();
        let mut i: usize = 0;
        while i < n
            invariant
                n == self.assets@.len(),
                names_unique(self.assets@),
                0 <= i <= n,
                forall|j: int| 0 <= j < i ==> #[trigger] self.assets@[j].0@ != name@,
            decreases n - i,
        {
            if self.assets[i].0 == *name {
                proof {
                    lemma_pairs_map_at(self.assets@, i as int);
                }
                return Some(&self.assets[i].1);
            }
            i = i + 1;
        }
        proof {
            lemma_pairs_map_domain(self.assets@, name@);
        }
        None
    }

    proof fn lemma_len(&self)
        requires
            self.wf(),
        ensures
            self.assets@.len() == self.assets_view().len(),
    {
        lemma_unique_len(self.assets@);
    }
}

proof fn lemma_unique_len(s: Seq<(String, String)>)
    requires
        names_unique(s),
    ensures
        pairs_map(s).dom().finite(),
        pairs_map(s).len() == s.len(),
    decreases s.len(),
{
    if s.len() > 0 {
        let p = s.drop_last();
        assert(names_unique(p)) by {
            assert forall|a: int, b: int|
                0 <= a < p.len() && 0 <= b < p.len() && a != b implies #[trigger] p[a].0@
                != #[trigger] p[b].0@ by {
                assert(p[a] == s[a] && p[b] == s[b]);
            }
        }
        lemma_unique_len(p);
        lemma_pairs_map_domain(p, s.last().0@);
        if pairs_map(p).contains_key(s.last().0@) {
            let j = choose|j: int| 0 <= j < p.len() && #[trigger] p[j].0@ == s.last().0@;
            assert(s[j] == p[j]);
        }
    }
}

/// The releases offered on each channel, newest first.
#[derive(Debug, PartialEq, Eq)]
pub struct ReleaseChannelsInfo {
    pub stable: Vec<ReleaseInfo>,
    pub nightly: Vec<ReleaseInfo>,
}

/// What is installed locally.
#[derive(Debug, PartialEq, Eq)]
pub struct InstallationInfo {
    pub version: String,
    pub is_apk_downloaded: bool,
    /// Only relevant on Windows.
    pub has_session_json: bool,
}

} // verus!
