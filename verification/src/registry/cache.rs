//! A cache of the registry's IBC paths, keyed by path name, for lookups by
//! chain pair and filtering by channel tag.
use vstd::prelude::*;
use crate::error::ChainRegistryError;
use crate::registry::paths::{IBCPath, IBCPathView, Tag, Tags};
use crate::registry::{ibc_path_name, lemma_ibc_path_name_symmetric, text_order, TextOrder};
use crate::table::StrMap;
use crate::text::{concat_str, str_chars, string_from_chars};

verus! {

/// Whether the tags of a channel carry `tag`'s value.
pub open spec fn tag_holds(tag: Tag, tags: Tags) -> bool {
    match tag {
        Tag::Dex(d) => tags.dex@ == d@,
        Tag::Preferred(p) => tags.preferred == p,
        Tag::Properties(p) => tags.properties@ == p@,
        Tag::Status(s) => tags.status@ == s@,
    }
}

/// The paths of `paths` whose first channel carries `tag`, in order.
pub open spec fn tagged_paths(paths: Seq<IBCPathView>, tag: Tag) -> Seq<IBCPathView>
    decreases paths.len(),
{
    if paths.len() == 0 {
        Seq::empty()
    } else {
        let rest = tagged_paths(paths.drop_last(), tag);
        if tag_holds(tag, paths.last().channels[0].tags) {
            rest.push(paths.last())
        } else {
            rest
        }
    }
}

/// Filtering paths by a tag keeps exactly the paths whose first channel has
/// the tag's value, each only if it is among the paths: for
/// `Tag::Preferred(p)` each kept path's first channel has `preferred == p`,
/// for the text tags the channel's `dex`, `properties` or `status` equals the
/// given text, and every path with that value is kept.
pub proof fn lemma_tagged_paths_carry_the_tag(paths: Seq<IBCPathView>, tag: Tag)
    requires
        forall|i: int| 0 <= i < paths.len() ==> (#[trigger] paths[i]).channels.len() > 0,
    ensures
        forall|q: IBCPathView| #[trigger] tagged_paths(paths, tag).contains(q) ==> paths.contains(q),
        forall|i: int|
            0 <= i < tagged_paths(paths, tag).len() ==> match tag {
                Tag::Dex(d) => (#[trigger] tagged_paths(paths, tag)[i]).channels[0].tags.dex@ == d@,
                Tag::Preferred(p) => tagged_paths(paths, tag)[i].channels[0].tags.preferred == p,
                Tag::Properties(t) => tagged_paths(paths, tag)[i].channels[0].tags.properties@ == t@,
                Tag::Status(t) => tagged_paths(paths, tag)[i].channels[0].tags.status@ == t@,
            },
        forall|i: int|
            0 <= i < paths.len() && match tag {
                Tag::Dex(d) => (#[trigger] paths[i]).channels[0].tags.dex@ == d@,
                Tag::Preferred(p) => paths[i].channels[0].tags.preferred == p,
                Tag::Properties(t) => paths[i].channels[0].tags.properties@ == t@,
                Tag::Status(t) => paths[i].channels[0].tags.status@ == t@,
            } ==> tagged_paths(paths, tag).contains(paths[i]),
    decreases paths.len(),
{
    if paths.len() > 0 {
        let pre = paths.drop_last();
        assert forall|i: int| 0 <= i < pre.len() implies (#[trigger] pre[i]).channels.len() > 0 by {
            assert(pre[i] == paths[i]);
        }
        lemma_tagged_paths_carry_the_tag(pre, tag);
        let rest = tagged_paths(pre, tag);
        let t = tagged_paths(paths, tag);
        assert(paths.last() == paths[paths.len() - 1]);
        assert forall|q: IBCPathView| #[trigger] t.contains(q) implies paths.contains(q) by {
            if rest.contains(q) {
                let k = choose|k: int| 0 <= k < pre.len() && pre[k] == q;
                assert(paths[k] == q);
            } else {
                assert(q == paths.last());
            }
        }
        assert forall|i: int| 0 <= i < paths.len() && match tag {
            Tag::Dex(d) => (#[trigger] paths[i]).channels[0].tags.dex@ == d@,
            Tag::Preferred(p) => paths[i].channels[0].tags.preferred == p,
            Tag::Properties(x) => paths[i].channels[0].tags.properties@ == x@,
            Tag::Status(x) => paths[i].channels[0].tags.status@ == x@,
        } implies t.contains(paths[i]) by {
            if i < pre.len() {
                assert(pre[i] == paths[i]);
                assert(rest.contains(paths[i]));
                if tag_holds(tag, paths.last().channels[0].tags) {
                    let k = choose|k: int| 0 <= k < rest.len() && rest[k] == paths[i];
                    assert(t[k] == paths[i]);
                }
            } else {
                assert(t.last() == paths[i]);
            }
        }
    }
}

/// The path between chains `a` and `b` in `m`: none for a chain and itself,
/// else the one stored under their path name, if any.
pub open spec fn path_lookup(m: Map<Seq<char>, IBCPathView>, a: Seq<char>, b: Seq<char>) -> Option<IBCPathView> {
    if a == b {
        None
    } else if m.contains_key(ibc_path_name(a, b)) {
        Some(m[ibc_path_name(a, b)])
    } else {
        None
    }
}

/// Looking up the path between two chains gives the same answer in either
/// order of the chains.
pub proof fn lemma_path_lookup_symmetric(m: Map<Seq<char>, IBCPathView>, a: Seq<char>, b: Seq<char>)
    ensures
        path_lookup(m, a, b) == path_lookup(m, b, a),
{
    lemma_ibc_path_name_symmetric(a, b);
}

/// The views of paths.
pub open spec fn path_views(paths: Seq<IBCPath>) -> Seq<IBCPathView> {
    paths.map_values(|p: IBCPath| p@)
}

/// IBC paths of the chain registry, keyed by path name.
pub struct RegistryCache {
    paths: StrMap<IBCPath>,
}

impl View for RegistryCache {
    type V = Map<Seq<char>, IBCPathView>;

    closed spec fn view(&self) -> Map<Seq<char>, IBCPathView> {
        self.paths@.map_values(|p: IBCPath| p@)
    }
}

impl RegistryCache {
    /// The cached paths in the order they were added.
    pub closed spec fn path_seq(&self) -> Seq<IBCPathView> {
        self.paths.entry_seq().map_values(|e: (String, IBCPath)| e.1@)
    }

    /// States how the ordered paths make up the cache: each is the path
    /// stored under its name, and each stored path is among them. It computes
    /// nothing.
    fn paths_describe_cache(&self)
        ensures
            forall|i: int| 0 <= i < self.path_seq().len() ==> self@.values().contains(#[trigger] self.path_seq()[i]),
            forall|k: Seq<char>| #[trigger] self@.contains_key(k) ==> exists|i: int| 0 <= i < self.path_seq().len()
                && self.path_seq()[i] == self@[k],
    {
        self.paths.entries_describe_map();
        assert forall|k: Seq<char>| #[trigger] self@.contains_key(k) implies exists|i: int| 0 <= i < self.path_seq().len()
            && self.path_seq()[i] == self@[k] by {
            assert(self.paths@.contains_key(k));
            let i = choose|i: int| 0 <= i < self.paths.entry_seq().len() && (#[trigger] self.paths.entry_seq()[i]).0@ == k;
            assert(self.path_seq()[i] == self@[k]);
        }
        assert forall|i: int| 0 <= i < self.path_seq().len() implies self@.values().contains(
            #[trigger] self.path_seq()[i],
        ) by {
            let k = self.paths.entry_seq()[i].0@;
            assert(self.paths@.contains_key(k));
            assert(self@.contains_key(k));
            assert(self@[k] == self.paths@[k]@);
            assert(self.path_seq()[i] == self.paths.entry_seq()[i].1@);
        }
    }

    /// An empty cache.
    pub fn new() -> (c: RegistryCache)
        ensures
            c@ == Map::<Seq<char>, IBCPathView>::empty(),
            c.path_seq().len() == 0,
    {
        let c = RegistryCache { paths: StrMap::new() };
        assert(c@ =~= Map::<Seq<char>, IBCPathView>::empty());
        c
    }

    /// Stores `path` under the path name `name`, replacing a path stored under
    /// that name.
    pub fn insert_path(&mut self, name: String, path: IBCPath)
        ensures
            final(self)@ == old(self)@.insert(name@, path@),
            !old(self)@.contains_key(name@) ==> final(self).path_seq() == old(self).path_seq().push(path@),
            old(self)@.contains_key(name@) ==> exists|k: int|
                0 <= k < old(self).path_seq().len() && #[trigger] old(self).path_seq()[k] == old(self)@[name@]
                    && final(self).path_seq() == old(self).path_seq().update(k, path@),
    {
        let ghost v = path@;
        let ghost name_view = name@;
        let ghost entry = (name, path);
        self.paths.entries_describe_map();
        self.paths.insert(name, path);
        assert(self@ =~= old(self)@.insert(name_view, v));
        proof {
            if old(self)@.contains_key(name_view) {
                let k = choose|k: int|
                    0 <= k < old(self).paths.entry_seq().len() && (#[trigger] old(self).paths.entry_seq()[k]).0@
                        == name_view && self.paths.entry_seq() == old(self).paths.entry_seq().update(k, entry);
                assert(self.path_seq() =~= old(self).path_seq().update(k, v));
                assert(old(self).path_seq()[k] == old(self)@[name_view]);
            } else {
                assert(self.path_seq() =~= old(self).path_seq().push(v));
            }
        }
    }

    /// The cached path between `chain_a` and `chain_b`, looked up under the
    /// path name that orders the two names; none for a chain and itself.
    pub fn get_path(&self, chain_a: &str, chain_b: &str) -> (r: Result<Option<IBCPath>, ChainRegistryError>)
        ensures
            r is Ok,
            r matches Ok(p) ==> match p {
                Some(path) => path_lookup(self@, chain_a@, chain_b@) == Some(path@),
                None => path_lookup(self@, chain_a@, chain_b@) is None,
            },
    {
        let name = match text_order(chain_a, chain_b) {
            TextOrder::Less => {
                let n = concat_str(chain_a, "-");
                concat_str(n.as_str(), chain_b)
            },
            TextOrder::Equal => {
                return Ok(None);
            },
            TextOrder::Greater => {
                let n = concat_str(chain_b, "-");
                concat_str(n.as_str(), chain_a)
            },
        };
        assert(name@ =~= ibc_path_name(chain_a@, chain_b@));
        match self.paths.get(name.as_str()) {
            Some(p) => Ok(Some(p.clone())),
            None => Ok(None),
        }
    }

    /// The cached paths whose first channel carries the value of `tag`, in the
    /// order they were added.
    pub fn get_paths_filtered(&self, tag: Tag) -> (r: Result<Vec<IBCPath>, ChainRegistryError>)
        requires
            forall|k: Seq<char>| #[trigger] self@.contains_key(k) ==> self@[k].channels.len() > 0,
        ensures
            r is Ok,
            r matches Ok(v) ==> path_views(v@) == tagged_paths(self.path_seq(), tag),
            r matches Ok(v) ==> forall|i: int|
                0 <= i < v@.len() ==> match tag {
                    Tag::Dex(d) => (#[trigger] v@[i])@.channels[0].tags.dex@ == d@,
                    Tag::Preferred(p) => v@[i]@.channels[0].tags.preferred == p,
                    Tag::Properties(t) => v@[i]@.channels[0].tags.properties@ == t@,
                    Tag::Status(t) => v@[i]@.channels[0].tags.status@ == t@,
                },
            r matches Ok(v) ==> forall|k: Seq<char>|
                #[trigger] self@.contains_key(k) && match tag {
                    Tag::Dex(d) => self@[k].channels[0].tags.dex@ == d@,
                    Tag::Preferred(p) => self@[k].channels[0].tags.preferred == p,
                    Tag::Properties(t) => self@[k].channels[0].tags.properties@ == t@,
                    Tag::Status(t) => self@[k].channels[0].tags.status@ == t@,
                } ==> path_views(v@).contains(self@[k]),
    {
        self.paths_describe_cache();
        proof {
            let ps = self.path_seq();
            assert forall|i: int| 0 <= i < ps.len() implies (#[trigger] ps[i]).channels.len() > 0 by {
                assert(self@.values().contains(ps[i]));
                let k = choose|k: Seq<char>| #[trigger] self@.contains_key(k) && self@[k] == ps[i];
            }
            lemma_tagged_paths_carry_the_tag(ps, tag);
        }
        let ghost ps = self.path_seq();
        let n = self.paths.len();
        let mut out: Vec<IBCPath> = Vec::new();
        let mut i: usize = 0;
        while i < n
            invariant
                ps == self.path_seq(),
                n == ps.len(),
                i <= n,
                forall|j: int| 0 <= j < ps.len() ==> (#[trigger] ps[j]).channels.len() > 0,
                path_views(out@) == tagged_paths(ps.take(i as int), tag),
            decreases n - i,
        {
            proof {
                assert(ps.take(i + 1).drop_last() =~= ps.take(i as int));
                assert(ps.take(i + 1).last() == ps[i as int]);
            }
            let (_, p) = self.paths.entry_at(i);
            assert(p@ == ps[i as int]);
            let tags = &p.channels[0].tags;
            let holds = match &tag {
                Tag::Dex(d) => crate::text::str_eq(tags.dex.as_str(), d.as_str()),
                Tag::Preferred(b) => tags.preferred == *b,
                Tag::Properties(s) => crate::text::str_eq(tags.properties.as_str(), s.as_str()),
                Tag::Status(s) => crate::text::str_eq(tags.status.as_str(), s.as_str()),
            };
            if holds {
                let ghost before = out@;
                out.push(p.clone());
                assert(path_views(out@) =~= path_views(before).push(ps[i as int]));
            }
            i = i + 1;
        }
        assert(ps.take(n as int) =~= ps);
        assert forall|i: int| 0 <= i < out@.len() implies (#[trigger] out@[i])@ == tagged_paths(ps, tag)[i] by {
            assert(path_views(out@)[i] == out@[i]@);
        }
        assert forall|k: Seq<char>|
            #[trigger] self@.contains_key(k) && match tag {
                Tag::Dex(d) => self@[k].channels[0].tags.dex@ == d@,
                Tag::Preferred(p) => self@[k].channels[0].tags.preferred == p,
                Tag::Properties(t) => self@[k].channels[0].tags.properties@ == t@,
                Tag::Status(t) => self@[k].channels[0].tags.status@ == t@,
            } implies path_views(out@).contains(self@[k]) by {
            let i = choose|i: int| 0 <= i < ps.len() && ps[i] == self@[k];
            assert(ps[i] == self@[k]);
        }
        Ok(out)
    }
}

/// The text before the first `-` of `s` (all of `s` when it has none).
pub open spec fn before_dash(s: Seq<char>) -> Seq<char>
    decreases s.len(),
{
    if s.len() == 0 || s[0] == '-' {
        Seq::empty()
    } else {
        seq![s[0]] + before_dash(s.drop_first())
    }
}

/// The text after the first `-` of `s`, if it has one.
pub open spec fn after_dash(s: Seq<char>) -> Option<Seq<char>>
    decreases s.len(),
{
    if s.len() == 0 {
        None
    } else if s[0] == '-' {
        Some(s.drop_first())
    } else {
        after_dash(s.drop_first())
    }
}

proof fn lemma_dash_split(s: Seq<char>, i: int)
    requires
        0 <= i <= s.len(),
        forall|j: int| 0 <= j < i ==> s[j] != '-',
    ensures
        before_dash(s) == s.subrange(0, i) + before_dash(s.subrange(i, s.len() as int)),
        after_dash(s) == after_dash(s.subrange(i, s.len() as int)),
    decreases i,
{
    if i > 0 {
        lemma_dash_split(s.drop_first(), i - 1);
        assert(s.drop_first().subrange(i - 1, s.len() - 1) =~= s.subrange(i, s.len() as int));
        assert(s.subrange(0, i) =~= seq![s[0]] + s.drop_first().subrange(0, i - 1));
    } else {
        assert(s.subrange(0, s.len() as int) =~= s);
    }
}

/// The first `-`-separated piece of `cs` from position `start`, and where
/// it ends.
fn piece_from(cs: &Vec<char>, start: usize) -> (r: (Vec<char>, usize))
    requires
        start <= cs@.len(),
    ensures
        start <= r.1 <= cs@.len(),
        r.0@ == cs@.subrange(start as int, r.1 as int),
        forall|j: int| start <= j < r.1 ==> cs@[j] != '-',
        r.1 < cs@.len() ==> cs@[r.1 as int] == '-',
{
    let mut out: Vec<char> = Vec::new();
    let mut i: usize = start;
    while i < cs.len() && cs[i] != '-'
        invariant
            start <= i <= cs@.len(),
            out@ == cs@.subrange(start as int, i as int),
            forall|j: int| start <= j < i ==> cs@[j] != '-',
        decreases cs.len() - i,
    {
        out.push(cs[i]);
        i = i + 1;
    }
    (out, i)
}

/// The two chain names of a path name such as `cosmoshub-osmosis`: the text
/// before its first `-` and the text after it up to the next `-`; none when
/// it has no `-`.
pub fn split_path_name(name: &str) -> (r: Option<(String, String)>)
    ensures
        r is None <==> after_dash(name@) is None,
        r is Some ==> r->Some_0.0@ == before_dash(name@) && r->Some_0.1@ == before_dash(after_dash(name@)->Some_0),
{
    let cs = str_chars(name);
    let (first, end) = piece_from(&cs, 0);
    proof {
        lemma_dash_split(name@, end as int);
        let rest = name@.subrange(end as int, name@.len() as int);
        if end < cs.len() {
            assert(rest[0] == '-');
            assert(before_dash(rest) == Seq::<char>::empty());
            assert(rest.drop_first() =~= name@.subrange(end + 1, name@.len() as int));
        } else {
            assert(rest.len() == 0);
        }
        assert(first@ =~= name@.subrange(0, end as int) + before_dash(rest));
    }
    if end == cs.len() {
        return None;
    }
    let (second, stop) = piece_from(&cs, end + 1);
    proof {
        let tail = name@.subrange(end + 1, name@.len() as int);
        let k = stop - (end + 1);
        assert forall|j: int| 0 <= j < k implies tail[j] != '-' by {
            assert(tail[j] == name@[end + 1 + j]);
        }
        lemma_dash_split(tail, k);
        let after = tail.subrange(k, tail.len() as int);
        assert(after =~= name@.subrange(stop as int, name@.len() as int));
        if stop < cs.len() {
            assert(after[0] == '-');
        }
        assert(second@ =~= tail.subrange(0, k) + before_dash(after));
    }
    Some((string_from_chars(&first), string_from_chars(&second)))
}

} // verus!
