//! Resolution of a process owner's display name: a user-database lookup
//! memoized in a cache that is passed through the whole run.

use vstd::prelude::*;

verus! {

/// The name a cache holds for a uid, if any.
pub open spec fn cache_get(s: Seq<(u32, Seq<char>)>, uid: u32) -> Option<Seq<char>>
    decreases s.len(),
{
    if s.len() == 0 {
        None
    } else if s.last().0 == uid {
        Some(s.last().1)
    } else {
        cache_get(s.drop_last(), uid)
    }
}

/// Appending a pair resolves a query for its uid to its name and leaves
/// every other query as it was.
pub proof fn lemma_cache_get_push(s: Seq<(u32, Seq<char>)>, p: (u32, Seq<char>), uid: u32)
    ensures
        cache_get(s.push(p), uid) == if p.0 == uid {
            Some(p.1)
        } else {
            cache_get(s, uid)
        },
{
    assert(s.push(p).drop_last() =~= s);
}

/// A uid without a cached name occurs in no entry.
proof fn lemma_cache_get_none_absent(s: Seq<(u32, Seq<char>)>, uid: u32)
    requires
        cache_get(s, uid) is None,
    ensures
        forall|k: int| 0 <= k < s.len() ==> (#[trigger] s[k]).0 != uid,
    decreases s.len(),
{
    if s.len() > 0 {
        lemma_cache_get_none_absent(s.drop_last(), uid);
        assert(forall|k: int| 0 <= k < s.len() - 1 ==> s.drop_last()[k] == s[k]);
    }
}

/// What one `display_name` call guarantees: a cached uid is answered from
/// the cache with no lookup; an uncached uid costs one lookup, whose name,
/// when the database has one, is cached and returned, and whose failure
/// leaves the cache as it was and answers with the empty string.
pub open spec fn display_name_post(
    pre: Seq<(u32, Seq<char>)>,
    pre_lookups: nat,
    post: Seq<(u32, Seq<char>)>,
    post_lookups: nat,
    uid: u32,
    r: Seq<char>,
) -> bool {
    &&& (cache_get(pre, uid) matches Some(n) ==> post == pre && post_lookups == pre_lookups
        && r == n)
    &&& (cache_get(pre, uid) is None ==> {
        &&& post_lookups == if pre_lookups < u64::MAX as nat {
            pre_lookups + 1
        } else {
            pre_lookups
        }
        &&& (cache_get(post, uid) matches Some(n) ==> r == n && post == pre.push((uid, r)))
        &&& (cache_get(post, uid) is None ==> post == pre && r == Seq::<char>::empty())
    })
}

/// Relies on users::get_user_by_uid: a read of the host's user database by
/// user id, `None` where no such user exists; the record's name comes back
/// with any ill-formed bytes replaced.  What comes back depends on the
/// host's user database, so nothing more is stated of it.
#[verifier::external_body]
fn fetch_user_name(uid: u32) -> Option<String> {
    users::get_user_by_uid(uid).map(|u| u.name().to_string_lossy().into_owned())
}

/// The uid → display-name cache of one report run: populated lazily, one
/// entry per uid, never evicted.  It also counts the user-database lookups
/// it has performed.
pub struct OwnerCache {
    entries: Vec<(u32, String)>,
    n_lookups: u64,
}

impl View for OwnerCache {
    type V = Seq<(u32, Seq<char>)>;

    /// The cached pairs, uid and name, oldest first.
    closed spec fn view(&self) -> Seq<(u32, Seq<char>)> {
        Seq::new(self.entries@.len(), |i: int| (self.entries@[i].0, self.entries@[i].1@))
    }
}

impl OwnerCache {
    /// How many user-database lookups this cache has performed.
    pub closed spec fn lookups(&self) -> nat {
        self.n_lookups as nat
    }

    /// At most one entry per uid.
    pub open spec fn wf(&self) -> bool {
        forall|i: int, j: int|
            0 <= i < j < self@.len() ==> (#[trigger] self@[i]).0 != (#[trigger] self@[j]).0
    }

    /// An empty cache that has performed no lookup.
    pub fn new() -> (c: OwnerCache)
        ensures
            c.wf(),
            c@ == Seq::<(u32, Seq<char>)>::empty(),
            c.lookups() == 0,
    {
        let c = OwnerCache { entries: Vec::new(), n_lookups: 0 };
        proof {
            assert(c@ =~= Seq::<(u32, Seq<char>)>::empty());
        }
        c
    }

    /// The cached name for a uid, if one is cached.
    fn find(&self, uid: u32) -> (r: Option<String>)
        ensures
            r is None ==> cache_get(self@, uid) is None,
            r matches Some(name) ==> cache_get(self@, uid) == Some(name@),
    {
        let mut i: usize = self.entries.len();
        proof {
            assert(self@.take(i as int) =~= self@);
        }
        while i > 0
            invariant
                i <= self.entries.len(),
                cache_get(self@, uid) == cache_get(self@.take(i as int), uid),
            decreases i,
        {
            let e = &self.entries[i - 1];
            proof {
                assert(self@.take(i as int).last() == self@[i as int - 1]);
                assert(self@.take(i as int).drop_last() =~= self@.take(i as int - 1));
            }
            if e.0 == uid {
                return Some(e.1.clone());
            }
            i -= 1;
        }
        None
    }

    /// How many user-database lookups this cache has performed so far.
    pub fn lookup_count(&self) -> (n: u64)
        ensures
            n as nat == self.lookups(),
    {
        self.n_lookups
    }

    /// Put a known uid → name pair into the cache as an already-resolved
    /// entry, with no lookup; a uid already cached is left as it is.
    pub fn record(&mut self, uid: u32, name: String)
        requires
            old(self).wf(),
        ensures
            final(self).wf(),
            final(self).lookups() == old(self).lookups(),
            cache_get(old(self)@, uid) is None ==> final(self)@ == old(self)@.push((uid, name@)),
            cache_get(old(self)@, uid) is Some ==> final(self)@ == old(self)@,
    {
        match self.find(uid) {
            Some(_) => (),
            None => {
                let ghost pre = self@;
                proof {
                    lemma_cache_get_none_absent(pre, uid);
                }
                self.entries.push((uid, name));
                proof {
                    assert(self@ =~= pre.push((uid, name@)));
                }
            },
        }
    }

    /// The display name of a uid: from the cache when cached, otherwise by
    /// one user-database lookup, whose result is cached on success and
    /// replaced by the empty string — uncached — on failure.
    pub fn display_name(&mut self, uid: u32) -> (r: String)
        requires
            old(self).wf(),
        ensures
            final(self).wf(),
            display_name_post(
                old(self)@,
                old(self).lookups(),
                final(self)@,
                final(self).lookups(),
                uid,
                r@,
            ),
    {
        match self.find(uid) {
            Some(name) => name,
            None => {
                let ghost pre = self@;
                proof {
                    lemma_cache_get_none_absent(pre, uid);
                }
                if self.n_lookups < u64::MAX {
                    self.n_lookups = self.n_lookups + 1;
                }
                match fetch_user_name(uid) {
                    Some(name) => {
                        let r = name.clone();
                        self.entries.push((uid, name));
                        proof {
                            assert(self@ =~= pre.push((uid, r@)));
                            lemma_cache_get_push(pre, (uid, r@), uid);
                        }
                        r
                    },
                    None => String::new(),
                }
            },
        }
    }
}

/// Law: one uid, one lookup.  A call that leaves the uid's name cached
/// settles every further query for that uid: the repeat answers from the
/// cache with the same name, performs no lookup, and changes nothing.
pub proof fn lemma_second_query_needs_no_lookup(
    c0: Seq<(u32, Seq<char>)>,
    n0: nat,
    c1: Seq<(u32, Seq<char>)>,
    n1: nat,
    c2: Seq<(u32, Seq<char>)>,
    n2: nat,
    uid: u32,
    r1: Seq<char>,
    r2: Seq<char>,
)
    requires
        display_name_post(c0, n0, c1, n1, uid, r1),
        cache_get(c1, uid) is Some,
        display_name_post(c1, n1, c2, n2, uid, r2),
    ensures
        r2 == r1,
        c2 == c1,
        n2 == n1,
        cache_get(c0, uid) is None && n0 < u64::MAX as nat ==> n1 == n0 + 1,
{
}

} // verus!
