//! The session registry: the process-wide set of usernames currently bound
//! to an open session. Registration is a single check-then-insert step, so
//! no two concurrently active sessions ever hold the same name; release
//! removes a name and is idempotent. The caller serializes access (one
//! exclusive-access guard around the whole set).

use vstd::prelude::*;

verus! {

/// What registering `name` does to the set of active names: it fails and
/// changes nothing when the name is in use, and inserts it otherwise.
pub open spec fn register_outcome(active: Set<Seq<char>>, name: Seq<char>) -> (bool, Set<
    Seq<char>,
>) {
    if active.contains(name) {
        (false, active)
    } else {
        (true, active.insert(name))
    }
}

/// What releasing `name` does to the set of active names.
pub open spec fn release_outcome(active: Set<Seq<char>>, name: Seq<char>) -> Set<Seq<char>> {
    active.remove(name)
}

/// The registry of active usernames.
pub struct Registry {
    names: Vec<String>,
}

impl View for Registry {
    type V = Set<Seq<char>>;

    closed spec fn view(&self) -> Set<Seq<char>> {
        Set::new(|s: Seq<char>| exists|i: int| 0 <= i < self.names@.len() && self.names@[i]@ == s)
    }
}

impl Registry {
    /// The stored names, one entry per active session.
    pub closed spec fn names_seq(&self) -> Seq<Seq<char>> {
        self.names@.map_values(|x: String| x@)
    }

    /// No name is stored twice: at most one active session per username.
    pub open spec fn wf(&self) -> bool {
        forall|i: int, j: int|
            0 <= i < j < self.names_seq().len() ==> self.names_seq()[i] != self.names_seq()[j]
    }

    /// An empty registry: no session is active.
    pub fn new() -> (r: Registry)
        ensures
            r.wf(),
            r@ == Set::<Seq<char>>::empty(),
    {
        let r = Registry { names: Vec::new() };
        proof {
            assert(r@ =~= Set::<Seq<char>>::empty());
        }
        r
    }

    /// Whether `name` is currently registered.
    pub fn is_active(&self, name: &String) -> (r: bool)
        ensures
            r == self@.contains(name@),
    {
        let mut i: usize = 0;
        while i < self.names.len()
            invariant
                i <= self.names@.len(),
                forall|k: int| 0 <= k < i ==> self.names@[k]@ != name@,
            decreases self.names@.len() - i,
        {
            if self.names[i].eq(name) {
                return true;
            }
            i = i + 1;
        }
        false
    }

    /// Atomically checks membership and inserts if absent: the single
    /// critical section that makes usernames unique among active sessions.
    pub fn try_register(&mut self, name: &String) -> (r: bool)
        requires
            old(self).wf(),
        ensures
            final(self).wf(),
            r == register_outcome(old(self)@, name@).0,
            final(self)@ == register_outcome(old(self)@, name@).1,
    {
        if self.is_active(name) {
            false
        } else {
            self.names.push(name.clone());
            proof {
                assert(self.names@[self.names@.len() - 1]@ == name@);
                assert forall|s: Seq<char>| self@.contains(s) implies old(self)@.insert(
                    name@,
                ).contains(s) by {
                    let i = choose|i: int|
                        0 <= i < self.names@.len() && self.names@[i]@ == s;
                    if i < self.names@.len() - 1 {
                        assert(old(self).names@[i]@ == s);
                    }
                }
                assert forall|s: Seq<char>| old(self)@.insert(name@).contains(s) implies
                    self@.contains(s) by {
                    if s == name@ {
                        assert(self.names@[self.names@.len() - 1]@ == s);
                    } else {
                        let i = choose|i: int|
                            0 <= i < old(self).names@.len() && old(self).names@[i]@ == s;
                        assert(self.names@[i]@ == s);
                    }
                }
                assert(self@ =~= old(self)@.insert(name@));
                assert forall|i: int, j: int|
                    0 <= i < j < self.names_seq().len() implies self.names_seq()[i]
                    != self.names_seq()[j] by {
                    let n = old(self).names@;
                    assert(self.names_seq()[i] == self.names@[i]@);
                    assert(self.names_seq()[j] == self.names@[j]@);
                    assert(self.names@[i] == n[i]);
                    if j == self.names@.len() - 1 {
                        assert(!old(self)@.contains(name@));
                        assert(n[i]@ != name@);
                        assert(self.names@[j]@ == name@);
                    } else {
                        assert(self.names@[j] == n[j]);
                        assert(old(self).names_seq()[i] == n[i]@);
                        assert(old(self).names_seq()[j] == n[j]@);
                        assert(old(self).names_seq()[i] != old(self).names_seq()[j]);
                    }
                }
            }
            true
        }
    }

    /// Removes `name` if present; a no-op when it is absent, so a second
    /// release of the same name changes nothing.
    pub fn release(&mut self, name: &String)
        requires
            old(self).wf(),
        ensures
            final(self).wf(),
            final(self)@ == release_outcome(old(self)@, name@),
    {
        let mut i: usize = 0;
        while i < self.names.len()
            invariant
                i <= self.names@.len(),
                self == old(self),
                old(self).wf(),
                forall|k: int| 0 <= k < i ==> self.names@[k]@ != name@,
            decreases self.names@.len() - i,
        {
            if self.names[i].eq(name) {
                self.names.remove(i);
                proof {
                    let n = old(self).names@;
                    let m = self.names@;
                    n.remove_ensures(i as int);
                    assert forall|s: Seq<char>| self@.contains(s) implies old(self)@.remove(
                        name@,
                    ).contains(s) by {
                        let k = choose|k: int| 0 <= k < m.len() && m[k]@ == s;
                        if k < i {
                            assert(n[k]@ == s);
                            assert(s != name@);
                        } else {
                            assert(n[k + 1]@ == s);
                            assert(old(self).names_seq()[i as int] == n[i as int]@);
                            assert(old(self).names_seq()[k + 1] == n[k + 1]@);
                            assert(old(self).names_seq()[i as int] != old(self).names_seq()[
                                k + 1
                            ]);
                            assert(n[i as int]@ == name@);
                            assert(s != name@);
                        }
                    }
                    assert forall|s: Seq<char>| old(self)@.remove(name@).contains(s) implies
                        self@.contains(s) by {
                        let k = choose|k: int| 0 <= k < n.len() && n[k]@ == s;
                        if k < i {
                            assert(m[k]@ == s);
                        } else {
                            assert(k != i);
                            assert(m[k - 1]@ == s);
                        }
                    }
                    assert(self@ =~= old(self)@.remove(name@));
                    assert forall|a: int, b: int|
                        0 <= a < b < self.names_seq().len() implies self.names_seq()[a]
                        != self.names_seq()[b] by {
                        let ai: int = if a < i { a } else { a + 1 };
                        let bi: int = if b < i { b } else { b + 1 };
                        assert(m[a] == n[ai]);
                        assert(m[b] == n[bi]);
                        assert(self.names_seq()[a] == m[a]@);
                        assert(self.names_seq()[b] == m[b]@);
                        assert(old(self).names_seq()[ai] == n[ai]@);
                        assert(old(self).names_seq()[bi] == n[bi]@);
                        assert(old(self).names_seq()[ai] != old(self).names_seq()[bi]);
                    }
                }
                return ;
            }
            i = i + 1;
        }
        proof {
            assert(!self@.contains(name@));
            assert(self@ =~= old(self)@.remove(name@));
        }
    }
}

/// A username held by an active session cannot be taken by another: the
/// attempt fails and leaves the set of active names unchanged.
pub proof fn lemma_duplicate_registration_fails(active: Set<Seq<char>>, name: Seq<char>)
    requires
        active.contains(name),
    ensures
        !register_outcome(active, name).0,
        register_outcome(active, name).1 == active,
{
}

/// Once a registration succeeds, a second session asking for the same name
/// is refused for as long as the first holds it.
pub proof fn lemma_no_two_sessions_share_name(active: Set<Seq<char>>, name: Seq<char>)
    requires
        register_outcome(active, name).0,
    ensures
        !register_outcome(register_outcome(active, name).1, name).0,
{
}

/// Releasing a name frees it: a later registration of the same name
/// succeeds.
pub proof fn lemma_release_frees_name(active: Set<Seq<char>>, name: Seq<char>)
    ensures
        register_outcome(release_outcome(active, name), name).0,
{
}

} // verus!
