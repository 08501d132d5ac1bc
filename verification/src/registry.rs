//! The capture-session registry: the set of currently open sessions, by
//! opaque handle, with exactly-once create/close semantics.
//!
//! The registry is the only shared mutable state of the backend.  Callers
//! that run concurrently must serialize access to it (the surrounding
//! process holds it behind a lock whose scope never spans a suspension
//! point); exclusivity is what the `&mut` receivers here demand.

use vstd::prelude::*;

use crate::error::SessionError;

verus! {

/// Whether handle h is a member of the handle sequence s.
pub open spec fn contains_handle(s: Seq<Seq<char>>, h: Seq<char>) -> bool {
    s.contains(h)
}

/// A handle sequence is well formed when no handle occurs twice.
pub open spec fn handles_wf(s: Seq<Seq<char>>) -> bool {
    forall|i: int, j: int| 0 <= i < j < s.len() ==> s[i] != s[j]
}

/// How many entries of s hold handle h.
pub open spec fn handle_count(s: Seq<Seq<char>>, h: Seq<char>) -> nat
    decreases s.len(),
{
    if s.len() == 0 {
        0
    } else {
        handle_count(s.drop_last(), h) + if s.last() == h {
            1nat
        } else {
            0nat
        }
    }
}

/// The registry state and result after creating handle h in state s:
/// a second membership fails with AlreadyExists, otherwise h is added.
pub open spec fn spec_create(s: Seq<Seq<char>>, h: Seq<char>) -> (Result<
    (),
    SessionError,
>, Seq<Seq<char>>) {
    if contains_handle(s, h) {
        (Err(SessionError::AlreadyExists), s)
    } else {
        (Ok(()), s.push(h))
    }
}

/// The registry state and result after closing handle h in state s:
/// closing a non-member fails with NotFound, otherwise h is removed.
pub open spec fn spec_close(s: Seq<Seq<char>>, h: Seq<char>) -> (Result<
    (),
    SessionError,
>, Seq<Seq<char>>) {
    if contains_handle(s, h) {
        (Ok(()), s.remove(s.index_of(h)))
    } else {
        (Err(SessionError::NotFound), s)
    }
}

/// Under well-formedness, a member handle has exactly one entry in the
/// registry and a non-member has none.
pub proof fn lemma_handle_count(s: Seq<Seq<char>>, h: Seq<char>)
    requires
        handles_wf(s),
    ensures
        handle_count(s, h) == if contains_handle(s, h) {
            1nat
        } else {
            0nat
        },
    decreases s.len(),
{
    if s.len() == 0 {
        assert(!contains_handle(s, h));
    } else {
        let t = s.drop_last();
        assert(handles_wf(t)) by {
            assert forall|i: int, j: int| 0 <= i < j < t.len() implies t[i] != t[j] by {
                assert(t[i] == s[i] && t[j] == s[j]);
            }
        }
        lemma_handle_count(t, h);
        if s.last() == h {
            assert(s[s.len() - 1] == h);
            assert(contains_handle(s, h));
            if contains_handle(t, h) {
                let i = choose|i: int| 0 <= i < t.len() && t[i] == h;
                assert(s[i] == h && s[s.len() - 1] == h);
                assert(false);
            }
        } else {
            if contains_handle(s, h) {
                let i = choose|i: int| 0 <= i < s.len() && s[i] == h;
                assert(i < s.len() - 1);
                assert(t[i] == h);
                assert(contains_handle(t, h));
            }
            if contains_handle(t, h) {
                let i = choose|i: int| 0 <= i < t.len() && t[i] == h;
                assert(s[i] == h);
                assert(contains_handle(s, h));
            }
        }
    }
}

/// Law: after creating the same handle twice without an intervening close,
/// the second creation has failed with AlreadyExists, left the registry
/// unchanged, and the registry holds exactly one entry for the handle.
pub proof fn lemma_create_twice(s: Seq<Seq<char>>, h: Seq<char>)
    requires
        handles_wf(s),
    ensures
        ({
            let s1 = spec_create(s, h).1;
            spec_create(s1, h).0 == Err::<(), SessionError>(SessionError::AlreadyExists)
                && spec_create(s1, h).1 == s1 && handle_count(s1, h) == 1
        }),
{
    let s1 = spec_create(s, h).1;
    if contains_handle(s, h) {
        lemma_handle_count(s, h);
    } else {
        assert(s1 == s.push(h));
        assert(s1[s.len() as int] == h);
        assert(contains_handle(s1, h));
        assert(handles_wf(s1)) by {
            assert forall|i: int, j: int| 0 <= i < j < s1.len() implies s1[i] != s1[j] by {
                if j == s.len() {
                    assert(s1[i] == s[i]);
                    assert(s1[j] == h);
                } else {
                    assert(s1[i] == s[i] && s1[j] == s[j]);
                }
            }
        }
        lemma_handle_count(s1, h);
    }
}

/// Law: create, then close, then create again for one handle succeeds at
/// every step; a handle may be reused once its session was closed.
pub proof fn lemma_create_close_create(s: Seq<Seq<char>>, h: Seq<char>)
    requires
        handles_wf(s),
        !contains_handle(s, h),
    ensures
        spec_create(s, h).0 == Ok::<(), SessionError>(()),
        spec_close(spec_create(s, h).1, h).0 == Ok::<(), SessionError>(()),
        spec_create(spec_close(spec_create(s, h).1, h).1, h).0 == Ok::<(), SessionError>(()),
        spec_close(spec_create(s, h).1, h).1 == s,
{
    let s1 = spec_create(s, h).1;
    assert(s1 == s.push(h));
    assert(s1[s.len() as int] == h);
    assert(contains_handle(s1, h));
    let k = s1.index_of(h);
    assert(0 <= k < s1.len() && s1[k] == h);
    if k < s.len() {
        assert(s[k] == h);
        assert(false);
    }
    assert(k == s.len());
    let s2 = spec_close(s1, h).1;
    assert(s2 == s1.remove(k));
    assert(s2 =~= s);
}

/// The set of currently open capture sessions.
pub struct SessionRegistry {
    handles: Vec<String>,
}

impl View for SessionRegistry {
    type V = Seq<Seq<char>>;

    closed spec fn view(&self) -> Seq<Seq<char>> {
        self.handles.deep_view()
    }
}

impl SessionRegistry {
    /// No handle is ever a member twice.
    pub open spec fn wf(&self) -> bool {
        handles_wf(self@)
    }

    /// An empty registry.
    pub fn new() -> (r: SessionRegistry)
        ensures
            r@ == Seq::<Seq<char>>::empty(),
            r.wf(),
    {
        let r = SessionRegistry { handles: Vec::new() };
        proof {
            assert(r@ =~= Seq::<Seq<char>>::empty());
        }
        r
    }

    /// Whether the handle is a member of the registry.
    pub fn contains(&self, handle: &String) -> (r: bool)
        ensures
            r == contains_handle(self@, handle@),
    {
        let mut i: usize = 0;
        while i < self.handles.len()
            invariant
                i <= self.handles@.len(),
                forall|j: int| 0 <= j < i ==> self@[j] != handle@,
            decreases self.handles@.len() - i,
        {
            if self.handles[i] == *handle {
                assert(self@[i as int] == handle@);
                return true;
            }
            i += 1;
        }
        false
    }

    /// Inserts the handle; fails with AlreadyExists if it is already a
    /// member, leaving the registry unchanged.
    pub fn create(&mut self, handle: String) -> (r: Result<(), SessionError>)
        requires
            old(self).wf(),
        ensures
            final(self).wf(),
            r == spec_create(old(self)@, handle@).0,
            final(self)@ == spec_create(old(self)@, handle@).1,
    {
        if self.contains(&handle) {
            Err(SessionError::AlreadyExists)
        } else {
            let ghost s0 = self@;
            let ghost h = handle@;
            self.handles.push(handle);
            proof {
                assert(self@ =~= s0.push(h));
            }
            Ok(())
        }
    }

    /// Removes the handle; fails with NotFound if it is not a member,
    /// leaving the registry unchanged.
    pub fn close(&mut self, handle: &String) -> (r: Result<(), SessionError>)
        requires
            old(self).wf(),
        ensures
            final(self).wf(),
            r == spec_close(old(self)@, handle@).0,
            final(self)@ == spec_close(old(self)@, handle@).1,
    {
        let ghost s0 = self@;
        let ghost h = handle@;
        let n = self.handles.len();
        let mut i: usize = 0;
        while i < n
            invariant
                i <= n,
                n == self.handles@.len(),
                self@ == s0,
                s0 == old(self)@,
                self.wf(),
                forall|j: int| 0 <= j < i ==> self@[j] != h,
                h == handle@,
            decreases n - i,
        {
            if self.handles[i] == *handle {
                proof {
                    assert(s0[i as int] == h);
                    assert(contains_handle(s0, h));
                    let k = s0.index_of(h);
                    assert(0 <= k < s0.len() && s0[k] == h);
                    if k != i as int {
                        assert(s0[k] != s0[i as int]);
                    }
                    assert(k == i as int);
                }
                self.handles.remove(i);
                proof {
                    assert(self@ =~= s0.remove(i as int));
                    assert(self@ == spec_close(s0, h).1);
                    assert forall|a: int, b: int| 0 <= a < b < self@.len() implies self@[a]
                        != self@[b] by {
                        let a0 = if a < i as int {
                            a
                        } else {
                            a + 1
                        };
                        let b0 = if b < i as int {
                            b
                        } else {
                            b + 1
                        };
                        assert(self@[a] == s0[a0] && self@[b] == s0[b0]);
                    }
                }
                return Ok(());
            }
            i += 1;
        }
        Err(SessionError::NotFound)
    }
}

} // verus!
