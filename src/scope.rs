//! Scoped changes of the shared working directory and environment.
//!
//! The working directory and the environment variables that scoping helpers
//! change are held in an explicit `ScopeState` rather than in hidden
//! process-wide state. A change is made under a write interest of the
//! thread's `LockCache` and undone, in reverse order, by `Pushd::pop` or
//! `Pushenv::pop`.
use crate::lock::{interest_wf, release_step, write_step, LockCache, LockMisuse, Ticket};
use crate::paths::{
    components, from_components, join_path, path_components, path_from_components, path_join,
    strings_view,
};
use vstd::prelude::*;

verus! {

/// Path components with `.` dropped and each `..` taking back the component
/// before it; the parent of the root is the root, and a `..` with nothing
/// named before it is kept.
pub open spec fn resolved(cs: Seq<Seq<char>>) -> Seq<Seq<char>>
    decreases cs.len(),
{
    if cs.len() == 0 {
        cs
    } else {
        let prev = resolved(cs.drop_last());
        let c = cs.last();
        if c == seq!['.'] {
            prev
        } else if c == seq!['.', '.'] && prev.len() > 0 && prev.last() != seq!['.', '.'] {
            if prev.last() == seq!['/'] {
                prev
            } else {
                prev.drop_last()
            }
        } else {
            prev.push(c)
        }
    }
}

/// The directory that `dir` names when entered from `cwd`, resolved lexically.
pub open spec fn entered_dir(cwd: Seq<char>, dir: Seq<char>) -> Seq<char> {
    path_from_components(resolved(path_components(path_join(cwd, dir))))
}

/// Resolves `.` and `..` in a list of path components.
pub fn resolve(cs: &Vec<String>) -> (r: Vec<String>)
    ensures
        strings_view(r@) == resolved(strings_view(cs@)),
{
    let dot = ".".to_owned();
    let dotdot = "..".to_owned();
    let root = "/".to_owned();
    proof {
        reveal_strlit(".");
        reveal_strlit("..");
        reveal_strlit("/");
        assert(dot@ =~= seq!['.']);
        assert(dotdot@ =~= seq!['.', '.']);
        assert(root@ =~= seq!['/']);
    }
    let ghost all = strings_view(cs@);
    let mut out: Vec<String> = Vec::new();
    let mut i: usize = 0;
    assert(all.subrange(0, 0) =~= Seq::<Seq<char>>::empty());
    assert(strings_view(out@) =~= Seq::<Seq<char>>::empty());
    while i < cs.len()
        invariant
            i <= cs@.len(),
            all == strings_view(cs@),
            dot@ == seq!['.'],
            dotdot@ == seq!['.', '.'],
            root@ == seq!['/'],
            strings_view(out@) == resolved(all.subrange(0, i as int)),
        decreases cs@.len() - i,
    {
        let ghost prev = strings_view(out@);
        let ghost pre = all.subrange(0, i + 1);
        assert(pre.drop_last() =~= all.subrange(0, i as int));
        assert(pre.last() == cs@[i as int]@);
        let c = &cs[i];
        if *c == dot {
        } else if *c == dotdot && out.len() > 0 && out[out.len() - 1] != dotdot {
            assert(prev.last() == out@[out@.len() - 1]@);
            if out[out.len() - 1] != root {
                out.pop();
                assert(strings_view(out@) =~= prev.drop_last());
            }
        } else {
            if out.len() > 0 {
                assert(prev.last() == out@[out@.len() - 1]@);
            }
            out.push(c.clone());
            assert(strings_view(out@) =~= prev.push(cs@[i as int]@));
        }
        i = i + 1;
    }
    assert(all.subrange(0, all.len() as int) =~= all);
    out
}

/// The value of variable `k` in a list of assignments: the last one wins.
pub open spec fn var_in(s: Seq<(Seq<char>, Seq<char>)>, k: Seq<char>) -> Option<Seq<char>>
    decreases s.len(),
{
    if s.len() == 0 {
        None
    } else if s.last().0 == k {
        Some(s.last().1)
    } else {
        var_in(s.drop_last(), k)
    }
}

/// The assignments of `s` to variables other than `k`, in order.
pub open spec fn without(s: Seq<(Seq<char>, Seq<char>)>, k: Seq<char>) -> Seq<
    (Seq<char>, Seq<char>),
>
    decreases s.len(),
{
    if s.len() == 0 {
        s
    } else if s.last().0 == k {
        without(s.drop_last(), k)
    } else {
        without(s.drop_last(), k).push(s.last())
    }
}

/// Dropping the assignments of one variable unsets it and keeps the others.
proof fn lemma_var_without(s: Seq<(Seq<char>, Seq<char>)>, k: Seq<char>, k2: Seq<char>)
    ensures
        var_in(without(s, k), k2) == (if k2 == k {
            None
        } else {
            var_in(s, k2)
        }),
    decreases s.len(),
{
    if s.len() > 0 {
        lemma_var_without(s.drop_last(), k, k2);
        if s.last().0 != k {
            assert(without(s, k).drop_last() == without(s.drop_last(), k));
        }
    }
}

/// The plain view of a list of string pairs.
pub open spec fn pairs_view(v: Seq<(String, String)>) -> Seq<(Seq<char>, Seq<char>)> {
    v.map_values(|p: (String, String)| (p.0@, p.1@))
}

/// The shared working directory and environment variables.
pub struct ScopeState {
    cwd: String,
    vars: Vec<(String, String)>,
}

/// Why a scope could not be entered or left.
#[derive(PartialEq, Eq, Structural, Clone, Copy, Debug)]
pub enum ScopeError {
    /// The thread's use of the lock was refused.
    Lock(LockMisuse),
    /// The directory is not the one this scope set: someone changed it
    /// without the lock, or scopes were left out of order.
    ChangedConcurrently,
}

impl ScopeState {
    /// The current directory.
    pub closed spec fn spec_cwd(&self) -> Seq<char> {
        self.cwd@
    }

    /// The value of the variable `k`, if it is set.
    pub closed spec fn spec_var(&self, k: Seq<char>) -> Option<Seq<char>> {
        var_in(pairs_view(self.vars@), k)
    }

    /// A state whose current directory is `cwd`, with no variable set.
    pub fn new(cwd: String) -> (r: ScopeState)
        ensures
            r.spec_cwd() == cwd@,
            forall|k: Seq<char>| r.spec_var(k) is None,
    {
        ScopeState { cwd, vars: Vec::new() }
    }

    /// The value of the variable `key`, if it is set.
    pub fn var(&self, key: &str) -> (r: Option<String>)
        ensures
            r matches Some(v) ==> self.spec_var(key@) == Some(v@),
            r is None ==> self.spec_var(key@) is None,
    {
        let k = key.to_owned();
        let ghost all = pairs_view(self.vars@);
        let mut i: usize = self.vars.len();
        assert(all.subrange(0, all.len() as int) =~= all);
        while i > 0
            invariant
                i <= self.vars@.len(),
                k@ == key@,
                all == pairs_view(self.vars@),
                var_in(all, k@) == var_in(all.subrange(0, i as int), k@),
            decreases i,
        {
            let ghost pre = all.subrange(0, i as int);
            assert(pre.drop_last() =~= all.subrange(0, i - 1));
            assert(pre.last() == all[i - 1]);
            assert(all[i - 1] == (self.vars@[i - 1].0@, self.vars@[i - 1].1@));
            if self.vars[i - 1].0 == k {
                let v = self.vars[i - 1].1.clone();
                assert(v@ == self.vars@[i - 1].1@);
                assert(var_in(pre, k@) == Some(v@));
                return Some(v);
            }
            i = i - 1;
        }
        assert(all.subrange(0, 0) =~= Seq::<(Seq<char>, Seq<char>)>::empty());
        None
    }

    /// Unsets the variable `key`.
    fn unset(&mut self, key: &String)
        ensures
            final(self).spec_cwd() == old(self).spec_cwd(),
            forall|k: Seq<char>| #[trigger]
                final(self).spec_var(k) == (if k == key@ {
                    None
                } else {
                    old(self).spec_var(k)
                }),
    {
        let ghost all = pairs_view(self.vars@);
        let mut kept: Vec<(String, String)> = Vec::new();
        let mut i: usize = 0;
        while i < self.vars.len()
            invariant
                i <= self.vars@.len(),
                all == pairs_view(self.vars@),
                pairs_view(kept@) == without(all.subrange(0, i as int), key@),
            decreases self.vars@.len() - i,
        {
            let ghost pre = all.subrange(0, i + 1);
            assert(pre.drop_last() =~= all.subrange(0, i as int));
            if self.vars[i].0 != *key {
                let pair = (self.vars[i].0.clone(), self.vars[i].1.clone());
                kept.push(pair);
                assert(pairs_view(kept@) =~= without(all.subrange(0, i as int), key@).push(all[i as int]));
            }
            i = i + 1;
        }
        assert(all.subrange(0, all.len() as int) =~= all);
        self.vars = kept;
        assert forall|k: Seq<char>| #[trigger]
            self.spec_var(k) == (if k == key@ {
                None
            } else {
                old(self).spec_var(k)
            }) by {
            lemma_var_without(all, key@, k);
        }
    }

    /// Sets the variable `key` to `value`.
    fn assign(&mut self, key: String, value: String)
        ensures
            final(self).spec_cwd() == old(self).spec_cwd(),
            forall|k: Seq<char>| #[trigger]
                final(self).spec_var(k) == (if k == key@ {
                    Some(value@)
                } else {
                    old(self).spec_var(k)
                }),
    {
        self.unset(&key);
        let ghost mid = pairs_view(self.vars@);
        let ghost kv = key@;
        let ghost vv = value@;
        assert forall|k: Seq<char>| #[trigger]
            var_in(mid, k) == (if k == kv {
                None
            } else {
                old(self).spec_var(k)
            }) by {
            assert(self.spec_var(k) == var_in(mid, k));
        }
        self.vars.push((key, value));
        assert(pairs_view(self.vars@) =~= mid.push((kv, vv)));
        assert forall|k: Seq<char>| #[trigger]
            self.spec_var(k) == (if k == kv {
                Some(vv)
            } else {
                old(self).spec_var(k)
            }) by {
            let full = mid.push((kv, vv));
            assert(full.drop_last() =~= mid);
            assert(full.last() == (kv, vv));
            assert(self.spec_var(k) == var_in(full, k));
            if k != kv {
                assert(var_in(full, k) == var_in(full.drop_last(), k));
                assert(var_in(mid, k) == old(self).spec_var(k));
            }
        }
    }

    /// The current directory.
    pub fn current_dir(&self) -> (r: &str)
        ensures
            r@ == self.spec_cwd(),
    {
        self.cwd.as_str()
    }
}

/// An entered directory scope: leaving it restores the directory before it.
pub struct Pushd {
    ticket: Ticket,
    prev_dir: String,
    dir: String,
}

impl Pushd {
    /// The ticket of the write interest this scope holds.
    pub closed spec fn spec_ticket(&self) -> Ticket {
        self.ticket
    }

    /// The directory that was current before this scope.
    pub closed spec fn spec_prev_dir(&self) -> Seq<char> {
        self.prev_dir@
    }

    /// The directory this scope made current.
    pub closed spec fn spec_dir(&self) -> Seq<char> {
        self.dir@
    }

    /// The directory this scope made current.
    pub fn dir(&self) -> (r: &str)
        ensures
            r@ == self.spec_dir(),
    {
        self.dir.as_str()
    }

    /// The directory that was current before this scope.
    pub fn prev_dir(&self) -> (r: &str)
        ensures
            r@ == self.spec_prev_dir(),
    {
        self.prev_dir.as_str()
    }

    /// Leaves the scope: checks that the directory is still the one it set,
    /// gives back its write interest, and restores the previous directory.
    /// On error nothing changes.
    pub fn pop(self, cache: &mut LockCache, state: &mut ScopeState) -> (r: Result<(), ScopeError>)
        requires
            interest_wf(old(cache)@),
        ensures
            interest_wf(final(cache)@),
            forall|k: Seq<char>| #[trigger] final(state).spec_var(k) == old(state).spec_var(k),
            old(state).spec_cwd() != self.spec_dir() ==> r == Err::<(), ScopeError>(
                ScopeError::ChangedConcurrently,
            ) && final(cache)@ == old(cache)@ && final(state).spec_cwd() == old(state).spec_cwd(),
            old(state).spec_cwd() == self.spec_dir() ==> match release_step(
                old(cache)@,
                self.spec_ticket(),
            ) {
                Ok(i) => r is Ok && final(cache)@ == i && final(state).spec_cwd()
                    == self.spec_prev_dir(),
                Err(e) => r == Err::<(), ScopeError>(ScopeError::Lock(e)) && final(cache)@ == old(
                    cache,
                )@ && final(state).spec_cwd() == old(state).spec_cwd(),
            },
    {
        if state.cwd != self.dir {
            return Err(ScopeError::ChangedConcurrently);
        }
        match cache.release(self.ticket) {
            Ok(()) => {
                state.cwd = self.prev_dir;
                Ok(())
            },
            Err(e) => Err(ScopeError::Lock(e)),
        }
    }
}

/// Changes the current directory to `dir`, joined to the current one and
/// resolved lexically, under a write interest of this thread. The returned scope restores the
/// previous directory when popped. On error nothing changes.
pub fn pushd(cache: &mut LockCache, state: &mut ScopeState, dir: &str) -> (r: Result<
    Pushd,
    ScopeError,
>)
    requires
        interest_wf(old(cache)@),
    ensures
        interest_wf(final(cache)@),
        forall|k: Seq<char>| #[trigger] final(state).spec_var(k) == old(state).spec_var(k),
        match write_step(old(cache)@) {
            Ok((i, t)) => r matches Ok(p) && final(cache)@ == i && p.spec_ticket() == t
                && p.spec_prev_dir() == old(state).spec_cwd() && p.spec_dir() == entered_dir(
                old(state).spec_cwd(),
                dir@,
            ) && final(state).spec_cwd() == p.spec_dir(),
            Err(e) => r == Err::<Pushd, ScopeError>(ScopeError::Lock(e)) && final(cache)@ == old(
                cache,
            )@ && final(state).spec_cwd() == old(state).spec_cwd(),
        },
{
    let ticket = match cache.acquire_write() {
        Ok(t) => t,
        Err(e) => {
            return Err(ScopeError::Lock(e));
        },
    };
    let joined = join_path(state.cwd.as_str(), dir);
    let new_dir = from_components(&resolve(&components(joined.as_str())));
    let prev_dir = state.cwd.clone();
    state.cwd = new_dir.clone();
    Ok(Pushd { ticket, prev_dir, dir: new_dir })
}

/// An entered environment scope: leaving it restores the variable's previous
/// value, or unsets it if it had none.
pub struct Pushenv {
    ticket: Ticket,
    key: String,
    prev_value: Option<String>,
    value: String,
}

impl Pushenv {
    /// The ticket of the write interest this scope holds.
    pub closed spec fn spec_ticket(&self) -> Ticket {
        self.ticket
    }

    /// The variable this scope set.
    pub closed spec fn spec_key(&self) -> Seq<char> {
        self.key@
    }

    /// The value the variable had before this scope.
    pub closed spec fn spec_prev_value(&self) -> Option<Seq<char>> {
        match self.prev_value {
            Some(v) => Some(v@),
            None => None,
        }
    }

    /// The value this scope gave the variable.
    pub closed spec fn spec_value(&self) -> Seq<char> {
        self.value@
    }

    /// Leaves the scope: checks that the variable still has the value it set,
    /// gives back its write interest, and restores the previous value (or
    /// unsets the variable). On error nothing changes.
    pub fn pop(self, cache: &mut LockCache, state: &mut ScopeState) -> (r: Result<(), ScopeError>)
        requires
            interest_wf(old(cache)@),
        ensures
            interest_wf(final(cache)@),
            final(state).spec_cwd() == old(state).spec_cwd(),
            old(state).spec_var(self.spec_key()) != Some(self.spec_value()) ==> r == Err::<
                (),
                ScopeError,
            >(ScopeError::ChangedConcurrently) && final(cache)@ == old(cache)@ && forall|
                k: Seq<char>,
            | #[trigger] final(state).spec_var(k) == old(state).spec_var(k),
            old(state).spec_var(self.spec_key()) == Some(self.spec_value()) ==> match release_step(
                old(cache)@,
                self.spec_ticket(),
            ) {
                Ok(i) => r is Ok && final(cache)@ == i && forall|k: Seq<char>| #[trigger]
                    final(state).spec_var(k) == (if k == self.spec_key() {
                        self.spec_prev_value()
                    } else {
                        old(state).spec_var(k)
                    }),
                Err(e) => r == Err::<(), ScopeError>(ScopeError::Lock(e)) && final(cache)@ == old(
                    cache,
                )@ && forall|k: Seq<char>| #[trigger]
                    final(state).spec_var(k) == old(state).spec_var(k),
            },
    {
        let still = match state.var(self.key.as_str()) {
            Some(v) => v == self.value,
            None => false,
        };
        if !still {
            return Err(ScopeError::ChangedConcurrently);
        }
        match cache.release(self.ticket) {
            Ok(()) => {
                match self.prev_value {
                    Some(v) => state.assign(self.key, v),
                    None => state.unset(&self.key),
                }
                Ok(())
            },
            Err(e) => Err(ScopeError::Lock(e)),
        }
    }
}

/// Sets the variable `key` to `value` under a write interest of this thread.
/// The returned scope restores the previous value when popped. On error
/// nothing changes.
pub fn pushenv(cache: &mut LockCache, state: &mut ScopeState, key: &str, value: &str) -> (r:
    Result<Pushenv, ScopeError>)
    requires
        interest_wf(old(cache)@),
    ensures
        interest_wf(final(cache)@),
        final(state).spec_cwd() == old(state).spec_cwd(),
        match write_step(old(cache)@) {
            Ok((i, t)) => r matches Ok(p) && final(cache)@ == i && p.spec_ticket() == t
                && p.spec_key() == key@ && p.spec_value() == value@ && p.spec_prev_value()
                == old(state).spec_var(key@) && forall|k: Seq<char>| #[trigger]
                final(state).spec_var(k) == (if k == key@ {
                    Some(value@)
                } else {
                    old(state).spec_var(k)
                }),
            Err(e) => r == Err::<Pushenv, ScopeError>(ScopeError::Lock(e)) && final(cache)@ == old(
                cache,
            )@ && forall|k: Seq<char>| #[trigger] final(state).spec_var(k) == old(state).spec_var(k),
        },
{
    let ticket = match cache.acquire_write() {
        Ok(t) => t,
        Err(e) => {
            return Err(ScopeError::Lock(e));
        },
    };
    let prev_value = state.var(key);
    state.assign(key.to_owned(), value.to_owned());
    Ok(Pushenv { ticket, key: key.to_owned(), prev_value, value: value.to_owned() })
}

} // verus!
