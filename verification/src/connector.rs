//! Discovery of MIDI instruments and the registry of live sessions.

use vstd::prelude::*;
use vstd::multiset::Multiset;

use crate::instrument::{Instrument, SessionModel};

verus! {

broadcast use vstd::multiset::group_multiset_axioms;

/// One signal from the discovery source.
#[derive(Debug, Clone, Copy, PartialEq, Eq)]
pub enum Discovery {
    /// Nothing new appeared.
    NotReady,
    /// A matching endpoint with this identity appeared.
    Found(u64),
}

/// A lifecycle action on the registry: a discovery signal naming an
/// identity, or the release of that identity when its session ends.
pub enum RegistryAction {
    /// A discovery signal named this identity.
    Discovered(u64),
    /// This identity's session ended and was released.
    Released(u64),
}

/// How the registry moves under one action: insert-if-absent on discovery,
/// remove-once on release.
pub open spec fn registry_next(reg: Set<u64>, a: RegistryAction) -> Set<u64> {
    match a {
        RegistryAction::Discovered(id) => if reg.contains(id) {
            reg
        } else {
            reg.insert(id)
        },
        RegistryAction::Released(id) => reg.remove(id),
    }
}

/// Whether one action opens a new session, and for which identity: exactly
/// the discovery of an identity that is not yet registered does.
pub open spec fn session_created(reg: Set<u64>, a: RegistryAction) -> Option<u64> {
    match a {
        RegistryAction::Discovered(id) => if reg.contains(id) {
            None
        } else {
            Some(id)
        },
        RegistryAction::Released(_) => None,
    }
}

/// The live sessions after one action: a session appears exactly when one is
/// created, and one session with the released identity goes away on release.
pub open spec fn live_next(reg: Set<u64>, live: Multiset<u64>, a: RegistryAction) -> Multiset<
    u64,
> {
    match a {
        RegistryAction::Discovered(id) => if reg.contains(id) {
            live
        } else {
            live.insert(id)
        },
        RegistryAction::Released(id) => live.remove(id),
    }
}

/// The registry mirrors the live sessions: a registered identity has exactly
/// one live session, an unregistered one has none.
pub open spec fn registry_inv(reg: Set<u64>, live: Multiset<u64>) -> bool {
    forall|id: u64| live.count(id) == (if reg.contains(id) {
        1nat
    } else {
        0nat
    })
}

/// One lifecycle action preserves the correspondence between the registry
/// and the live sessions.
pub proof fn lemma_registry_step(reg: Set<u64>, live: Multiset<u64>, a: RegistryAction)
    requires
        registry_inv(reg, live),
    ensures
        registry_inv(registry_next(reg, a), live_next(reg, live, a)),
{
}

/// The registry and the live sessions after a sequence of lifecycle actions.
pub open spec fn registry_run(reg: Set<u64>, live: Multiset<u64>, actions: Seq<RegistryAction>) -> (
    Set<u64>,
    Multiset<u64>,
)
    decreases actions.len(),
{
    if actions.len() == 0 {
        (reg, live)
    } else {
        registry_run(
            registry_next(reg, actions[0]),
            live_next(reg, live, actions[0]),
            actions.skip(1),
        )
    }
}

/// A sequence of lifecycle actions preserves the correspondence between the
/// registry and the live sessions.
pub proof fn lemma_registry_run_inv(reg: Set<u64>, live: Multiset<u64>, actions: Seq<
    RegistryAction,
>)
    requires
        registry_inv(reg, live),
    ensures
        registry_inv(registry_run(reg, live, actions).0, registry_run(reg, live, actions).1),
    decreases actions.len(),
{
    if actions.len() > 0 {
        lemma_registry_step(reg, live, actions[0]);
        lemma_registry_run_inv(
            registry_next(reg, actions[0]),
            live_next(reg, live, actions[0]),
            actions.skip(1),
        );
    }
}

/// Law: deduplication.  Starting from no known devices and no sessions, no
/// sequence of discoveries and releases ever leaves two live sessions for
/// one device identity.
pub proof fn lemma_never_two_live(actions: Seq<RegistryAction>)
    ensures
        forall|id: u64|
            registry_run(Set::<u64>::empty(), Multiset::<u64>::empty(), actions).1.count(id) <= 1,
{
    assert(registry_inv(Set::<u64>::empty(), Multiset::<u64>::empty()));
    lemma_registry_run_inv(Set::<u64>::empty(), Multiset::<u64>::empty(), actions);
}

/// Discovers MIDI instruments and opens one session per device: an identity
/// stays registered while its session lives, so a second discovery of the
/// same endpoint opens nothing until the first session is released.
#[derive(Debug)]
pub struct Connector {
    known: Vec<u64>,
}

/// No identity occurs twice.
spec fn no_dup(s: Seq<u64>) -> bool {
    forall|i: int, j: int| 0 <= i < j < s.len() ==> s[i] != s[j]
}

impl Connector {
    #[verifier::type_invariant]
    spec fn inv(&self) -> bool {
        no_dup(self.known@)
    }

    /// The set of device identities with a live session.
    pub closed spec fn registry(&self) -> Set<u64> {
        Set::new(|id: u64| self.known@.contains(id))
    }

    /// Create a new MIDI instrument connector
    pub fn new() -> (r: Self)
        ensures
            r.registry() == Set::<u64>::empty(),
    {
        let r = Connector { known: Vec::new() };
        proof {
            assert(r.registry() =~= Set::<u64>::empty());
        }
        r
    }

    /// Whether this identity has a live session.
    fn knows(&self, id: u64) -> (r: bool)
        ensures
            r == self.registry().contains(id),
    {
        let mut i: usize = 0;
        while i < self.known.len()
            invariant
                i <= self.known.len(),
                forall|j: int| 0 <= j < i ==> self.known@[j] != id,
            decreases self.known.len() - i,
        {
            if self.known[i] == id {
                assert(self.known@.contains(id));
                return true;
            }
            i = i + 1;
        }
        false
    }

    /// Answer one discovery signal: open a session for a newly seen identity
    /// and register it; yield nothing for an identity whose session still
    /// lives, or when nothing was discovered.
    pub fn poll_next(&mut self, discovery: Discovery) -> (r: Option<Instrument>)
        ensures
            match discovery {
                Discovery::NotReady => {
                    &&& r is None
                    &&& final(self).registry() == old(self).registry()
                },
                Discovery::Found(id) => {
                    let a = RegistryAction::Discovered(id);
                    &&& final(self).registry() == registry_next(old(self).registry(), a)
                    &&& (r is Some <==> session_created(old(self).registry(), a) is Some)
                    &&& (r matches Some(inst) ==> inst.model() == (SessionModel {
                        connected: true,
                        open: true,
                        buf: Seq::<u8>::empty(),
                        id,
                    }))
                },
            },
    {
        let id = match discovery {
            Discovery::NotReady => {
                return None;
            },
            Discovery::Found(id) => id,
        };
        if self.knows(id) {
            return None;
        }
        proof {
            use_type_invariant(&*self);
        }
        let ghost s_old = self.known@;
        let mut v: Vec<u64> = Vec::new();
        core::mem::swap(&mut self.known, &mut v);
        v.push(id);
        core::mem::swap(&mut self.known, &mut v);
        proof {
            assert forall|y: u64|
                self.known@.contains(y) <==> (s_old.contains(y) || y == id) by {
                if self.known@.contains(y) {
                    let j = choose|j: int| 0 <= j < self.known@.len() && self.known@[j] == y;
                    if j < s_old.len() {
                        assert(s_old[j] == y);
                    }
                }
                if s_old.contains(y) {
                    let j = choose|j: int| 0 <= j < s_old.len() && s_old[j] == y;
                    assert(self.known@[j] == y);
                }
                if y == id {
                    assert(self.known@[s_old.len() as int] == y);
                }
            }
            assert(self.registry() =~= old(self).registry().insert(id));
        }
        Some(Instrument::new(id))
    }

    /// Release an identity once its session has ended, so that a future
    /// reappearance of the same endpoint can be rediscovered.  Releasing an
    /// identity that is not registered changes nothing.
    pub fn release(&mut self, id: u64)
        ensures
            final(self).registry() == registry_next(
                old(self).registry(),
                RegistryAction::Released(id),
            ),
    {
        proof {
            use_type_invariant(&*self);
        }
        let ghost s_old = self.known@;
        let mut i: usize = 0;
        while i < self.known.len()
            invariant
                i <= self.known.len(),
                self.known@ == s_old,
                s_old == old(self).known@,
                no_dup(s_old),
                forall|j: int| 0 <= j < i ==> s_old[j] != id,
            decreases self.known.len() - i,
        {
            if self.known[i] == id {
                let mut v: Vec<u64> = Vec::new();
                core::mem::swap(&mut self.known, &mut v);
                v.remove(i);
                core::mem::swap(&mut self.known, &mut v);
                proof {
                    let t = self.known@;
                    assert(t == s_old.remove(i as int));
                    assert forall|y: u64| t.contains(y) <==> (s_old.contains(y) && y != id) by {
                        if t.contains(y) {
                            let j = choose|j: int| 0 <= j < t.len() && t[j] == y;
                            if j < i {
                                assert(s_old[j] == y);
                            } else {
                                assert(s_old[j + 1] == y);
                            }
                            assert(s_old.contains(y));
                            if y == id {
                                // two indices of s_old would hold the same identity
                                assert(false);
                            }
                        }
                        if s_old.contains(y) && y != id {
                            let j = choose|j: int| 0 <= j < s_old.len() && s_old[j] == y;
                            if j < i {
                                assert(t[j] == y);
                            } else {
                                assert(t[j - 1] == y);
                            }
                        }
                    }
                    assert forall|y: u64|
                        self.registry().contains(y) == old(self).registry().remove(id).contains(
                            y,
                        ) by {
                        assert(t.contains(y) <==> (s_old.contains(y) && y != id));
                    }
                    assert(self.registry() =~= old(self).registry().remove(id));
                    assert forall|p: int, q: int| 0 <= p < q < t.len() implies t[p] != t[q] by {
                        if q < i {
                            assert(t[p] == s_old[p] && t[q] == s_old[q]);
                        } else if p < i {
                            assert(t[p] == s_old[p] && t[q] == s_old[q + 1]);
                        } else {
                            assert(t[p] == s_old[p + 1] && t[q] == s_old[q + 1]);
                        }
                    }
                }
                return;
            }
            i = i + 1;
        }
        proof {
            assert(!s_old.contains(id)) by {
                if s_old.contains(id) {
                    let j = choose|j: int| 0 <= j < s_old.len() && s_old[j] == id;
                    assert(s_old[j] != id);
                }
            }
            assert(self.registry() =~= old(self).registry().remove(id));
        }
    }
}

impl Default for Connector {
    /// A connector that knows no devices yet.
    fn default() -> (r: Self)
        ensures
            r.registry() == Set::<u64>::empty(),
    {
        Connector::new()
    }
}

} // verus!
