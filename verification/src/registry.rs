//! The registry of kernel services and their status.

use vstd::prelude::*;
use crate::text::str_eq;

verus! {

#[derive(Debug, Clone, Copy)]
pub struct ServiceInfo {
    pub name: &'static str,
    pub version: &'static str,
    pub status: &'static str,
}

/// A service as the registry sees it: name, version, status.
pub type ServiceView = (Seq<char>, Seq<char>, Seq<char>);

pub open spec fn service_view(s: ServiceInfo) -> ServiceView {
    (s.name@, s.version@, s.status@)
}

/// Whether `name` is registered in `s`.
pub open spec fn is_registered(s: Seq<ServiceView>, name: Seq<char>) -> bool {
    exists|i: int| 0 <= i < s.len() && s[i].0 == name
}

/// The position of `name` in `s`.
pub open spec fn service_index(s: Seq<ServiceView>, name: Seq<char>) -> int {
    choose|i: int| 0 <= i < s.len() && s[i].0 == name
}

/// `s` after registering `name` at `version`: the service starts out
/// `INITIALIZING`, replacing any earlier registration under the same name.
pub open spec fn registered(s: Seq<ServiceView>, name: Seq<char>, version: Seq<char>) -> Seq<ServiceView> {
    if is_registered(s, name) {
        s.update(service_index(s, name), (name, version, "INITIALIZING"@))
    } else {
        s.push((name, version, "INITIALIZING"@))
    }
}

/// `s` after setting the status of `name`; unchanged when `name` is not
/// registered.
pub open spec fn status_updated(s: Seq<ServiceView>, name: Seq<char>, status: Seq<char>) -> Seq<ServiceView> {
    if is_registered(s, name) {
        let i = service_index(s, name);
        s.update(i, (s[i].0, s[i].1, status))
    } else {
        s
    }
}

/// No name is registered twice.
pub open spec fn distinct_names(s: Seq<ServiceView>) -> bool {
    forall|i: int, j: int| 0 <= i < s.len() && 0 <= j < s.len() && i != j ==> s[i].0 != s[j].0
}

/// Registering keeps one entry per name, and so does setting a status: the
/// registry never lists a name twice.
pub proof fn lemma_names_stay_distinct(
    s: Seq<ServiceView>,
    name: Seq<char>,
    version: Seq<char>,
    status: Seq<char>,
)
    requires
        distinct_names(s),
    ensures
        distinct_names(registered(s, name, version)),
        distinct_names(status_updated(s, name, status)),
{
    if is_registered(s, name) {
        let i = service_index(s, name);
        let r = registered(s, name, version);
        let u = status_updated(s, name, status);
        assert forall|a: int| 0 <= a < s.len() implies #[trigger] r[a].0 == s[a].0 && u[a].0 == s[a].0 by {
            if a == i {
                assert(s[i].0 == name);
            }
        }
        assert(distinct_names(r)) by {
            assert forall|a: int, b: int| 0 <= a < r.len() && 0 <= b < r.len() && a != b implies r[a].0
                != r[b].0 by {
                assert(r[a].0 == s[a].0 && r[b].0 == s[b].0);
            }
        }
        assert(distinct_names(u)) by {
            assert forall|a: int, b: int| 0 <= a < u.len() && 0 <= b < u.len() && a != b implies u[a].0
                != u[b].0 by {
                assert(r[a].0 == s[a].0 && r[b].0 == s[b].0);
            }
        }
    } else {
        let r = registered(s, name, version);
        assert forall|a: int, b: int| 0 <= a < r.len() && 0 <= b < r.len() && a != b implies r[a].0
            != r[b].0 by {
            if a < s.len() && b < s.len() {
                assert(r[a] == s[a] && r[b] == s[b]);
            } else if a < s.len() {
                assert(r[a] == s[a]);
            } else if b < s.len() {
                assert(r[b] == s[b]);
            }
        }
    }
}

/// A registry operation, as (whether it registers, name, version or
/// status): a registration at a version, or a status update.
pub type RegistryOp = (bool, Seq<char>, Seq<char>);

/// The registry's entries after `ops`, applied in order to an empty
/// registry.
pub open spec fn apply_ops(ops: Seq<RegistryOp>) -> Seq<ServiceView>
    decreases ops.len(),
{
    if ops.len() == 0 {
        seq![]
    } else {
        let prev = apply_ops(ops.drop_last());
        let op = ops.last();
        if op.0 {
            registered(prev, op.1, op.2)
        } else {
            status_updated(prev, op.1, op.2)
        }
    }
}

/// The names that `ops` registers.
pub open spec fn names_registered(ops: Seq<RegistryOp>) -> Set<Seq<char>>
    decreases ops.len(),
{
    if ops.len() == 0 {
        Set::empty()
    } else {
        let prev = names_registered(ops.drop_last());
        if ops.last().0 {
            prev.insert(ops.last().1)
        } else {
            prev
        }
    }
}

proof fn lemma_same_names(p: Seq<ServiceView>, r: Seq<ServiceView>)
    requires
        p.len() == r.len(),
        forall|a: int| 0 <= a < p.len() ==> #[trigger] r[a].0 == p[a].0,
    ensures
        forall|n: Seq<char>| #[trigger] is_registered(r, n) == is_registered(p, n),
{
    assert forall|n: Seq<char>| #[trigger] is_registered(r, n) == is_registered(p, n) by {
        if is_registered(r, n) {
            let a = choose|a: int| 0 <= a < r.len() && r[a].0 == n;
            assert(p[a].0 == n);
        }
        if is_registered(p, n) {
            let a = choose|a: int| 0 <= a < p.len() && p[a].0 == n;
            assert(r[a].0 == n);
        }
    }
}

/// Whatever registrations and status updates a registry goes through from
/// empty, it holds exactly one entry per name registered: no name twice, no
/// name that was never registered, and as many entries as distinct names.
pub proof fn lemma_registry_history(ops: Seq<RegistryOp>)
    ensures
        distinct_names(apply_ops(ops)),
        names_registered(ops).finite(),
        forall|n: Seq<char>| is_registered(apply_ops(ops), n) <==> #[trigger] names_registered(ops).contains(n),
        apply_ops(ops).len() == names_registered(ops).len(),
    decreases ops.len(),
{
    if ops.len() > 0 {
        let prev_ops = ops.drop_last();
        lemma_registry_history(prev_ops);
        let p = apply_ops(prev_ops);
        let op = ops.last();
        let names = names_registered(prev_ops);
        lemma_names_stay_distinct(p, op.1, op.2, op.2);
        if op.0 && !is_registered(p, op.1) {
            let r = p.push((op.1, op.2, "INITIALIZING"@));
            assert(apply_ops(ops) == r);
            assert forall|n: Seq<char>| #[trigger] is_registered(r, n) == (is_registered(p, n) || n == op.1) by {
                if is_registered(r, n) {
                    let a = choose|a: int| 0 <= a < r.len() && r[a].0 == n;
                    if a < p.len() {
                        assert(p[a].0 == n);
                    }
                }
                if is_registered(p, n) {
                    let a = choose|a: int| 0 <= a < p.len() && p[a].0 == n;
                    assert(r[a].0 == n);
                }
                if n == op.1 {
                    assert(r[p.len() as int].0 == n);
                }
            }
            assert(!names.contains(op.1));
        } else {
            let r = apply_ops(ops);
            if is_registered(p, op.1) {
                let i = service_index(p, op.1);
                assert forall|a: int| 0 <= a < p.len() implies #[trigger] r[a].0 == p[a].0 by {
                    if a == i {
                        assert(p[i].0 == op.1);
                    }
                }
                lemma_same_names(p, r);
            } else {
                assert(r == p);
            }
            if op.0 {
                assert(names.insert(op.1) =~= names);
            }
        }
    }
}

pub struct Registry {
    services: Vec<ServiceInfo>,
}

impl View for Registry {
    type V = Seq<ServiceView>;

    /// The registered services, in order of first registration.
    closed spec fn view(&self) -> Seq<ServiceView> {
        self.services@.map_values(|s: ServiceInfo| service_view(s))
    }
}

impl Registry {
    #[verifier::type_invariant]
    spec fn one_entry_per_name(&self) -> bool {
        distinct_names(self@)
    }

    pub fn new() -> (res: Self)
        ensures
            res@ == Seq::<ServiceView>::empty(),
    {
        let res = Registry { services: Vec::new() };
        assert(res@ =~= Seq::<ServiceView>::empty());
        res
    }

    fn find(&self, name: &str) -> (res: Option<usize>)
        ensures
            match res {
                Some(i) => i < self@.len() && self@[i as int].0 == name@,
                None => !is_registered(self@, name@),
            },
    {
        let n = self.services.len();
        let mut i: usize = 0;
        while i < n
            invariant
                n == self.services@.len(),
                n == self@.len(),
                i <= n,
                forall|j: int| 0 <= j < i ==> #[trigger] self@[j].0 != name@,
            decreases n - i,
        {
            assert(self@[i as int].0 == self.services@[i as int].name@);
            if str_eq(self.services[i].name, name) {
                return Some(i);
            }
            i = i + 1;
        }
        None
    }

    /// Registers a service as `INITIALIZING`, replacing any earlier
    /// registration under the same name.
    pub fn register(&mut self, name: &'static str, version: &'static str)
        ensures
            final(self)@ == registered(old(self)@, name@, version@),
            distinct_names(final(self)@),
    {
        proof {
            use_type_invariant(&*self);
        }
        let found = self.find(name);
        let info = ServiceInfo { name, version, status: "INITIALIZING" };
        let mut services: Vec<ServiceInfo> = Vec::new();
        std::mem::swap(&mut services, &mut self.services);
        let ghost s = services@.map_values(|s: ServiceInfo| service_view(s));
        match found {
            Some(i) => {
                services.set(i, info);
                proof {
                    assert(service_index(s, name@) == i) by {
                        assert(s[i as int].0 == name@);
                    }
                    assert(services@.map_values(|s: ServiceInfo| service_view(s)) =~= s.update(
                        i as int,
                        (name@, version@, "INITIALIZING"@),
                    ));
                }
            },
            None => {
                services.push(info);
                proof {
                    assert(services@.map_values(|s: ServiceInfo| service_view(s)) =~= s.push(
                        (name@, version@, "INITIALIZING"@),
                    ));
                }
            },
        }
        self.services = services;
    }

    /// Sets the status of a registered service; an unknown name is ignored.
    pub fn update_status(&mut self, name: &str, status: &'static str)
        ensures
            final(self)@ == status_updated(old(self)@, name@, status@),
            distinct_names(final(self)@),
    {
        proof {
            use_type_invariant(&*self);
        }
        let found = self.find(name);
        match found {
            Some(i) => {
                let mut services: Vec<ServiceInfo> = Vec::new();
                std::mem::swap(&mut services, &mut self.services);
                let ghost s = services@.map_values(|s: ServiceInfo| service_view(s));
                let old_info = services[i];
                services.set(i, ServiceInfo { name: old_info.name, version: old_info.version, status });
                proof {
                    assert(service_index(s, name@) == i) by {
                        assert(s[i as int].0 == name@);
                    }
                    assert(services@.map_values(|s: ServiceInfo| service_view(s)) =~= s.update(
                        i as int,
                        (s[i as int].0, s[i as int].1, status@),
                    ));
                }
                self.services = services;
            },
            None => {},
        }
    }

    /// Every registered service, one entry per name.
    pub fn list(&self) -> (res: Vec<&ServiceInfo>)
        ensures
            distinct_names(self@),
            res@.len() == self@.len(),
            forall|i: int| 0 <= i < res@.len() ==> service_view(*#[trigger] res@[i]) == self@[i],
    {
        proof {
            use_type_invariant(self);
        }
        let n = self.services.len();
        let mut res: Vec<&ServiceInfo> = Vec::new();
        let mut i: usize = 0;
        while i < n
            invariant
                n == self.services@.len(),
                n == self@.len(),
                i <= n,
                res@.len() == i,
                forall|j: int| 0 <= j < i ==> service_view(*#[trigger] res@[j]) == self@[j],
            decreases n - i,
        {
            res.push(&self.services[i]);
            i = i + 1;
        }
        res
    }
}

} // verus!
