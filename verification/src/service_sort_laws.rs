//! What the start order of a compose file guarantees: each service of the file
//! once, every service after the services it depends on, a cyclic dependency
//! always rejected, and a file without faults always ordered.
use crate::compose::{dependencies, lemma_lookup_in_keys, lookup_service, service_keys, ComposeService};
use crate::compose_parser::spec_service_details;
use crate::service_sort::{
    lemma_measure_decreases, sort_measure, spec_sort_from, spec_sort_services, spec_visit,
    spec_visit_deps,
};
use vstd::prelude::*;

verus! {

/// The service at position `i` of `order` is in the file and all its
/// dependencies stand before it.
pub open spec fn deps_before(
    services: Seq<(String, Option<ComposeService>)>,
    order: Seq<Seq<char>>,
    i: int,
) -> bool {
    match lookup_service(services, order[i]) {
        Some(Some(svc)) => forall|d: Seq<char>| #[trigger]
            dependencies(svc).contains(d) ==> order.take(i).contains(d),
        _ => false,
    }
}

/// Service `a` is in the file and lists `b` among its dependencies.
pub open spec fn depends_on(services: Seq<(String, Option<ComposeService>)>, a: Seq<char>, b: Seq<char>) -> bool {
    match lookup_service(services, a) {
        Some(Some(svc)) => dependencies(svc).contains(b),
        _ => false,
    }
}

/// Each service once, each after its dependencies.
pub open spec fn well_ordered(services: Seq<(String, Option<ComposeService>)>, order: Seq<Seq<char>>) -> bool {
    &&& order.no_duplicates()
    &&& forall|i: int| 0 <= i < order.len() ==> #[trigger] deps_before(services, order, i)
}

/// `next` extends `prev`, stays well ordered, and adds no service of `path`.
pub open spec fn walk_extends(
    services: Seq<(String, Option<ComposeService>)>,
    path: Seq<Seq<char>>,
    prev: Seq<Seq<char>>,
    next: Seq<Seq<char>>,
) -> bool {
    &&& prev.len() <= next.len()
    &&& next.take(prev.len() as int) == prev
    &&& well_ordered(services, next)
    &&& forall|j: int| prev.len() <= j < next.len() ==> !path.contains(#[trigger] next[j])
}

proof fn lemma_deps_before_prefix(
    services: Seq<(String, Option<ComposeService>)>,
    prev: Seq<Seq<char>>,
    next: Seq<Seq<char>>,
    i: int,
)
    requires
        0 <= i < prev.len() <= next.len(),
        next.take(prev.len() as int) == prev,
        deps_before(services, prev, i),
    ensures
        deps_before(services, next, i),
{
    assert(next[i] == prev[i]) by {
        assert(next.take(prev.len() as int)[i] == next[i]);
    }
    assert(next.take(i) =~= prev.take(i)) by {
        assert forall|k: int| 0 <= k < i implies next.take(i)[k] == prev.take(i)[k] by {
            assert(next.take(prev.len() as int)[k] == next[k]);
        }
    }
}

proof fn lemma_walk_extends_refl(
    services: Seq<(String, Option<ComposeService>)>,
    path: Seq<Seq<char>>,
    out: Seq<Seq<char>>,
)
    requires
        well_ordered(services, out),
    ensures
        walk_extends(services, path, out, out),
{
    assert(out.take(out.len() as int) =~= out);
}

proof fn lemma_walk_extends_trans(
    services: Seq<(String, Option<ComposeService>)>,
    path: Seq<Seq<char>>,
    a: Seq<Seq<char>>,
    b: Seq<Seq<char>>,
    c: Seq<Seq<char>>,
)
    requires
        walk_extends(services, path, a, b),
        walk_extends(services, path, b, c),
    ensures
        walk_extends(services, path, a, c),
{
    assert(c.take(a.len() as int) =~= a) by {
        assert forall|k: int| 0 <= k < a.len() implies c.take(a.len() as int)[k] == a[k] by {
            assert(c.take(b.len() as int)[k] == c[k]);
            assert(b.take(a.len() as int)[k] == b[k]);
        }
    }
    assert forall|j: int| a.len() <= j < c.len() implies !path.contains(#[trigger] c[j]) by {
        if j < b.len() {
            assert(c.take(b.len() as int)[j] == c[j]);
            assert(!path.contains(b[j]));
        }
    }
}

/// A walk from a well-ordered list stays well ordered, keeps what it had,
/// adds nothing on the path, and ends holding the service it started from.
proof fn lemma_visit_ordered(
    services: Seq<(String, Option<ComposeService>)>,
    s: Seq<char>,
    path: Seq<Seq<char>>,
    out: Seq<Seq<char>>,
)
    requires
        well_ordered(services, out),
    ensures
        spec_visit(services, s, path, out) matches Ok(out2) ==> walk_extends(
            services,
            path,
            out,
            out2,
        ) && out2.contains(s),
    decreases sort_measure(services, path), 0int, 0int,
{
    if path.contains(s) {
    } else if out.contains(s) {
        lemma_walk_extends_refl(services, path, out);
    } else {
        match lookup_service(services, s) {
            Some(Some(svc)) => {
                lemma_measure_decreases(services, s, path);
                let path_s = path.push(s);
                let deps = dependencies(svc);
                lemma_visit_deps_ordered(services, deps, 0, path_s, out);
                match spec_visit_deps(services, deps, 0, path_s, out) {
                    Ok(out2) => {
                        if spec_service_details(s, svc) is Ok {
                            let out3 = out2.push(s);
                            assert(path_s.contains(s)) by {
                                assert(path_s[path.len() as int] == s);
                            }
                            assert(!out2.contains(s)) by {
                                if out2.contains(s) {
                                    let j = choose|j: int| 0 <= j < out2.len() && out2[j] == s;
                                    if j < out.len() {
                                        assert(out2.take(out.len() as int)[j] == out2[j]);
                                        assert(out.contains(s));
                                    } else {
                                        assert(!path_s.contains(out2[j]));
                                    }
                                }
                            }
                            assert(out3.take(out2.len() as int) =~= out2);
                            assert(out3.take(out.len() as int) =~= out) by {
                                assert forall|k: int| 0 <= k < out.len() implies out3.take(
                                    out.len() as int,
                                )[k] == out[k] by {
                                    assert(out2.take(out.len() as int)[k] == out2[k]);
                                }
                            }
                            assert(out3.no_duplicates()) by {
                                assert forall|a: int, b: int|
                                    0 <= a < out3.len() && 0 <= b < out3.len() && a != b implies out3[a]
                                    != out3[b] by {
                                    if a < out2.len() && b < out2.len() {
                                    } else if a == out2.len() {
                                        assert(out2[b] != s);
                                    } else {
                                        assert(out2[a] != s);
                                    }
                                }
                            }
                            assert forall|i: int| 0 <= i < out3.len() implies #[trigger] deps_before(
                                services,
                                out3,
                                i,
                            ) by {
                                if i < out2.len() {
                                    lemma_deps_before_prefix(services, out2, out3, i);
                                } else {
                                    assert(out3[i] == s);
                                    assert forall|d: Seq<char>| #[trigger]
                                        dependencies(svc).contains(d) implies out3.take(i).contains(
                                        d,
                                    ) by {
                                        let k = choose|k: int|
                                            0 <= k < deps.len() && deps[k] == d;
                                        assert(out2.contains(deps[k]));
                                    }
                                }
                            }
                            assert forall|j: int| out.len() <= j < out3.len() implies !path.contains(
                                #[trigger] out3[j],
                            ) by {
                                if j < out2.len() {
                                    assert(!path_s.contains(out2[j]));
                                    if path.contains(out2[j]) {
                                        let k = choose|k: int|
                                            0 <= k < path.len() && path[k] == out2[j];
                                        assert(path_s[k] == out2[j]);
                                    }
                                }
                            }
                            assert(out3[out2.len() as int] == s);
                        }
                    },
                    Err(_) => {},
                }
            },
            _ => {},
        }
    }
}

/// Walking a list of dependencies from position `i` keeps the same guarantees
/// and ends holding every dependency from `i` on.
proof fn lemma_visit_deps_ordered(
    services: Seq<(String, Option<ComposeService>)>,
    deps: Seq<Seq<char>>,
    i: int,
    path: Seq<Seq<char>>,
    out: Seq<Seq<char>>,
)
    requires
        well_ordered(services, out),
        0 <= i,
    ensures
        spec_visit_deps(services, deps, i, path, out) matches Ok(out2) ==> walk_extends(
            services,
            path,
            out,
            out2,
        ) && forall|j: int| i <= j < deps.len() ==> out2.contains(#[trigger] deps[j]),
    decreases sort_measure(services, path), 1int, deps.len() - i,
{
    if i < 0 || i >= deps.len() {
        lemma_walk_extends_refl(services, path, out);
    } else {
        lemma_visit_ordered(services, deps[i], path, out);
        match spec_visit(services, deps[i], path, out) {
            Ok(out1) => {
                lemma_visit_deps_ordered(services, deps, i + 1, path, out1);
                match spec_visit_deps(services, deps, i + 1, path, out1) {
                    Ok(out2) => {
                        lemma_walk_extends_trans(services, path, out, out1, out2);
                        assert forall|j: int| i <= j < deps.len() implies out2.contains(
                            #[trigger] deps[j],
                        ) by {
                            if j == i {
                                let k = choose|k: int| 0 <= k < out1.len() && out1[k] == deps[i];
                                assert(out2.take(out1.len() as int)[k] == out2[k]);
                                assert(out2[k] == deps[i]);
                            }
                        }
                    },
                    Err(_) => {},
                }
            },
            Err(_) => {},
        }
    }
}

/// Walking the file's services from position `i` ends well ordered and holding
/// every service from `i` on.
proof fn lemma_sort_from_ordered(
    services: Seq<(String, Option<ComposeService>)>,
    i: int,
    out: Seq<Seq<char>>,
)
    requires
        well_ordered(services, out),
        0 <= i,
    ensures
        spec_sort_from(services, i, out) matches Ok(order) ==> well_ordered(services, order)
            && out.len() <= order.len() && order.take(out.len() as int) == out && forall|j: int|
            i <= j < services.len() ==> order.contains(#[trigger] service_keys(services)[j]),
    decreases services.len() - i,
{
    if i < services.len() {
        let s = services[i].0@;
        lemma_visit_ordered(services, s, Seq::empty(), out);
        match spec_visit(services, s, Seq::empty(), out) {
            Ok(out1) => {
                lemma_sort_from_ordered(services, i + 1, out1);
                match spec_sort_from(services, i + 1, out1) {
                    Ok(order) => {
                        assert(order.take(out.len() as int) =~= out) by {
                            assert forall|k: int| 0 <= k < out.len() implies order.take(
                                out.len() as int,
                            )[k] == out[k] by {
                                assert(order.take(out1.len() as int)[k] == order[k]);
                                assert(out1.take(out.len() as int)[k] == out1[k]);
                            }
                        }
                        assert forall|j: int| i <= j < services.len() implies order.contains(
                            #[trigger] service_keys(services)[j],
                        ) by {
                            if j == i {
                                assert(service_keys(services)[j] == s);
                                let k = choose|k: int| 0 <= k < out1.len() && out1[k] == s;
                                assert(order.take(out1.len() as int)[k] == order[k]);
                            }
                        }
                    },
                    Err(_) => {},
                }
            },
            Err(_) => {},
        }
    } else {
        assert(out.take(out.len() as int) =~= out);
    }
}

/// Every service of the file stands in the start order exactly once, and the
/// order holds nothing else.
pub proof fn law_each_service_once(services: Seq<(String, Option<ComposeService>)>)
    ensures
        spec_sort_services(services) matches Ok(order) ==> order.no_duplicates() && order.to_set()
            == service_keys(services).to_set(),
{
    let empty = Seq::<Seq<char>>::empty();
    lemma_sort_from_ordered(services, 0, empty);
    match spec_sort_services(services) {
        Ok(order) => {
            assert forall|k: Seq<char>| order.to_set().contains(k) <==> service_keys(
                services,
            ).to_set().contains(k) by {
                lemma_lookup_in_keys(services, k);
                if order.contains(k) {
                    let i = choose|i: int| 0 <= i < order.len() && order[i] == k;
                    assert(deps_before(services, order, i));
                }
                if service_keys(services).contains(k) {
                    let j = choose|j: int|
                        0 <= j < service_keys(services).len() && service_keys(services)[j] == k;
                    assert(order.contains(service_keys(services)[j]));
                }
            }
            assert(order.to_set() =~= service_keys(services).to_set());
        },
        Err(_) => {},
    }
}

/// One call of the walk keeps the state of the walk sound: when the names so
/// far stand each once and after their dependencies, the walk from `service`
/// on an empty path gives such a list again, which extends the old one, holds
/// `service`, and names only services of the file (the keys of the details
/// map that `sort_services` keeps beside it).
pub proof fn law_walk_step_keeps_order(
    services: Seq<(String, Option<ComposeService>)>,
    service: Seq<char>,
    out: Seq<Seq<char>>,
)
    requires
        well_ordered(services, out),
    ensures
        spec_visit(services, service, Seq::empty(), out) matches Ok(next) ==> {
            &&& well_ordered(services, next)
            &&& out.len() <= next.len()
            &&& next.take(out.len() as int) == out
            &&& next.contains(service)
            &&& forall|j: int| 0 <= j < next.len() ==> service_keys(services).contains(#[trigger] next[j])
        },
{
    lemma_visit_ordered(services, service, Seq::empty(), out);
    if let Ok(next) = spec_visit(services, service, Seq::empty(), out) {
        assert forall|j: int| 0 <= j < next.len() implies service_keys(services).contains(
            #[trigger] next[j],
        ) by {
            assert(deps_before(services, next, j));
            lemma_lookup_in_keys(services, next[j]);
        }
    }
}

/// In the start order, every service comes after each service it depends on.
pub proof fn law_dependencies_start_first(services: Seq<(String, Option<ComposeService>)>)
    ensures
        spec_sort_services(services) matches Ok(order) ==> forall|i: int, d: Seq<char>|
            0 <= i < order.len() && #[trigger] depends_on(services, order[i], d) ==> exists|j: int|
                0 <= j < i && #[trigger] order[j] == d,
{
    let empty = Seq::<Seq<char>>::empty();
    lemma_sort_from_ordered(services, 0, empty);
    match spec_sort_services(services) {
        Ok(order) => {
            assert forall|i: int, d: Seq<char>|
                0 <= i < order.len() && #[trigger] depends_on(services, order[i], d) implies exists|j: int|
                0 <= j < i && #[trigger] order[j] == d by {
                assert(deps_before(services, order, i));
                let svc = lookup_service(services, order[i])->Some_0->Some_0;
                assert(dependencies(svc).contains(d));
                assert(order.take(i).contains(d));
                let j = choose|j: int| 0 <= j < order.take(i).len() && order.take(i)[j] == d;
                assert(order[j] == d);
            }
        },
        Err(_) => {},
    }
}

/// `chain` follows dependencies: each service is in the file and depends on the
/// next one.
pub open spec fn is_dependency_chain(services: Seq<(String, Option<ComposeService>)>, chain: Seq<Seq<char>>) -> bool {
    forall|k: int| 0 <= k < chain.len() - 1 ==> #[trigger] depends_on(services, chain[k], chain[k + 1])
}

/// A dependency chain that returns to where it started.
pub open spec fn is_dependency_cycle(services: Seq<(String, Option<ComposeService>)>, chain: Seq<Seq<char>>) -> bool {
    &&& chain.len() >= 2
    &&& is_dependency_chain(services, chain)
    &&& chain[0] == chain.last()
}

/// A file whose dependencies run in a circle is rejected.
pub proof fn law_cycle_rejected(
    services: Seq<(String, Option<ComposeService>)>,
    chain: Seq<Seq<char>>,
)
    requires
        is_dependency_cycle(services, chain),
    ensures
        spec_sort_services(services) is Err,
{
    let empty = Seq::<Seq<char>>::empty();
    lemma_sort_from_ordered(services, 0, empty);
    law_each_service_once(services);
    if spec_sort_services(services) is Ok {
        let order = spec_sort_services(services)->Ok_0;
        let c0 = chain[0];
        assert(depends_on(services, chain[0], chain[1]));
        assert(lookup_service(services, chain[0]) is Some);
        lemma_lookup_in_keys(services, c0);
        assert(order.to_set().contains(c0));
        let i0 = choose|i: int| 0 <= i < order.len() && order[i] == c0;
        let last = chain.len() - 1;
        lemma_chain_before(services, chain, order, i0, last);
        let j = choose|j: int| 0 <= j < i0 && #[trigger] order[j] == chain[last];
        assert(order[j] == order[i0]);
    }
}

proof fn lemma_chain_before(
    services: Seq<(String, Option<ComposeService>)>,
    chain: Seq<Seq<char>>,
    order: Seq<Seq<char>>,
    i0: int,
    k: int,
)
    requires
        is_dependency_chain(services, chain),
        well_ordered(services, order),
        0 <= i0 < order.len(),
        order[i0] == chain[0],
        1 <= k < chain.len(),
    ensures
        exists|j: int| 0 <= j < i0 && #[trigger] order[j] == chain[k],
    decreases k,
{
    let (prev_idx, prev_ok) = if k == 1 {
        (i0, true)
    } else {
        lemma_chain_before(services, chain, order, i0, k - 1);
        let j = choose|j: int| 0 <= j < i0 && #[trigger] order[j] == chain[k - 1];
        (j, true)
    };
    assert(order[prev_idx] == chain[k - 1]);
    assert(deps_before(services, order, prev_idx));
    let km = k - 1;
    assert(depends_on(services, chain[km], chain[km + 1]));
    assert(order.take(prev_idx).contains(chain[k]));
    let j = choose|j: int| 0 <= j < order.take(prev_idx).len() && order.take(prev_idx)[j] == chain[k];
    assert(order[j] == chain[k]);
}

/// Service `name` of the file has a body and passes the checks on its build,
/// ports and environment.
pub open spec fn service_ok(services: Seq<(String, Option<ComposeService>)>, name: Seq<char>) -> bool {
    match lookup_service(services, name) {
        Some(Some(svc)) => spec_service_details(name, svc) is Ok,
        _ => false,
    }
}

/// A compose file the tool can start: every service passes its checks, every
/// dependency names a service of the file, and no dependencies run in a circle.
pub open spec fn is_startable_compose(services: Seq<(String, Option<ComposeService>)>) -> bool {
    &&& forall|k: Seq<char>| #[trigger] service_keys(services).contains(k) ==> service_ok(services, k)
    &&& forall|a: Seq<char>, b: Seq<char>| #[trigger]
        depends_on(services, a, b) ==> service_keys(services).contains(b)
    &&& forall|chain: Seq<Seq<char>>| !#[trigger] is_dependency_cycle(services, chain)
}

/// The walk may step onto `s` from `path`: from nothing when `s` is a service of
/// the file, or as a dependency of the last service on the path.
pub open spec fn may_step(services: Seq<(String, Option<ComposeService>)>, path: Seq<Seq<char>>, s: Seq<char>) -> bool {
    if path.len() == 0 {
        service_keys(services).contains(s)
    } else {
        depends_on(services, path.last(), s)
    }
}

proof fn lemma_visit_total(
    services: Seq<(String, Option<ComposeService>)>,
    s: Seq<char>,
    path: Seq<Seq<char>>,
    out: Seq<Seq<char>>,
)
    requires
        is_startable_compose(services),
        is_dependency_chain(services, path),
        may_step(services, path, s),
    ensures
        spec_visit(services, s, path, out) is Ok,
    decreases sort_measure(services, path), 0int, 0int,
{
    if path.contains(s) {
        let j = choose|j: int| 0 <= j < path.len() && path[j] == s;
        let c = path.subrange(j, path.len() as int).push(s);
        assert(is_dependency_chain(services, c)) by {
            assert forall|k: int| 0 <= k < c.len() - 1 implies #[trigger] depends_on(
                services,
                c[k],
                c[k + 1],
            ) by {
                if k < path.len() - j - 1 {
                    let m = j + k;
                    assert(depends_on(services, path[m], path[m + 1]));
                    assert(c[k] == path[m]);
                    assert(c[k + 1] == path[m + 1]);
                } else {
                    assert(c[k] == path.last());
                    assert(c[k + 1] == s);
                }
            }
        }
        assert(c[0] == c.last());
        assert(is_dependency_cycle(services, c));
        assert(false);
    } else if out.contains(s) {
    } else {
        if path.len() > 0 {
            assert(depends_on(services, path.last(), s));
        }
        assert(service_keys(services).contains(s));
        assert(service_ok(services, s));
        let svc = lookup_service(services, s)->Some_0->Some_0;
        lemma_measure_decreases(services, s, path);
        let path_s = path.push(s);
        assert(is_dependency_chain(services, path_s)) by {
            assert forall|k: int| 0 <= k < path_s.len() - 1 implies #[trigger] depends_on(
                services,
                path_s[k],
                path_s[k + 1],
            ) by {
                if k < path.len() - 1 {
                    assert(depends_on(services, path[k], path[k + 1]));
                } else {
                    assert(path_s[k] == path.last());
                    assert(path_s[k + 1] == s);
                }
            }
        }
        lemma_visit_deps_total(services, dependencies(svc), 0, path_s, out);
    }
}

proof fn lemma_visit_deps_total(
    services: Seq<(String, Option<ComposeService>)>,
    deps: Seq<Seq<char>>,
    i: int,
    path: Seq<Seq<char>>,
    out: Seq<Seq<char>>,
)
    requires
        is_startable_compose(services),
        is_dependency_chain(services, path),
        path.len() > 0,
        lookup_service(services, path.last()) matches Some(Some(svc)) && deps == dependencies(svc),
        0 <= i,
    ensures
        spec_visit_deps(services, deps, i, path, out) is Ok,
    decreases sort_measure(services, path), 1int, deps.len() - i,
{
    if i < deps.len() {
        assert(deps.contains(deps[i]));
        assert(depends_on(services, path.last(), deps[i]));
        lemma_visit_total(services, deps[i], path, out);
        let out1 = spec_visit(services, deps[i], path, out)->Ok_0;
        lemma_visit_deps_total(services, deps, i + 1, path, out1);
    }
}

proof fn lemma_sort_from_total(
    services: Seq<(String, Option<ComposeService>)>,
    i: int,
    out: Seq<Seq<char>>,
)
    requires
        is_startable_compose(services),
        0 <= i,
    ensures
        spec_sort_from(services, i, out) is Ok,
    decreases services.len() - i,
{
    if i < services.len() {
        let s = services[i].0@;
        assert(service_keys(services)[i] == s);
        assert(service_keys(services).contains(s));
        let empty = Seq::<Seq<char>>::empty();
        assert(is_dependency_chain(services, empty));
        lemma_visit_total(services, s, empty, out);
        let out1 = spec_visit(services, s, empty, out)->Ok_0;
        lemma_sort_from_total(services, i + 1, out1);
    }
}

/// A file whose services all pass their checks, whose dependencies all name
/// services of the file and do not run in a circle, is always ordered.
pub proof fn law_startable_file_is_ordered(services: Seq<(String, Option<ComposeService>)>)
    requires
        is_startable_compose(services),
    ensures
        spec_sort_services(services) is Ok,
{
    lemma_sort_from_total(services, 0, Seq::empty());
}

} // verus!
