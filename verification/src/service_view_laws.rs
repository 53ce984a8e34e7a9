//! The start order and the details of a compose file depend only on the text
//! of its services: two lists of services with the same text form give the
//! same order, the same errors and the same details.
use crate::compose::{
    dependencies, lookup_service, opt_service_view, service_keys, services_view, ComposeBuild,
    ComposePorts, ComposeService, ComposeServiceView,
};
use crate::compose_parser::{spec_build_folder, spec_ports, spec_service_details};
use crate::service_sort::{
    details_map, details_of, lemma_measure_decreases, sort_measure, spec_sort_from,
    spec_sort_services, spec_visit, spec_visit_deps,
};
use crate::text::names;
use vstd::prelude::*;

verus! {

/// The text form of what `lookup_service` gives.
pub open spec fn lookup_view(o: Option<Option<ComposeService>>) -> Option<Option<ComposeServiceView>> {
    match o {
        Some(s) => Some(opt_service_view(s)),
        None => None,
    }
}

proof fn lemma_view_drop_last(a: Seq<(String, Option<ComposeService>)>)
    requires
        a.len() > 0,
    ensures
        services_view(a.drop_last()) == services_view(a).drop_last(),
        services_view(a).last() == (a.last().0@, opt_service_view(a.last().1)),
        services_view(a).len() == a.len(),
{
    assert(services_view(a.drop_last()) =~= services_view(a).drop_last());
}

proof fn lemma_keys_view(a: Seq<(String, Option<ComposeService>)>, b: Seq<(String, Option<ComposeService>)>)
    requires
        services_view(a) == services_view(b),
    ensures
        service_keys(a) == service_keys(b),
{
    assert(services_view(a).len() == a.len() && services_view(b).len() == b.len());
    assert forall|i: int| 0 <= i < a.len() implies service_keys(a)[i] == service_keys(b)[i] by {
        assert(services_view(a)[i].0 == a[i].0@);
        assert(services_view(b)[i].0 == b[i].0@);
    }
    assert(service_keys(a) =~= service_keys(b));
}

proof fn lemma_lookup_view(
    a: Seq<(String, Option<ComposeService>)>,
    b: Seq<(String, Option<ComposeService>)>,
    name: Seq<char>,
)
    requires
        services_view(a) == services_view(b),
    ensures
        lookup_view(lookup_service(a, name)) == lookup_view(lookup_service(b, name)),
    decreases a.len(),
{
    assert(services_view(a).len() == a.len() && services_view(b).len() == b.len());
    if a.len() > 0 {
        lemma_view_drop_last(a);
        lemma_view_drop_last(b);
        lemma_lookup_view(a.drop_last(), b.drop_last(), name);
    }
}

proof fn lemma_ports_view(n: Seq<char>, x: ComposePorts, y: ComposePorts)
    requires
        x@ == y@,
    ensures
        spec_ports(n, x) == spec_ports(n, y),
{
    match (x, y) {
        (ComposePorts::Short(v), ComposePorts::Short(w)) => {
            assert(names(v@) == names(w@));
            assert(v.len() == names(v@).len() && w.len() == names(w@).len());
            if v.len() > 0 {
                assert(names(v@)[0] == v[0]@ && names(w@)[0] == w[0]@);
            }
        },
        _ => {},
    }
}

proof fn lemma_build_view(n: Seq<char>, x: Option<ComposeBuild>, y: Option<ComposeBuild>)
    requires
        crate::compose::opt_build_view(x) == crate::compose::opt_build_view(y),
    ensures
        spec_build_folder(n, x) == spec_build_folder(n, y),
{
}

proof fn lemma_details_view(n: Seq<char>, x: ComposeService, y: ComposeService)
    requires
        x@ == y@,
    ensures
        spec_service_details(n, x) == spec_service_details(n, y),
        dependencies(x) == dependencies(y),
{
    lemma_ports_view(n, x.ports, y.ports);
    lemma_build_view(n, x.build_, y.build_);
}

proof fn lemma_visit_view(
    a: Seq<(String, Option<ComposeService>)>,
    b: Seq<(String, Option<ComposeService>)>,
    s: Seq<char>,
    path: Seq<Seq<char>>,
    out: Seq<Seq<char>>,
)
    requires
        services_view(a) == services_view(b),
    ensures
        spec_visit(a, s, path, out) == spec_visit(b, s, path, out),
    decreases sort_measure(a, path), 0int, 0int,
{
    lemma_keys_view(a, b);
    lemma_lookup_view(a, b, s);
    if !path.contains(s) && !out.contains(s) {
        match lookup_service(a, s) {
            Some(Some(x)) => {
                let y = lookup_service(b, s)->Some_0->Some_0;
                lemma_details_view(s, x, y);
                lemma_measure_decreases(a, s, path);
                lemma_deps_view(a, b, dependencies(x), 0, path.push(s), out);
            },
            _ => {},
        }
    }
}

proof fn lemma_deps_view(
    a: Seq<(String, Option<ComposeService>)>,
    b: Seq<(String, Option<ComposeService>)>,
    deps: Seq<Seq<char>>,
    i: int,
    path: Seq<Seq<char>>,
    out: Seq<Seq<char>>,
)
    requires
        services_view(a) == services_view(b),
    ensures
        spec_visit_deps(a, deps, i, path, out) == spec_visit_deps(b, deps, i, path, out),
    decreases sort_measure(a, path), 1int, deps.len() - i,
{
    lemma_keys_view(a, b);
    if 0 <= i < deps.len() {
        lemma_visit_view(a, b, deps[i], path, out);
        match spec_visit(a, deps[i], path, out) {
            Ok(out2) => lemma_deps_view(a, b, deps, i + 1, path, out2),
            Err(_) => {},
        }
    }
}

proof fn lemma_sort_from_view(
    a: Seq<(String, Option<ComposeService>)>,
    b: Seq<(String, Option<ComposeService>)>,
    i: int,
    out: Seq<Seq<char>>,
)
    requires
        services_view(a) == services_view(b),
    ensures
        spec_sort_from(a, i, out) == spec_sort_from(b, i, out),
    decreases a.len() - i,
{
    assert(services_view(a).len() == a.len() && services_view(b).len() == b.len());
    if 0 <= i < a.len() {
        assert(services_view(a)[i].0 == a[i].0@ && services_view(b)[i].0 == b[i].0@);
        lemma_visit_view(a, b, a[i].0@, Seq::empty(), out);
        match spec_visit(a, a[i].0@, Seq::empty(), out) {
            Ok(out2) => lemma_sort_from_view(a, b, i + 1, out2),
            Err(_) => {},
        }
    }
}

/// Two lists of services with the same text form give the same start order
/// (or the same error) and the same details for every order.
pub proof fn lemma_plan_depends_on_view(
    a: Seq<(String, Option<ComposeService>)>,
    b: Seq<(String, Option<ComposeService>)>,
)
    requires
        services_view(a) == services_view(b),
    ensures
        spec_sort_services(a) == spec_sort_services(b),
        forall|order: Seq<Seq<char>>| #[trigger] details_map(a, order) == details_map(b, order),
{
    lemma_sort_from_view(a, b, 0, Seq::empty());
    assert forall|order: Seq<Seq<char>>| #[trigger] details_map(a, order) == details_map(b, order) by {
        assert forall|k: Seq<char>| details_of(a, k) == details_of(b, k) by {
            lemma_lookup_view(a, b, k);
            match lookup_service(a, k) {
                Some(Some(x)) => {
                    let y = lookup_service(b, k)->Some_0->Some_0;
                    lemma_details_view(k, x, y);
                },
                _ => {},
            }
        }
        assert(details_map(a, order) =~= details_map(b, order));
    }
}

} // verus!
