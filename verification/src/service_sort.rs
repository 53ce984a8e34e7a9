//! Ordering the services of a compose file so that every service comes after the
//! services it depends on, by a depth-first walk that rejects cyclic
//! dependencies.
use crate::cli_errors::CliErrors;
use crate::compose::{
    dependencies, get_service, lemma_lookup_in_keys, lookup_service, service_keys,
    ComposeService,
};
use crate::compose_parser::{
    add_service_to_service_map, spec_service_details, DockerImageDetails, DockerImageDetailsView,
};
use crate::name_map::NameMap;
use crate::text::{contains_name, names};
use vstd::prelude::*;

verus! {

/// Error text when a dependency leads back to a service being walked.
pub open spec fn cycle_text() -> Seq<char> {
    "there is a cyclic dependecy in the services , please check and resolve it"@
}

/// Error text when a service or dependency is not in the file.
pub open spec fn missing_service_text(service: Seq<char>) -> Seq<char> {
    "service = "@ + service + " is not present , please check"@
}

/// Error text when a service is written with no body.
pub open spec fn empty_service_text() -> Seq<char> {
    "value"@
}

/// How many services of the file are not on the current walk path.
pub open spec fn sort_measure(services: Seq<(String, Option<ComposeService>)>, path: Seq<Seq<char>>) -> nat {
    service_keys(services).to_set().difference(path.to_set()).len()
}

/// Stepping onto a service of the file that is not yet on the path shortens
/// what is left to walk.
pub proof fn lemma_measure_decreases(
    services: Seq<(String, Option<ComposeService>)>,
    service: Seq<char>,
    path: Seq<Seq<char>>,
)
    requires
        lookup_service(services, service) is Some,
        !path.contains(service),
    ensures
        sort_measure(services, path.push(service)) < sort_measure(services, path),
{
    let ks = service_keys(services).to_set();
    lemma_lookup_in_keys(services, service);
    vstd::seq_lib::seq_to_set_is_finite(service_keys(services));
    path.lemma_push_to_set_commute(service);
    let d = ks.difference(path.to_set());
    vstd::set::axiom_set_difference_finite(ks, path.to_set());
    assert(ks.difference(path.push(service).to_set()) =~= d.remove(service));
    vstd::set::axiom_set_remove_len(d, service);
    assert(d.contains(service));
}

/// The walk from one service: `Ok` with the finished services, in the order they
/// were finished, when the walk from `service` succeeds.
///
/// A service already on the path closes a cycle; one already finished is left
/// alone; otherwise its dependencies are walked in order, then its details are
/// taken, then it is finished.
pub open spec fn spec_visit(
    services: Seq<(String, Option<ComposeService>)>,
    service: Seq<char>,
    path: Seq<Seq<char>>,
    out: Seq<Seq<char>>,
) -> Result<Seq<Seq<char>>, Seq<char>>
    decreases sort_measure(services, path), 0int, 0int,
{
    if path.contains(service) {
        Err(cycle_text())
    } else if out.contains(service) {
        Ok(out)
    } else {
        match lookup_service(services, service) {
            None => Err(missing_service_text(service)),
            Some(None) => Err(empty_service_text()),
            Some(Some(svc)) => {
                proof {
                    lemma_measure_decreases(services, service, path);
                }
                match spec_visit_deps(services, dependencies(svc), 0, path.push(service), out) {
                    Err(e) => Err(e),
                    Ok(out2) => match spec_service_details(service, svc) {
                        Err(e) => Err(e),
                        Ok(_) => Ok(out2.push(service)),
                    },
                }
            },
        }
    }
}

/// The walk from the dependencies `deps[i..]` in order, each starting where the
/// previous one ended.
pub open spec fn spec_visit_deps(
    services: Seq<(String, Option<ComposeService>)>,
    deps: Seq<Seq<char>>,
    i: int,
    path: Seq<Seq<char>>,
    out: Seq<Seq<char>>,
) -> Result<Seq<Seq<char>>, Seq<char>>
    decreases sort_measure(services, path), 1int, deps.len() - i,
{
    if i < 0 || i >= deps.len() {
        Ok(out)
    } else {
        match spec_visit(services, deps[i], path, out) {
            Err(e) => Err(e),
            Ok(out2) => spec_visit_deps(services, deps, i + 1, path, out2),
        }
    }
}

/// The walk from the services `keys[i..]` of the file, in file order.
pub open spec fn spec_sort_from(
    services: Seq<(String, Option<ComposeService>)>,
    i: int,
    out: Seq<Seq<char>>,
) -> Result<Seq<Seq<char>>, Seq<char>>
    decreases services.len() - i,
{
    if i < 0 || i >= services.len() {
        Ok(out)
    } else {
        match spec_visit(services, services[i].0@, Seq::empty(), out) {
            Err(e) => Err(e),
            Ok(out2) => spec_sort_from(services, i + 1, out2),
        }
    }
}

/// The start order of the services of a file, or the first error met.
pub open spec fn spec_sort_services(services: Seq<(String, Option<ComposeService>)>) -> Result<
    Seq<Seq<char>>,
    Seq<char>,
> {
    spec_sort_from(services, 0, Seq::empty())
}

/// The details the file gives for a service whose checks pass.
pub open spec fn details_of(services: Seq<(String, Option<ComposeService>)>, name: Seq<char>) -> DockerImageDetailsView {
    match lookup_service(services, name) {
        Some(Some(svc)) => match spec_service_details(name, svc) {
            Ok(d) => d,
            Err(_) => arbitrary(),
        },
        _ => arbitrary(),
    }
}

/// The details of each service of `order`.
pub open spec fn details_map(services: Seq<(String, Option<ComposeService>)>, order: Seq<Seq<char>>) -> Map<
    Seq<char>,
    DockerImageDetailsView,
> {
    Map::new(|k: Seq<char>| order.contains(k), |k: Seq<char>| details_of(services, k))
}

proof fn lemma_names_push(v: Seq<String>, s: String)
    ensures
        names(v.push(s)) == names(v).push(s@),
{
    assert(names(v.push(s)) =~= names(v).push(s@));
}

/// The finished services are those of the start order so far.
pub open spec fn visited_matches(visited_vec: Seq<String>, service_vec: Seq<String>) -> bool {
    names(visited_vec).to_set() == names(service_vec).to_set()
}

/// The details of the names `out` gained from position `from` on.
pub open spec fn added_details(
    services: Seq<(String, Option<ComposeService>)>,
    from: int,
    out: Seq<Seq<char>>,
) -> Map<Seq<char>, DockerImageDetailsView> {
    Map::new(
        |k: Seq<char>| out.subrange(from, out.len() as int).contains(k),
        |k: Seq<char>| details_of(services, k),
    )
}

/// `a` is a prefix of `b`.
pub open spec fn is_prefix(a: Seq<String>, b: Seq<String>) -> bool {
    a.len() <= b.len() && b.subrange(0, a.len() as int) == a
}

proof fn lemma_added_chain(
    services: Seq<(String, Option<ComposeService>)>,
    m: Map<Seq<char>, DockerImageDetailsView>,
    lo: int,
    c: Seq<Seq<char>>,
    c2: Seq<Seq<char>>,
)
    requires
        0 <= lo <= c.len() <= c2.len(),
        c2.subrange(0, c.len() as int) == c,
    ensures
        m.union_prefer_right(added_details(services, lo, c)).union_prefer_right(
            added_details(services, c.len() as int, c2),
        ) == m.union_prefer_right(added_details(services, lo, c2)),
{
    let lc = c.len() as int;
    assert forall|k: Seq<char>| #[trigger]
        c2.subrange(lo, c2.len() as int).contains(k) <==> (c.subrange(lo, lc).contains(k)
            || c2.subrange(lc, c2.len() as int).contains(k)) by {
        if c2.subrange(lo, c2.len() as int).contains(k) {
            let j = choose|j: int| 0 <= j < c2.len() - lo && c2.subrange(lo, c2.len() as int)[j] == k;
            if lo + j < lc {
                assert(c2[lo + j] == c[lo + j]);
                assert(c.subrange(lo, lc)[j] == k);
            } else {
                assert(c2.subrange(lc, c2.len() as int)[lo + j - lc] == k);
            }
        }
        if c.subrange(lo, lc).contains(k) {
            let j = choose|j: int| 0 <= j < lc - lo && c.subrange(lo, lc)[j] == k;
            assert(c2[lo + j] == c[lo + j]);
            assert(c2.subrange(lo, c2.len() as int)[j] == k);
        }
        if c2.subrange(lc, c2.len() as int).contains(k) {
            let j = choose|j: int| 0 <= j < c2.len() - lc && c2.subrange(lc, c2.len() as int)[j] == k;
            assert(c2.subrange(lo, c2.len() as int)[lc - lo + j] == k);
        }
    }
    assert(m.union_prefer_right(added_details(services, lo, c)).union_prefer_right(
        added_details(services, lc, c2),
    ) =~= m.union_prefer_right(added_details(services, lo, c2)));
}

proof fn lemma_prefix_names(a: Seq<String>, b: Seq<String>)
    requires
        is_prefix(a, b),
    ensures
        names(b).subrange(0, a.len() as int) == names(a),
        names(b).len() == b.len(),
{
    assert(names(b).subrange(0, a.len() as int) =~= names(a));
}

/// Walks the dependencies of `service` depth first, then adds `service` to
/// `service_vec` and its details to `service_map`.
///
/// `visiting_vec` holds the services on the current walk path and
/// `visited_vec` the services already finished. Whatever the state, a service
/// on the path is a cycle, a finished one is left alone, one the file lacks (or
/// writes with no body) is an error, the start order only grows, and on
/// success the details map gains the details of exactly the names added to
/// the start order. When the finished services are those of the start order,
/// the walk is the one `spec_visit` describes.
pub fn sort_services(
    visiting_vec: &mut Vec<String>,
    visited_vec: &mut Vec<String>,
    service: &str,
    service_vec: &mut Vec<String>,
    service_map: &mut NameMap<DockerImageDetails>,
    services_index_map: &Vec<(String, Option<ComposeService>)>,
) -> (res: Result<bool, CliErrors>)
    ensures
        names(old(visiting_vec)@).contains(service@) ==> res is Err && res->Err_0.message@
            == cycle_text(),
        !names(old(visiting_vec)@).contains(service@) && names(old(visited_vec)@).contains(
            service@,
        ) ==> res == Ok::<bool, CliErrors>(true),
        !names(old(visiting_vec)@).contains(service@) && !names(old(visited_vec)@).contains(
            service@,
        ) && lookup_service(services_index_map@, service@) is None ==> res is Err
            && res->Err_0.message@ == missing_service_text(service@),
        !names(old(visiting_vec)@).contains(service@) && !names(old(visited_vec)@).contains(
            service@,
        ) && lookup_service(services_index_map@, service@) == Some(None::<ComposeService>)
            ==> res is Err && res->Err_0.message@ == empty_service_text(),
        names(old(visiting_vec)@).contains(service@) || names(old(visited_vec)@).contains(service@)
            || !(lookup_service(services_index_map@, service@) matches Some(Some(_))) ==> {
            &&& *final(visiting_vec) == *old(visiting_vec)
            &&& *final(visited_vec) == *old(visited_vec)
            &&& *final(service_vec) == *old(service_vec)
            &&& *final(service_map) == *old(service_map)
        },
        is_prefix(old(service_vec)@, final(service_vec)@),
        res is Ok ==> final(visiting_vec)@ == old(visiting_vec)@,
        res is Ok ==> final(service_map)@ == old(service_map)@.union_prefer_right(
            added_details(
                services_index_map@,
                old(service_vec)@.len() as int,
                names(final(service_vec)@),
            ),
        ),
        visited_matches(old(visited_vec)@, old(service_vec)@) ==> match spec_visit(
            services_index_map@,
            service@,
            names(old(visiting_vec)@),
            names(old(service_vec)@),
        ) {
            Ok(out) => {
                &&& res == Ok::<bool, CliErrors>(true)
                &&& names(final(service_vec)@) == out
                &&& visited_matches(final(visited_vec)@, final(service_vec)@)
            },
            Err(e) => res is Err && res->Err_0.message@ == e,
        },
    decreases sort_measure(services_index_map@, names(old(visiting_vec)@)),
{
    let ghost services = services_index_map@;
    let ghost path = names(visiting_vec@);
    let ghost out0 = names(service_vec@);
    let ghost sv0 = service_vec@;
    let ghost map0 = service_map@;
    let ghost cons = visited_matches(visited_vec@, service_vec@);
    proof {
        assert(service_vec@.subrange(0, service_vec@.len() as int) =~= service_vec@);
        assert(added_details(services, out0.len() as int, out0) =~= Map::empty());
        assert(map0.union_prefer_right(added_details(services, out0.len() as int, out0)) =~= map0);
        lemma_prefix_names(sv0, sv0);
    }
    if contains_name(visiting_vec, service) {
        return Err(
            CliErrors::new(
                String::from_str(
                    "there is a cyclic dependecy in the services , please check and resolve it",
                ),
            ),
        );
    }
    proof {
        if cons {
            assert(names(visited_vec@).contains(service@) == out0.contains(service@)) by {
                assert(names(visited_vec@).to_set().contains(service@) == names(
                    visited_vec@,
                ).contains(service@));
                assert(out0.to_set().contains(service@) == out0.contains(service@));
            }
        }
    }
    if contains_name(visited_vec, service) {
        return Ok(true);
    }
    let entry = match get_service(services_index_map, service) {
        Some(e) => e,
        None => {
            let message = String::from_str("service = ").concat(service).concat(
                " is not present , please check",
            );
            return Err(CliErrors::new(message));
        },
    };
    let service_details = match entry {
        Some(s) => s,
        None => {
            return Err(CliErrors::new(String::from_str("value")));
        },
    };
    let ghost deps = dependencies(*service_details);
    let ghost path_s = path.push(service@);
    proof {
        lemma_measure_decreases(services, service@, path);
    }
    let ghost visiting0 = visiting_vec@;
    visiting_vec.push(service.to_owned());
    assert(names(visiting_vec@) == path_s) by {
        lemma_names_push(visiting0, visiting_vec@.last());
        assert(visiting0.push(visiting_vec@.last()) == visiting_vec@);
    }
    let depends_on_vec = &service_details.depends_on;
    let mut i: usize = 0;
    while i < depends_on_vec.len()
        invariant
            0 <= i <= depends_on_vec.len(),
            services == services_index_map@,
            path == names(old(visiting_vec)@),
            path_s == path.push(service@),
            out0 == names(old(service_vec)@),
            sv0 == old(service_vec)@,
            map0 == old(service_map)@,
            lookup_service(services, service@) == Some(Some(*service_details)),
            !path.contains(service@),
            !names(old(visited_vec)@).contains(service@),
            cons == visited_matches(old(visited_vec)@, old(service_vec)@),
            cons ==> !out0.contains(service@),
            deps == dependencies(*service_details),
            deps == names(depends_on_vec@),
            names(visiting_vec@) == path_s,
            visiting_vec@ == visiting0.push(visiting_vec@.last()),
            sort_measure(services, path_s) < sort_measure(services, path),
            is_prefix(sv0, service_vec@),
            service_map@ == map0.union_prefer_right(
                added_details(services, sv0.len() as int, names(service_vec@)),
            ),
            cons ==> spec_visit_deps(services, deps, 0, path_s, out0) == spec_visit_deps(
                services,
                deps,
                i as int,
                path_s,
                names(service_vec@),
            ),
            cons ==> visited_matches(visited_vec@, service_vec@),
        decreases depends_on_vec.len() - i,
    {
        let ghost cur = names(service_vec@);
        let ghost cur_sv = service_vec@;
        let ghost cur_map = service_map@;
        assert(sort_measure(services_index_map@, names(visiting_vec@)) < sort_measure(
            services_index_map@,
            names(old(visiting_vec)@),
        ));
        let ghost rv = spec_visit(services, deps[i as int], path_s, cur);
        let r = sort_services(
            visiting_vec,
            visited_vec,
            depends_on_vec[i].as_str(),
            service_vec,
            service_map,
            services_index_map,
        );
        assert(deps[i as int] == depends_on_vec@[i as int]@);
        proof {
            assert(is_prefix(sv0, service_vec@)) by {
                assert(service_vec@.subrange(0, sv0.len() as int) =~= service_vec@.subrange(
                    0,
                    cur_sv.len() as int,
                ).subrange(0, sv0.len() as int));
            }
        }
        match r {
            Err(e) => {
                proof {
                    if cons {
                        assert(rv is Err && rv->Err_0 == e.message@);
                        assert(spec_visit_deps(services, deps, i as int, path_s, cur) == rv);
                        assert(path.push(service@) == path_s);
                        assert(spec_visit_deps(
                            services,
                            dependencies(*service_details),
                            0,
                            path.push(service@),
                            out0,
                        ) == rv);
                        assert(spec_visit(services, service@, path, out0) == rv);
                    }
                }
                return Err(e);
            },
            Ok(_) => {},
        }
        proof {
            lemma_prefix_names(cur_sv, service_vec@);
            lemma_prefix_names(sv0, cur_sv);
            lemma_added_chain(services, map0, sv0.len() as int, cur, names(service_vec@));
        }
        i = i + 1;
    }
    let ghost out2 = names(service_vec@);
    assert(cons ==> spec_visit_deps(services, deps, 0, path_s, out0) == Ok::<
        Seq<Seq<char>>,
        Seq<char>,
    >(out2));
    let ghost svc_vec_before = service_vec@;
    service_vec.push(service.to_owned());
    proof {
        lemma_names_push(svc_vec_before, service_vec@.last());
        assert(svc_vec_before.push(service_vec@.last()) == service_vec@);
        assert(service_vec@.subrange(0, sv0.len() as int) =~= svc_vec_before.subrange(
            0,
            sv0.len() as int,
        ));
    }
    let ghost map_before = service_map@;
    let added = add_service_to_service_map(service, service_map, services_index_map);
    match added {
        Err(e) => {
            return Err(e);
        },
        Ok(_) => {},
    }
    proof {
        let d = spec_service_details(service@, *service_details);
        assert(d is Ok);
        assert(details_of(services, service@) == d->Ok_0);
        assert(service_map@ == map_before.insert(service@, d->Ok_0));
        let lo = sv0.len() as int;
        let o2 = out2.push(service@);
        assert forall|k: Seq<char>| #[trigger] o2.subrange(lo, o2.len() as int).contains(k) <==> (
        out2.subrange(lo, out2.len() as int).contains(k) || k == service@) by {
            if o2.subrange(lo, o2.len() as int).contains(k) && k != service@ {
                let j = choose|j: int|
                    0 <= j < o2.len() - lo && o2.subrange(lo, o2.len() as int)[j] == k;
                assert(lo + j < out2.len());
                assert(out2.subrange(lo, out2.len() as int)[j] == k);
            }
            if out2.subrange(lo, out2.len() as int).contains(k) {
                let j = choose|j: int|
                    0 <= j < out2.len() - lo && out2.subrange(lo, out2.len() as int)[j] == k;
                assert(o2.subrange(lo, o2.len() as int)[j] == k);
            }
            if k == service@ {
                assert(o2.subrange(lo, o2.len() as int)[out2.len() - lo] == k);
            }
        }
        assert(service_map@ =~= map0.union_prefer_right(added_details(services, lo, o2)));
        if cons {
            assert forall|k: Seq<char>| #[trigger] o2.contains(k) <==> (out2.contains(k)
                || k == service@) by {
                if o2.contains(k) && k != service@ {
                    let j = choose|j: int| 0 <= j < o2.len() && o2[j] == k;
                    assert(j < out2.len());
                    assert(out2[j] == k);
                }
                if out2.contains(k) {
                    let j = choose|j: int| 0 <= j < out2.len() && out2[j] == k;
                    assert(o2[j] == k);
                }
                if k == service@ {
                    assert(o2[out2.len() as int] == k);
                }
            }
        }
    }
    let ghost visited_before = visited_vec@;
    visited_vec.push(service.to_owned());
    proof {
        lemma_names_push(visited_before, visited_vec@.last());
        assert(visited_before.push(visited_vec@.last()) == visited_vec@);
        if cons {
            assert(names(visited_vec@).to_set() =~= out2.push(service@).to_set()) by {
                names(visited_before).lemma_push_to_set_commute(service@);
                out2.lemma_push_to_set_commute(service@);
            }
        }
    }
    visiting_vec.pop();
    assert(visiting_vec@ =~= visiting0);
    Ok(true)
}

/// Orders the services of a compose file for starting: every service after the
/// services it depends on. Gives the details of each service, keyed by name,
/// and the names in start order.
pub fn construct_docker_image_details_map(
    services_index_map: &Vec<(String, Option<ComposeService>)>,
) -> (res: Result<(NameMap<DockerImageDetails>, Vec<String>), CliErrors>)
    ensures
        match spec_sort_services(services_index_map@) {
            Ok(order) => res is Ok && names(res->Ok_0.1@) == order && res->Ok_0.0@ == details_map(
                services_index_map@,
                order,
            ),
            Err(e) => res is Err && res->Err_0.message@ == e,
        },
{
    let mut service_map: NameMap<DockerImageDetails> = NameMap::new();
    let mut service_vec: Vec<String> = Vec::new();
    let mut visited_ser: Vec<String> = Vec::new();
    let mut visiting_ser: Vec<String> = Vec::new();
    proof {
        assert(names(service_vec@) =~= Seq::<Seq<char>>::empty());
        assert(names(visited_ser@) =~= Seq::<Seq<char>>::empty());
        assert(names(visiting_ser@) =~= Seq::<Seq<char>>::empty());
        assert(service_map@ =~= details_map(services_index_map@, names(service_vec@)));
    }
    let mut i: usize = 0;
    while i < services_index_map.len()
        invariant
            0 <= i <= services_index_map.len(),
            visiting_ser@ == Seq::<String>::empty(),
            spec_sort_services(services_index_map@) == spec_sort_from(
                services_index_map@,
                i as int,
                names(service_vec@),
            ),
            names(visited_ser@).to_set() == names(service_vec@).to_set(),
            service_map@ == details_map(services_index_map@, names(service_vec@)),
        decreases services_index_map.len() - i,
    {
        assert(names(visiting_ser@) =~= Seq::<Seq<char>>::empty());
        let ghost prev_sv = service_vec@;
        let ghost prev_map = service_map@;
        sort_services(
            &mut visiting_ser,
            &mut visited_ser,
            services_index_map[i].0.as_str(),
            &mut service_vec,
            &mut service_map,
            services_index_map,
        )?;
        proof {
            let services = services_index_map@;
            let prev = names(prev_sv);
            let now = names(service_vec@);
            lemma_prefix_names(prev_sv, service_vec@);
            assert forall|k: Seq<char>| #[trigger] now.contains(k) <==> (prev.contains(k)
                || now.subrange(prev.len() as int, now.len() as int).contains(k)) by {
                if now.contains(k) {
                    let j = choose|j: int| 0 <= j < now.len() && now[j] == k;
                    if j < prev.len() {
                        assert(now.subrange(0, prev.len() as int)[j] == k);
                    } else {
                        assert(now.subrange(prev.len() as int, now.len() as int)[j - prev.len()]
                            == k);
                    }
                }
                if prev.contains(k) {
                    let j = choose|j: int| 0 <= j < prev.len() && prev[j] == k;
                    assert(now.subrange(0, prev.len() as int)[j] == k);
                }
                if now.subrange(prev.len() as int, now.len() as int).contains(k) {
                    let j = choose|j: int|
                        0 <= j < now.len() - prev.len() && now.subrange(
                            prev.len() as int,
                            now.len() as int,
                        )[j] == k;
                    assert(now[prev.len() + j] == k);
                }
            }
            assert(service_map@ =~= details_map(services, now));
        }
        i = i + 1;
    }
    Ok((service_map, service_vec))
}

} // verus!
