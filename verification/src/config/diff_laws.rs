//! What the differences between two configurations are worth: applied to the
//! old one they give the new one.

use crate::config::manager::{
    added_upto, diff_of, find_name, global_diff, has_name, lookup, modified_upto, removed_upto,
    ConfigDiffView,
};
use crate::config::types::{ConfigView, GlobalConfigView, ServiceConfigView};
use crate::config::validation::names_unique;
use vstd::prelude::*;

verus! {

/// The services of a list by name.
pub open spec fn service_map(services: Seq<ServiceConfigView>) -> Map<
    Seq<char>,
    ServiceConfigView,
> {
    Map::new(|n: Seq<char>| has_name(services, n), |n: Seq<char>| lookup(services, n))
}

/// A set of services after one difference was applied to it.
pub open spec fn apply_diff(m: Map<Seq<char>, ServiceConfigView>, d: ConfigDiffView) -> Map<
    Seq<char>,
    ServiceConfigView,
> {
    match d {
        ConfigDiffView::ServiceAdded(s) => m.insert(s.name, s),
        ConfigDiffView::ServiceRemoved(name) => m.remove(name),
        ConfigDiffView::ServiceModified { old, new } => m.insert(new.name, new),
        ConfigDiffView::GlobalConfigModified => m,
    }
}

/// A set of services after a list of differences was applied to it in order.
pub open spec fn apply_diffs(m: Map<Seq<char>, ServiceConfigView>, diffs: Seq<ConfigDiffView>) -> Map<
    Seq<char>,
    ServiceConfigView,
>
    decreases diffs.len(),
{
    if diffs.len() == 0 {
        m
    } else {
        apply_diff(apply_diffs(m, diffs.drop_last()), diffs.last())
    }
}

/// The global block after the differences were applied: the new one where
/// they say that it changed, else the old one.
pub open spec fn patched_global(
    old: GlobalConfigView,
    new: GlobalConfigView,
    diffs: Seq<ConfigDiffView>,
) -> GlobalConfigView {
    if diffs.contains(ConfigDiffView::GlobalConfigModified) {
        new
    } else {
        old
    }
}

/// Where `find_name` finds a name, and what it passes over.
pub proof fn lemma_find_name(services: Seq<ServiceConfigView>, name: Seq<char>, from: int)
    requires
        0 <= from <= services.len(),
    ensures
        match find_name(services, name, from) {
            Some(i) => from <= i < services.len() && services[i].name == name,
            None => forall|j: int| from <= j < services.len() ==> (#[trigger] services[j]).name
                != name,
        },
    decreases services.len() - from,
{
    if from < services.len() && services[from].name != name {
        lemma_find_name(services, name, from + 1);
    }
}

/// A service at position `j` is found under its name, and with unique names
/// it is the one found.
pub proof fn lemma_lookup(services: Seq<ServiceConfigView>, j: int)
    requires
        0 <= j < services.len(),
    ensures
        has_name(services, services[j].name),
        names_unique(services) ==> lookup(services, services[j].name) == services[j],
{
    lemma_find_name(services, services[j].name, 0);
}

/// Applying one list and then another is applying the two in a row.
pub proof fn lemma_apply_concat(
    m: Map<Seq<char>, ServiceConfigView>,
    a: Seq<ConfigDiffView>,
    b: Seq<ConfigDiffView>,
)
    ensures
        apply_diffs(m, a + b) == apply_diffs(apply_diffs(m, a), b),
    decreases b.len(),
{
    if b.len() == 0 {
        assert(a + b =~= a);
    } else {
        assert((a + b).drop_last() =~= a + b.drop_last());
        assert((a + b).last() == b.last());
        lemma_apply_concat(m, a, b.drop_last());
    }
}

/// Whether `k` names one of the first `n` new services and no old one.
pub open spec fn added_name(
    olds: Seq<ServiceConfigView>,
    news: Seq<ServiceConfigView>,
    n: int,
    k: Seq<char>,
) -> bool {
    !has_name(olds, k) && exists|j: int| 0 <= j < n && (#[trigger] news[j]).name == k
}

/// Whether `k` names one of the first `n` old services and no new one.
pub open spec fn removed_name(
    olds: Seq<ServiceConfigView>,
    news: Seq<ServiceConfigView>,
    n: int,
    k: Seq<char>,
) -> bool {
    !has_name(news, k) && exists|j: int| 0 <= j < n && (#[trigger] olds[j]).name == k
}

/// Whether `k` names one of the first `n` new services and an old one that
/// differs from it.
pub open spec fn modified_name(
    olds: Seq<ServiceConfigView>,
    news: Seq<ServiceConfigView>,
    n: int,
    k: Seq<char>,
) -> bool {
    has_name(olds, k) && exists|j: int|
        0 <= j < n && (#[trigger] news[j]).name == k && lookup(olds, k) != news[j]
}

/// What applying the additions does to a set of services.
pub proof fn lemma_apply_added(
    m: Map<Seq<char>, ServiceConfigView>,
    olds: Seq<ServiceConfigView>,
    news: Seq<ServiceConfigView>,
    n: int,
    k: Seq<char>,
)
    requires
        0 <= n <= news.len(),
        names_unique(news),
    ensures
        apply_diffs(m, added_upto(olds, news, n)).dom().contains(k) <==> m.dom().contains(k)
            || added_name(olds, news, n, k),
        apply_diffs(m, added_upto(olds, news, n)).dom().contains(k) ==> apply_diffs(
            m,
            added_upto(olds, news, n),
        )[k] == if added_name(olds, news, n, k) {
            lookup(news, k)
        } else {
            m[k]
        },
    decreases n,
{
    if n > 0 {
        lemma_apply_added(m, olds, news, n - 1, k);
        let s = news[n - 1];
        lemma_lookup(news, n - 1);
        if !has_name(olds, s.name) {
            let prev = added_upto(olds, news, n - 1);
            let cur = prev.push(ConfigDiffView::ServiceAdded(s));
            assert(cur.drop_last() =~= prev);
            assert(cur.last() == ConfigDiffView::ServiceAdded(s));
        }
        if added_name(olds, news, n, k) && !added_name(olds, news, n - 1, k) {
            let j = choose|j: int| 0 <= j < n && (#[trigger] news[j]).name == k;
            assert(j == n - 1);
        }
        if added_name(olds, news, n - 1, k) {
            let j = choose|j: int| 0 <= j < n - 1 && (#[trigger] news[j]).name == k;
            assert(news[j].name == k);
        }
    }
}

/// What applying the removals does to a set of services.
pub proof fn lemma_apply_removed(
    m: Map<Seq<char>, ServiceConfigView>,
    olds: Seq<ServiceConfigView>,
    news: Seq<ServiceConfigView>,
    n: int,
    k: Seq<char>,
)
    requires
        0 <= n <= olds.len(),
    ensures
        apply_diffs(m, removed_upto(olds, news, n)).dom().contains(k) <==> m.dom().contains(k)
            && !removed_name(olds, news, n, k),
        apply_diffs(m, removed_upto(olds, news, n)).dom().contains(k) ==> apply_diffs(
            m,
            removed_upto(olds, news, n),
        )[k] == m[k],
    decreases n,
{
    if n > 0 {
        lemma_apply_removed(m, olds, news, n - 1, k);
        let s = olds[n - 1];
        if !has_name(news, s.name) {
            let prev = removed_upto(olds, news, n - 1);
            let cur = prev.push(ConfigDiffView::ServiceRemoved(s.name));
            assert(cur.drop_last() =~= prev);
            assert(cur.last() == ConfigDiffView::ServiceRemoved(s.name));
        }
        if removed_name(olds, news, n, k) && !removed_name(olds, news, n - 1, k) {
            let j = choose|j: int| 0 <= j < n && (#[trigger] olds[j]).name == k;
            assert(j == n - 1);
        }
        if removed_name(olds, news, n - 1, k) {
            let j = choose|j: int| 0 <= j < n - 1 && (#[trigger] olds[j]).name == k;
            assert(olds[j].name == k);
        }
    }
}

/// What applying the modifications does to a set of services.
pub proof fn lemma_apply_modified(
    m: Map<Seq<char>, ServiceConfigView>,
    olds: Seq<ServiceConfigView>,
    news: Seq<ServiceConfigView>,
    n: int,
    k: Seq<char>,
)
    requires
        0 <= n <= news.len(),
        names_unique(news),
    ensures
        apply_diffs(m, modified_upto(olds, news, n)).dom().contains(k) <==> m.dom().contains(k)
            || modified_name(olds, news, n, k),
        apply_diffs(m, modified_upto(olds, news, n)).dom().contains(k) ==> apply_diffs(
            m,
            modified_upto(olds, news, n),
        )[k] == if modified_name(olds, news, n, k) {
            lookup(news, k)
        } else {
            m[k]
        },
    decreases n,
{
    if n > 0 {
        lemma_apply_modified(m, olds, news, n - 1, k);
        let s = news[n - 1];
        lemma_lookup(news, n - 1);
        if has_name(olds, s.name) && lookup(olds, s.name) != s {
            let prev = modified_upto(olds, news, n - 1);
            let d = ConfigDiffView::ServiceModified { old: lookup(olds, s.name), new: s };
            let cur = prev.push(d);
            assert(cur.drop_last() =~= prev);
            assert(cur.last() == d);
        }
        if modified_name(olds, news, n, k) && !modified_name(olds, news, n - 1, k) {
            let j = choose|j: int|
                0 <= j < n && (#[trigger] news[j]).name == k && lookup(olds, k) != news[j];
            assert(j == n - 1);
        }
        if modified_name(olds, news, n - 1, k) {
            let j = choose|j: int|
                0 <= j < n - 1 && (#[trigger] news[j]).name == k && lookup(olds, k) != news[j];
            assert(news[j].name == k);
        }
    }
}

/// Applying the differences between two configurations to the old one
/// recreates the new one: the same services under the same names, and the
/// same global block. It holds of every pair in which the new configuration
/// uses no name twice.
pub proof fn lemma_diff_recreates(c1: ConfigView, c2: ConfigView)
    requires
        names_unique(c2.services),
    ensures
        apply_diffs(service_map(c1.services), diff_of(c1, c2)) == service_map(c2.services),
        patched_global(c1.global, c2.global, diff_of(c1, c2)) == c2.global,
{
    let olds = c1.services;
    let news = c2.services;
    let g = global_diff(c1.global, c2.global);
    let a = added_upto(olds, news, news.len() as int);
    let r = removed_upto(olds, news, olds.len() as int);
    let md = modified_upto(olds, news, news.len() as int);
    let m0 = service_map(olds);
    let m1 = apply_diffs(m0, g);
    let m2 = apply_diffs(m1, a);
    let m3 = apply_diffs(m2, r);
    let m4 = apply_diffs(m3, md);
    lemma_apply_concat(m0, g, a);
    lemma_apply_concat(m0, g + a, r);
    lemma_apply_concat(m0, g + a + r, md);
    assert(apply_diffs(m0, diff_of(c1, c2)) == m4);
    assert(m1 == m0) by {
        let none = Seq::<ConfigDiffView>::empty();
        assert(apply_diffs(m0, none) == m0);
        if c1.global != c2.global {
            assert(g.drop_last() =~= none);
            assert(g.last() == ConfigDiffView::GlobalConfigModified);
            assert(apply_diffs(m0, g) == apply_diff(apply_diffs(m0, g.drop_last()), g.last()));
        } else {
            assert(g =~= none);
        }
    }
    if c1.global != c2.global {
        assert(diff_of(c1, c2)[0] == ConfigDiffView::GlobalConfigModified);
    }
    assert forall|k: Seq<char>| #[trigger]
        m4.dom().contains(k) == service_map(news).dom().contains(k) && (m4.dom().contains(k)
            ==> m4[k] == service_map(news)[k]) by {
        lemma_apply_added(m1, olds, news, news.len() as int, k);
        lemma_apply_removed(m2, olds, news, olds.len() as int, k);
        lemma_apply_modified(m3, olds, news, news.len() as int, k);
        lemma_find_name(news, k, 0);
        lemma_find_name(olds, k, 0);
        if has_name(news, k) {
            let j = find_name(news, k, 0)->0;
            lemma_lookup(news, j);
            if has_name(olds, k) {
                if lookup(olds, k) != news[j] {
                    assert(modified_name(olds, news, news.len() as int, k));
                } else {
                    if modified_name(olds, news, news.len() as int, k) {
                        let j2 = choose|j2: int|
                            0 <= j2 < news.len() && (#[trigger] news[j2]).name == k && lookup(
                                olds,
                                k,
                            ) != news[j2];
                        assert(j2 == j);
                    }
                }
            } else {
                assert(added_name(olds, news, news.len() as int, k));
            }
        } else {
            if has_name(olds, k) {
                let j = find_name(olds, k, 0)->0;
                assert(olds[j].name == k);
                assert(removed_name(olds, news, olds.len() as int, k));
            }
        }
    }
    assert(m4 =~= service_map(news));
}

} // verus!
