//! The application registry: the mapping from application name to
//! application descriptor, and the mutations the event stream drives.
//!
//! The registry invariant: application names are unique, a container id
//! appears in at most one application's collection (and at most once there),
//! and every registered application has a usable port. Every operation
//! requires and re-establishes it, so it holds after any sequence of
//! create, destroy and rename operations.

use crate::app_data::{AppContainerData, AppData};
use crate::strutil::str_eq;
use vstd::prelude::*;

verus! {

/// Whether some container in `s` carries this id.
pub open spec fn id_in(s: Seq<AppContainerData>, id: Seq<char>) -> bool {
    exists|k: int| 0 <= k < s.len() && (#[trigger] s[k]).container_id@ == id
}

/// No two containers of `s` share an id.
pub open spec fn pairwise_distinct_ids(s: Seq<AppContainerData>) -> bool {
    forall|k: int, l: int|
        0 <= k < l < s.len() ==> (#[trigger] s[k]).container_id@ != (#[trigger] s[l]).container_id@
}

/// Whether the registry has an entry for this application name.
pub open spec fn spec_has_app(apps: Seq<AppData>, name: Seq<char>) -> bool {
    exists|i: int| 0 <= i < apps.len() && (#[trigger] apps[i]).app_name@ == name
}

/// Whether any registered application's collection carries this container id.
pub open spec fn spec_has_container_id(apps: Seq<AppData>, id: Seq<char>) -> bool {
    exists|i: int| 0 <= i < apps.len() && id_in((#[trigger] apps[i]).containers@, id)
}

/// Application names are globally unique.
pub open spec fn names_unique(apps: Seq<AppData>) -> bool {
    forall|i: int, j: int|
        0 <= i < j < apps.len() ==> (#[trigger] apps[i]).app_name@ != (
        #[trigger] apps[j]).app_name@
}

/// A container id appears in at most one application's collection, and at
/// most once within it.
pub open spec fn ids_unique(apps: Seq<AppData>) -> bool {
    &&& forall|i: int|
        0 <= i < apps.len() ==> pairwise_distinct_ids((#[trigger] apps[i]).containers@)
    &&& forall|i: int, j: int, id: Seq<char>|
        0 <= i < apps.len() && 0 <= j < apps.len() && i != j ==> !(#[trigger] id_in(
            apps[i].containers@,
            id,
        ) && #[trigger] id_in(apps[j].containers@, id))
}

/// Every registered application has a port in 1..=65535.
pub open spec fn ports_valid(apps: Seq<AppData>) -> bool {
    forall|i: int| 0 <= i < apps.len() ==> 1 <= (#[trigger] apps[i]).port
}

/// The containers of `s` whose id is not `id`, in order.
pub open spec fn without_id(s: Seq<AppContainerData>, id: Seq<char>) -> Seq<AppContainerData>
    decreases s.len(),
{
    if s.len() == 0 {
        Seq::empty()
    } else if s.last().container_id@ == id {
        without_id(s.drop_last(), id)
    } else {
        without_id(s.drop_last(), id).push(s.last())
    }
}

/// Whether `b` is `a` after a display-name rewrite from `old_name` to
/// `new_name`: ids are kept, and exactly the containers whose display name
/// was `old_name` now show `new_name` as both name and hostname.
pub open spec fn renamed_containers(
    a: Seq<AppContainerData>,
    b: Seq<AppContainerData>,
    old_name: Seq<char>,
    new_name: Seq<char>,
) -> bool {
    &&& b.len() == a.len()
    &&& forall|k: int|
        0 <= k < a.len() && (#[trigger] a[k]).container_name@ != old_name ==> b[k] == a[k]
    &&& forall|k: int|
        0 <= k < a.len() && (#[trigger] a[k]).container_name@ == old_name ==> {
            &&& b[k].container_id == a[k].container_id
            &&& b[k].container_name@ == new_name
            &&& b[k].hostname@ == new_name
        }
}

#[derive(Debug)]
pub struct Registry {
    pub apps: Vec<AppData>,
}

/// The registry invariant spelled out: under `wf`, application names are
/// globally unique, a container id appears in at most one application's
/// collection (and at most once there), and every entry has a usable port.
/// `Registry::new` establishes `wf` and every operation requires and
/// re-establishes it, so this holds after any sequence of create, destroy
/// and rename operations.
pub proof fn lemma_registry_invariant(r: Registry)
    requires
        r.wf(),
    ensures
        names_unique(r.apps@),
        ids_unique(r.apps@),
        ports_valid(r.apps@),
{
}

proof fn lemma_id_in_push(s: Seq<AppContainerData>, c: AppContainerData, id: Seq<char>)
    ensures
        id_in(s.push(c), id) <==> (id_in(s, id) || c.container_id@ == id),
{
    if id_in(s.push(c), id) {
        let k = choose|k: int| 0 <= k < s.push(c).len() && (#[trigger] s.push(c)[k]).container_id@
            == id;
        if k < s.len() {
            assert(s[k] == s.push(c)[k]);
        }
    }
    if id_in(s, id) {
        let k = choose|k: int| 0 <= k < s.len() && (#[trigger] s[k]).container_id@ == id;
        assert(s.push(c)[k] == s[k]);
    }
    assert(s.push(c)[s.len() as int] == c);
}

/// What detaching keeps and drops: every survivor had a different id and was
/// already present, and every container with a different id survives.
pub proof fn lemma_without_id_exact(s: Seq<AppContainerData>, id: Seq<char>)
    ensures
        forall|l: int|
            0 <= l < without_id(s, id).len() ==> (#[trigger] without_id(s, id)[l]).container_id@
                != id,
        forall|l: int|
            0 <= l < without_id(s, id).len() ==> s.contains(#[trigger] without_id(s, id)[l]),
        forall|k: int|
            0 <= k < s.len() && (#[trigger] s[k]).container_id@ != id ==> without_id(
                s,
                id,
            ).contains(s[k]),
    decreases s.len(),
{
    if s.len() > 0 {
        lemma_without_id_exact(s.drop_last(), id);
        let pre = without_id(s.drop_last(), id);
        assert forall|l: int| 0 <= l < pre.len() implies s.contains(#[trigger] pre[l]) by {
            let m = choose|m: int| 0 <= m < s.drop_last().len() && s.drop_last()[m] == pre[l];
            assert(s[m] == pre[l]);
        }
        assert forall|k: int|
            0 <= k < s.len() && (#[trigger] s[k]).container_id@ != id implies without_id(
            s,
            id,
        ).contains(s[k]) by {
            if k < s.len() - 1 {
                let m = choose|m: int| 0 <= m < pre.len() && pre[m] == s.drop_last()[k];
                if s.last().container_id@ == id {
                    assert(without_id(s, id)[m] == s[k]);
                } else {
                    assert(pre.push(s.last())[m] == s[k]);
                }
            } else {
                assert(without_id(s, id)[pre.len() as int] == s.last());
            }
        }
    }
}

proof fn lemma_without_id_no_new_ids(s: Seq<AppContainerData>, id: Seq<char>, id2: Seq<char>)
    ensures
        id_in(without_id(s, id), id2) ==> id_in(s, id2),
{
    lemma_without_id_exact(s, id);
    if id_in(without_id(s, id), id2) {
        let l = choose|l: int|
            0 <= l < without_id(s, id).len() && (#[trigger] without_id(s, id)[l]).container_id@
                == id2;
        let k = choose|k: int| 0 <= k < s.len() && s[k] == without_id(s, id)[l];
        assert((#[trigger] s[k]).container_id@ == id2);
    }
}

proof fn lemma_without_id_distinct(s: Seq<AppContainerData>, id: Seq<char>)
    requires
        pairwise_distinct_ids(s),
    ensures
        pairwise_distinct_ids(without_id(s, id)),
    decreases s.len(),
{
    if s.len() > 0 {
        assert(pairwise_distinct_ids(s.drop_last()));
        lemma_without_id_distinct(s.drop_last(), id);
        if s.last().container_id@ != id {
            let pre = without_id(s.drop_last(), id);
            lemma_without_id_exact(s.drop_last(), id);
            assert forall|k: int, l: int| 0 <= k < l < pre.push(s.last()).len() implies (
            #[trigger] pre.push(s.last())[k]).container_id@ != (#[trigger] pre.push(
                s.last(),
            )[l]).container_id@ by {
                if l == pre.len() {
                    let m = choose|m: int| 0 <= m < s.drop_last().len() && s.drop_last()[m]
                        == pre[k];
                    assert(s[m] == pre[k]);
                    assert(s[s.len() - 1] == s.last());
                }
            }
        }
    }
}

impl Registry {
    /// The registry invariant.
    pub open spec fn wf(&self) -> bool {
        &&& names_unique(self.apps@)
        &&& ids_unique(self.apps@)
        &&& ports_valid(self.apps@)
    }

    pub fn new() -> (r: Registry)
        ensures
            r.apps@.len() == 0,
            r.wf(),
    {
        Registry { apps: Vec::new() }
    }

    /// The index of the entry for this name, if there is one.
    fn find_app(&self, app_name: &str) -> (r: Option<usize>)
        ensures
            match r {
                Some(i) => i < self.apps@.len() && self.apps@[i as int].app_name@ == app_name@,
                None => !spec_has_app(self.apps@, app_name@),
            },
    {
        let n = self.apps.len();
        let mut i: usize = 0;
        while i < n
            invariant
                0 <= i <= n,
                n == self.apps@.len(),
                forall|k: int| 0 <= k < i ==> (#[trigger] self.apps@[k]).app_name@ != app_name@,
            decreases n - i,
        {
            if str_eq(self.apps[i].app_name.as_str(), app_name) {
                return Some(i);
            }
            i = i + 1;
        }
        None
    }

    /// Whether an entry for this application name exists.
    pub fn contains_app(&self, app_name: &str) -> (r: bool)
        ensures
            r == spec_has_app(self.apps@, app_name@),
    {
        match self.find_app(app_name) {
            Some(_) => true,
            None => false,
        }
    }

    /// Whether any registered application already holds this container id.
    pub fn contains_container_id(&self, id: &str) -> (r: bool)
        ensures
            r == spec_has_container_id(self.apps@, id@),
    {
        let n = self.apps.len();
        let mut i: usize = 0;
        while i < n
            invariant
                0 <= i <= n,
                n == self.apps@.len(),
                forall|k: int| 0 <= k < i ==> !id_in((#[trigger] self.apps@[k]).containers@, id@),
            decreases n - i,
        {
            let m = self.apps[i].containers.len();
            let mut k: usize = 0;
            while k < m
                invariant
                    0 <= k <= m,
                    i < n == self.apps@.len(),
                    m == self.apps@[i as int].containers@.len(),
                    forall|l: int|
                        0 <= l < k ==> (#[trigger] self.apps@[i as int].containers@[l]).container_id@
                            != id@,
                decreases m - k,
            {
                if str_eq(self.apps[i].containers[k].container_id.as_str(), id) {
                    return true;
                }
                k = k + 1;
            }
            i = i + 1;
        }
        false
    }

    /// Appends a container to an existing entry; reports `false` (and leaves
    /// the registry alone) when the entry does not exist — the caller must
    /// have checked.
    pub fn attach(&mut self, app_name: &str, container: AppContainerData) -> (r: bool)
        requires
            old(self).wf(),
            !spec_has_container_id(old(self).apps@, container.container_id@),
        ensures
            final(self).wf(),
            r == spec_has_app(old(self).apps@, app_name@),
            !r ==> *final(self) == *old(self),
            final(self).apps@.len() == old(self).apps@.len(),
            forall|j: int|
                0 <= j < old(self).apps@.len() && (#[trigger] old(self).apps@[j]).app_name@
                    != app_name@ ==> final(self).apps@[j] == old(self).apps@[j],
            forall|j: int|
                0 <= j < old(self).apps@.len() && (#[trigger] old(self).apps@[j]).app_name@
                    == app_name@ ==> {
                    &&& final(self).apps@[j].containers@ == old(self).apps@[j].containers@.push(
                        container,
                    )
                    &&& final(self).apps@[j].app_name == old(self).apps@[j].app_name
                    &&& final(self).apps@[j].port == old(self).apps@[j].port
                    &&& final(self).apps@[j].external == old(self).apps@[j].external
                    &&& final(self).apps@[j].auth_type == old(self).apps@[j].auth_type
                },
    {
        let idx = match self.find_app(app_name) {
            Some(i) => i,
            None => {
                return false;
            },
        };
        let i = idx;
        let mut app = self.apps.remove(i);
        app.containers.push(container);
        self.apps.insert(i, app);
        proof {
            let oa = old(self).apps@;
            let fa = self.apps@;
            assert(fa =~= oa.update(i as int, fa[i as int]));
            assert(fa[i as int].containers@ == oa[i as int].containers@.push(container));
            assert(!id_in(oa[i as int].containers@, container.container_id@));
            lemma_id_in_push(oa[i as int].containers@, container, container.container_id@);
            assert forall|k: int, l: int| 0 <= k < l < fa[i as int].containers@.len() implies (
            #[trigger] fa[i as int].containers@[k]).container_id@ != (#[trigger] fa[
                i as int
            ].containers@[l]).container_id@ by {
                let oc = oa[i as int].containers@;
                if l == oc.len() {
                    assert(fa[i as int].containers@[l] == container);
                    assert(fa[i as int].containers@[k] == oc[k]);
                    if oc[k].container_id@ == container.container_id@ {
                        assert(id_in(oc, container.container_id@));
                    }
                } else {
                    assert(fa[i as int].containers@[k] == oa[i as int].containers@[k]);
                    assert(fa[i as int].containers@[l] == oa[i as int].containers@[l]);
                }
            }
            assert forall|i2: int, j2: int, id2: Seq<char>|
                0 <= i2 < fa.len() && 0 <= j2 < fa.len() && i2 != j2 implies !(#[trigger] id_in(
                fa[i2].containers@,
                id2,
            ) && #[trigger] id_in(fa[j2].containers@, id2)) by {
                lemma_id_in_push(oa[i as int].containers@, container, id2);
                if id_in(fa[i2].containers@, id2) && id_in(fa[j2].containers@, id2) {
                    if i2 == i {
                        if id2 == container.container_id@ {
                            assert(!id_in(oa[j2].containers@, id2));
                        } else {
                            assert(id_in(oa[i2].containers@, id2));
                        }
                    } else if j2 == i {
                        if id2 == container.container_id@ {
                            assert(!id_in(oa[i2].containers@, id2));
                        } else {
                            assert(id_in(oa[j2].containers@, id2));
                        }
                    }
                }
            }
        }
        true
    }

    /// Seeds an application from the startup scan or a create event: inserts
    /// the entry when the name is new, and in either case attaches the
    /// container. An existing entry keeps its own port, visibility and auth.
    pub fn upsert_from_snapshot(&mut self, app: AppData, container: AppContainerData)
        requires
            old(self).wf(),
            !spec_has_container_id(old(self).apps@, container.container_id@),
            app.containers@.len() == 0,
            1 <= app.port,
        ensures
            final(self).wf(),
            spec_has_app(old(self).apps@, app.app_name@) ==> {
                &&& final(self).apps@.len() == old(self).apps@.len()
                &&& forall|j: int|
                    0 <= j < old(self).apps@.len() && (#[trigger] old(self).apps@[j]).app_name@
                        != app.app_name@ ==> final(self).apps@[j] == old(self).apps@[j]
                &&& forall|j: int|
                    0 <= j < old(self).apps@.len() && (#[trigger] old(self).apps@[j]).app_name@
                        == app.app_name@ ==> {
                        &&& final(self).apps@[j].containers@ == old(
                            self,
                        ).apps@[j].containers@.push(container)
                        &&& final(self).apps@[j].app_name == old(self).apps@[j].app_name
                        &&& final(self).apps@[j].port == old(self).apps@[j].port
                        &&& final(self).apps@[j].external == old(self).apps@[j].external
                        &&& final(self).apps@[j].auth_type == old(self).apps@[j].auth_type
                    }
            },
            !spec_has_app(old(self).apps@, app.app_name@) ==> {
                &&& final(self).apps@.len() == old(self).apps@.len() + 1
                &&& forall|j: int|
                    0 <= j < old(self).apps@.len() ==> final(self).apps@[j] == old(self).apps@[j]
                &&& final(self).apps@.last().app_name == app.app_name
                &&& final(self).apps@.last().port == app.port
                &&& final(self).apps@.last().external == app.external
                &&& final(self).apps@.last().auth_type == app.auth_type
                &&& final(self).apps@.last().containers@ == seq![container]
            },
    {
        if self.contains_app(app.app_name.as_str()) {
            self.attach(app.app_name.as_str(), container);
        } else {
            let mut a = app;
            a.containers.push(container);
            proof {
                assert(a.containers@ =~= seq![container]);
            }
            self.apps.push(a);
            proof {
                let oa = old(self).apps@;
                let fa = self.apps@;
                let n = oa.len() as int;
                assert(fa[n] == a);
                assert forall|k: int, l: int| 0 <= k < l < a.containers@.len() implies (
                #[trigger] a.containers@[k]).container_id@ != (
                #[trigger] a.containers@[l]).container_id@ by {}
                assert forall|i2: int, j2: int, id2: Seq<char>|
                    0 <= i2 < fa.len() && 0 <= j2 < fa.len() && i2 != j2 implies !(#[trigger] id_in(
                    fa[i2].containers@,
                    id2,
                ) && #[trigger] id_in(fa[j2].containers@, id2)) by {
                    if id_in(fa[i2].containers@, id2) && id_in(fa[j2].containers@, id2) {
                        if i2 == n {
                            assert(fa[i2].containers@ =~= seq![container]);
                            assert(id2 == container.container_id@);
                            assert(!id_in(oa[j2].containers@, id2));
                        } else if j2 == n {
                            assert(fa[j2].containers@ =~= seq![container]);
                            assert(id2 == container.container_id@);
                            assert(!id_in(oa[i2].containers@, id2));
                        }
                    }
                }
            }
        }
    }

    /// Removes the container with this id from the named application's
    /// collection; a lookup miss is a no-op. Reports whether the entry for
    /// the application was found at all.
    pub fn detach_by_container_id(&mut self, app_name: &str, container_id: &str) -> (r: bool)
        requires
            old(self).wf(),
        ensures
            final(self).wf(),
            r == spec_has_app(old(self).apps@, app_name@),
            !r ==> *final(self) == *old(self),
            final(self).apps@.len() == old(self).apps@.len(),
            forall|j: int|
                0 <= j < old(self).apps@.len() && (#[trigger] old(self).apps@[j]).app_name@
                    != app_name@ ==> final(self).apps@[j] == old(self).apps@[j],
            forall|j: int|
                0 <= j < old(self).apps@.len() && (#[trigger] old(self).apps@[j]).app_name@
                    == app_name@ ==> {
                    &&& final(self).apps@[j].containers@ == without_id(
                        old(self).apps@[j].containers@,
                        container_id@,
                    )
                    &&& final(self).apps@[j].app_name == old(self).apps@[j].app_name
                    &&& final(self).apps@[j].port == old(self).apps@[j].port
                    &&& final(self).apps@[j].external == old(self).apps@[j].external
                    &&& final(self).apps@[j].auth_type == old(self).apps@[j].auth_type
                },
    {
        let idx = match self.find_app(app_name) {
            Some(i) => i,
            None => {
                return false;
            },
        };
        let i = idx;
        let mut app = self.apps.remove(i);
        let m = app.containers.len();
        let mut kept: Vec<AppContainerData> = Vec::new();
        let mut k: usize = 0;
        proof {
            assert(app.containers@.take(0) =~= Seq::<AppContainerData>::empty());
        }
        while k < m
            invariant
                0 <= k <= m,
                m == app.containers@.len(),
                kept@ == without_id(app.containers@.take(k as int), container_id@),
            decreases m - k,
        {
            proof {
                assert(app.containers@.take(k + 1).drop_last() =~= app.containers@.take(k as int));
                assert(app.containers@.take(k + 1).last() == app.containers@[k as int]);
            }
            if !str_eq(app.containers[k].container_id.as_str(), container_id) {
                kept.push(app.containers[k].duplicate());
            }
            k = k + 1;
        }
        proof {
            assert(app.containers@.take(m as int) =~= app.containers@);
        }
        app.containers = kept;
        self.apps.insert(i, app);
        proof {
            let oa = old(self).apps@;
            let fa = self.apps@;
            assert(fa =~= oa.update(i as int, fa[i as int]));
            lemma_without_id_distinct(oa[i as int].containers@, container_id@);
            assert forall|i2: int, j2: int, id2: Seq<char>|
                0 <= i2 < fa.len() && 0 <= j2 < fa.len() && i2 != j2 implies !(#[trigger] id_in(
                fa[i2].containers@,
                id2,
            ) && #[trigger] id_in(fa[j2].containers@, id2)) by {
                lemma_without_id_no_new_ids(oa[i as int].containers@, container_id@, id2);
                if id_in(fa[i2].containers@, id2) && id_in(fa[j2].containers@, id2) {
                    if i2 == i {
                        assert(id_in(oa[i2].containers@, id2));
                    } else if j2 == i {
                        assert(id_in(oa[j2].containers@, id2));
                    }
                }
            }
        }
        true
    }

    /// Rewrites the display name and hostname of every container of the
    /// named application whose display name equals `old_name`. Reports
    /// whether the entry for the application was found.
    pub fn rename(&mut self, app_name: &str, old_name: &str, new_name: &str) -> (r: bool)
        requires
            old(self).wf(),
        ensures
            final(self).wf(),
            r == spec_has_app(old(self).apps@, app_name@),
            !r ==> *final(self) == *old(self),
            final(self).apps@.len() == old(self).apps@.len(),
            forall|j: int|
                0 <= j < old(self).apps@.len() && (#[trigger] old(self).apps@[j]).app_name@
                    != app_name@ ==> final(self).apps@[j] == old(self).apps@[j],
            forall|j: int|
                0 <= j < old(self).apps@.len() && (#[trigger] old(self).apps@[j]).app_name@
                    == app_name@ ==> {
                    &&& renamed_containers(
                        old(self).apps@[j].containers@,
                        final(self).apps@[j].containers@,
                        old_name@,
                        new_name@,
                    )
                    &&& final(self).apps@[j].app_name == old(self).apps@[j].app_name
                    &&& final(self).apps@[j].port == old(self).apps@[j].port
                    &&& final(self).apps@[j].external == old(self).apps@[j].external
                    &&& final(self).apps@[j].auth_type == old(self).apps@[j].auth_type
                },
    {
        let idx = match self.find_app(app_name) {
            Some(i) => i,
            None => {
                return false;
            },
        };
        let i = idx;
        let mut app = self.apps.remove(i);
        let m = app.containers.len();
        let mut out: Vec<AppContainerData> = Vec::new();
        let mut k: usize = 0;
        while k < m
            invariant
                0 <= k <= m,
                m == app.containers@.len(),
                out@.len() == k,
                forall|l: int|
                    0 <= l < k && (#[trigger] app.containers@[l]).container_name@ != old_name@
                        ==> out@[l] == app.containers@[l],
                forall|l: int|
                    0 <= l < k && (#[trigger] app.containers@[l]).container_name@ == old_name@
                        ==> {
                        &&& out@[l].container_id == app.containers@[l].container_id
                        &&& out@[l].container_name@ == new_name@
                        &&& out@[l].hostname@ == new_name@
                    },
            decreases m - k,
        {
            if str_eq(app.containers[k].container_name.as_str(), old_name) {
                out.push(
                    AppContainerData {
                        container_id: app.containers[k].container_id.clone(),
                        container_name: new_name.to_owned(),
                        hostname: new_name.to_owned(),
                    },
                );
            } else {
                out.push(app.containers[k].duplicate());
            }
            k = k + 1;
        }
        app.containers = out;
        self.apps.insert(i, app);
        proof {
            let oa = old(self).apps@;
            let fa = self.apps@;
            assert(fa =~= oa.update(i as int, fa[i as int]));
            let oc = oa[i as int].containers@;
            let fc = fa[i as int].containers@;
            assert forall|l: int| 0 <= l < fc.len() implies (#[trigger] fc[l]).container_id@ == (
            #[trigger] oc[l]).container_id@ by {}
            assert forall|k2: int, l2: int| 0 <= k2 < l2 < fc.len() implies (
            #[trigger] fc[k2]).container_id@ != (#[trigger] fc[l2]).container_id@ by {
                assert(oc[k2].container_id@ != oc[l2].container_id@);
            }
            assert forall|id2: Seq<char>| #[trigger] id_in(fc, id2) == id_in(oc, id2) by {
                if id_in(fc, id2) {
                    let l = choose|l: int| 0 <= l < fc.len() && (#[trigger] fc[l]).container_id@
                        == id2;
                    assert(oc[l].container_id@ == id2);
                }
                if id_in(oc, id2) {
                    let l = choose|l: int| 0 <= l < oc.len() && (#[trigger] oc[l]).container_id@
                        == id2;
                    assert(fc[l].container_id@ == id2);
                }
            }
            assert forall|i2: int, j2: int, id2: Seq<char>|
                0 <= i2 < fa.len() && 0 <= j2 < fa.len() && i2 != j2 implies !(#[trigger] id_in(
                fa[i2].containers@,
                id2,
            ) && #[trigger] id_in(fa[j2].containers@, id2)) by {
                if id_in(fa[i2].containers@, id2) && id_in(fa[j2].containers@, id2) {
                    if i2 == i {
                        assert(id_in(oa[i2].containers@, id2));
                    } else if j2 == i {
                        assert(id_in(oa[j2].containers@, id2));
                    }
                }
            }
        }
        true
    }
}

} // verus!
