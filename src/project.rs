//! The registry of local projects: for each project directory, its canisters
//! by name and, per canister, the id it has on each network.
//!
//! Maps are kept as vectors of pairs whose keys are unique; the first pair
//! with a key is the one that counts.
use vstd::prelude::*;
use crate::text::str_eq;

verus! {

/// What a project declares about one canister.
#[derive(Debug, Clone)]
pub struct CanisterInfo {
    pub dependencies: Option<Vec<String>>,
    pub frontend: Option<Vec<(String, String)>>,
    pub source: Option<Vec<String>>,
    pub canister_type: String,
    pub main: Option<String>,
}

pub struct CanisterInfoView {
    pub dependencies: Option<Seq<Seq<char>>>,
    pub frontend: Option<Seq<(Seq<char>, Seq<char>)>>,
    pub source: Option<Seq<Seq<char>>>,
    pub canister_type: Seq<char>,
    pub main: Option<Seq<char>>,
}

impl DeepView for CanisterInfo {
    type V = CanisterInfoView;

    open spec fn deep_view(&self) -> CanisterInfoView {
        CanisterInfoView {
            dependencies: self.dependencies.deep_view(),
            frontend: self.frontend.deep_view(),
            source: self.source.deep_view(),
            canister_type: self.canister_type@,
            main: self.main.deep_view(),
        }
    }
}

/// The canisters that a project's manifest declares, by name.
#[derive(Debug, Clone)]
pub struct DfxProject {
    pub canisters: Vec<(String, CanisterInfo)>,
}

/// What the registry keeps of one project: its canisters by name, and for
/// each canister name its id by network.
#[derive(Debug, Clone)]
pub struct DfxProjectData {
    pub canisters: Vec<(String, CanisterInfo)>,
    pub canister_ids: Vec<(String, Vec<(String, String)>)>,
}

pub struct DfxProjectDataView {
    pub canisters: Seq<(Seq<char>, CanisterInfoView)>,
    pub canister_ids: Seq<(Seq<char>, Seq<(Seq<char>, Seq<char>)>)>,
}

impl DeepView for DfxProjectData {
    type V = DfxProjectDataView;

    open spec fn deep_view(&self) -> DfxProjectDataView {
        DfxProjectDataView {
            canisters: self.canisters.deep_view(),
            canister_ids: self.canister_ids.deep_view(),
        }
    }
}

/// The registry: projects by directory, and where the registry is stored.
#[derive(Debug, Clone)]
pub struct ProjectDatabase {
    pub projects: Vec<(String, DfxProjectData)>,
    pub db_path: String,
}

/// The position of the first pair whose key is `key`.
pub open spec fn key_index<V>(pairs: Seq<(Seq<char>, V)>, key: Seq<char>) -> Option<int>
    decreases pairs.len(),
{
    if pairs.len() == 0 {
        None
    } else if pairs.last().0 == key && key_index(pairs.drop_last(), key).is_none() {
        Some(pairs.len() - 1)
    } else {
        key_index(pairs.drop_last(), key)
    }
}

/// No key appears twice.
pub open spec fn keys_unique<V>(pairs: Seq<(Seq<char>, V)>) -> bool {
    forall|i: int, j: int| 0 <= i < j < pairs.len() ==> pairs[i].0 != pairs[j].0
}

/// The id on `network` among `ids`; empty when there is none.
pub open spec fn network_id(ids: Seq<(Seq<char>, Seq<char>)>, network: Seq<char>) -> Seq<char>
    decreases ids.len(),
{
    if ids.len() == 0 {
        Seq::empty()
    } else if ids[0].0 == network {
        ids[0].1
    } else {
        network_id(ids.drop_first(), network)
    }
}

/// The first canister called `name`.
pub open spec fn canister_named(
    canisters: Seq<(Seq<char>, CanisterInfoView)>,
    name: Seq<char>,
) -> Option<CanisterInfoView>
    decreases canisters.len(),
{
    if canisters.len() == 0 {
        None
    } else if canisters[0].0 == name {
        Some(canisters[0].1)
    } else {
        canister_named(canisters.drop_first(), name)
    }
}

/// The first canister name of a project whose id on `network` is `id` and that
/// the project declares, with what it declares.
pub open spec fn project_match(
    ids: Seq<(Seq<char>, Seq<(Seq<char>, Seq<char>)>)>,
    canisters: Seq<(Seq<char>, CanisterInfoView)>,
    id: Seq<char>,
    network: Seq<char>,
) -> Option<(Seq<char>, CanisterInfoView)>
    decreases ids.len(),
{
    if ids.len() == 0 {
        None
    } else if network_id(ids[0].1, network) == id && canister_named(canisters, ids[0].0).is_some() {
        Some((ids[0].0, canister_named(canisters, ids[0].0).unwrap()))
    } else {
        project_match(ids.drop_first(), canisters, id, network)
    }
}

/// The first project with a canister whose id on `network` is `id`: the
/// project's directory, the canister's name and what the project declares
/// about it.
pub open spec fn info_of(
    projects: Seq<(Seq<char>, DfxProjectDataView)>,
    id: Seq<char>,
    network: Seq<char>,
) -> Option<(Seq<char>, Seq<char>, CanisterInfoView)>
    decreases projects.len(),
{
    if projects.len() == 0 {
        None
    } else {
        match project_match(projects[0].1.canister_ids, projects[0].1.canisters, id, network) {
            Some((name, info)) => Some((projects[0].0, name, info)),
            None => info_of(projects.drop_first(), id, network),
        }
    }
}

/// A key that `key_index` does not find is on no pair.
pub proof fn lemma_key_index_none<V>(pairs: Seq<(Seq<char>, V)>, key: Seq<char>)
    ensures
        key_index(pairs, key).is_none() <==> forall|j: int|
            0 <= j < pairs.len() ==> pairs[j].0 != key,
    decreases pairs.len(),
{
    if pairs.len() > 0 {
        lemma_key_index_none(pairs.drop_last(), key);
        if key_index(pairs, key).is_none() {
            assert forall|j: int| 0 <= j < pairs.len() implies pairs[j].0 != key by {
                if j < pairs.len() - 1 {
                    assert(pairs.drop_last()[j] == pairs[j]);
                }
            }
        } else {
            if key_index(pairs.drop_last(), key).is_none() {
                assert(pairs[pairs.len() - 1].0 == key);
            } else {
                let j = choose|j: int| 0 <= j < pairs.len() - 1 && pairs.drop_last()[j].0 == key;
                assert(pairs[j].0 == key);
            }
        }
    }
}

/// Once a prefix holds the key, longer sequences find it at the same place.
pub proof fn lemma_key_index_prefix<V>(pairs: Seq<(Seq<char>, V)>, n: int, key: Seq<char>)
    requires
        0 <= n <= pairs.len(),
        key_index(pairs.subrange(0, n), key).is_some(),
    ensures
        key_index(pairs, key) == key_index(pairs.subrange(0, n), key),
    decreases pairs.len() - n,
{
    if n < pairs.len() {
        let longer = pairs.subrange(0, n + 1);
        assert(longer.drop_last() =~= pairs.subrange(0, n));
        lemma_key_index_prefix(pairs, n + 1, key);
    } else {
        assert(pairs.subrange(0, n) =~= pairs);
    }
}

fn copy_strings(v: &Vec<String>) -> (r: Vec<String>)
    ensures
        r.deep_view() == v.deep_view(),
{
    let mut r: Vec<String> = Vec::new();
    let mut i: usize = 0;
    while i < v.len()
        invariant
            i <= v.len(),
            r.deep_view() == v.deep_view().subrange(0, i as int),
        decreases v.len() - i,
    {
        let ghost before = r.deep_view();
        let c = v[i].clone();
        r.push(c);
        assert(r.deep_view() =~= before.push(v@[i as int]@));
        assert(v.deep_view().subrange(0, i + 1) =~= v.deep_view().subrange(0, i as int).push(
            v@[i as int]@,
        ));
        i = i + 1;
    }
    assert(v.deep_view().subrange(0, i as int) =~= v.deep_view());
    r
}

fn copy_pairs(v: &Vec<(String, String)>) -> (r: Vec<(String, String)>)
    ensures
        r.deep_view() == v.deep_view(),
{
    let mut r: Vec<(String, String)> = Vec::new();
    let mut i: usize = 0;
    while i < v.len()
        invariant
            i <= v.len(),
            r.deep_view() == v.deep_view().subrange(0, i as int),
        decreases v.len() - i,
    {
        let ghost before = r.deep_view();
        let pair = (v[i].0.clone(), v[i].1.clone());
        r.push(pair);
        assert(r.deep_view() =~= before.push((v@[i as int].0@, v@[i as int].1@)));
        assert(v.deep_view().subrange(0, i + 1) =~= v.deep_view().subrange(0, i as int).push(
            (v@[i as int].0@, v@[i as int].1@),
        ));
        i = i + 1;
    }
    assert(v.deep_view().subrange(0, i as int) =~= v.deep_view());
    r
}

fn copy_optional_strings(v: &Option<Vec<String>>) -> (r: Option<Vec<String>>)
    ensures
        r.deep_view() == v.deep_view(),
{
    match v {
        Some(v) => Some(copy_strings(v)),
        None => None,
    }
}

impl CanisterInfo {
    /// A copy with the same contents.
    pub fn duplicate(&self) -> (r: CanisterInfo)
        ensures
            r.deep_view() == self.deep_view(),
    {
        CanisterInfo {
            dependencies: copy_optional_strings(&self.dependencies),
            frontend: match &self.frontend {
                Some(f) => Some(copy_pairs(f)),
                None => None,
            },
            source: copy_optional_strings(&self.source),
            canister_type: self.canister_type.clone(),
            main: match &self.main {
                Some(m) => Some(m.clone()),
                None => None,
            },
        }
    }
}

/// The id on `network` among `ids`; empty when there is none.
fn network_id_of(ids: &Vec<(String, String)>, network: &str) -> (r: String)
    ensures
        r@ == network_id(ids.deep_view(), network@),
{
    let ghost all = ids.deep_view();
    let mut i: usize = 0;
    assert(all.subrange(0, all.len() as int) =~= all);
    while i < ids.len()
        invariant
            i <= ids.len(),
            all == ids.deep_view(),
            network_id(all, network@) == network_id(all.subrange(i as int, all.len() as int), network@),
        decreases ids.len() - i,
    {
        let ghost rest = all.subrange(i as int, all.len() as int);
        assert(rest.drop_first() =~= all.subrange(i + 1, all.len() as int));
        if str_eq(ids[i].0.as_str(), network) {
            return ids[i].1.clone();
        }
        i = i + 1;
    }
    String::new()
}

/// The first canister called `name`, copied.
fn canister_named_of(canisters: &Vec<(String, CanisterInfo)>, name: &str) -> (r: Option<CanisterInfo>)
    ensures
        r.deep_view() == canister_named(canisters.deep_view(), name@),
{
    let ghost all = canisters.deep_view();
    let mut i: usize = 0;
    assert(all.subrange(0, all.len() as int) =~= all);
    while i < canisters.len()
        invariant
            i <= canisters.len(),
            all == canisters.deep_view(),
            canister_named(all, name@) == canister_named(all.subrange(i as int, all.len() as int), name@),
        decreases canisters.len() - i,
    {
        let ghost rest = all.subrange(i as int, all.len() as int);
        assert(rest.drop_first() =~= all.subrange(i + 1, all.len() as int));
        if str_eq(canisters[i].0.as_str(), name) {
            return Some(canisters[i].1.duplicate());
        }
        i = i + 1;
    }
    None
}

/// The first canister of `data` whose id on `network` is `id` and that the
/// project declares.
fn project_match_of(data: &DfxProjectData, id: &str, network: &str) -> (r: Option<(String, CanisterInfo)>)
    ensures
        r.deep_view() == project_match(data.canister_ids.deep_view(), data.canisters.deep_view(), id@, network@),
{
    let ghost all = data.canister_ids.deep_view();
    let ghost cs = data.canisters.deep_view();
    let mut i: usize = 0;
    assert(all.subrange(0, all.len() as int) =~= all);
    while i < data.canister_ids.len()
        invariant
            i <= data.canister_ids.len(),
            all == data.canister_ids.deep_view(),
            cs == data.canisters.deep_view(),
            project_match(all, cs, id@, network@) == project_match(all.subrange(i as int, all.len() as int), cs, id@, network@),
        decreases data.canister_ids.len() - i,
    {
        let ghost rest = all.subrange(i as int, all.len() as int);
        assert(rest.drop_first() =~= all.subrange(i + 1, all.len() as int));
        let entry = &data.canister_ids[i];
        let on_network = network_id_of(&entry.1, network);
        if str_eq(on_network.as_str(), id) {
            match canister_named_of(&data.canisters, entry.0.as_str()) {
                Some(info) => {
                    return Some((entry.0.clone(), info));
                },
                None => {},
            }
        }
        i = i + 1;
    }
    None
}

impl ProjectDatabase {
    /// Projects whose directories are all different.
    pub open spec fn well_formed(&self) -> bool {
        keys_unique(self.projects.deep_view())
    }

    /// An empty registry stored at `db_path`.
    pub fn new(db_path: String) -> (r: ProjectDatabase)
        ensures
            r.well_formed(),
            r.projects@.len() == 0,
            r.db_path@ == db_path@,
    {
        ProjectDatabase { projects: Vec::new(), db_path }
    }

    /// Registers `project_data` under `project_path`, replacing what was
    /// registered there before.
    pub fn add_project(&mut self, project_path: String, project_data: DfxProjectData)
        requires
            old(self).well_formed(),
        ensures
            final(self).well_formed(),
            final(self).db_path == old(self).db_path,
            final(self).projects.deep_view() == match key_index(old(self).projects.deep_view(), project_path@) {
                Some(i) => old(self).projects.deep_view().update(i, (project_path@, project_data.deep_view())),
                None => old(self).projects.deep_view().push((project_path@, project_data.deep_view())),
            },
    {
        let ghost all = self.projects.deep_view();
        let ghost entry = (project_path@, project_data.deep_view());
        let mut i: usize = 0;
        assert(all.subrange(0, 0) =~= Seq::<(Seq<char>, DfxProjectDataView)>::empty());
        while i < self.projects.len()
            invariant
                i <= self.projects.len(),
                all == self.projects.deep_view(),
                *self == *old(self),
                keys_unique(all),
                entry == (project_path@, project_data.deep_view()),
                key_index(all.subrange(0, i as int), project_path@).is_none(),
            decreases self.projects.len() - i,
        {
            let ghost part = all.subrange(0, i + 1);
            assert(part.drop_last() =~= all.subrange(0, i as int));
            if str_eq(self.projects[i].0.as_str(), project_path.as_str()) {
                proof {
                    lemma_key_index_prefix(all, i + 1, project_path@);
                }
                let ghost old_v = self.projects@;
                assert(all[i as int].0 == project_path@);
                let item = (project_path, project_data);
                assert(item.deep_view() == entry);
                self.projects.set(i, item);
                assert(self.projects@[i as int] == item);
                assert forall|k: int| 0 <= k < all.len() implies self.projects.deep_view()[k] == all.update(
                    i as int,
                    entry,
                )[k] by {
                    if k != i {
                        assert(self.projects@[k] == old_v[k]);
                    }
                }
                assert(self.projects.deep_view() =~= all.update(i as int, entry));
                assert forall|a: int, b: int|
                    0 <= a < b < self.projects.deep_view().len() implies self.projects.deep_view()[a].0
                    != self.projects.deep_view()[b].0 by {
                    assert(all[a].0 != all[b].0);
                }
                return;
            }
            i = i + 1;
        }
        assert(all.subrange(0, i as int) =~= all);
        proof {
            lemma_key_index_none(all, project_path@);
        }
        let ghost old_v = self.projects@;
        self.projects.push((project_path, project_data));
        assert forall|k: int| 0 <= k < all.len() implies self.projects.deep_view()[k] == all[k] by {
            assert(self.projects@[k] == old_v[k]);
        }
        assert(self.projects.deep_view() =~= all.push(entry));
    }

    /// The project, canister name and declaration of the canister whose id on
    /// `network` is `canister_id`; the first such in the registry's order.
    pub fn get_info(&self, canister_id: &str, network: &str) -> (r: Option<(String, String, CanisterInfo)>)
        ensures
            r.deep_view() == info_of(self.projects.deep_view(), canister_id@, network@),
    {
        let ghost all = self.projects.deep_view();
        let mut i: usize = 0;
        assert(all.subrange(0, all.len() as int) =~= all);
        while i < self.projects.len()
            invariant
                i <= self.projects.len(),
                all == self.projects.deep_view(),
                info_of(all, canister_id@, network@) == info_of(all.subrange(i as int, all.len() as int), canister_id@, network@),
            decreases self.projects.len() - i,
        {
            let ghost rest = all.subrange(i as int, all.len() as int);
            assert(rest.drop_first() =~= all.subrange(i + 1, all.len() as int));
            let project = &self.projects[i];
            match project_match_of(&project.1, canister_id, network) {
                Some((name, info)) => {
                    return Some((project.0.clone(), name, info));
                },
                None => {},
            }
            i = i + 1;
        }
        None
    }
}

} // verus!
