//! The index of registered projects and each project's generation history.
use crate::models::{EntityRecord, GlobalIndex, ProjectRecord, ProjectRef};
use crate::text::{copy_str, push_str, str_eq, trim, trim_exec};
use vstd::prelude::*;

verus! {

broadcast use vstd::string::group_string_axioms;

/// A registered project as a name and a directory.
pub type Entry = (Seq<char>, Seq<char>);

pub open spec fn entry_of(p: ProjectRef) -> Entry {
    (p.project_name@, p.project_dir@)
}

impl View for GlobalIndex {
    type V = Seq<Entry>;

    open spec fn view(&self) -> Seq<Entry> {
        self.projects@.map_values(|p: ProjectRef| entry_of(p))
    }
}

pub open spec fn has_name(idx: Seq<Entry>, name: Seq<char>) -> bool {
    exists|i: int| 0 <= i < idx.len() && (#[trigger] idx[i]).0 == name
}

pub open spec fn has_dir(idx: Seq<Entry>, dir: Seq<char>) -> bool {
    exists|i: int| 0 <= i < idx.len() && (#[trigger] idx[i]).1 == dir
}

/// No two projects share a name or a directory.
pub open spec fn index_wf(idx: Seq<Entry>) -> bool {
    forall|i: int, j: int|
        0 <= i < j < idx.len() ==> (#[trigger] idx[i]).0 != (#[trigger] idx[j]).0 && idx[i].1
            != idx[j].1
}

pub open spec fn duplicate_name_msg(name: Seq<char>) -> Seq<char> {
    "a project named '"@ + name + "' already exists"@
}

pub open spec fn duplicate_dir_msg(dir: Seq<char>) -> Seq<char> {
    "project path is already registered: "@ + dir
}

pub open spec fn project_not_found_msg(name: Seq<char>) -> Seq<char> {
    "project not found: "@ + name
}

/// The index after registering `(name, dir)`, or the refusal.
pub open spec fn register_spec(idx: Seq<Entry>, name: Seq<char>, dir: Seq<char>) -> Result<
    Seq<Entry>,
    Seq<char>,
> {
    if has_name(idx, name) {
        Err(duplicate_name_msg(name))
    } else if has_dir(idx, dir) {
        Err(duplicate_dir_msg(dir))
    } else {
        Ok(idx.push((name, dir)))
    }
}

/// Position of the first project named `name`.
pub open spec fn position_of(idx: Seq<Entry>, name: Seq<char>) -> Option<int> {
    if has_name(idx, name) {
        Some(
            choose|i: int|
                0 <= i < idx.len() && idx[i].0 == name && forall|j: int|
                    0 <= j < i ==> (#[trigger] idx[j]).0 != name,
        )
    } else {
        None
    }
}

/// The removed project and the index without it, or the refusal.
pub open spec fn unregister_spec(idx: Seq<Entry>, name: Seq<char>) -> Result<
    (Entry, Seq<Entry>),
    Seq<char>,
> {
    match position_of(idx, name) {
        Some(i) => Ok((idx[i], idx.remove(i))),
        None => Err(project_not_found_msg(name)),
    }
}

proof fn lemma_first_position(idx: Seq<Entry>, name: Seq<char>, i: int)
    requires
        0 <= i < idx.len(),
        idx[i].0 == name,
        forall|j: int| 0 <= j < i ==> (#[trigger] idx[j]).0 != name,
    ensures
        position_of(idx, name) == Some(i),
{
    assert(has_name(idx, name));
    let k = choose|k: int|
        0 <= k < idx.len() && idx[k].0 == name && forall|j: int|
            0 <= j < k ==> (#[trigger] idx[j]).0 != name;
    assert(0 <= k < idx.len() && idx[k].0 == name && forall|j: int|
        0 <= j < k ==> (#[trigger] idx[j]).0 != name) by {
        assert(0 <= i < idx.len() && idx[i].0 == name && forall|j: int|
            0 <= j < i ==> (#[trigger] idx[j]).0 != name);
    }
    if k < i {
        assert(idx[k].0 != name);
    }
    if i < k {
        assert(idx[i].0 != name);
    }
}

/// Law: registering a project and then unregistering it by name gives the
/// registered project back and restores the index.
pub proof fn lemma_register_then_unregister(idx: Seq<Entry>, name: Seq<char>, dir: Seq<char>)
    requires
        register_spec(idx, name, dir) is Ok,
    ensures
        unregister_spec(register_spec(idx, name, dir)->Ok_0, name) == Ok::<
            (Entry, Seq<Entry>),
            Seq<char>,
        >(((name, dir), idx)),
{
    let after = idx.push((name, dir));
    assert forall|j: int| 0 <= j < idx.len() implies (#[trigger] after[j]).0 != name by {
        assert(after[j] == idx[j]);
        if idx[j].0 == name {
            assert(has_name(idx, name));
        }
    }
    lemma_first_position(after, name, idx.len() as int);
    assert(after.remove(idx.len() as int) =~= idx);
}

/// Law: registering keeps names and directories unique.
pub proof fn lemma_register_keeps_unique(idx: Seq<Entry>, name: Seq<char>, dir: Seq<char>)
    requires
        index_wf(idx),
        register_spec(idx, name, dir) is Ok,
    ensures
        index_wf(register_spec(idx, name, dir)->Ok_0),
{
    let after = idx.push((name, dir));
    assert forall|i: int, j: int| 0 <= i < j < after.len() implies (#[trigger] after[i]).0 != (
    #[trigger] after[j]).0 && after[i].1 != after[j].1 by {
        if j == idx.len() {
            assert(after[i] == idx[i]);
            if idx[i].0 == name {
                assert(has_name(idx, name));
            }
            if idx[i].1 == dir {
                assert(has_dir(idx, dir));
            }
        } else {
            assert(after[i] == idx[i] && after[j] == idx[j]);
        }
    }
}

/// Law: unregistering keeps names and directories unique, and the other
/// projects keep their order.
pub proof fn lemma_unregister_keeps_unique(idx: Seq<Entry>, name: Seq<char>)
    requires
        index_wf(idx),
        unregister_spec(idx, name) is Ok,
    ensures
        index_wf(unregister_spec(idx, name)->Ok_0.1),
{
    let i = position_of(idx, name)->Some_0;
    let after = idx.remove(i);
    assert forall|a: int, b: int| 0 <= a < b < after.len() implies (#[trigger] after[a]).0 != (
    #[trigger] after[b]).0 && after[a].1 != after[b].1 by {
        let a2 = if a < i {
            a
        } else {
            a + 1
        };
        let b2 = if b < i {
            b
        } else {
            b + 1
        };
        assert(after[a] == idx[a2] && after[b] == idx[b2]);
        assert(idx[a2].0 != idx[b2].0 && idx[a2].1 != idx[b2].1);
    }
}

fn entry_copy(p: &ProjectRef) -> (r: ProjectRef)
    ensures
        entry_of(r) == entry_of(*p),
{
    ProjectRef { project_name: copy_str(p.project_name.as_str()), project_dir: copy_str(p.project_dir.as_str()) }
}

impl GlobalIndex {
    /// The registered projects, in order.
    pub fn list(&self) -> (r: Vec<ProjectRef>)
        ensures
            r@.map_values(|p: ProjectRef| entry_of(p)) == self@,
    {
        let mut out: Vec<ProjectRef> = Vec::new();
        let mut i: usize = 0;
        while i < self.projects.len()
            invariant
                i <= self.projects.len(),
                out@.map_values(|p: ProjectRef| entry_of(p)) == self@.take(i as int),
            decreases self.projects.len() - i,
        {
            let p = entry_copy(&self.projects[i]);
            let ghost before = out@.map_values(|p: ProjectRef| entry_of(p));
            out.push(p);
            assert(out@.map_values(|p: ProjectRef| entry_of(p)) =~= before.push(entry_of(p)));
            i = i + 1;
            assert(self@.take(i as int) =~= self@.take(i - 1).push(self@[i - 1]));
        }
        assert(self@.take(self.projects.len() as int) =~= self@);
        out
    }

    fn name_position(&self, name: &str) -> (r: Option<usize>)
        ensures
            match r {
                Some(i) => i < self@.len() && position_of(self@, name@) == Some(i as int),
                None => !has_name(self@, name@),
            },
    {
        let mut i: usize = 0;
        while i < self.projects.len()
            invariant
                i <= self.projects.len(),
                forall|j: int| 0 <= j < i ==> (#[trigger] self@[j]).0 != name@,
            decreases self.projects.len() - i,
        {
            if str_eq(self.projects[i].project_name.as_str(), name) {
                proof {
                    lemma_first_position(self@, name@, i as int);
                }
                return Some(i);
            }
            i = i + 1;
        }
        None
    }

    fn has_dir_exec(&self, dir: &str) -> (r: bool)
        ensures
            r == has_dir(self@, dir@),
    {
        let mut i: usize = 0;
        while i < self.projects.len()
            invariant
                i <= self.projects.len(),
                forall|j: int| 0 <= j < i ==> (#[trigger] self@[j]).1 != dir@,
            decreases self.projects.len() - i,
        {
            if str_eq(self.projects[i].project_dir.as_str(), dir) {
                assert(self@[i as int].1 == dir@);
                return true;
            }
            i = i + 1;
        }
        false
    }

    /// Registers a project under a new name and a new directory; the index
    /// is unchanged when either is taken.
    pub fn register(&mut self, project_name: String, project_dir: String) -> (r: Result<
        ProjectRef,
        String,
    >)
        ensures
            match register_spec(old(self)@, project_name@, project_dir@) {
                Ok(after) => r matches Ok(p) && entry_of(p) == (project_name@, project_dir@)
                    && final(self)@ == after,
                Err(m) => r matches Err(e) && e@ == m && final(self)@ == old(self)@,
            },
    {
        if self.name_position(project_name.as_str()).is_some() {
            let mut m = copy_str("a project named '");
            push_str(&mut m, project_name.as_str());
            push_str(&mut m, "' already exists");
            return Err(m);
        }
        if self.has_dir_exec(project_dir.as_str()) {
            let mut m = copy_str("project path is already registered: ");
            push_str(&mut m, project_dir.as_str());
            return Err(m);
        }
        let p = ProjectRef { project_name, project_dir };
        let ghost before = self@;
        self.projects.push(entry_copy(&p));
        assert(self@ =~= before.push(entry_of(p)));
        Ok(p)
    }

    /// Removes the first project named `name` and returns it.
    pub fn unregister(&mut self, name: &str) -> (r: Result<ProjectRef, String>)
        ensures
            match unregister_spec(old(self)@, name@) {
                Ok(pair) => r matches Ok(p) && entry_of(p) == pair.0 && final(self)@ == pair.1,
                Err(m) => r matches Err(e) && e@ == m && final(self)@ == old(self)@,
            },
    {
        match self.name_position(name) {
            Some(i) => {
                let ghost before = self@;
                let p = self.projects.remove(i);
                assert(self@ =~= before.remove(i as int));
                Ok(p)
            },
            None => {
                let mut m = copy_str("project not found: ");
                push_str(&mut m, name);
                Err(m)
            },
        }
    }
}

pub open spec fn name_not_inferred_msg() -> Seq<char> {
    "project name could not be inferred; pass --name"@
}

/// The name a project is registered under: the given name where it is not
/// blank, else the last component of its directory.
pub fn choose_project_name(name: Option<&str>, dir_name: Option<&str>) -> (r: Result<String, String>)
    ensures
        match name {
            Some(n) if trim(n@).len() != 0 => r matches Ok(s) && s@ == n@,
            _ => match dir_name {
                Some(d) => r matches Ok(s) && s@ == d@,
                None => r matches Err(m) && m@ == name_not_inferred_msg(),
            },
        },
{
    if let Some(n) = name {
        if !trim_exec(n).as_str().is_empty() {
            return Ok(copy_str(n));
        }
    }
    match dir_name {
        Some(d) => Ok(copy_str(d)),
        None => Err(copy_str("project name could not be inferred; pass --name")),
    }
}

pub open spec fn entity_names(es: Seq<EntityRecord>) -> Seq<Seq<char>> {
    es.map_values(|e: EntityRecord| e.name@)
}

pub open spec fn first_named(names: Seq<Seq<char>>, name: Seq<char>) -> Option<int> {
    if exists|i: int| 0 <= i < names.len() && names[i] == name {
        Some(
            choose|i: int|
                0 <= i < names.len() && names[i] == name && forall|j: int|
                    0 <= j < i ==> (#[trigger] names[j]) != name,
        )
    } else {
        None
    }
}

pub open spec fn entity_not_found_msg(name: Seq<char>) -> Seq<char> {
    "entity not found in project history: "@ + name
}

pub open spec fn history_not_found_msg(root: Seq<char>) -> Seq<char> {
    "project history not found: "@ + root
}

impl ProjectRecord {
    fn entity_position(&self, name: &str) -> (r: Option<usize>)
        ensures
            match r {
                Some(i) => i < self.entities@.len() && first_named(entity_names(self.entities@), name@)
                    == Some(i as int),
                None => first_named(entity_names(self.entities@), name@) is None,
            },
    {
        let ghost names = entity_names(self.entities@);
        let mut i: usize = 0;
        while i < self.entities.len()
            invariant
                i <= self.entities.len(),
                names == entity_names(self.entities@),
                forall|j: int| 0 <= j < i ==> (#[trigger] names[j]) != name@,
            decreases self.entities.len() - i,
        {
            if str_eq(self.entities[i].name.as_str(), name) {
                proof {
                    assert(names[i as int] == name@);
                    let k = choose|k: int|
                        0 <= k < names.len() && names[k] == name@ && forall|j: int|
                            0 <= j < k ==> (#[trigger] names[j]) != name@;
                    assert(0 <= k < names.len() && names[k] == name@ && forall|j: int|
                        0 <= j < k ==> (#[trigger] names[j]) != name@) by {
                        assert(0 <= i < names.len() && names[i as int] == name@ && forall|j: int|
                            0 <= j < i ==> (#[trigger] names[j]) != name@);
                    }
                    if k < i {
                        assert(names[k] != name@);
                    }
                    if i < k {
                        assert(names[i as int] != name@);
                    }
                }
                return Some(i);
            }
            i = i + 1;
        }
        proof {
            if exists|j: int| 0 <= j < names.len() && names[j] == name@ {
                let j = choose|j: int| 0 <= j < names.len() && names[j] == name@;
                assert(names[j] != name@);
            }
        }
        None
    }

    /// Removes the first entity named `name` from the history and returns it.
    pub fn remove_entity(&mut self, name: &str) -> (r: Result<EntityRecord, String>)
        ensures
            match first_named(entity_names(old(self).entities@), name@) {
                Some(i) => r matches Ok(e) && e == old(self).entities@[i] && final(self).entities@
                    == old(self).entities@.remove(i),
                None => r matches Err(m) && m@ == entity_not_found_msg(name@) && final(self).entities@
                    == old(self).entities@,
            },
            final(self).project_name == old(self).project_name,
            final(self).project_dir == old(self).project_dir,
            final(self).theme == old(self).theme,
            final(self).bootstrap_override == old(self).bootstrap_override,
            final(self).mobile_ui == old(self).mobile_ui,
    {
        match self.entity_position(name) {
            Some(i) => {
                let e = self.entities.remove(i);
                Ok(e)
            },
            None => {
                let mut m = copy_str("entity not found in project history: ");
                push_str(&mut m, name);
                Err(m)
            },
        }
    }
}

/// Removes an entity from a project's history, which must exist.
pub fn remove_history_entity(record: Option<ProjectRecord>, project_root: &str, entity_name: &str) -> (r:
    Result<(ProjectRecord, EntityRecord), String>)
    ensures
        match record {
            None => r matches Err(m) && m@ == history_not_found_msg(project_root@),
            Some(rec) => match first_named(entity_names(rec.entities@), entity_name@) {
                Some(i) => r matches Ok(p) && p.1 == rec.entities@[i] && p.0.entities@
                    == rec.entities@.remove(i) && p.0.project_name == rec.project_name
                    && p.0.project_dir == rec.project_dir && p.0.theme == rec.theme
                    && p.0.bootstrap_override == rec.bootstrap_override && p.0.mobile_ui
                    == rec.mobile_ui,
                None => r matches Err(m) && m@ == entity_not_found_msg(entity_name@),
            },
        },
{
    match record {
        None => {
            let mut m = copy_str("project history not found: ");
            push_str(&mut m, project_root);
            Err(m)
        },
        Some(mut rec) => match rec.remove_entity(entity_name) {
            Ok(e) => Ok((rec, e)),
            Err(m) => Err(m),
        },
    }
}

} // verus!
