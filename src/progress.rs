//! The progress store: project identities and one `(step, tool, tool_step)`
//! checkpoint per project, held in memory.

use vstd::prelude::*;

verus! {

/// A position in a project's setup: the step, the tool inside that step, and
/// the tool's own sub-step counter.
#[derive(Clone, Copy, Debug, PartialEq, Eq, Structural)]
pub struct Checkpoint {
    pub step: usize,
    pub tool: usize,
    pub tool_step: usize,
}

/// The position of a project that has not started, or has just been reset.
pub open spec fn start() -> Checkpoint {
    Checkpoint { step: 0, tool: 0, tool_step: 0 }
}

/// A project's identity: `id` is stable and keys its progress.
#[derive(Debug)]
pub struct Project {
    pub id: usize,
    pub name: String,
    pub path: String,
}

/// A stored progress record.
#[derive(Clone, Copy, Debug)]
pub struct ProjectProgress {
    pub project_id: usize,
    pub step: usize,
    pub tool: usize,
    pub tool_step: usize,
}

impl ProjectProgress {
    pub open spec fn position(self) -> Checkpoint {
        Checkpoint { step: self.step, tool: self.tool, tool_step: self.tool_step }
    }

    pub fn checkpoint(&self) -> (r: Checkpoint)
        ensures
            r == self.position(),
    {
        Checkpoint { step: self.step, tool: self.tool, tool_step: self.tool_step }
    }
}

/// The stored position of a project: its record, or the start where it has none.
pub open spec fn stored_or_start(row: Option<Checkpoint>) -> Checkpoint {
    match row {
        Some(c) => c,
        None => start(),
    }
}

/// Projects and their progress. A project's id is its index in `projects`, and
/// `rows[id]` is its progress record, if one was written.
pub struct ProgressStore {
    projects: Vec<Project>,
    rows: Vec<Option<Checkpoint>>,
}

impl ProgressStore {
    /// The name of each project, by id.
    pub closed spec fn names(&self) -> Seq<Seq<char>> {
        Seq::new(self.projects@.len(), |i: int| self.projects@[i].name@)
    }

    /// The origin (path or URL) of each project, by id.
    pub closed spec fn origins(&self) -> Seq<Seq<char>> {
        Seq::new(self.projects@.len(), |i: int| self.projects@[i].path@)
    }

    /// The progress record of each project, by id.
    pub closed spec fn rows(&self) -> Seq<Option<Checkpoint>> {
        self.rows@
    }

    /// Ids are indices, every project has a row slot, names are distinct.
    pub open spec fn wf(&self) -> bool {
        &&& self.inv()
        &&& self.origins().len() == self.len()
        &&& self.rows().len() == self.len()
    }

    pub closed spec fn inv(&self) -> bool {
        &&& self.rows@.len() == self.projects@.len()
        &&& forall|i: int| 0 <= i < self.projects@.len() ==> #[trigger] self.projects@[i].id == i
        &&& forall|i: int, j: int|
            0 <= i < j < self.projects@.len() ==> #[trigger] self.projects@[i].name@
                != #[trigger] self.projects@[j].name@
    }

    pub open spec fn len(&self) -> nat {
        self.names().len()
    }

    pub open spec fn has_name(&self, name: Seq<char>) -> bool {
        exists|i: int| 0 <= i < self.len() && #[trigger] self.names()[i] == name
    }

    /// The id of the project named `name` (meaningful where `has_name(name)`).
    pub open spec fn index_of(&self, name: Seq<char>) -> int {
        choose|i: int| 0 <= i < self.len() && #[trigger] self.names()[i] == name
    }

    /// The position stored for the project named `name`; the start for a
    /// project not stored yet.
    pub open spec fn position_named(&self, name: Seq<char>) -> Checkpoint {
        if self.has_name(name) {
            self.position_of(self.index_of(name))
        } else {
            start()
        }
    }

    /// A stored project is the one found under its name.
    pub proof fn lemma_index_of(&self, p: &Project)
        requires
            self.wf(),
            self.holds(p),
        ensures
            self.has_name(p.name@),
            self.index_of(p.name@) == p.id,
            self.position_named(p.name@) == self.position_of(p.id as int),
    {
        assert(self.names()[p.id as int] == p.name@);
        let i = self.index_of(p.name@);
        if i != p.id as int {
            assert(self.names()[i] == self.projects@[i].name@);
            assert(self.names()[p.id as int] == self.projects@[p.id as int].name@);
            if i < p.id {
                assert(self.projects@[i].name@ != self.projects@[p.id as int].name@);
            } else {
                assert(self.projects@[p.id as int].name@ != self.projects@[i].name@);
            }
        }
    }

    /// `p` is the project stored under its id.
    pub open spec fn holds(&self, p: &Project) -> bool {
        &&& p.id < self.len()
        &&& self.names()[p.id as int] == p.name@
        &&& self.origins()[p.id as int] == p.path@
    }

    /// The position stored for project `id`.
    pub open spec fn position_of(&self, id: int) -> Checkpoint {
        stored_or_start(self.rows()[id])
    }

    /// An empty store.
    pub fn new() -> (r: ProgressStore)
        ensures
            r.wf(),
            r.len() == 0,
            r.rows().len() == 0,
            r.origins().len() == 0,
    {
        ProgressStore { projects: Vec::new(), rows: Vec::new() }
    }

    /// The project stored under `name`, if any.
    pub fn get_project(&self, name: &str) -> (r: Option<Project>)
        requires
            self.wf(),
        ensures
            r is None <==> !self.has_name(name@),
            r matches Some(p) ==> self.holds(&p) && p.name@ == name@,
    {
        let wanted = name.to_owned();
        let mut i: usize = 0;
        while i < self.projects.len()
            invariant
                self.wf(),
                i <= self.projects@.len(),
                wanted@ == name@,
                forall|j: int| 0 <= j < i ==> #[trigger] self.names()[j] != name@,
            decreases self.projects@.len() - i,
        {
            let p = &self.projects[i];
            if p.name == wanted {
                proof {
                    assert(self.names()[i as int] == name@);
                }
                return Some(Project { id: p.id, name: p.name.clone(), path: p.path.clone() });
            }
            i = i + 1;
        }
        None
    }

    /// The project stored under `name`; a new one with `origin` where there is
    /// none. A name is never stored twice.
    pub fn get_or_create_project(&mut self, name: &str, origin: &str) -> (r: Project)
        requires
            old(self).wf(),
        ensures
            final(self).wf(),
            final(self).holds(&r),
            r.name@ == name@,
            old(self).has_name(name@) ==> {
                &&& final(self).names() == old(self).names()
                &&& final(self).origins() == old(self).origins()
                &&& final(self).rows() == old(self).rows()
            },
            !old(self).has_name(name@) ==> {
                &&& r.id == old(self).len()
                &&& r.path@ == origin@
                &&& final(self).names() == old(self).names().push(name@)
                &&& final(self).origins() == old(self).origins().push(origin@)
                &&& final(self).rows() == old(self).rows().push(None)
            },
    {
        match self.get_project(name) {
            Some(p) => p,
            None => {
                let id = self.projects.len();
                let stored = Project { id, name: name.to_owned(), path: origin.to_owned() };
                let r = Project { id, name: name.to_owned(), path: origin.to_owned() };
                self.projects.push(stored);
                self.rows.push(None);
                proof {
                    assert forall|j: int| 0 <= j < old(self).projects@.len() implies
                        #[trigger] old(self).projects@[j].name@ != name@ by {
                        assert(old(self).names()[j] == old(self).projects@[j].name@);
                    }
                    assert(self.names() =~= old(self).names().push(name@));
                    assert(self.origins() =~= old(self).origins().push(origin@));
                }
                r
            }
        }
    }

    /// The progress of `project`; a record at the start is written where there
    /// is none.
    pub fn get_project_progress(&mut self, project: &Project) -> (r: ProjectProgress)
        requires
            old(self).wf(),
            old(self).holds(project),
        ensures
            final(self).wf(),
            final(self).names() == old(self).names(),
            final(self).origins() == old(self).origins(),
            final(self).rows() == old(self).rows().update(
                project.id as int,
                Some(old(self).position_of(project.id as int)),
            ),
            r.project_id == project.id,
            r.position() == old(self).position_of(project.id as int),
    {
        let c = match self.rows[project.id] {
            Some(c) => c,
            None => Checkpoint { step: 0, tool: 0, tool_step: 0 },
        };
        self.write_row(project.id, c);
        ProjectProgress { project_id: project.id, step: c.step, tool: c.tool, tool_step: c.tool_step }
    }

    /// Overwrites the progress of `project` with `(step, tool, tool_step)`.
    pub fn update_project_progress(
        &mut self,
        project: &Project,
        step: usize,
        tool: usize,
        tool_step: usize,
    ) -> (r: ProjectProgress)
        requires
            old(self).wf(),
            old(self).holds(project),
        ensures
            final(self).wf(),
            final(self).names() == old(self).names(),
            final(self).origins() == old(self).origins(),
            final(self).rows() == old(self).rows().update(
                project.id as int,
                Some(Checkpoint { step, tool, tool_step }),
            ),
            r.project_id == project.id,
            r.position() == (Checkpoint { step, tool, tool_step }),
    {
        self.write_row(project.id, Checkpoint { step, tool, tool_step });
        ProjectProgress { project_id: project.id, step, tool, tool_step }
    }

    fn write_row(&mut self, id: usize, c: Checkpoint)
        requires
            old(self).wf(),
            id < old(self).len(),
        ensures
            final(self).wf(),
            final(self).names() == old(self).names(),
            final(self).origins() == old(self).origins(),
            final(self).rows() == old(self).rows().update(id as int, Some(c)),
    {
        self.rows.set(id, Some(c));
        proof {
            assert(self.names() =~= old(self).names());
            assert(self.origins() =~= old(self).origins());
        }
    }
}

} // verus!
