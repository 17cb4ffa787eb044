//! Project configurations and the step runner: from a stored checkpoint, which
//! tool runs next, and what is checkpointed once its outcome is known.

use vstd::prelude::*;
use crate::progress::{start, Checkpoint, ProgressStore, Project, ProjectProgress};
use crate::text::{ends_with, ends_with_spec};
use crate::tools::{Chezmoi, Homebrew, Pnpm, Rbenv, Yarn};

verus! {

/// One installable unit of a step.
#[derive(Clone, Debug)]
pub enum RunTool {
    Chezmoi { chezmoi: Chezmoi },
    Homebrew { brew: Homebrew },
    Java11 { java11: bool },
    Note { note: String },
    Pause { pause: bool },
    Pnpm { pnpm: Pnpm },
    Rbenv { rbenv: Rbenv },
    Yarn { yarn: Yarn },
}

/// An ordered phase of setup.
#[derive(Clone, Debug)]
pub struct StepConfiguration {
    pub description: String,
    pub run: Vec<RunTool>,
}

/// A project's configuration as written by its author.
#[derive(Clone, Debug)]
pub struct YamlConfiguration {
    pub name: String,
    pub description: String,
    pub steps: Vec<StepConfiguration>,
}

/// A configuration together with where it was read from.
pub struct ProjectConfiguration {
    pub options: YamlConfiguration,
    /// Path of the file in the system.
    pub path: Option<String>,
    pub url: Option<String>,
}

/// Why a setup run stopped without finishing or pausing.
#[derive(Debug)]
pub enum SetupError {
    /// The stored position names a tool that the step no longer has.
    ConfigurationMismatch { step: usize, tool: usize },
    /// A tool reported a failure.
    ToolInstall { step: usize, tool: usize, message: String },
    /// Reset was asked for a project that was never set up.
    ProjectNotFound { name: String },
    /// The progress store could not be read or written.
    Persistence { message: String },
}

/// What a run does next.
#[derive(Clone, Copy, Debug, PartialEq, Eq, Structural)]
pub enum Action {
    /// Invoke the tool at `(step, tool)` with sub-step `tool_step`.
    Install(Checkpoint),
    /// A tool asked to pause; the run halts with this checkpoint stored.
    Paused(Checkpoint),
    /// Every step is done; progress was reset to the start.
    Finished,
}

/// Where a run goes from checkpoint `c`, given the number of tools of each
/// step: past exhausted steps (each transition checkpointed) to the next tool,
/// to the end, or to an index that the configuration does not have. Returns the
/// last checkpoint stored and the outcome.
pub open spec fn settle(counts: Seq<nat>, c: Checkpoint) -> (Checkpoint, Result<Action, SetupError>)
    decreases counts.len() - c.step,
{
    if c.step >= counts.len() {
        (start(), Ok(Action::Finished))
    } else if c.tool < counts[c.step as int] {
        (c, Ok(Action::Install(c)))
    } else if c.tool > counts[c.step as int] || c.step == usize::MAX {
        // (no list held in memory has usize::MAX + 1 steps)
        (c, Err(SetupError::ConfigurationMismatch { step: c.step, tool: c.tool }))
    } else {
        settle(counts, Checkpoint { step: (c.step + 1) as usize, tool: 0, tool_step: 0 })
    }
}

/// What is checkpointed, if anything, once the tool at `at` has reported
/// `result`, and how the run goes on.
pub open spec fn after_install(
    counts: Seq<nat>,
    at: Checkpoint,
    result: Result<bool, String>,
) -> (Option<Checkpoint>, Result<Action, SetupError>) {
    match result {
        Err(message) => (
            None,
            Err(SetupError::ToolInstall { step: at.step, tool: at.tool, message }),
        ),
        Ok(true) => {
            let c = Checkpoint { step: at.step, tool: at.tool, tool_step: (at.tool_step + 1) as usize };
            (Some(c), Ok(Action::Paused(c)))
        },
        Ok(false) => {
            let (c, out) = settle(
                counts,
                Checkpoint { step: at.step, tool: (at.tool + 1) as usize, tool_step: 0 },
            );
            (Some(c), out)
        },
    }
}

/// The rows of a store after `written` was checkpointed for project `id`.
pub open spec fn checkpointed(
    rows: Seq<Option<Checkpoint>>,
    id: int,
    written: Option<Checkpoint>,
) -> Seq<Option<Checkpoint>> {
    match written {
        Some(c) => rows.update(id, Some(c)),
        None => rows,
    }
}

/// `at` names a tool of the configuration whose sub-step can still grow.
pub open spec fn names_tool(counts: Seq<nat>, at: Checkpoint) -> bool {
    &&& at.step < counts.len()
    &&& at.tool < counts[at.step as int]
    &&& at.tool_step < usize::MAX
}

impl ProjectConfiguration {
    /// The number of tools of each step.
    pub open spec fn tool_counts(&self) -> Seq<nat> {
        Seq::new(self.options.steps@.len(), |i: int| self.options.steps@[i].run@.len())
    }

    /// From the position stored for `project`, go past exhausted steps,
    /// checkpointing each transition, and say which tool runs next; at the end,
    /// reset the position to the start.
    pub fn next_action(&self, store: &mut ProgressStore, project: &Project) -> (r: Result<
        Action,
        SetupError,
    >)
        requires
            old(store).wf(),
            old(store).holds(project),
        ensures
            final(store).wf(),
            final(store).names() == old(store).names(),
            final(store).origins() == old(store).origins(),
            final(store).rows() == old(store).rows().update(
                project.id as int,
                Some(settle(self.tool_counts(), old(store).position_of(project.id as int)).0),
            ),
            r == settle(self.tool_counts(), old(store).position_of(project.id as int)).1,
    {
        let ghost counts = self.tool_counts();
        let ghost target = settle(counts, old(store).position_of(project.id as int));
        let p = store.get_project_progress(project);
        let mut c = p.checkpoint();
        loop
            invariant
                old(store).wf(),
                old(store).holds(project),
                store.wf(),
                store.holds(project),
                store.names() == old(store).names(),
                store.origins() == old(store).origins(),
                store.rows() == old(store).rows().update(project.id as int, Some(c)),
                settle(counts, c) == target,
                target == settle(counts, old(store).position_of(project.id as int)),
                counts == self.tool_counts(),
            decreases self.options.steps@.len() - c.step,
        {
            if c.step >= self.options.steps.len() {
                store.update_project_progress(project, 0, 0, 0);
                proof {
                    assert(store.rows() =~= old(store).rows().update(project.id as int, Some(start())));
                }
                return Ok(Action::Finished);
            }
            let n = self.options.steps[c.step].run.len();
            assert(counts[c.step as int] == n);
            if c.tool < n {
                return Ok(Action::Install(c));
            }
            if c.tool > n || c.step == usize::MAX {
                return Err(SetupError::ConfigurationMismatch { step: c.step, tool: c.tool });
            }
            let next = store.update_project_progress(project, c.step + 1, 0, 0);
            proof {
                assert(store.rows() =~= old(store).rows().update(project.id as int, Some(next.position())));
            }
            c = next.checkpoint();
        }
    }
    /// Record the outcome of the tool at `at`: on a failure nothing is written;
    /// on a pause `(step, tool, tool_step + 1)` is checkpointed and the run
    /// halts; on completion `(step, tool + 1, 0)` is checkpointed and the run
    /// goes on as `next_action` does.
    pub fn record_install(
        &self,
        store: &mut ProgressStore,
        project: &Project,
        at: Checkpoint,
        result: Result<bool, String>,
    ) -> (r: Result<Action, SetupError>)
        requires
            old(store).wf(),
            old(store).holds(project),
            names_tool(self.tool_counts(), at),
        ensures
            final(store).wf(),
            final(store).names() == old(store).names(),
            final(store).origins() == old(store).origins(),
            final(store).rows() == checkpointed(
                old(store).rows(),
                project.id as int,
                after_install(self.tool_counts(), at, result).0,
            ),
            r == after_install(self.tool_counts(), at, result).1,
    {
        match result {
            Err(message) => Err(SetupError::ToolInstall { step: at.step, tool: at.tool, message }),
            Ok(true) => {
                let saved = store.update_project_progress(project, at.step, at.tool, at.tool_step + 1);
                Ok(Action::Paused(saved.checkpoint()))
            },
            Ok(false) => {
                let n = self.options.steps[at.step].run.len();
                assert(at.tool < n);
                store.update_project_progress(project, at.step, at.tool + 1, 0);
                let r = self.next_action(store, project);
                proof {
                    assert(final(store).rows() =~= old(store).rows().update(
                        project.id as int,
                        Some(settle(self.tool_counts(), Checkpoint { step: at.step, tool: (at.tool + 1) as usize, tool_step: 0 }).0),
                    ));
                }
                r
            },
        }
    }

    /// Where the project's identity comes from: its path, else its URL.
    pub open spec fn origin(&self) -> Option<Seq<char>> {
        match self.path {
            Some(p) => Some(p@),
            None => match self.url {
                Some(u) => Some(u@),
                None => None,
            },
        }
    }

    /// The project stored under this configuration's name, created where there
    /// is none, and its progress, created at the start where there is none.
    pub fn get_project_progress(&self, store: &mut ProgressStore) -> (r: (Project, ProjectProgress))
        requires
            old(store).wf(),
            self.origin() is Some,
        ensures
            final(store).wf(),
            final(store).holds(&r.0),
            r.0.name@ == self.options.name@,
            r.1.project_id == r.0.id,
            r.1.position() == old(store).position_named(self.options.name@),
            old(store).has_name(self.options.name@) ==> {
                &&& final(store).names() == old(store).names()
                &&& final(store).origins() == old(store).origins()
                &&& final(store).rows() == old(store).rows().update(
                    r.0.id as int,
                    Some(old(store).position_named(self.options.name@)),
                )
            },
            !old(store).has_name(self.options.name@) ==> {
                &&& r.0.id == old(store).len()
                &&& final(store).names() == old(store).names().push(self.options.name@)
                &&& final(store).origins() == old(store).origins().push(self.origin()->0)
                &&& final(store).rows() == old(store).rows().push(Some(start()))
            },
    {
        let origin: &String = match &self.path {
            Some(p) => p,
            None => self.url.as_ref().unwrap(),
        };
        let project = store.get_or_create_project(self.options.name.as_str(), origin.as_str());
        proof {
            if old(store).has_name(self.options.name@) {
                old(store).lemma_index_of(&project);
            }
        }
        let progress = store.get_project_progress(&project);
        proof {
            if !old(store).has_name(self.options.name@) {
                assert(final(store).rows() =~= old(store).rows().push(Some(start())));
            }
        }
        (project, progress)
    }

    /// Start or resume a run: the project is looked up or created, and the run
    /// goes from its stored position as `next_action` does.
    pub fn setup(&self, store: &mut ProgressStore) -> (r: (Project, Result<Action, SetupError>))
        requires
            old(store).wf(),
            self.origin() is Some,
        ensures
            final(store).wf(),
            final(store).holds(&r.0),
            r.0.name@ == self.options.name@,
            r.1 == settle(self.tool_counts(), old(store).position_named(self.options.name@)).1,
            old(store).has_name(self.options.name@) ==> {
                &&& final(store).names() == old(store).names()
                &&& final(store).origins() == old(store).origins()
                &&& final(store).rows() == old(store).rows().update(
                    r.0.id as int,
                    Some(settle(self.tool_counts(), old(store).position_named(self.options.name@)).0),
                )
            },
            !old(store).has_name(self.options.name@) ==> {
                &&& r.0.id == old(store).len()
                &&& final(store).names() == old(store).names().push(self.options.name@)
                &&& final(store).origins() == old(store).origins().push(self.origin()->0)
                &&& final(store).rows() == old(store).rows().push(
                    Some(settle(self.tool_counts(), start()).0),
                )
            },
    {
        let (project, _progress) = self.get_project_progress(store);
        let action = self.next_action(store, &project);
        proof {
            if old(store).has_name(self.options.name@) {
                assert(final(store).rows() =~= old(store).rows().update(
                    project.id as int,
                    Some(settle(self.tool_counts(), old(store).position_named(self.options.name@)).0),
                ));
            } else {
                assert(final(store).rows() =~= old(store).rows().push(
                    Some(settle(self.tool_counts(), start()).0),
                ));
            }
        }
        (project, action)
    }

    /// Put the project back at the start without running any tool.
    pub fn reset(&self, store: &mut ProgressStore) -> (r: Result<(), SetupError>)
        requires
            old(store).wf(),
        ensures
            final(store).wf(),
            final(store).names() == old(store).names(),
            final(store).origins() == old(store).origins(),
            old(store).has_name(self.options.name@) ==> {
                &&& r is Ok
                &&& final(store).rows() == old(store).rows().update(
                    old(store).index_of(self.options.name@),
                    Some(start()),
                )
                &&& final(store).position_named(self.options.name@) == start()
            },
            !old(store).has_name(self.options.name@) ==> {
                &&& r matches Err(SetupError::ProjectNotFound { name }) && name@ == self.options.name@
                &&& final(store).rows() == old(store).rows()
            },
    {
        match store.get_project(self.options.name.as_str()) {
            Some(project) => {
                proof {
                    old(store).lemma_index_of(&project);
                }
                store.update_project_progress(&project, 0, 0, 0);
                proof {
                    store.lemma_index_of(&project);
                }
                Ok(())
            },
            None => Err(SetupError::ProjectNotFound { name: self.options.name.clone() }),
        }
    }
}

/// Whether `s` names a YAML file.
pub open spec fn is_yaml_name(s: Seq<char>) -> bool {
    ends_with_spec(s, ".yaml"@) || ends_with_spec(s, ".yml"@)
}

pub fn has_yaml_extension(s: &str) -> (r: bool)
    ensures
        r == is_yaml_name(s@),
{
    ends_with(s, ".yaml") || ends_with(s, ".yml")
}

/// Whether `url::Url::parse` accepts `s`.
pub uninterp spec fn parses_as_url(s: Seq<char>) -> bool;

/// Relies on `url::Url::parse`: whether it returns `Ok` for `s`, which depends
/// on `s` alone.
#[verifier::external_body]
fn is_url(s: &str) -> (r: bool)
    ensures
        r == parses_as_url(s@),
{
    url::Url::parse(s).is_ok()
}

/// Where a project selector's configuration is read from.
#[derive(Clone, Copy, Debug, PartialEq, Eq, Structural)]
pub enum ProjectSource {
    /// Fetched from the selector, a URL.
    Url,
    /// Read from the selector, a path to a YAML file.
    File,
    /// Read from `<name>.yaml` in the projects directory.
    Named,
}

/// The source of a selector: a URL first; else an existing YAML file; else a
/// project of the projects directory.
pub open spec fn source_spec(url: bool, file_exists: bool, name: Seq<char>) -> ProjectSource {
    if url {
        ProjectSource::Url
    } else if file_exists && is_yaml_name(name) {
        ProjectSource::File
    } else {
        ProjectSource::Named
    }
}

/// The source of selector `name`, given whether it parses as a URL and whether
/// a file exists at that path.
pub fn source_for(url: bool, file_exists: bool, name: &str) -> (r: ProjectSource)
    ensures
        r == source_spec(url, file_exists, name@),
{
    if url {
        ProjectSource::Url
    } else if file_exists && has_yaml_extension(name) {
        ProjectSource::File
    } else {
        ProjectSource::Named
    }
}

/// The source of selector `name`, given whether a file exists at that path.
pub fn project_source(name: &str, file_exists: bool) -> (r: ProjectSource)
    ensures
        r == source_spec(parses_as_url(name@), file_exists, name@),
{
    let url = is_url(name);
    source_for(url, file_exists, name)
}

/// The directory of a user's projects: the configured one, else
/// `.siu/projects` under the home directory.
pub fn projects_path(configured: Option<String>, home: &str) -> (r: String)
    ensures
        r@ == match configured {
            Some(c) => c@,
            None => home@ + "/.siu/projects"@,
        },
{
    match configured {
        Some(c) => c,
        None => {
            let mut p = home.to_owned();
            p.append("/.siu/projects");
            p
        },
    }
}

} // verus!
