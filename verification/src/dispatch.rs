//! The task dispatcher: maps an action name to a task plan. A custom
//! task of that name wins; otherwise the action must be one of the
//! builtins. The plan also carries the hook commands to run before the
//! task (none when no-verify is in force) and whether a fetch step
//! precedes commit-style actions.

use vstd::prelude::*;

use crate::config::CustomTaskOptions;
use crate::config::CustomTaskOptionsV;
use crate::config::GlitterRc;
use crate::config::GlitterRcV;
use crate::error::GlitterError;
use crate::text::clone_string_vec;
use crate::text::str_eq;

verus! {

/// Mathematical image of [`TaskKind`].
#[verifier::ext_equal]
pub enum TaskKindV {
    Builtin(Seq<char>),
    Custom(Seq<Seq<char>>),
}

/// What a dispatched action runs: a builtin of the tool, or the
/// command list of a custom task.
#[derive(Debug)]
pub enum TaskKind {
    /// One of the fixed builtin actions.
    Builtin(String),
    /// The commands of a user-defined task, in order.
    Custom(Vec<String>),
}

impl View for TaskKind {
    type V = TaskKindV;

    open spec fn view(&self) -> TaskKindV {
        match self {
            TaskKind::Builtin(name) => TaskKindV::Builtin(name@),
            TaskKind::Custom(cmds) => TaskKindV::Custom(cmds.deep_view()),
        }
    }
}

/// Mathematical image of [`TaskPlan`].
#[verifier::ext_equal]
pub struct TaskPlanV {
    pub kind: TaskKindV,
    pub hooks: Seq<Seq<char>>,
    pub fetch: bool,
}

/// Everything the surrounding program needs to run one action: what to
/// run, the hooks to run before it, and whether to fetch first.
#[derive(Debug)]
pub struct TaskPlan {
    /// The task itself.
    pub kind: TaskKind,
    /// Hook commands to run before the task; empty when no-verify holds.
    pub hooks: Vec<String>,
    /// Run a fetch step before a commit-style action.
    pub fetch: bool,
}

impl View for TaskPlan {
    type V = TaskPlanV;

    open spec fn view(&self) -> TaskPlanV {
        TaskPlanV { kind: self.kind@, hooks: self.hooks.deep_view(), fetch: self.fetch }
    }
}

/// The fixed builtin actions: the guided commit, the action list and
/// the task runner.
pub open spec fn is_builtin(action: Seq<char>) -> bool {
    action == "push"@ || action == "actions"@ || action == "run"@
}

/// The custom-task list of a configuration; absent means none.
pub open spec fn spec_tasks(config: GlitterRcV) -> Seq<CustomTaskOptionsV> {
    match config.custom_tasks {
        None => Seq::empty(),
        Some(s) => s,
    }
}

/// First custom task of that name, searching from `k`.
pub open spec fn spec_find_task_from(
    tasks: Seq<CustomTaskOptionsV>,
    name: Seq<char>,
    k: int,
) -> Option<CustomTaskOptionsV>
    decreases tasks.len() - k,
{
    if k < 0 || k >= tasks.len() {
        None
    } else if tasks[k].name == name {
        Some(tasks[k])
    } else {
        spec_find_task_from(tasks, name, k + 1)
    }
}

/// First custom task of that name.
pub open spec fn spec_find_task(tasks: Seq<CustomTaskOptionsV>, name: Seq<char>) -> Option<
    CustomTaskOptionsV,
> {
    spec_find_task_from(tasks, name, 0)
}

/// The hooks a plan carries: the configured list, or none when
/// no-verify is in force.
pub open spec fn spec_hooks(config: GlitterRcV, noverify: bool) -> Seq<Seq<char>> {
    if noverify {
        Seq::empty()
    } else {
        match config.hooks {
            None => Seq::empty(),
            Some(h) => h,
        }
    }
}

/// Whether a fetch step precedes commit-style actions.
pub open spec fn spec_fetch(config: GlitterRcV) -> bool {
    config.fetch == Some(true)
}

/// What dispatch returns: the command list of the first custom task
/// named like the action; failing that, the action itself when it is a
/// builtin; and otherwise the unknown-action error.
pub open spec fn spec_dispatch(action: Seq<char>, config: GlitterRcV, noverify: bool) -> Result<
    TaskPlanV,
    GlitterError,
> {
    let hooks = spec_hooks(config, noverify);
    let fetch = spec_fetch(config);
    match spec_find_task(spec_tasks(config), action) {
        Some(t) => Ok(
            TaskPlanV {
                kind: TaskKindV::Custom(
                    match t.execute {
                        None => Seq::empty(),
                        Some(cmds) => cmds,
                    },
                ),
                hooks,
                fetch,
            },
        ),
        None => if is_builtin(action) {
            Ok(TaskPlanV { kind: TaskKindV::Builtin(action), hooks, fetch })
        } else {
            Err(GlitterError::UnknownAction)
        },
    }
}

/// No two custom tasks share a name; duplicate names are a
/// configuration error the caller must reject.
pub open spec fn spec_task_names_unique(tasks: Seq<CustomTaskOptionsV>) -> bool {
    forall|i: int, j: int| 0 <= i < j < tasks.len() ==> tasks[i].name != tasks[j].name
}

proof fn lemma_find_task_from_hits(
    tasks: Seq<CustomTaskOptionsV>,
    name: Seq<char>,
    k: int,
    i: int,
)
    requires
        spec_task_names_unique(tasks),
        0 <= k <= i < tasks.len(),
        tasks[i].name == name,
    ensures
        spec_find_task_from(tasks, name, k) == Some(tasks[i]),
    decreases i - k,
{
    if k < i {
        assert(tasks[k].name != tasks[i].name);
        lemma_find_task_from_hits(tasks, name, k + 1, i);
    }
}

/// When the custom task names are unique, dispatch is unambiguous:
/// whichever task carries the action's name is the one found.
pub proof fn lemma_unique_names_pin_the_task(
    tasks: Seq<CustomTaskOptionsV>,
    name: Seq<char>,
    i: int,
)
    requires
        spec_task_names_unique(tasks),
        0 <= i < tasks.len(),
        tasks[i].name == name,
    ensures
        spec_find_task(tasks, name) == Some(tasks[i]),
{
    lemma_find_task_from_hits(tasks, name, 0, i);
}

/// Whether the configuration's custom tasks all carry distinct names.
pub fn task_names_unique(config: &GlitterRc) -> (r: bool)
    ensures
        r == spec_task_names_unique(spec_tasks(config@)),
{
    match &config.custom_tasks {
        None => true,
        Some(tasks) => {
            let ghost tv = tasks.deep_view();
            let mut i: usize = 0;
            while i < tasks.len()
                invariant
                    i <= tasks.len(),
                    tv == tasks.deep_view(),
                    spec_tasks(config@) == tv,
                    tv.len() == tasks@.len(),
                    forall|a: int, b: int| 0 <= a < b < tv.len() && a < i ==> tv[a].name != tv[b].name,
                decreases tasks.len() - i,
            {
                let mut j: usize = i + 1;
                while j < tasks.len()
                    invariant
                        i < j <= tasks.len(),
                        tv == tasks.deep_view(),
                        spec_tasks(config@) == tv,
                        tv.len() == tasks@.len(),
                        forall|b: int| i < b < j ==> tv[i as int].name != tv[b].name,
                    decreases tasks.len() - j,
                {
                    proof {
                        assert(tv[i as int] == tasks@[i as int].deep_view());
                        assert(tv[j as int] == tasks@[j as int].deep_view());
                    }
                    if str_eq(tasks[i].name.as_str(), tasks[j].name.as_str()) {
                        proof {
                            assert(spec_tasks(config@) == tv);
                            assert(tv[i as int].name == tv[j as int].name);
                            assert(!spec_task_names_unique(tv));
                        }
                        return false;
                    }
                    j += 1;
                }
                i += 1;
            }
            true
        },
    }
}

fn find_task_from(tasks: &Vec<CustomTaskOptions>, name: &String, k: usize) -> (r: Option<usize>)
    ensures
        match r {
            Some(idx) => k <= idx < tasks.len() && spec_find_task_from(
                tasks.deep_view(),
                name@,
                k as int,
            ) == Some(tasks.deep_view()[idx as int]),
            None => spec_find_task_from(tasks.deep_view(), name@, k as int) is None,
        },
    decreases tasks.len() - k,
{
    if k >= tasks.len() {
        None
    } else {
        proof {
            assert(tasks.deep_view()[k as int] == tasks@[k as int].deep_view());
        }
        if str_eq(tasks[k].name.as_str(), name.as_str()) {
            Some(k)
        } else {
            find_task_from(tasks, name, k + 1)
        }
    }
}

fn is_builtin_action(action: &String) -> (r: bool)
    ensures
        r == is_builtin(action@),
{
    str_eq(action.as_str(), "push") || str_eq(action.as_str(), "actions") || str_eq(
        action.as_str(),
        "run",
    )
}

/// Resolve an action name to the plan the surrounding program runs.
/// Returns exactly what [`spec_dispatch`] says: the first custom task
/// of that name wins, a builtin action comes next, and anything else
/// is [`GlitterError::UnknownAction`]. The plan carries the configured
/// hooks unless `noverify` holds, and the fetch toggle.
pub fn dispatch(action: &String, config: &GlitterRc, noverify: bool) -> (r: Result<
    TaskPlan,
    GlitterError,
>)
    ensures
        match r {
            Ok(p) => spec_dispatch(action@, config@, noverify) == Ok::<TaskPlanV, GlitterError>(
                p@,
            ),
            Err(e) => spec_dispatch(action@, config@, noverify) == Err::<TaskPlanV, GlitterError>(
                e,
            ),
        },
{
    let hooks: Vec<String> = if noverify {
        Vec::new()
    } else {
        match &config.hooks {
            None => Vec::new(),
            Some(h) => clone_string_vec(h),
        }
    };
    let fetch = match &config.fetch {
        Some(b) => *b,
        None => false,
    };
    let found: Option<Vec<String>> = match &config.custom_tasks {
        None => None,
        Some(tasks) => match find_task_from(tasks, action, 0) {
            Some(idx) => {
                proof {
                    assert(tasks.deep_view()[idx as int] == tasks@[idx as int].deep_view());
                }
                let cmds = match &tasks[idx].execute {
                    None => Vec::new(),
                    Some(c) => clone_string_vec(c),
                };
                Some(cmds)
            },
            None => None,
        },
    };
    match found {
        Some(cmds) => {
            let p = TaskPlan { kind: TaskKind::Custom(cmds), hooks, fetch };
            proof {
                assert(p@ =~= spec_dispatch(action@, config@, noverify)->Ok_0);
            }
            Ok(p)
        },
        None => {
            if is_builtin_action(action) {
                let p = TaskPlan { kind: TaskKind::Builtin(action.clone()), hooks, fetch };
                proof {
                    assert(p@ =~= spec_dispatch(action@, config@, noverify)->Ok_0);
                }
                Ok(p)
            } else {
                Err(GlitterError::UnknownAction)
            }
        },
    }
}

} // verus!
