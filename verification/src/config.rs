//! The typed configuration model: the per-invocation arguments, the
//! per-slot commit-message argument specs, custom task definitions and
//! the configuration root, together with their mathematical views.

use vstd::prelude::*;

verus! {

/// A three-valued switch for boolean-like CLI flags that may be absent,
/// present bare, or present with an explicit value.
#[derive(Clone, Copy, Debug, PartialEq, Eq, Structural)]
pub enum TriStateFlag {
    /// The flag did not appear on the command line.
    Unset,
    /// The flag appeared bare, with no value.
    ImplicitTrue,
    /// The flag appeared with an explicit boolean value.
    Explicit(bool),
}

impl TriStateFlag {
    /// The boolean a flag state stands for: absent is `false`, bare is
    /// `true`, explicit is the given value.
    pub open spec fn spec_resolve(self) -> bool {
        match self {
            TriStateFlag::Unset => false,
            TriStateFlag::ImplicitTrue => true,
            TriStateFlag::Explicit(b) => b,
        }
    }

    /// Collapse the three states to the boolean they stand for.
    pub fn resolve(&self) -> (r: bool)
        ensures
            r == self.spec_resolve(),
    {
        match self {
            TriStateFlag::Unset => false,
            TriStateFlag::ImplicitTrue => true,
            TriStateFlag::Explicit(b) => *b,
        }
    }
}

/// Every flag state resolves as documented: absent flags are off, bare
/// flags are on, and explicit flags keep their value.
pub proof fn lemma_tri_state_resolution()
    ensures
        TriStateFlag::Unset.spec_resolve() == false,
        TriStateFlag::ImplicitTrue.spec_resolve() == true,
        forall|b: bool| TriStateFlag::Explicit(b).spec_resolve() == b,
{
}

/// Mathematical image of [`Arguments`]: strings become character
/// sequences, the flags stay as they are.
#[verifier::ext_equal]
pub struct ArgumentsV {
    pub action: Seq<char>,
    pub arguments: Seq<Seq<char>>,
    pub rc_path: Seq<char>,
    pub branch: Option<Seq<char>>,
    pub dry: TriStateFlag,
    pub nohost: TriStateFlag,
    pub raw: TriStateFlag,
    pub noverify: TriStateFlag,
}

/// One invocation of the tool: the requested action, its positional
/// arguments, and the scalar options the command line may set.
#[derive(Debug)]
pub struct Arguments {
    /// Type of action. The `actions` action lists the available ones.
    pub action: String,
    /// Positional arguments handed to the action.
    pub arguments: Vec<String>,
    /// Path to the configuration file.
    pub rc_path: String,
    /// Branch to use instead of the configured one.
    pub branch: Option<String>,
    /// Dry run: do not run version-control commands.
    pub dry: TriStateFlag,
    /// The branch is not on the hosted provider.
    pub nohost: TriStateFlag,
    /// Ignore the commit template and use the plain argument join.
    pub raw: TriStateFlag,
    /// Do not run any configured hooks.
    pub noverify: TriStateFlag,
}

impl View for Arguments {
    type V = ArgumentsV;

    open spec fn view(&self) -> ArgumentsV {
        ArgumentsV {
            action: self.action@,
            arguments: self.arguments.deep_view(),
            rc_path: self.rc_path@,
            branch: self.branch.deep_view(),
            dry: self.dry,
            nohost: self.nohost,
            raw: self.raw,
            noverify: self.noverify,
        }
    }
}

impl DeepView for Arguments {
    type V = ArgumentsV;

    open spec fn deep_view(&self) -> ArgumentsV {
        self.view()
    }
}

impl Arguments {
    /// The dry-run flag, collapsed to a boolean.
    pub fn dry(&self) -> (r: bool)
        ensures
            r == self.dry.spec_resolve(),
    {
        self.dry.resolve()
    }

    /// The no-host flag, collapsed to a boolean.
    pub fn nohost(&self) -> (r: bool)
        ensures
            r == self.nohost.spec_resolve(),
    {
        self.nohost.resolve()
    }

    /// The raw flag, collapsed to a boolean.
    pub fn raw(&self) -> (r: bool)
        ensures
            r == self.raw.spec_resolve(),
    {
        self.raw.resolve()
    }

    /// The no-verify flag, collapsed to a boolean.
    pub fn noverify(&self) -> (r: bool)
        ensures
            r == self.noverify.spec_resolve(),
    {
        self.noverify.resolve()
    }
}

/// The default commit-message template: argument one and everything
/// after it, space-joined.
pub fn commit_msg() -> (r: String)
    ensures
        r@ == "$1+"@,
{
    String::from_str("$1+")
}

/// Mathematical image of [`CommitMessageArguments`].
#[verifier::ext_equal]
pub struct CommitMessageArgumentsV {
    pub argument: int,
    pub case: Option<Seq<char>>,
    pub type_enums: Option<Seq<Seq<char>>>,
}

/// A constraint on one positional slot of the commit template: an
/// optional case transform and an optional set of allowed values.
#[derive(Debug)]
pub struct CommitMessageArguments {
    /// The 1-based positional slot this spec applies to.
    pub argument: i32,
    /// Name of the case transform to apply before substitution.
    pub case: Option<String>,
    /// Allowed literal values for the slot, checked after the transform.
    pub type_enums: Option<Vec<String>>,
}

impl View for CommitMessageArguments {
    type V = CommitMessageArgumentsV;

    open spec fn view(&self) -> CommitMessageArgumentsV {
        CommitMessageArgumentsV {
            argument: self.argument as int,
            case: self.case.deep_view(),
            type_enums: self.type_enums.deep_view(),
        }
    }
}

impl DeepView for CommitMessageArguments {
    type V = CommitMessageArgumentsV;

    open spec fn deep_view(&self) -> CommitMessageArgumentsV {
        self.view()
    }
}

/// Mathematical image of [`CustomTaskOptions`].
#[verifier::ext_equal]
pub struct CustomTaskOptionsV {
    pub name: Seq<char>,
    pub execute: Option<Seq<Seq<char>>>,
}

/// A user-defined task: a unique name and the commands it runs.
#[derive(Debug)]
pub struct CustomTaskOptions {
    /// Name the task is dispatched under; unique within a configuration.
    pub name: String,
    /// Shell-style commands to execute in sequence; absent means no-op.
    pub execute: Option<Vec<String>>,
}

impl View for CustomTaskOptions {
    type V = CustomTaskOptionsV;

    open spec fn view(&self) -> CustomTaskOptionsV {
        CustomTaskOptionsV { name: self.name@, execute: self.execute.deep_view() }
    }
}

impl DeepView for CustomTaskOptions {
    type V = CustomTaskOptionsV;

    open spec fn deep_view(&self) -> CustomTaskOptionsV {
        self.view()
    }
}

/// Mathematical image of [`GlitterRc`].
#[verifier::ext_equal]
pub struct GlitterRcV {
    pub commit_message: Seq<char>,
    pub arguments: Option<Seq<ArgumentsV>>,
    pub commit_message_arguments: Option<Seq<CommitMessageArgumentsV>>,
    pub fetch: Option<bool>,
    pub custom_tasks: Option<Seq<CustomTaskOptionsV>>,
    pub hooks: Option<Seq<Seq<char>>>,
    pub __default: Option<bool>,
}

/// The configuration root, as read from the configuration file.
#[derive(Debug)]
pub struct GlitterRc {
    /// The commit-message template; the reader defaults it to `$1+`.
    pub commit_message: String,
    /// Per-action argument overrides, keyed by their `action` field.
    pub arguments: Option<Vec<Arguments>>,
    /// Constraints on the positional slots of the commit template.
    pub commit_message_arguments: Option<Vec<CommitMessageArguments>>,
    /// Run a fetch step before any commit-style action.
    pub fetch: Option<bool>,
    /// User-defined tasks, dispatched by name.
    pub custom_tasks: Option<Vec<CustomTaskOptions>>,
    /// Hook commands to run around actions unless no-verify is set.
    pub hooks: Option<Vec<String>>,
    /// Internal marker, not exposed to users.
    pub __default: Option<bool>,
}

impl View for GlitterRc {
    type V = GlitterRcV;

    open spec fn view(&self) -> GlitterRcV {
        GlitterRcV {
            commit_message: self.commit_message@,
            arguments: self.arguments.deep_view(),
            commit_message_arguments: self.commit_message_arguments.deep_view(),
            fetch: self.fetch,
            custom_tasks: self.custom_tasks.deep_view(),
            hooks: self.hooks.deep_view(),
            __default: self.__default,
        }
    }
}

impl DeepView for GlitterRc {
    type V = GlitterRcV;

    open spec fn deep_view(&self) -> GlitterRcV {
        self.view()
    }
}

fn opt_bool_eq(a: &Option<bool>, b: &Option<bool>) -> (r: bool)
    ensures
        r == (*a == *b),
{
    match (a, b) {
        (None, None) => true,
        (Some(x), Some(y)) => *x == *y,
        _ => false,
    }
}

fn opt_string_eq(a: &Option<String>, b: &Option<String>) -> (r: bool)
    ensures
        r == (a.deep_view() == b.deep_view()),
{
    match (a, b) {
        (None, None) => true,
        (Some(x), Some(y)) => *x == *y,
        _ => false,
    }
}

pub(crate) fn string_vec_eq(a: &Vec<String>, b: &Vec<String>) -> (r: bool)
    ensures
        r == (a.deep_view() == b.deep_view()),
{
    if a.len() != b.len() {
        proof {
            assert(a.deep_view().len() == a@.len());
            assert(b.deep_view().len() == b@.len());
        }
        return false;
    }
    let mut i: usize = 0;
    while i < a.len()
        invariant
            i <= a.len(),
            a.len() == b.len(),
            forall|j: int| 0 <= j < i ==> a.deep_view()[j] == b.deep_view()[j],
        decreases a.len() - i,
    {
        if !(a[i] == b[i]) {
            proof {
                assert(a.deep_view()[i as int] == a@[i as int].deep_view());
                assert(b.deep_view()[i as int] == b@[i as int].deep_view());
            }
            return false;
        }
        i += 1;
    }
    proof {
        assert(a.deep_view() =~= b.deep_view());
    }
    true
}

fn opt_string_vec_eq(a: &Option<Vec<String>>, b: &Option<Vec<String>>) -> (r: bool)
    ensures
        r == (a.deep_view() == b.deep_view()),
{
    match (a, b) {
        (None, None) => true,
        (Some(x), Some(y)) => string_vec_eq(x, y),
        _ => false,
    }
}

impl vstd::std_specs::cmp::PartialEqSpecImpl for Arguments {
    open spec fn obeys_eq_spec() -> bool {
        true
    }

    open spec fn eq_spec(&self, other: &Arguments) -> bool {
        self@ == other@
    }
}

impl PartialEq for Arguments {
    fn eq(&self, other: &Self) -> (r: bool) {
        let r = self.action == other.action && string_vec_eq(&self.arguments, &other.arguments)
            && self.rc_path == other.rc_path && opt_string_eq(&self.branch, &other.branch)
            && self.dry == other.dry && self.nohost == other.nohost && self.raw == other.raw
            && self.noverify == other.noverify;
        proof {
            if r {
                assert(self@ =~= other@);
            }
        }
        r
    }
}

impl vstd::std_specs::cmp::PartialEqSpecImpl for CommitMessageArguments {
    open spec fn obeys_eq_spec() -> bool {
        true
    }

    open spec fn eq_spec(&self, other: &CommitMessageArguments) -> bool {
        self@ == other@
    }
}

impl PartialEq for CommitMessageArguments {
    fn eq(&self, other: &Self) -> (r: bool) {
        let r = self.argument == other.argument && opt_string_eq(&self.case, &other.case)
            && opt_string_vec_eq(&self.type_enums, &other.type_enums);
        proof {
            if r {
                assert(self@ =~= other@);
            }
        }
        r
    }
}

impl vstd::std_specs::cmp::PartialEqSpecImpl for CustomTaskOptions {
    open spec fn obeys_eq_spec() -> bool {
        true
    }

    open spec fn eq_spec(&self, other: &CustomTaskOptions) -> bool {
        self@ == other@
    }
}

impl PartialEq for CustomTaskOptions {
    fn eq(&self, other: &Self) -> (r: bool) {
        let r = self.name == other.name && opt_string_vec_eq(&self.execute, &other.execute);
        proof {
            if r {
                assert(self@ =~= other@);
            }
        }
        r
    }
}

fn arguments_vec_eq(a: &Vec<Arguments>, b: &Vec<Arguments>) -> (r: bool)
    ensures
        r == (a.deep_view() == b.deep_view()),
{
    if a.len() != b.len() {
        proof {
            assert(a.deep_view().len() == a@.len());
            assert(b.deep_view().len() == b@.len());
        }
        return false;
    }
    let mut i: usize = 0;
    while i < a.len()
        invariant
            i <= a.len(),
            a.len() == b.len(),
            forall|j: int| 0 <= j < i ==> a.deep_view()[j] == b.deep_view()[j],
        decreases a.len() - i,
    {
        if !(a[i] == b[i]) {
            proof {
                assert(a.deep_view()[i as int] == a@[i as int].deep_view());
                assert(b.deep_view()[i as int] == b@[i as int].deep_view());
            }
            return false;
        }
        i += 1;
    }
    proof {
        assert(a.deep_view() =~= b.deep_view());
    }
    true
}

fn commit_message_arguments_vec_eq(
    a: &Vec<CommitMessageArguments>,
    b: &Vec<CommitMessageArguments>,
) -> (r: bool)
    ensures
        r == (a.deep_view() == b.deep_view()),
{
    if a.len() != b.len() {
        proof {
            assert(a.deep_view().len() == a@.len());
            assert(b.deep_view().len() == b@.len());
        }
        return false;
    }
    let mut i: usize = 0;
    while i < a.len()
        invariant
            i <= a.len(),
            a.len() == b.len(),
            forall|j: int| 0 <= j < i ==> a.deep_view()[j] == b.deep_view()[j],
        decreases a.len() - i,
    {
        if !(a[i] == b[i]) {
            proof {
                assert(a.deep_view()[i as int] == a@[i as int].deep_view());
                assert(b.deep_view()[i as int] == b@[i as int].deep_view());
            }
            return false;
        }
        i += 1;
    }
    proof {
        assert(a.deep_view() =~= b.deep_view());
    }
    true
}

fn custom_task_vec_eq(a: &Vec<CustomTaskOptions>, b: &Vec<CustomTaskOptions>) -> (r: bool)
    ensures
        r == (a.deep_view() == b.deep_view()),
{
    if a.len() != b.len() {
        proof {
            assert(a.deep_view().len() == a@.len());
            assert(b.deep_view().len() == b@.len());
        }
        return false;
    }
    let mut i: usize = 0;
    while i < a.len()
        invariant
            i <= a.len(),
            a.len() == b.len(),
            forall|j: int| 0 <= j < i ==> a.deep_view()[j] == b.deep_view()[j],
        decreases a.len() - i,
    {
        if !(a[i] == b[i]) {
            proof {
                assert(a.deep_view()[i as int] == a@[i as int].deep_view());
                assert(b.deep_view()[i as int] == b@[i as int].deep_view());
            }
            return false;
        }
        i += 1;
    }
    proof {
        assert(a.deep_view() =~= b.deep_view());
    }
    true
}

impl vstd::std_specs::cmp::PartialEqSpecImpl for GlitterRc {
    open spec fn obeys_eq_spec() -> bool {
        true
    }

    open spec fn eq_spec(&self, other: &GlitterRc) -> bool {
        self@ == other@
    }
}

impl PartialEq for GlitterRc {
    fn eq(&self, other: &Self) -> (r: bool) {
        let args_eq = match (&self.arguments, &other.arguments) {
            (None, None) => true,
            (Some(x), Some(y)) => arguments_vec_eq(x, y),
            _ => false,
        };
        let specs_eq = match (&self.commit_message_arguments, &other.commit_message_arguments) {
            (None, None) => true,
            (Some(x), Some(y)) => commit_message_arguments_vec_eq(x, y),
            _ => false,
        };
        let tasks_eq = match (&self.custom_tasks, &other.custom_tasks) {
            (None, None) => true,
            (Some(x), Some(y)) => custom_task_vec_eq(x, y),
            _ => false,
        };
        let r = self.commit_message == other.commit_message && args_eq && specs_eq
            && opt_bool_eq(&self.fetch, &other.fetch) && tasks_eq
            && opt_string_vec_eq(&self.hooks, &other.hooks)
            && opt_bool_eq(&self.__default, &other.__default);
        proof {
            if r {
                assert(self@ =~= other@);
            }
        }
        r
    }
}

} // verus!
