//! The workflow document as ordered data: jobs, their steps and the
//! parameters of each step.
//!
//! Every type has a view in which strings are `Seq<char>` and vectors are
//! `Seq`. The contracts of the crate are written over those views.

use vstd::prelude::*;

verus! {

/// The value of a parameter, or a script.
#[derive(Debug, Clone, PartialEq, Eq)]
pub enum Value {
    /// A value written on the line of its key.
    Scalar(String),
    /// A literal block: the lines are written below the key.
    Block(Vec<String>),
}

/// View of a [`Value`].
pub enum ValueView {
    Scalar(Seq<char>),
    Block(Seq<Seq<char>>),
}

impl DeepView for Value {
    type V = ValueView;

    open spec fn deep_view(&self) -> ValueView {
        match self {
            Value::Scalar(s) => ValueView::Scalar(s@),
            Value::Block(lines) => ValueView::Block(lines.deep_view()),
        }
    }
}

impl View for Value {
    type V = ValueView;

    open spec fn view(&self) -> ValueView {
        self.deep_view()
    }
}

/// One entry of an ordered mapping.
#[derive(Debug, Clone, PartialEq, Eq)]
pub struct Param {
    pub key: String,
    pub value: Value,
}

/// View of a [`Param`].
pub struct ParamView {
    pub key: Seq<char>,
    pub value: ValueView,
}

impl DeepView for Param {
    type V = ParamView;

    open spec fn deep_view(&self) -> ParamView {
        ParamView { key: self.key@, value: self.value@ }
    }
}

impl View for Param {
    type V = ParamView;

    open spec fn view(&self) -> ParamView {
        self.deep_view()
    }
}

/// One step of a job. A key that is `None`, or an empty mapping, is absent
/// from the document.
#[derive(Debug, Clone, PartialEq, Eq)]
pub struct Step {
    /// Display name.
    pub name: Option<String>,
    /// Condition under which the step runs, in the provider's expression
    /// syntax.
    pub guard: Option<String>,
    /// The action the step runs, with its pinned version.
    pub uses: Option<String>,
    /// The shell that runs `run`.
    pub shell: Option<String>,
    /// Environment variables, in order.
    pub env: Vec<Param>,
    /// Parameters handed to the action, in order.
    pub params: Vec<Param>,
    /// The script the step runs.
    pub run: Option<Value>,
}

/// View of a [`Step`].
pub struct StepView {
    pub name: Option<Seq<char>>,
    pub guard: Option<Seq<char>>,
    pub uses: Option<Seq<char>>,
    pub shell: Option<Seq<char>>,
    pub env: Seq<ParamView>,
    pub params: Seq<ParamView>,
    pub run: Option<ValueView>,
}

impl DeepView for Step {
    type V = StepView;

    open spec fn deep_view(&self) -> StepView {
        StepView {
            name: self.name.deep_view(),
            guard: self.guard.deep_view(),
            uses: self.uses.deep_view(),
            shell: self.shell.deep_view(),
            env: self.env.deep_view(),
            params: self.params.deep_view(),
            run: self.run.deep_view(),
        }
    }
}

impl View for Step {
    type V = StepView;

    open spec fn view(&self) -> StepView {
        self.deep_view()
    }
}

impl StepView {
    /// The step without any key.
    pub open spec fn empty() -> StepView {
        StepView {
            name: None,
            guard: None,
            uses: None,
            shell: None,
            env: Seq::empty(),
            params: Seq::empty(),
            run: None,
        }
    }

    /// A step that runs `action`.
    pub open spec fn action(action: Seq<char>) -> StepView {
        StepView { uses: Some(action), ..Self::empty() }
    }

    /// A step that runs the one-line `script`.
    pub open spec fn script(script: Seq<char>) -> StepView {
        StepView { run: Some(ValueView::Scalar(script)), ..Self::empty() }
    }

    /// A step that runs the lines of `script`.
    pub open spec fn script_block(script: Seq<Seq<char>>) -> StepView {
        StepView { run: Some(ValueView::Block(script)), ..Self::empty() }
    }

    /// The step under the display name `name`.
    pub open spec fn named(self, name: Seq<char>) -> StepView {
        StepView { name: Some(name), ..self }
    }

    /// The step, run only where `guard` holds.
    pub open spec fn when(self, guard: Seq<char>) -> StepView {
        StepView { guard: Some(guard), ..self }
    }

    /// The step, its script run by `shell`.
    pub open spec fn in_shell(self, shell: Seq<char>) -> StepView {
        StepView { shell: Some(shell), ..self }
    }

    /// The step with one more environment variable.
    pub open spec fn with_env(self, key: Seq<char>, value: Seq<char>) -> StepView {
        StepView { env: self.env.push(ParamView { key, value: ValueView::Scalar(value) }), ..self }
    }

    /// The step with one more parameter.
    pub open spec fn with(self, key: Seq<char>, value: Seq<char>) -> StepView {
        StepView {
            params: self.params.push(ParamView { key, value: ValueView::Scalar(value) }),
            ..self
        }
    }

    /// The step with one more parameter, whose value is a block of lines.
    pub open spec fn with_block(self, key: Seq<char>, lines: Seq<Seq<char>>) -> StepView {
        StepView {
            params: self.params.push(ParamView { key, value: ValueView::Block(lines) }),
            ..self
        }
    }
}

/// Pushing onto a vector pushes the element's view onto the vector's view.
pub proof fn lemma_push_deep_view<T: DeepView>(before: Vec<T>, after: Vec<T>, item: T)
    requires
        after@ == before@.push(item),
    ensures
        after.deep_view() == before.deep_view().push(item.deep_view()),
{
    assert(after.deep_view() =~= before.deep_view().push(item.deep_view()));
}

impl Step {
    /// The step without any key.
    pub fn empty() -> (r: Step)
        ensures
            r@ == StepView::empty(),
    {
        let step = Step {
            name: None,
            guard: None,
            uses: None,
            shell: None,
            env: Vec::new(),
            params: Vec::new(),
            run: None,
        };
        assert(step.env.deep_view() =~= Seq::empty());
        assert(step.params.deep_view() =~= Seq::empty());
        step
    }

    /// A step that runs `action`.
    pub fn action(action: &str) -> (r: Step)
        ensures
            r@ == StepView::action(action@),
    {
        let mut step = Step::empty();
        step.uses = Some(String::from_str(action));
        step
    }

    /// A step that runs the one-line `script`.
    pub fn script(script: &str) -> (r: Step)
        ensures
            r@ == StepView::script(script@),
    {
        let mut step = Step::empty();
        step.run = Some(Value::Scalar(String::from_str(script)));
        step
    }

    /// A step that runs the lines of `script`.
    pub fn script_block(script: Vec<String>) -> (r: Step)
        ensures
            r@ == StepView::script_block(script.deep_view()),
    {
        let mut step = Step::empty();
        step.run = Some(Value::Block(script));
        step
    }

    /// The step under the display name `name`.
    pub fn named(self, name: &str) -> (r: Step)
        ensures
            r@ == self@.named(name@),
    {
        let mut step = self;
        step.name = Some(String::from_str(name));
        step
    }

    /// The step, run only where `guard` holds.
    pub fn when(self, guard: &str) -> (r: Step)
        ensures
            r@ == self@.when(guard@),
    {
        let mut step = self;
        step.guard = Some(String::from_str(guard));
        step
    }

    /// The step, its script run by `shell`.
    pub fn in_shell(self, shell: &str) -> (r: Step)
        ensures
            r@ == self@.in_shell(shell@),
    {
        let mut step = self;
        step.shell = Some(String::from_str(shell));
        step
    }

    /// The step with one more environment variable.
    pub fn with_env(self, key: &str, value: &str) -> (r: Step)
        ensures
            r@ == self@.with_env(key@, value@),
    {
        let mut step = self;
        let ghost before = step.env;
        let param = Param {
            key: String::from_str(key),
            value: Value::Scalar(String::from_str(value)),
        };
        step.env.push(param);
        proof {
            lemma_push_deep_view(before, step.env, param);
        }
        step
    }

    /// The step with one more parameter.
    pub fn with(self, key: &str, value: &str) -> (r: Step)
        ensures
            r@ == self@.with(key@, value@),
    {
        let mut step = self;
        let ghost before = step.params;
        let param = Param {
            key: String::from_str(key),
            value: Value::Scalar(String::from_str(value)),
        };
        step.params.push(param);
        proof {
            lemma_push_deep_view(before, step.params, param);
        }
        step
    }

    /// The step with one more parameter, whose value is a block of lines.
    pub fn with_block(self, key: &str, lines: Vec<String>) -> (r: Step)
        ensures
            r@ == self@.with_block(key@, lines.deep_view()),
    {
        let mut step = self;
        let ghost before = step.params;
        let param = Param { key: String::from_str(key), value: Value::Block(lines) };
        step.params.push(param);
        proof {
            lemma_push_deep_view(before, step.params, param);
        }
        step
    }
}

/// One section of the document: a named job with its steps.
#[derive(Debug, Clone, PartialEq, Eq)]
pub struct Job {
    /// The key of the section; other jobs refer to the job by it.
    pub name: String,
    /// Display name.
    pub title: Option<String>,
    /// The image that the job runs on.
    pub runs_on: String,
    /// Condition under which the job runs, written as it stands in the
    /// document.
    pub guard: Option<String>,
    /// The jobs that have to finish first. `Some` of no name is written as
    /// an empty list.
    pub needs: Option<Vec<String>>,
    /// The architectures of the build matrix; none if empty.
    pub targets: Vec<String>,
    /// The steps, in the order in which they run.
    pub steps: Vec<Step>,
}

/// View of a [`Job`].
pub struct JobView {
    pub name: Seq<char>,
    pub title: Option<Seq<char>>,
    pub runs_on: Seq<char>,
    pub guard: Option<Seq<char>>,
    pub needs: Option<Seq<Seq<char>>>,
    pub targets: Seq<Seq<char>>,
    pub steps: Seq<StepView>,
}

impl DeepView for Job {
    type V = JobView;

    open spec fn deep_view(&self) -> JobView {
        JobView {
            name: self.name@,
            title: self.title.deep_view(),
            runs_on: self.runs_on@,
            guard: self.guard.deep_view(),
            needs: self.needs.deep_view(),
            targets: self.targets.deep_view(),
            steps: self.steps.deep_view(),
        }
    }
}

impl View for Job {
    type V = JobView;

    open spec fn view(&self) -> JobView {
        self.deep_view()
    }
}

/// The names of `jobs`, in order.
pub open spec fn job_names(jobs: Seq<JobView>) -> Seq<Seq<char>> {
    Seq::new(jobs.len(), |i: int| jobs[i].name)
}

/// The whole document: where it came from, and its jobs in order.
#[derive(Debug, Clone, PartialEq, Eq)]
pub struct Workflow {
    /// Version of the tool that generated the document.
    pub version: String,
    /// The command line that generates the document again.
    pub command: String,
    /// The jobs, in the order of their sections.
    pub jobs: Vec<Job>,
}

/// View of a [`Workflow`].
pub struct WorkflowView {
    pub version: Seq<char>,
    pub command: Seq<char>,
    pub jobs: Seq<JobView>,
}

impl DeepView for Workflow {
    type V = WorkflowView;

    open spec fn deep_view(&self) -> WorkflowView {
        WorkflowView {
            version: self.version@,
            command: self.command@,
            jobs: self.jobs.deep_view(),
        }
    }
}

impl View for Workflow {
    type V = WorkflowView;

    open spec fn view(&self) -> WorkflowView {
        self.deep_view()
    }
}

} // verus!
