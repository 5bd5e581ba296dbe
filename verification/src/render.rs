//! Writing the document out as text.
//!
//! The text of each part of the document is given by a spec function on the
//! part's view; the executable function of the same name on the part returns
//! exactly that text.

use vstd::prelude::*;
use crate::model::{
    Job, JobView, Param, ParamView, Step, StepView, Value, ValueView, Workflow, WorkflowView,
};
use crate::text::{join, join_strings};

verus! {

/// The line `key: value` behind `lead`.
pub open spec fn key_line(lead: Seq<char>, key: Seq<char>, value: Seq<char>) -> Seq<char> {
    lead + key + ": "@ + value + "\n"@
}

/// Each of `lines` on a line of its own behind `indent`.
pub open spec fn indented(indent: Seq<char>, lines: Seq<Seq<char>>) -> Seq<char>
    decreases lines.len(),
{
    if lines.len() == 0 {
        Seq::empty()
    } else {
        indented(indent, lines.drop_last()) + (indent + lines.last() + "\n"@)
    }
}

/// The entry `key` of a mapping: a scalar on the line of the key, a block on
/// the lines below it, behind `inner`.
pub open spec fn entry(lead: Seq<char>, inner: Seq<char>, key: Seq<char>, value: ValueView) -> Seq<
    char,
> {
    match value {
        ValueView::Scalar(s) => key_line(lead, key, s),
        ValueView::Block(lines) => lead + key + ": |\n"@ + indented(inner, lines),
    }
}

/// The entries of a mapping, each behind `indent`.
pub open spec fn mapping(indent: Seq<char>, inner: Seq<char>, params: Seq<ParamView>) -> Seq<char>
    decreases params.len(),
{
    if params.len() == 0 {
        Seq::empty()
    } else {
        mapping(indent, inner, params.drop_last()) + entry(
            indent,
            inner,
            params.last().key,
            params.last().value,
        )
    }
}

/// What stands before a key of a step: the list marker before the first key,
/// spaces before the others.
pub open spec fn step_lead(first: bool) -> Seq<char> {
    if first {
        "      - "@
    } else {
        "        "@
    }
}

/// The line of a key of a step that may be absent.
pub open spec fn step_key(first: bool, key: Seq<char>, value: Option<Seq<char>>) -> Seq<char> {
    match value {
        Some(v) => key_line(step_lead(first), key, v),
        None => Seq::empty(),
    }
}

/// A mapping of a step under `key`; nothing if the mapping is empty.
pub open spec fn step_mapping(first: bool, key: Seq<char>, params: Seq<ParamView>) -> Seq<char> {
    if params.len() > 0 {
        step_lead(first) + key + ":\n"@ + mapping("          "@, "            "@, params)
    } else {
        Seq::empty()
    }
}

/// The script of a step, if it has one.
pub open spec fn step_run(first: bool, run: Option<ValueView>) -> Seq<char> {
    match run {
        Some(v) => entry(step_lead(first), "          "@, "run"@, v),
        None => Seq::empty(),
    }
}

impl StepView {
    /// No key stands before `if`.
    pub open spec fn guard_first(self) -> bool {
        self.name is None
    }

    /// No key stands before `uses`.
    pub open spec fn uses_first(self) -> bool {
        self.guard_first() && self.guard is None
    }

    /// No key stands before `shell`.
    pub open spec fn shell_first(self) -> bool {
        self.uses_first() && self.uses is None
    }

    /// No key stands before `env`.
    pub open spec fn env_first(self) -> bool {
        self.shell_first() && self.shell is None
    }

    /// No key stands before `with`.
    pub open spec fn params_first(self) -> bool {
        self.env_first() && self.env.len() == 0
    }

    /// No key stands before `run`.
    pub open spec fn run_first(self) -> bool {
        self.params_first() && self.params.len() == 0
    }

    /// The text of the step: its keys in the order `name`, `if`, `uses`,
    /// `shell`, `env`, `with`, `run`, the first of them behind the list
    /// marker.
    pub open spec fn render(self) -> Seq<char> {
        step_key(true, "name"@, self.name)
            + step_key(self.guard_first(), "if"@, self.guard)
            + step_key(self.uses_first(), "uses"@, self.uses)
            + step_key(self.shell_first(), "shell"@, self.shell)
            + step_mapping(self.env_first(), "env"@, self.env)
            + step_mapping(self.params_first(), "with"@, self.params)
            + step_run(self.run_first(), self.run)
    }
}

/// The texts of `steps`, one after the other.
pub open spec fn steps_text(steps: Seq<StepView>) -> Seq<char>
    decreases steps.len(),
{
    if steps.len() == 0 {
        Seq::empty()
    } else {
        steps_text(steps.drop_last()) + steps.last().render()
    }
}

/// A list in flow style: the items between square brackets.
pub open spec fn flow_list(items: Seq<Seq<char>>) -> Seq<char> {
    "["@ + join(items, ", "@) + "]"@
}

/// The line of a key of a job that may be absent.
pub open spec fn job_key(key: Seq<char>, value: Option<Seq<char>>) -> Seq<char> {
    match value {
        Some(v) => key_line("    "@, key, v),
        None => Seq::empty(),
    }
}

impl JobView {
    /// The line that lists the jobs to wait for.
    pub open spec fn needs_text(self) -> Seq<char> {
        match self.needs {
            Some(names) => key_line("    "@, "needs"@, flow_list(names)),
            None => Seq::empty(),
        }
    }

    /// The build matrix; nothing if the job has no target.
    pub open spec fn matrix_text(self) -> Seq<char> {
        if self.targets.len() > 0 {
            "    strategy:\n      matrix:\n"@ + key_line(
                "        "@,
                "target"@,
                flow_list(self.targets),
            )
        } else {
            Seq::empty()
        }
    }

    /// The section of the job.
    pub open spec fn render(self) -> Seq<char> {
        "  "@ + self.name + ":\n"@
            + job_key("name"@, self.title)
            + key_line("    "@, "runs-on"@, self.runs_on)
            + job_key("if"@, self.guard)
            + self.needs_text()
            + self.matrix_text()
            + "    steps:\n"@
            + steps_text(self.steps)
    }
}

/// The sections of `jobs`, with an empty line between neighbours.
pub open spec fn jobs_text(jobs: Seq<JobView>) -> Seq<char>
    decreases jobs.len(),
{
    if jobs.len() == 0 {
        Seq::empty()
    } else if jobs.len() == 1 {
        jobs[0].render()
    } else {
        jobs_text(jobs.drop_last()) + "\n"@ + jobs.last().render()
    }
}

/// The comment at the head of the document.
pub open spec fn header_text(version: Seq<char>, command: Seq<char>) -> Seq<char> {
    "# This file is autogenerated by maturin v"@ + version + "\n# To update, run\n#\n#    "@
        + command + "\n#\n"@
}

/// The events that start the workflow.
pub open spec fn triggers_text() -> Seq<char> {
    "on:\n  push:\n    branches:\n      - main\n      - master\n    tags:\n      - '*'\n  pull_request:\n  workflow_dispatch:\n\n"@
}

impl WorkflowView {
    /// The text of the document.
    pub open spec fn render(self) -> Seq<char> {
        header_text(self.version, self.command) + triggers_text() + "jobs:\n"@ + jobs_text(
            self.jobs,
        )
    }
}

fn render_key_line(lead: &str, key: &str, value: &str) -> (r: String)
    ensures
        r@ == key_line(lead@, key@, value@),
{
    let mut out = String::from_str(lead);
    out.append(key);
    out.append(": ");
    out.append(value);
    out.append("\n");
    out
}

fn render_lines(indent: &str, lines: &Vec<String>) -> (r: String)
    ensures
        r@ == indented(indent@, lines.deep_view()),
{
    let mut out = String::new();
    let mut i: usize = 0;
    while i < lines.len()
        invariant
            i <= lines.len(),
            out@ == indented(indent@, lines.deep_view().take(i as int)),
        decreases lines.len() - i,
    {
        let ghost done = lines.deep_view().take(i + 1);
        assert(done.drop_last() == lines.deep_view().take(i as int));
        assert(done.last() == lines[i as int]@);
        let mut line = String::from_str(indent);
        line.append(lines[i].as_str());
        line.append("\n");
        out.append(line.as_str());
        i += 1;
    }
    assert(lines.deep_view().take(lines.len() as int) == lines.deep_view());
    out
}

fn render_entry(lead: &str, inner: &str, key: &str, value: &Value) -> (r: String)
    ensures
        r@ == entry(lead@, inner@, key@, value@),
{
    match value {
        Value::Scalar(s) => render_key_line(lead, key, s.as_str()),
        Value::Block(lines) => {
            let mut out = String::from_str(lead);
            out.append(key);
            out.append(": |\n");
            out.append(render_lines(inner, lines).as_str());
            out
        },
    }
}

fn render_mapping(indent: &str, inner: &str, params: &Vec<Param>) -> (r: String)
    ensures
        r@ == mapping(indent@, inner@, params.deep_view()),
{
    let mut out = String::new();
    let mut i: usize = 0;
    while i < params.len()
        invariant
            i <= params.len(),
            out@ == mapping(indent@, inner@, params.deep_view().take(i as int)),
        decreases params.len() - i,
    {
        let ghost done = params.deep_view().take(i + 1);
        assert(done.drop_last() == params.deep_view().take(i as int));
        assert(done.last() == params[i as int]@);
        let param = &params[i];
        out.append(render_entry(indent, inner, param.key.as_str(), &param.value).as_str());
        i += 1;
    }
    assert(params.deep_view().take(params.len() as int) == params.deep_view());
    out
}

fn lead_of_step(first: bool) -> (r: &'static str)
    ensures
        r@ == step_lead(first),
{
    if first {
        "      - "
    } else {
        "        "
    }
}

fn render_step_key(first: bool, key: &str, value: &Option<String>) -> (r: String)
    ensures
        r@ == step_key(first, key@, value.deep_view()),
{
    match value {
        Some(v) => render_key_line(lead_of_step(first), key, v.as_str()),
        None => String::new(),
    }
}

fn render_step_mapping(first: bool, key: &str, params: &Vec<Param>) -> (r: String)
    ensures
        r@ == step_mapping(first, key@, params.deep_view()),
{
    if params.len() > 0 {
        let mut out = String::from_str(lead_of_step(first));
        out.append(key);
        out.append(":\n");
        out.append(render_mapping("          ", "            ", params).as_str());
        out
    } else {
        String::new()
    }
}

fn render_step_run(first: bool, run: &Option<Value>) -> (r: String)
    ensures
        r@ == step_run(first, run.deep_view()),
{
    match run {
        Some(v) => render_entry(lead_of_step(first), "          ", "run", v),
        None => String::new(),
    }
}

impl Step {
    /// The text of the step.
    pub fn render(&self) -> (r: String)
        ensures
            r@ == self@.render(),
    {
        let mut out = render_step_key(true, "name", &self.name);
        let mut first = self.name.is_none();
        out.append(render_step_key(first, "if", &self.guard).as_str());
        first = first && self.guard.is_none();
        out.append(render_step_key(first, "uses", &self.uses).as_str());
        first = first && self.uses.is_none();
        out.append(render_step_key(first, "shell", &self.shell).as_str());
        first = first && self.shell.is_none();
        out.append(render_step_mapping(first, "env", &self.env).as_str());
        first = first && self.env.len() == 0;
        out.append(render_step_mapping(first, "with", &self.params).as_str());
        first = first && self.params.len() == 0;
        out.append(render_step_run(first, &self.run).as_str());
        out
    }
}

fn render_steps(steps: &Vec<Step>) -> (r: String)
    ensures
        r@ == steps_text(steps.deep_view()),
{
    let mut out = String::new();
    let mut i: usize = 0;
    while i < steps.len()
        invariant
            i <= steps.len(),
            out@ == steps_text(steps.deep_view().take(i as int)),
        decreases steps.len() - i,
    {
        let ghost done = steps.deep_view().take(i + 1);
        assert(done.drop_last() == steps.deep_view().take(i as int));
        assert(done.last() == steps[i as int]@);
        out.append(steps[i].render().as_str());
        i += 1;
    }
    assert(steps.deep_view().take(steps.len() as int) == steps.deep_view());
    out
}

fn render_flow_list(items: &Vec<String>) -> (r: String)
    ensures
        r@ == flow_list(items.deep_view()),
{
    let mut out = String::from_str("[");
    out.append(join_strings(items, ", ").as_str());
    out.append("]");
    out
}

fn render_job_key(key: &str, value: &Option<String>) -> (r: String)
    ensures
        r@ == job_key(key@, value.deep_view()),
{
    match value {
        Some(v) => render_key_line("    ", key, v.as_str()),
        None => String::new(),
    }
}

impl Job {
    fn render_needs(&self) -> (r: String)
        ensures
            r@ == self@.needs_text(),
    {
        match &self.needs {
            Some(names) => render_key_line("    ", "needs", render_flow_list(names).as_str()),
            None => String::new(),
        }
    }

    fn render_matrix(&self) -> (r: String)
        ensures
            r@ == self@.matrix_text(),
    {
        if self.targets.len() > 0 {
            let mut out = String::from_str("    strategy:\n      matrix:\n");
            out.append(
                render_key_line(
                    "        ",
                    "target",
                    render_flow_list(&self.targets).as_str(),
                ).as_str(),
            );
            out
        } else {
            String::new()
        }
    }

    /// The section of the job.
    pub fn render(&self) -> (r: String)
        ensures
            r@ == self@.render(),
    {
        let mut out = String::from_str("  ");
        out.append(self.name.as_str());
        out.append(":\n");
        out.append(render_job_key("name", &self.title).as_str());
        out.append(render_key_line("    ", "runs-on", self.runs_on.as_str()).as_str());
        out.append(render_job_key("if", &self.guard).as_str());
        out.append(self.render_needs().as_str());
        out.append(self.render_matrix().as_str());
        out.append("    steps:\n");
        out.append(render_steps(&self.steps).as_str());
        out
    }
}

fn render_jobs(jobs: &Vec<Job>) -> (r: String)
    ensures
        r@ == jobs_text(jobs.deep_view()),
{
    let mut out = String::new();
    let mut i: usize = 0;
    while i < jobs.len()
        invariant
            i <= jobs.len(),
            out@ == jobs_text(jobs.deep_view().take(i as int)),
        decreases jobs.len() - i,
    {
        let ghost done = jobs.deep_view().take(i + 1);
        assert(done.drop_last() == jobs.deep_view().take(i as int));
        assert(done.last() == jobs[i as int]@);
        if i > 0 {
            out.append("\n");
        }
        out.append(jobs[i].render().as_str());
        i += 1;
    }
    assert(jobs.deep_view().take(jobs.len() as int) == jobs.deep_view());
    out
}

fn render_header(version: &str, command: &str) -> (r: String)
    ensures
        r@ == header_text(version@, command@),
{
    let mut out = String::from_str("# This file is autogenerated by maturin v");
    out.append(version);
    out.append("\n# To update, run\n#\n#    ");
    out.append(command);
    out.append("\n#\n");
    out
}

impl Workflow {
    /// The text of the document.
    pub fn render(&self) -> (r: String)
        ensures
            r@ == self@.render(),
    {
        let mut out = render_header(self.version.as_str(), self.command.as_str());
        out.append(
            "on:\n  push:\n    branches:\n      - main\n      - master\n    tags:\n      - '*'\n  pull_request:\n  workflow_dispatch:\n\n",
        );
        out.append("jobs:\n");
        out.append(render_jobs(&self.jobs).as_str());
        out
    }
}

} // verus!
