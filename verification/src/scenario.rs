//! Scenarios: named lists of actions (run a command, ask the AI, print text),
//! their validation, and the decisions the executor takes between actions.
use crate::keyed::StringMap;
use crate::placeholder::ExecutionContext;
use crate::text::{append_str, nat_decimal, push_u64, str_eq, to_owned_string};
use vstd::prelude::*;

verus! {

/// `std::io::Error`, carried in load errors.
#[verifier::external_type_specification]
#[verifier::external_body]
pub struct ExIoError(std::io::Error);

/// One action of a scenario.
#[derive(Debug)]
pub enum Action {
    RunCommand(RunCommandAction),
    AiChat(AiChatAction),
    Output(OutputAction),
}

/// Runs a command.
#[derive(Debug)]
pub struct RunCommandAction {
    pub name: Option<String>,
    pub command: String,
    pub args: Vec<String>,
    pub working_dir: Option<String>,
    pub skip: Option<String>,
}

/// Sends a message to an AI model.
#[derive(Debug)]
pub struct AiChatAction {
    pub name: Option<String>,
    pub system_prompt: Option<String>,
    pub message: String,
    pub model: Option<String>,
    pub mcp: Option<Vec<McpRef>>,
    pub max_tool_iterations: Option<MaxIterations>,
    pub skip: Option<String>,
}

/// A reference to an MCP server configuration.
#[derive(Debug)]
pub struct McpRef {
    pub name: String,
    pub id: Option<String>,
    pub args: Option<Vec<String>>,
    pub env: Option<StringMap<String>>,
}

/// A bound on the number of tool iterations.
#[derive(Debug, Clone, Copy, PartialEq, Eq, Structural)]
pub enum MaxIterations {
    Finite(u32),
    Infinite,
}

impl MaxIterations {
    /// The bound a number in a scenario file gives: a positive number that
    /// fits in 32 bits is that many rounds; 0 and larger numbers are refused
    /// with a message that quotes them.
    pub fn from_number(value: u64) -> (r: Result<Self, String>)
        ensures
            1 <= value <= u32::MAX ==> r == Ok::<MaxIterations, String>(MaxIterations::Finite(value as u32)),
            !(1 <= value <= u32::MAX) ==> (r matches Err(m) && m@
                == "expected a positive integer or the string \"inf\", got "@ + nat_decimal(value as nat)),
    {
        if 1 <= value && value <= 0xffff_ffffu64 {
            Ok(MaxIterations::Finite(value as u32))
        } else {
            let mut m = String::new();
            append_str(&mut m, "expected a positive integer or the string \"inf\", got ");
            push_u64(&mut m, value);
            Err(m)
        }
    }

    /// The bound a text in a scenario file gives: `inf` is no bound; any other
    /// text is refused with a message that quotes it.
    pub fn from_text(value: &str) -> (r: Result<Self, String>)
        ensures
            value@ == "inf"@ ==> r == Ok::<MaxIterations, String>(MaxIterations::Infinite),
            value@ != "inf"@ ==> (r matches Err(m) && m@ == "expected \"inf\", got \""@ + value@ + "\""@),
    {
        if str_eq(value, "inf") {
            Ok(MaxIterations::Infinite)
        } else {
            let mut m = String::new();
            append_str(&mut m, "expected \"inf\", got \"");
            append_str(&mut m, value);
            append_str(&mut m, "\"");
            Err(m)
        }
    }
}

/// Prints text.
#[derive(Debug)]
pub struct OutputAction {
    pub name: Option<String>,
    pub text: String,
}

/// A scenario.
#[derive(Debug)]
pub struct Scenario {
    pub name: String,
    pub description: Option<String>,
    pub actions: Vec<Action>,
}

/// The name an action was given, if any.
pub open spec fn action_name(a: Action) -> Option<Seq<char>> {
    match a {
        Action::RunCommand(r) => opt_text(r.name),
        Action::AiChat(c) => opt_text(c.name),
        Action::Output(o) => opt_text(o.name),
    }
}

/// The text of an optional string.
pub open spec fn opt_text(s: Option<String>) -> Option<Seq<char>> {
    match s {
        Some(t) => Some(t@),
        None => None,
    }
}

fn opt_str(s: &Option<String>) -> (r: Option<&str>)
    ensures
        match r {
            Some(t) => s is Some && t@ == s->0@,
            None => s is None,
        },
{
    match s {
        Some(t) => Some(t.as_str()),
        None => None,
    }
}

impl Action {
    /// The name the action was given, if any.
    pub fn name(&self) -> (r: Option<&str>)
        ensures
            match r {
                Some(t) => action_name(*self) == Some(t@),
                None => action_name(*self) is None,
            },
    {
        match self {
            Action::RunCommand(a) => opt_str(&a.name),
            Action::AiChat(a) => opt_str(&a.name),
            Action::Output(a) => opt_str(&a.name),
        }
    }
}

impl McpRef {
    /// The id under which the server runs: its `id`, else its `name`.
    pub fn effective_id(&self) -> (r: &str)
        ensures
            r@ == match self.id {
                Some(id) => id@,
                None => self.name@,
            },
    {
        match &self.id {
            Some(id) => id.as_str(),
            None => self.name.as_str(),
        }
    }
}

/// `new` is what `f` gives for `old`.
pub open spec fn subst<F: Fn(&String) -> String>(f: F, old: String, new: String) -> bool {
    call_ensures(f, (&old,), new)
}

/// Each present text replaced by what `f` gives for it.
pub open spec fn subst_opt<F: Fn(&String) -> String>(f: F, old: Option<String>, new: Option<String>) -> bool {
    match old {
        Some(o) => new matches Some(n) && subst(f, o, n),
        None => new is None,
    }
}

/// Each text of a list replaced by what `f` gives for it.
pub open spec fn subst_seq<F: Fn(&String) -> String>(f: F, old: Seq<String>, new: Seq<String>) -> bool {
    new.len() == old.len() && forall|i: int| 0 <= i < old.len() ==> subst(f, old[i], #[trigger] new[i])
}

/// Each value of a map replaced by what `f` gives for it; the keys stay.
pub open spec fn subst_map<F: Fn(&String) -> String>(f: F, old: StringMap<String>, new: StringMap<String>) -> bool {
    new.map().dom() == old.map().dom() && forall|k: Seq<char>| #[trigger] old.map().contains_key(k) ==> call_ensures(
        f,
        (&old.map()[k],),
        new.map()[k],
    )
}

/// An MCP reference with its arguments and environment values substituted.
pub open spec fn mcp_substituted<F: Fn(&String) -> String>(f: F, old: McpRef, new: McpRef) -> bool {
    &&& new.name == old.name
    &&& new.id == old.id
    &&& match old.args {
        Some(a) => new.args matches Some(b) && subst_seq(f, a@, b@),
        None => new.args is None,
    }
    &&& match old.env {
        Some(a) => new.env matches Some(b) && subst_map(f, a, b),
        None => new.env is None,
    }
}

/// An action with every text that may name environment variables
/// substituted: a command's command line and directory; an AI chat's prompts,
/// model and MCP arguments and environment; an output's text. Names, skip
/// expressions, MCP names and ids and tool bounds stay.
pub open spec fn action_substituted<F: Fn(&String) -> String>(f: F, old: Action, new: Action) -> bool {
    match (old, new) {
        (Action::RunCommand(o), Action::RunCommand(n)) => {
            &&& subst(f, o.command, n.command)
            &&& subst_seq(f, o.args@, n.args@)
            &&& subst_opt(f, o.working_dir, n.working_dir)
            &&& n.name == o.name
            &&& n.skip == o.skip
        },
        (Action::AiChat(o), Action::AiChat(n)) => {
            &&& subst_opt(f, o.system_prompt, n.system_prompt)
            &&& subst(f, o.message, n.message)
            &&& subst_opt(f, o.model, n.model)
            &&& match o.mcp {
                Some(a) => n.mcp matches Some(b) && b@.len() == a@.len() && forall|i: int|
                    0 <= i < a@.len() ==> mcp_substituted(f, a@[i], #[trigger] b@[i]),
                None => n.mcp is None,
            }
            &&& n.name == o.name
            &&& n.max_tool_iterations == o.max_tool_iterations
            &&& n.skip == o.skip
        },
        (Action::Output(o), Action::Output(n)) => subst(f, o.text, n.text) && n.name == o.name,
        _ => false,
    }
}

fn subst_option<F: Fn(&String) -> String>(s: &Option<String>, f: &F) -> (r: Option<String>)
    requires
        forall|x: &String| call_requires(*f, (x,)),
    ensures
        subst_opt(*f, *s, r),
{
    match s {
        Some(t) => Some(f(t)),
        None => None,
    }
}

fn subst_vec<F: Fn(&String) -> String>(v: &Vec<String>, f: &F) -> (r: Vec<String>)
    requires
        forall|x: &String| call_requires(*f, (x,)),
    ensures
        subst_seq(*f, v@, r@),
{
    let mut r: Vec<String> = Vec::new();
    let mut i: usize = 0;
    while i < v.len()
        invariant
            i <= v@.len(),
            r@.len() == i,
            forall|x: &String| call_requires(*f, (x,)),
            forall|j: int| 0 <= j < i ==> subst(*f, v@[j], #[trigger] r@[j]),
        decreases v@.len() - i,
    {
        r.push(f(&v[i]));
        i += 1;
    }
    r
}

fn subst_mcp<F: Fn(&String) -> String>(m: McpRef, f: &F) -> (r: McpRef)
    requires
        forall|x: &String| call_requires(*f, (x,)),
    ensures
        mcp_substituted(*f, m, r),
{
    let args = match &m.args {
        Some(a) => Some(subst_vec(a, f)),
        None => None,
    };
    let env = match &m.env {
        Some(e) => Some(e.map_values(f)),
        None => None,
    };
    McpRef { name: m.name, id: m.id, args, env }
}

fn subst_action<F: Fn(&String) -> String>(a: Action, f: &F) -> (r: Action)
    requires
        forall|x: &String| call_requires(*f, (x,)),
    ensures
        action_substituted(*f, a, r),
{
    match a {
        Action::RunCommand(c) => {
            let command = f(&c.command);
            let args = subst_vec(&c.args, f);
            let working_dir = subst_option(&c.working_dir, f);
            Action::RunCommand(RunCommandAction { name: c.name, command, args, working_dir, skip: c.skip })
        },
        Action::AiChat(c) => {
            let system_prompt = subst_option(&c.system_prompt, f);
            let message = f(&c.message);
            let model = subst_option(&c.model, f);
            let mcp = match c.mcp {
                Some(refs) => {
                    let ghost old_refs = refs@;
                    let mut out: Vec<McpRef> = Vec::new();
                    for m in it: refs
                        invariant
                            it.seq() == old_refs,
                            out@.len() == it.index(),
                            forall|x: &String| call_requires(*f, (x,)),
                            forall|j: int| 0 <= j < it.index() ==> mcp_substituted(*f, old_refs[j], #[trigger] out@[j]),
                    {
                        out.push(subst_mcp(m, f));
                    }
                    Some(out)
                },
                None => None,
            };
            Action::AiChat(AiChatAction {
                name: c.name,
                system_prompt,
                message,
                model,
                mcp,
                max_tool_iterations: c.max_tool_iterations,
                skip: c.skip,
            })
        },
        Action::Output(o) => {
            let text = f(&o.text);
            Action::Output(OutputAction { name: o.name, text })
        },
    }
}

impl Scenario {
    /// Substitutes environment variables, through `substitute`, in every text
    /// of the scenario's actions that may name them (see
    /// `action_substituted`); the name, description and order of actions stay.
    pub fn apply_env_vars<F: Fn(&String) -> String>(&mut self, substitute: &F)
        requires
            forall|x: &String| call_requires(*substitute, (x,)),
        ensures
            final(self).name == old(self).name,
            final(self).description == old(self).description,
            final(self).actions@.len() == old(self).actions@.len(),
            forall|i: int| 0 <= i < old(self).actions@.len() ==> action_substituted(
                *substitute,
                old(self).actions@[i],
                #[trigger] final(self).actions@[i],
            ),
    {
        let mut actions: Vec<Action> = Vec::new();
        std::mem::swap(&mut actions, &mut self.actions);
        let ghost old_actions = actions@;
        let mut out: Vec<Action> = Vec::new();
        for a in it: actions
            invariant
                it.seq() == old_actions,
                out@.len() == it.index(),
                forall|x: &String| call_requires(*substitute, (x,)),
                forall|j: int| 0 <= j < it.index() ==> action_substituted(*substitute, old_actions[j], #[trigger] out@[j]),
        {
            out.push(subst_action(a, substitute));
        }
        self.actions = out;
    }
}

/// Errors of scenario execution.
#[derive(Debug)]
pub enum ExecuteError {
    UnknownModel { scenario: String, step: String, model: String },
    NoDefaultModel { scenario: String, step: String },
    AiFailed { scenario: String, step: String, message: String },
    Aborted,
}

/// What a scenario run printed.
#[derive(Debug)]
pub struct ExecuteOutput {
    pub outputs: Vec<String>,
}

/// How a scenario is run.
#[derive(Debug, Clone, Copy)]
pub struct ExecutionConfig {
    pub frontend_alive: bool,
    pub never_fail: bool,
}

/// Errors of loading scenarios.
#[derive(Debug)]
pub enum ScenarioLoadError {
    Io { path: String, source: std::io::Error },
    Parse { path: String, line: usize, column: usize, message: String },
    Validation { path: String, message: String },
}

/// `i` is a badly named action: its name is empty or an earlier action has it.
pub open spec fn badly_named(names: Seq<Option<Seq<char>>>, i: int) -> bool {
    0 <= i < names.len() && names[i] is Some && (names[i]->0.len() == 0 || exists|j: int|
        0 <= j < i && names[j] == names[i])
}

/// `i` is the first badly named action.
pub open spec fn first_badly_named(names: Seq<Option<Seq<char>>>, i: int) -> bool {
    badly_named(names, i) && forall|j: int| 0 <= j < i ==> !badly_named(names, j)
}

/// The names of a list of actions.
pub open spec fn action_names(a: Seq<Action>) -> Seq<Option<Seq<char>>> {
    a.map_values(|x: Action| action_name(x))
}

/// Why a scenario is invalid, if it is: an empty name, no actions, or (for the
/// first badly named action) an empty or repeated action name.
pub open spec fn validation_message(s: Scenario) -> Option<Seq<char>> {
    let names = action_names(s.actions@);
    if s.name@.len() == 0 {
        Some("scenario name must not be empty"@)
    } else if s.actions@.len() == 0 {
        Some("scenario must have at least one action"@)
    } else if exists|i: int| #[trigger] first_badly_named(names, i) {
        let i = choose|i: int| #[trigger] first_badly_named(names, i);
        if names[i]->0.len() == 0 {
            Some("action name must not be empty"@)
        } else {
            Some("duplicate action name: '"@ + names[i]->0 + "'"@)
        }
    } else {
        None
    }
}

/// The path and message of a validation error.
pub open spec fn validation_error_is(e: ScenarioLoadError, path: Seq<char>, message: Seq<char>) -> bool {
    match e {
        ScenarioLoadError::Validation { path: p, message: m } => p@ == path && m@ == message,
        _ => false,
    }
}

fn validation_error(path: &str, message: &str) -> (e: ScenarioLoadError)
    ensures
        validation_error_is(e, path@, message@),
{
    ScenarioLoadError::Validation { path: to_owned_string(path), message: to_owned_string(message) }
}

/// Does an action before position `i` carry the name `name`?
fn named_before(actions: &Vec<Action>, i: usize, name: &str) -> (b: bool)
    requires
        i <= actions@.len(),
    ensures
        b == exists|j: int| 0 <= j < i && action_names(actions@)[j] == Some(name@),
{
    let ghost names = action_names(actions@);
    let mut j: usize = 0;
    while j < i
        invariant
            i <= actions@.len(),
            j <= i,
            names == action_names(actions@),
            forall|k: int| 0 <= k < j ==> names[k] != Some(name@),
        decreases i - j,
    {
        match actions[j].name() {
            Some(n) => {
                assert(names[j as int] == action_name(actions@[j as int]));
                if str_eq(n, name) {
                    return true;
                }
            },
            None => {
                assert(names[j as int] == action_name(actions@[j as int]));
            },
        }
        j += 1;
    }
    false
}

/// Checks a scenario loaded from `path`.
pub fn validate_scenario(scenario: &Scenario, path: &str) -> (r: Result<(), ScenarioLoadError>)
    ensures
        match validation_message(*scenario) {
            None => r is Ok,
            Some(m) => r is Err && validation_error_is(r->Err_0, path@, m),
        },
{
    if scenario.name.as_str().is_empty() {
        return Err(validation_error(path, "scenario name must not be empty"));
    }
    if scenario.actions.len() == 0 {
        return Err(validation_error(path, "scenario must have at least one action"));
    }
    let ghost names = action_names(scenario.actions@);
    let mut i: usize = 0;
    while i < scenario.actions.len()
        invariant
            i <= scenario.actions@.len(),
            names == action_names(scenario.actions@),
            scenario.name@.len() != 0,
            scenario.actions@.len() != 0,
            forall|j: int| 0 <= j < i ==> !badly_named(names, j),
        decreases scenario.actions@.len() - i,
    {
        let ghost here = names[i as int];
        assert(here == action_name(scenario.actions@[i as int]));
        if let Some(name) = scenario.actions[i].name() {
            assert(here == Some(name@));
            if name.is_empty() {
                proof {
                    assert(badly_named(names, i as int));
                    lemma_first_badly_named_unique(names, i as int);
                }
                return Err(validation_error(path, "action name must not be empty"));
            }
            if named_before(&scenario.actions, i, name) {
                proof {
                    assert(badly_named(names, i as int));
                    lemma_first_badly_named_unique(names, i as int);
                }
                let mut message = String::new();
                append_str(&mut message, "duplicate action name: '");
                append_str(&mut message, name);
                append_str(&mut message, "'");
                assert(message@ =~= "duplicate action name: '"@ + name@ + "'"@);
                return Err(validation_error(path, message.as_str()));
            }
            assert(!badly_named(names, i as int));
        }
        i += 1;
    }
    proof {
        assert forall|k: int| !(#[trigger] first_badly_named(names, k)) by {
            if first_badly_named(names, k) {
                assert(!badly_named(names, k));
            }
        }
    }
    Ok(())
}

/// The first badly named action is the one `validation_message` chooses.
proof fn lemma_first_badly_named_unique(names: Seq<Option<Seq<char>>>, i: int)
    requires
        badly_named(names, i),
        forall|j: int| 0 <= j < i ==> !badly_named(names, j),
    ensures
        exists|k: int| #[trigger] first_badly_named(names, k),
        (choose|k: int| #[trigger] first_badly_named(names, k)) == i,
{
    assert(first_badly_named(names, i));
    let c = choose|k: int| #[trigger] first_badly_named(names, k);
    assert(first_badly_named(names, c));
    if c < i {
        assert(!badly_named(names, c));
    } else if c > i {
        assert(!badly_named(names, i));
    }
}

/// A scenario file as the loader found it: its path and parsed scenario, or
/// the error that reading or parsing it gave.
pub type ScenarioSource = Result<(String, Scenario), ScenarioLoadError>;

/// `i` is the first source that fails: it is an error, or its scenario is
/// invalid.
pub open spec fn source_fails(s: ScenarioSource) -> bool {
    match s {
        Ok((_, sc)) => validation_message(sc) is Some,
        Err(_) => true,
    }
}

/// The scenarios of the sources, by name; a later scenario replaces an
/// earlier one of the same name.
pub open spec fn scenarios_by_name(s: Seq<ScenarioSource>) -> Map<Seq<char>, Scenario>
    decreases s.len(),
{
    if s.len() == 0 {
        Map::empty()
    } else {
        let rest = scenarios_by_name(s.drop_last());
        match s.last() {
            Ok((_, sc)) => rest.insert(sc.name@, sc),
            Err(_) => rest,
        }
    }
}

/// The error a failing source is reported with.
pub open spec fn failure_is(s: ScenarioSource, e: ScenarioLoadError) -> bool {
    match s {
        Ok((path, sc)) => validation_error_is(e, path@, validation_message(sc)->0),
        Err(f) => e == f,
    }
}

/// Collects the scenarios found in a directory, by name. The sources come in
/// the order the directory was read; the first that failed to load or is
/// invalid makes the whole load fail with its error.
pub fn load_scenarios_dir(sources: Vec<ScenarioSource>) -> (r: Result<StringMap<Scenario>, ScenarioLoadError>)
    ensures
        match r {
            Ok(m) => (forall|i: int| 0 <= i < sources@.len() ==> !source_fails(#[trigger] sources@[i]))
                && m.map() == scenarios_by_name(sources@),
            Err(e) => exists|i: int|
                0 <= i < sources@.len() && source_fails(#[trigger] sources@[i]) && failure_is(sources@[i], e)
                    && forall|j: int| 0 <= j < i ==> !source_fails(sources@[j]),
        },
{
    let ghost all = sources@;
    let mut scenarios: StringMap<Scenario> = StringMap::new();
    for src in it: sources
        invariant
            it.seq() == all,
            forall|j: int| 0 <= j < it.index() ==> !source_fails(#[trigger] all[j]),
            scenarios.map() == scenarios_by_name(all.take(it.index())),
    {
        let ghost k = it.index();
        assert(src == all[k]);
        assert(all.take(k + 1).drop_last() =~= all.take(k));
        match src {
            Err(e) => {
                return Err(e);
            },
            Ok((path, scenario)) => {
                match validate_scenario(&scenario, path.as_str()) {
                    Err(e) => {
                        return Err(e);
                    },
                    Ok(()) => {
                        let name = scenario.name.clone();
                        scenarios.insert(name, scenario);
                    },
                }
            },
        }
    }
    assert(all.take(all.len() as int) =~= all);
    Ok(scenarios)
}

/// The model an alias stands for (the first alias that matches), or the name
/// itself.
pub open spec fn aliased_model(name: Seq<char>, aliases: Seq<(Seq<char>, Seq<char>)>) -> Seq<char> {
    if exists|i: int| #[trigger] first_alias(aliases, name, i) {
        aliases[choose|i: int| #[trigger] first_alias(aliases, name, i)].1
    } else {
        name
    }
}

/// `i` is the first alias called `name`.
pub open spec fn first_alias(aliases: Seq<(Seq<char>, Seq<char>)>, name: Seq<char>, i: int) -> bool {
    0 <= i < aliases.len() && aliases[i].0 == name && forall|j: int| 0 <= j < i ==> aliases[j].0 != name
}

/// The texts of a list of string pairs.
pub open spec fn alias_texts(v: Seq<(String, String)>) -> Seq<(Seq<char>, Seq<char>)> {
    v.map_values(|p: (String, String)| (p.0@, p.1@))
}

/// Resolves a model alias.
pub fn apply_model_aliases(model_name: &str, model_aliases: &[(String, String)]) -> (r: String)
    ensures
        r@ == aliased_model(model_name@, alias_texts(model_aliases@)),
{
    let ghost al = alias_texts(model_aliases@);
    let mut i: usize = 0;
    while i < model_aliases.len()
        invariant
            i <= model_aliases@.len(),
            al == alias_texts(model_aliases@),
            forall|j: int| 0 <= j < i ==> al[j].0 != model_name@,
        decreases model_aliases@.len() - i,
    {
        assert(al[i as int] == (model_aliases@[i as int].0@, model_aliases@[i as int].1@));
        if str_eq(model_aliases[i].0.as_str(), model_name) {
            proof {
                assert(first_alias(al, model_name@, i as int));
                let c = choose|k: int| #[trigger] first_alias(al, model_name@, k);
                if c < i {
                    assert(al[c].0 != model_name@);
                } else if c > i {
                    assert(al[i as int].0 != model_name@);
                }
            }
            return model_aliases[i].1.clone();
        }
        i += 1;
    }
    proof {
        assert forall|k: int| !(#[trigger] first_alias(al, model_name@, k)) by {
            if first_alias(al, model_name@, k) {
                assert(al[k].0 != model_name@);
            }
        }
    }
    to_owned_string(model_name)
}

/// Is the step skipped? Only when the flag named by its skip expression is set
/// to `true`.
pub fn evaluate_skip(skip_expr: &str, context: &ExecutionContext) -> (b: bool)
    ensures
        b == (context.flags.map().contains_key(skip_expr@) && context.flags.map()[skip_expr@]),
{
    match context.get_flag(skip_expr) {
        Some(value) => value,
        None => false,
    }
}

/// The name a step is logged and recorded under: its own name, else the
/// command for a command, `aiChat` for an AI chat and `output` for an output.
pub open spec fn step_name_of(a: Action) -> Seq<char> {
    match a {
        Action::RunCommand(r) => match r.name {
            Some(n) => n@,
            None => r.command@,
        },
        Action::AiChat(c) => match c.name {
            Some(n) => n@,
            None => "aiChat"@,
        },
        Action::Output(o) => match o.name {
            Some(n) => n@,
            None => "output"@,
        },
    }
}

/// The name a step is logged and recorded under.
pub fn step_name(action: &Action) -> (r: String)
    ensures
        r@ == step_name_of(*action),
{
    match action {
        Action::RunCommand(cmd) => match &cmd.name {
            Some(n) => n.clone(),
            None => cmd.command.clone(),
        },
        Action::AiChat(chat) => match &chat.name {
            Some(n) => n.clone(),
            None => to_owned_string("aiChat"),
        },
        Action::Output(out) => match &out.name {
            Some(n) => n.clone(),
            None => to_owned_string("output"),
        },
    }
}

/// The model an AI chat step uses: its own model, else the default one, after
/// alias resolution; it must be one of the configured models.
pub open spec fn chat_model(
    own: Option<Seq<char>>,
    default_model: Option<Seq<char>>,
    aliases: Seq<(Seq<char>, Seq<char>)>,
    models: Seq<Seq<char>>,
) -> Option<Seq<char>> {
    let chosen = if own is Some { own } else { default_model };
    match chosen {
        Some(m) => {
            let resolved = aliased_model(m, aliases);
            if models.contains(resolved) {
                Some(resolved)
            } else {
                None
            }
        },
        None => None,
    }
}

/// Chooses the model of an AI chat step: the step's model, else the default
/// model; then resolves aliases. Fails when there is no model to choose or the
/// resolved name is not a configured model.
pub fn resolve_chat_model(
    model: Option<&str>,
    default_model: Option<&str>,
    model_aliases: &[(String, String)],
    configured_models: &Vec<String>,
    scenario_name: &str,
    step_name: &str,
) -> (r: Result<String, ExecuteError>)
    ensures
        match r {
            Ok(m) => chat_model(
                crate::todo::text_of(model),
                crate::todo::text_of(default_model),
                alias_texts(model_aliases@),
                crate::tools::id_texts(configured_models@),
            ) == Some(m@),
            Err(ExecuteError::NoDefaultModel { scenario, step }) => model is None && default_model is None
                && scenario@ == scenario_name@ && step@ == step_name@,
            Err(ExecuteError::UnknownModel { scenario, step, model: m }) => (model is Some
                || default_model is Some) && chat_model(
                crate::todo::text_of(model),
                crate::todo::text_of(default_model),
                alias_texts(model_aliases@),
                crate::tools::id_texts(configured_models@),
            ) is None && scenario@ == scenario_name@ && step@ == step_name@ && m@ == aliased_model(
                if model is Some { model->0@ } else { default_model->0@ },
                alias_texts(model_aliases@),
            ),
            _ => false,
        },
{
    let chosen = match model {
        Some(m) => m,
        None => match default_model {
            Some(m) => m,
            None => {
                return Err(ExecuteError::NoDefaultModel {
                    scenario: to_owned_string(scenario_name),
                    step: to_owned_string(step_name),
                });
            },
        },
    };
    let resolved = apply_model_aliases(chosen, model_aliases);
    let ghost own = crate::todo::text_of(model);
    let ghost dflt = crate::todo::text_of(default_model);
    assert((if own is Some { own } else { dflt }) == Some(chosen@));
    let ghost ids = crate::tools::id_texts(configured_models@);
    let mut i: usize = 0;
    while i < configured_models.len()
        invariant
            i <= configured_models@.len(),
            ids == crate::tools::id_texts(configured_models@),
            forall|j: int| 0 <= j < i ==> ids[j] != resolved@,
            resolved@ == aliased_model(chosen@, alias_texts(model_aliases@)),
            (if own is Some { own } else { dflt }) == Some(chosen@),
            own == crate::todo::text_of(model),
            dflt == crate::todo::text_of(default_model),
        decreases configured_models@.len() - i,
    {
        if str_eq(configured_models[i].as_str(), resolved.as_str()) {
            assert(ids[i as int] == resolved@);
            assert(ids.contains(resolved@));
            assert(resolved@ == aliased_model(chosen@, alias_texts(model_aliases@)));
            assert(chat_model(own, dflt, alias_texts(model_aliases@), ids) == Some(resolved@));
            return Ok(resolved);
        }
        i += 1;
    }
    Err(ExecuteError::UnknownModel {
        scenario: to_owned_string(scenario_name),
        step: to_owned_string(step_name),
        model: resolved,
    })
}

} // verus!
