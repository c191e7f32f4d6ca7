//! The decisions of the scenario executor: what each action comes to before it
//! runs, the step results built from what a command or the AI gave back, and
//! what happens when an AI request fails.
use crate::builtin::{json_bool_member, json_string_member, read_bool_member, read_string_member};
use crate::chat_log::push_joined;
use crate::keyed::StringMap;
use crate::placeholder::{resolve_placeholders, resolved_text, ExecutionContext, OutputLine, StepResult};
use crate::projects::{join, texts_of};
use crate::scenario::{
    alias_texts, aliased_model, apply_model_aliases, resolve_chat_model, step_name, step_name_of,
    Action, AiChatAction, ExecuteError, ExecutionConfig, MaxIterations, McpRef,
};
use crate::text::{append_str, bool_text, nat_decimal, push_bool, to_owned_string};
use crate::todo::text_of;
use crate::tools::{find_client, first_match, id_texts, max_iterations_message, split_name, split_tool_name};
use vstd::prelude::*;

verus! {

/// `t` with its placeholders resolved against the context.
pub open spec fn resolved(t: Seq<char>, c: ExecutionContext) -> Seq<char> {
    resolved_text(t, c.steps.map(), c.flags.map())
}

/// Is the flag `key` set to `true`?
pub open spec fn flag_is_set(c: ExecutionContext, key: Seq<char>) -> bool {
    c.flags.map().contains_key(key) && c.flags.map()[key]
}

/// Does the step's skip expression name a flag that is set?
pub open spec fn skip_applies(skip: Option<String>, c: ExecutionContext) -> bool {
    match skip {
        Some(s) => flag_is_set(c, s@),
        None => false,
    }
}

/// What the executor does with an action, in the context reached so far.
#[derive(Debug)]
pub enum StepPlan {
    /// The step is skipped because its skip flag is set.
    Skipped { name: String, skip_expr: String },
    /// Run a command, with its placeholders resolved.
    RunCommand { name: String, command: String, args: Vec<String>, cwd: String },
    /// Ask the AI (see `plan_ai_chat`).
    AiChat { name: String },
    /// Print the text, with its placeholders resolved.
    Output { name: String, text: String },
}

/// The texts of a list of strings, each resolved against the context.
pub open spec fn all_resolved(args: Seq<String>, out: Seq<String>, c: ExecutionContext) -> bool {
    out.len() == args.len() && forall|i: int| 0 <= i < args.len() ==> (#[trigger] out[i])@ == resolved(args[i]@, c)
}

/// The plan for `a`: a skipped step when its skip flag is set; otherwise the
/// command with resolved command line and working directory (the client's
/// directory when it names none), the AI chat, or the resolved output text.
/// Every plan carries the step's name.
pub open spec fn plan_is(p: StepPlan, a: Action, c: ExecutionContext, client_cwd: Seq<char>) -> bool {
    match a {
        Action::RunCommand(r) => if skip_applies(r.skip, c) {
            p matches StepPlan::Skipped { name, skip_expr } && name@ == step_name_of(a) && skip_expr@ == r.skip->0@
        } else {
            p matches StepPlan::RunCommand { name, command, args, cwd } && name@ == step_name_of(a)
                && command@ == resolved(r.command@, c) && all_resolved(r.args@, args@, c) && cwd@ == match r.working_dir {
                Some(w) => resolved(w@, c),
                None => client_cwd,
            }
        },
        Action::AiChat(ch) => if skip_applies(ch.skip, c) {
            p matches StepPlan::Skipped { name, skip_expr } && name@ == step_name_of(a) && skip_expr@ == ch.skip->0@
        } else {
            p matches StepPlan::AiChat { name } && name@ == step_name_of(a)
        },
        Action::Output(o) => p matches StepPlan::Output { name, text } && name@ == step_name_of(a) && text@ == resolved(
            o.text@,
            c,
        ),
    }
}

fn skip_set(skip: &Option<String>, context: &ExecutionContext) -> (b: bool)
    ensures
        b == skip_applies(*skip, *context),
{
    match skip {
        Some(s) => match context.get_flag(s.as_str()) {
            Some(v) => v,
            None => false,
        },
        None => false,
    }
}

/// Decides what to do with an action: see `plan_is`.
pub fn plan_step(action: &Action, context: &ExecutionContext, client_cwd: &str) -> (r: StepPlan)
    ensures
        plan_is(r, *action, *context, client_cwd@),
{
    let name = step_name(action);
    match action {
        Action::RunCommand(cmd) => {
            if skip_set(&cmd.skip, context) {
                let skip_expr = match &cmd.skip {
                    Some(s) => s.clone(),
                    None => String::new(),
                };
                return StepPlan::Skipped { name, skip_expr };
            }
            let command = resolve_placeholders(cmd.command.as_str(), context);
            let mut args: Vec<String> = Vec::new();
            let mut i: usize = 0;
            while i < cmd.args.len()
                invariant
                    i <= cmd.args@.len(),
                    args@.len() == i,
                    forall|j: int| 0 <= j < i ==> (#[trigger] args@[j])@ == resolved(cmd.args@[j]@, *context),
                decreases cmd.args@.len() - i,
            {
                args.push(resolve_placeholders(cmd.args[i].as_str(), context));
                i += 1;
            }
            let cwd = match &cmd.working_dir {
                Some(dir) => resolve_placeholders(dir.as_str(), context),
                None => to_owned_string(client_cwd),
            };
            StepPlan::RunCommand { name, command, args, cwd }
        },
        Action::AiChat(chat) => {
            if skip_set(&chat.skip, context) {
                let skip_expr = match &chat.skip {
                    Some(s) => s.clone(),
                    None => String::new(),
                };
                return StepPlan::Skipped { name, skip_expr };
            }
            StepPlan::AiChat { name }
        },
        Action::Output(out) => {
            let text = resolve_placeholders(out.text.as_str(), context);
            StepPlan::Output { name, text }
        },
    }
}

/// The text of the lines that came from standard output (`out`) or standard
/// error, concatenated in order.
pub open spec fn stream_text(lines: Seq<OutputLine>, out: bool) -> Seq<char>
    decreases lines.len(),
{
    if lines.len() == 0 {
        Seq::empty()
    } else {
        stream_text(lines.drop_last(), out) + match lines.last() {
            OutputLine::Stdout(s) => if out {
                s@
            } else {
                Seq::empty()
            },
            OutputLine::Stderr(s) => if out {
                Seq::empty()
            } else {
                s@
            },
        }
    }
}

/// The command line as it is logged: the command, a space, the arguments
/// separated by spaces.
pub fn command_line(command: &str, args: &[String]) -> (r: String)
    ensures
        r@ == command@ + " "@ + join(texts_of(args@), " "@),
{
    let mut r = String::new();
    append_str(&mut r, command);
    append_str(&mut r, " ");
    push_joined(&mut r, args, " ");
    r
}

/// The result of a command that ran: its exit code (`-1` when it has none,
/// killed by a signal or not waited for), whether it succeeded, its output
/// lines as they came, each stream's text, and the directory it ran in.
pub fn finished_command_result(exit_code: Option<i32>, success: bool, lines: Vec<OutputLine>, cwd: String) -> (r: StepResult)
    ensures
        r.exit_code == match exit_code {
            Some(c) => c as int,
            None => -1int,
        },
        r.success == success,
        r.stdout@ == stream_text(lines@, true),
        r.stderr@ == stream_text(lines@, false),
        r.stdout_stderr@ == lines@,
        r.message is None,
        r.cwd == Some(cwd),
{
    let mut stdout = String::new();
    let mut stderr = String::new();
    let mut i: usize = 0;
    while i < lines.len()
        invariant
            i <= lines@.len(),
            stdout@ == stream_text(lines@.take(i as int), true),
            stderr@ == stream_text(lines@.take(i as int), false),
        decreases lines@.len() - i,
    {
        match &lines[i] {
            OutputLine::Stdout(s) => append_str(&mut stdout, s.as_str()),
            OutputLine::Stderr(s) => append_str(&mut stderr, s.as_str()),
        }
        assert(lines@.take(i + 1).drop_last() =~= lines@.take(i as int));
        i += 1;
    }
    assert(lines@.take(lines@.len() as int) =~= lines@);
    let code: i32 = match exit_code {
        Some(c) => c,
        None => -1,
    };
    StepResult { exit_code: code, stdout, stderr, stdout_stderr: lines, success, message: None, cwd: Some(cwd) }
}

/// The result of a command that could not be started: exit code `-1`, the
/// error as its standard error and only output line, not successful.
pub fn spawn_failed_result(error: String, cwd: String) -> (r: StepResult)
    ensures
        r.exit_code == -1,
        !r.success,
        r.stdout@.len() == 0,
        r.stderr@ == error@,
        r.stdout_stderr@.len() == 1,
        r.stdout_stderr@[0] matches OutputLine::Stderr(e) && e@ == error@,
        r.message is None,
        r.cwd == Some(cwd),
{
    let line = OutputLine::Stderr(error.clone());
    let mut lines: Vec<OutputLine> = Vec::new();
    lines.push(line);
    StepResult {
        exit_code: -1,
        stdout: String::new(),
        stderr: error,
        stdout_stderr: lines,
        success: false,
        message: None,
        cwd: Some(cwd),
    }
}

/// The result of an AI step: its answer (empty when the response had no
/// text) as the step's message; exit code 0, no output, successful.
pub fn ai_response_result(content: Option<String>) -> (r: StepResult)
    ensures
        r.exit_code == 0,
        r.success,
        r.stdout@.len() == 0,
        r.stderr@.len() == 0,
        r.stdout_stderr@.len() == 0,
        r.message matches Some(m) && m@ == match content {
            Some(c) => c@,
            None => Seq::empty(),
        },
        r.cwd is None,
{
    let message = match content {
        Some(c) => c,
        None => String::new(),
    };
    StepResult {
        exit_code: 0,
        stdout: String::new(),
        stderr: String::new(),
        stdout_stderr: Vec::new(),
        success: true,
        message: Some(message),
        cwd: None,
    }
}

/// The number of tool rounds an AI step may take: the configured number,
/// `u32::MAX` for no bound, 20 when none is configured.
pub open spec fn iteration_bound(m: Option<MaxIterations>) -> u32 {
    match m {
        Some(MaxIterations::Finite(n)) => n,
        Some(MaxIterations::Infinite) => u32::MAX,
        None => 20,
    }
}

/// The number of tool rounds an AI step may take (see `iteration_bound`).
pub fn max_tool_iterations(m: Option<MaxIterations>) -> (r: u32)
    ensures
        r == iteration_bound(m),
{
    match m {
        Some(MaxIterations::Finite(n)) => n,
        Some(MaxIterations::Infinite) => u32::MAX,
        None => 20,
    }
}

/// An AI step, ready to be sent: the configured model it uses, its prompts
/// with placeholders resolved, whether it offers MCP tools, and its bound on
/// tool rounds.
#[derive(Debug)]
pub struct AiChatPlan {
    pub model: String,
    pub system_prompt: String,
    pub message: String,
    pub uses_tools: bool,
    pub max_iterations: u32,
}

/// Prepares an AI step: chooses its model (see `resolve_chat_model`, whose
/// errors it returns), then resolves its system prompt (empty when it has
/// none) and its message.
pub fn plan_ai_chat(
    chat: &AiChatAction,
    context: &ExecutionContext,
    default_model: Option<&str>,
    model_aliases: &[(String, String)],
    configured_models: &Vec<String>,
    scenario_name: &str,
    step_name: &str,
) -> (r: Result<AiChatPlan, ExecuteError>)
    ensures
        match r {
            Ok(p) => crate::scenario::chat_model(
                crate::scenario::opt_text(chat.model),
                text_of(default_model),
                alias_texts(model_aliases@),
                id_texts(configured_models@),
            ) == Some(p.model@) && p.system_prompt@ == match chat.system_prompt {
                Some(s) => resolved(s@, *context),
                None => Seq::empty(),
            } && p.message@ == resolved(chat.message@, *context) && p.uses_tools == (chat.mcp is Some
                && chat.mcp->0@.len() > 0) && p.max_iterations == iteration_bound(chat.max_tool_iterations),
            Err(ExecuteError::NoDefaultModel { scenario, step }) => chat.model is None && default_model is None
                && scenario@ == scenario_name@ && step@ == step_name@,
            Err(ExecuteError::UnknownModel { scenario, step, model }) => (chat.model is Some
                || default_model is Some) && crate::scenario::chat_model(
                crate::scenario::opt_text(chat.model),
                text_of(default_model),
                alias_texts(model_aliases@),
                id_texts(configured_models@),
            ) is None && scenario@ == scenario_name@ && step@ == step_name@ && model@ == aliased_model(
                if chat.model is Some { chat.model->0@ } else { default_model->0@ },
                alias_texts(model_aliases@),
            ),
            _ => false,
        },
{
    let own: Option<&str> = match &chat.model {
        Some(m) => Some(m.as_str()),
        None => None,
    };
    assert(text_of(own) == crate::scenario::opt_text(chat.model));
    let model = match resolve_chat_model(own, default_model, model_aliases, configured_models, scenario_name, step_name) {
        Ok(m) => m,
        Err(e) => return Err(e),
    };
    let system_prompt = match &chat.system_prompt {
        Some(s) => resolve_placeholders(s.as_str(), context),
        None => String::new(),
    };
    let message = resolve_placeholders(chat.message.as_str(), context);
    let uses_tools = match &chat.mcp {
        Some(refs) => refs.len() > 0,
        None => false,
    };
    let max_iterations = max_tool_iterations(chat.max_tool_iterations);
    Ok(AiChatPlan { model, system_prompt, message, uses_tools, max_iterations })
}

/// The text of an AI failure of a step.
pub open spec fn ai_failed_is(e: ExecuteError, scenario: Seq<char>, step: Seq<char>, message: Seq<char>) -> bool {
    e matches ExecuteError::AiFailed { scenario: s, step: t, message: m } && s@ == scenario && t@ == step && m@ == message
}

/// The error of an AI step whose request failed with `message`.
pub fn ai_failed(scenario_name: &str, step_name: &str, message: &str) -> (e: ExecuteError)
    ensures
        ai_failed_is(e, scenario_name@, step_name@, message@),
{
    ExecuteError::AiFailed {
        scenario: to_owned_string(scenario_name),
        step: to_owned_string(step_name),
        message: to_owned_string(message),
    }
}

/// Does a failed AI request wait for the user instead of failing the run?
/// Only when a user can answer (the run has a handle) and either a frontend
/// is attached or the run is configured never to fail.
pub fn pauses_on_failure(config: &ExecutionConfig, has_handle: bool) -> (b: bool)
    ensures
        b == (has_handle && (config.frontend_alive || config.never_fail)),
{
    has_handle && (config.frontend_alive || config.never_fail)
}

/// What the user answered to a paused step.
#[derive(Debug)]
pub enum ResumeAction {
    /// Try the step again, possibly with another model.
    Retry { model_override: Option<String> },
    /// Give up: the step fails with its error.
    Abort,
}

/// What the executor does after the user answered.
#[derive(Debug, PartialEq, Eq)]
pub enum RetryDecision {
    /// Send the request again with this configured model, or with the same
    /// model when `None`.
    Retry { model: Option<String> },
    /// Fail the step.
    Fail,
}

/// The decision for an answer: an abort fails the step; a retry keeps the
/// model unless the override, after alias resolution, is a configured model.
pub open spec fn retry_decision_is(d: RetryDecision, action: ResumeAction, aliases: Seq<(Seq<char>, Seq<char>)>, models: Seq<Seq<char>>) -> bool {
    match action {
        ResumeAction::Abort => d is Fail,
        ResumeAction::Retry { model_override } => match model_override {
            Some(m) => if models.contains(aliased_model(m@, aliases)) {
                d matches RetryDecision::Retry { model: Some(n) } && n@ == aliased_model(m@, aliases)
            } else {
                d matches RetryDecision::Retry { model: None }
            },
            None => d matches RetryDecision::Retry { model: None },
        },
    }
}

fn is_configured(models: &Vec<String>, name: &str) -> (b: bool)
    ensures
        b == id_texts(models@).contains(name@),
{
    let ghost ids = id_texts(models@);
    let mut i: usize = 0;
    while i < models.len()
        invariant
            i <= models@.len(),
            ids == id_texts(models@),
            forall|j: int| 0 <= j < i ==> ids[j] != name@,
        decreases models@.len() - i,
    {
        assert(ids[i as int] == models@[i as int]@);
        if crate::text::str_eq(models[i].as_str(), name) {
            assert(ids.contains(name@));
            return true;
        }
        i += 1;
    }
    false
}

/// Decides how a paused step goes on (see `retry_decision_is`).
pub fn after_pause(action: ResumeAction, model_aliases: &[(String, String)], configured_models: &Vec<String>) -> (d: RetryDecision)
    ensures
        retry_decision_is(d, action, alias_texts(model_aliases@), id_texts(configured_models@)),
{
    match action {
        ResumeAction::Abort => RetryDecision::Fail,
        ResumeAction::Retry { model_override } => match model_override {
            Some(m) => {
                let name = apply_model_aliases(m.as_str(), model_aliases);
                if is_configured(configured_models, name.as_str()) {
                    RetryDecision::Retry { model: Some(name) }
                } else {
                    RetryDecision::Retry { model: None }
                }
            },
            None => RetryDecision::Retry { model: None },
        },
    }
}

/// Before each request of an AI step with tools: once the step has used up
/// its tool rounds it fails.
pub fn check_tool_rounds(iterations: u32, max_iterations: u32, scenario_name: &str, step_name: &str) -> (r: Result<(), ExecuteError>)
    ensures
        iterations < max_iterations ==> r is Ok,
        iterations >= max_iterations ==> (r matches Err(e) && ai_failed_is(
            e,
            scenario_name@,
            step_name@,
            "max tool iterations ("@ + nat_decimal(max_iterations as nat) + ") exceeded"@,
        )),
{
    if iterations >= max_iterations {
        let message = max_iterations_message(max_iterations);
        return Err(ai_failed(scenario_name, step_name, message.as_str()));
    }
    Ok(())
}

/// The name of the tool through which the AI of a scenario step sets flags.
pub const SET_FLAG_TOOL_NAME: &'static str = "rhd_set_flag";

/// Where a tool call of a scenario step goes.
#[derive(Debug, PartialEq, Eq)]
pub enum ScenarioTool {
    /// The flag tool.
    SetFlag,
    /// The tool `tool` of the MCP client at this position.
    Mcp { index: usize, tool: String },
    /// No client offers the tool.
    Unknown,
}

/// The route of a tool call: the flag tool by its name; otherwise the first
/// client whose id is the part of the name before its first `/` (empty when
/// there is none), asked for the rest of the name.
pub open spec fn scenario_route_is(r: ScenarioTool, name: Seq<char>, ids: Seq<Seq<char>>) -> bool {
    if name == SET_FLAG_TOOL_NAME@ {
        r is SetFlag
    } else if exists|i: int| #[trigger] first_match(ids, split_name(name).0, i) {
        r matches ScenarioTool::Mcp { index, tool } && first_match(ids, split_name(name).0, index as int) && tool@
            == split_name(name).1
    } else {
        r is Unknown
    }
}

/// Decides where a tool call of a scenario step goes.
pub fn scenario_tool_route(tool_name: &str, client_mcp_ids: &Vec<String>) -> (r: ScenarioTool)
    ensures
        scenario_route_is(r, tool_name@, id_texts(client_mcp_ids@)),
{
    if crate::text::str_eq(tool_name, SET_FLAG_TOOL_NAME) {
        return ScenarioTool::SetFlag;
    }
    let (mcp_id, bare) = split_tool_name(tool_name);
    match find_client(client_mcp_ids, mcp_id.as_str()) {
        Some(index) => ScenarioTool::Mcp { index, tool: bare },
        None => ScenarioTool::Unknown,
    }
}

/// The flag a call of the flag tool sets: the step's name, `.flag_`, and the
/// `name` argument (empty when the arguments name none).
pub open spec fn flag_tool_key(step: Seq<char>, arguments: Seq<char>) -> Seq<char> {
    step + ".flag_"@ + match json_string_member(arguments, "name"@) {
        Ok(Some(n)) => n,
        _ => Seq::empty(),
    }
}

/// The value a call of the flag tool sets: the `value` argument, `true` when
/// the arguments give no boolean one.
pub open spec fn flag_tool_value(arguments: Seq<char>) -> bool {
    match json_bool_member(arguments, "value"@) {
        Some(b) => b,
        None => true,
    }
}

/// Runs the flag tool for the step `step_name`: sets the flag its arguments
/// name and reports it. A later step whose skip expression is that flag's
/// key is skipped exactly when the value set is `true`.
pub fn set_flag_tool(step_name: &str, arguments: &str, context: &mut ExecutionContext) -> (r: String)
    ensures
        final(context).flags.map() == old(context).flags.map().insert(
            flag_tool_key(step_name@, arguments@),
            flag_tool_value(arguments@),
        ),
        final(context).steps.map() == old(context).steps.map(),
        flag_is_set(*final(context), flag_tool_key(step_name@, arguments@)) == flag_tool_value(arguments@),
        r@ == "Flag '"@ + flag_tool_key(step_name@, arguments@) + "' set to "@ + bool_text(flag_tool_value(arguments@)),
{
    let flag_name = match read_string_member(arguments, "name") {
        Ok(Some(n)) => n,
        _ => String::new(),
    };
    let value = match read_bool_member(arguments, "value") {
        Some(b) => b,
        None => true,
    };
    let mut key = String::new();
    append_str(&mut key, step_name);
    append_str(&mut key, ".flag_");
    append_str(&mut key, flag_name.as_str());
    let mut r = String::new();
    append_str(&mut r, "Flag '");
    append_str(&mut r, key.as_str());
    append_str(&mut r, "' set to ");
    push_bool(&mut r, value);
    context.set_flag(key, value);
    r
}

/// The name of the MCP reference that stands for the flag tool rather than a
/// server.
pub const FLAGS_MCP_NAME: &'static str = "flags";

/// Does an MCP reference stand for the flag tool?
pub fn is_flags_ref(mcp_ref: &McpRef) -> (b: bool)
    ensures
        b == (mcp_ref.name@ == FLAGS_MCP_NAME@),
{
    crate::text::str_eq(mcp_ref.name.as_str(), FLAGS_MCP_NAME)
}

/// How an MCP server is started for a step: its configured arguments unless
/// the step's reference gives its own, and its configured environment with
/// the reference's variables added over it.
pub fn resolve_mcp_launch(config_args: &Vec<String>, config_env: &StringMap<String>, mcp_ref: &McpRef) -> (r: (Vec<String>, StringMap<String>))
    ensures
        r.0@ == match mcp_ref.args {
            Some(a) => a@,
            None => config_args@,
        },
        r.1.map() == match mcp_ref.env {
            Some(e) => config_env.map().union_prefer_right(e.map()),
            None => config_env.map(),
        },
{
    let args = match &mcp_ref.args {
        Some(a) => a.clone(),
        None => config_args.clone(),
    };
    let mut env: StringMap<String> = StringMap::new();
    let keys = config_env.keys();
    let mut i: usize = 0;
    while i < keys.len()
        invariant
            i <= keys@.len(),
            forall|j: int| 0 <= j < keys@.len() ==> config_env.map().contains_key(#[trigger] keys@[j]@),
            forall|k: Seq<char>| #[trigger] config_env.map().contains_key(k) ==> exists|j: int| 0 <= j < keys@.len() && #[trigger] keys@[j]@ == k,
            env.map().dom() == Set::new(|k: Seq<char>| exists|j: int| 0 <= j < i && #[trigger] keys@[j]@ == k),
            forall|k: Seq<char>| #[trigger] env.map().contains_key(k) ==> env.map()[k] == config_env.map()[k],
        decreases keys@.len() - i,
    {
        let ghost before = env.map();
        let k = keys[i].clone();
        match config_env.get(keys[i].as_str()) {
            Some(v) => {
                env.insert(k, v.clone());
            },
            None => {},
        }
        assert(env.map().dom() =~= Set::new(|x: Seq<char>| exists|j: int| 0 <= j < i + 1 && #[trigger] keys@[j]@ == x)) by {
            assert forall|x: Seq<char>| env.map().dom().contains(x) == (exists|j: int| 0 <= j < i + 1 && #[trigger] keys@[j]@ == x) by {
                if x == keys@[i as int]@ {
                    assert(keys@[i as int]@ == x);
                }
                if exists|j: int| 0 <= j < i + 1 && #[trigger] keys@[j]@ == x {
                    let j = choose|j: int| 0 <= j < i + 1 && #[trigger] keys@[j]@ == x;
                    if j < i {
                        assert(before.dom().contains(x));
                    }
                }
            }
        }
        i += 1;
    }
    assert(env.map() =~= config_env.map()) by {
        assert forall|k: Seq<char>| env.map().dom().contains(k) == config_env.map().dom().contains(k) by {
            if config_env.map().contains_key(k) {
                let j = choose|j: int| 0 <= j < keys@.len() && #[trigger] keys@[j]@ == k;
                assert(env.map().dom().contains(k));
            }
        }
    }
    if let Some(extra) = &mcp_ref.env {
        let ghost base = env.map();
        let extra_keys = extra.keys();
        let mut j: usize = 0;
        while j < extra_keys.len()
            invariant
                j <= extra_keys@.len(),
                forall|a: int| 0 <= a < extra_keys@.len() ==> extra.map().contains_key(#[trigger] extra_keys@[a]@),
                forall|k: Seq<char>| #[trigger] extra.map().contains_key(k) ==> exists|a: int| 0 <= a < extra_keys@.len() && #[trigger] extra_keys@[a]@ == k,
                forall|k: Seq<char>| #[trigger] env.map().contains_key(k) <==> (base.contains_key(k) || exists|a: int| 0 <= a < j && #[trigger] extra_keys@[a]@ == k),
                forall|k: Seq<char>| #[trigger] env.map().contains_key(k) ==> env.map()[k] == if (exists|a: int| 0 <= a < j && #[trigger] extra_keys@[a]@ == k) {
                    extra.map()[k]
                } else {
                    base[k]
                },
            decreases extra_keys@.len() - j,
        {
            let k = extra_keys[j].clone();
            match extra.get(extra_keys[j].as_str()) {
                Some(v) => {
                    env.insert(k, v.clone());
                },
                None => {},
            }
            assert forall|x: Seq<char>| #[trigger] env.map().contains_key(x) <==> (base.contains_key(x) || exists|a: int| 0 <= a < j + 1 && #[trigger] extra_keys@[a]@ == x) by {
                if x == extra_keys@[j as int]@ {
                    assert(extra_keys@[j as int]@ == x);
                }
            }
            j += 1;
        }
        assert(env.map() =~= base.union_prefer_right(extra.map())) by {
            assert forall|k: Seq<char>| env.map().dom().contains(k) == base.union_prefer_right(extra.map()).dom().contains(k) by {
                if extra.map().contains_key(k) {
                    let a = choose|a: int| 0 <= a < extra_keys@.len() && #[trigger] extra_keys@[a]@ == k;
                    assert(env.map().contains_key(k));
                }
            }
        }
    }
    (args, env)
}

/// An AI step in progress, as plain values.
pub struct AiStepView {
    pub model: Seq<char>,
    pub message: Seq<char>,
    pub iterations: nat,
    pub max_iterations: nat,
    pub uses_tools: bool,
    pub tool_results: Seq<(Seq<char>, Seq<char>)>,
}

/// An AI step in progress: the model and the message of the next request,
/// the tool rounds taken so far, and the results of the last round's tool
/// calls.
pub struct AiStepRun {
    model: String,
    message: String,
    iterations: u32,
    max_iterations: u32,
    uses_tools: bool,
    tool_results: Vec<(String, String)>,
}

impl View for AiStepRun {
    type V = AiStepView;

    closed spec fn view(&self) -> AiStepView {
        AiStepView {
            model: self.model@,
            message: self.message@,
            iterations: self.iterations as nat,
            max_iterations: self.max_iterations as nat,
            uses_tools: self.uses_tools,
            tool_results: crate::manager::pair_texts(self.tool_results@),
        }
    }
}

impl AiStepRun {
    #[verifier::type_invariant]
    spec fn inv(self) -> bool {
        self.iterations <= self.max_iterations
    }

    /// The run of a planned step: its model and message, no rounds yet, no
    /// tool results.
    pub fn new(plan: &AiChatPlan) -> (r: Self)
        ensures
            r@.model == plan.model@,
            r@.message == plan.message@,
            r@.iterations == 0,
            r@.max_iterations == plan.max_iterations,
            r@.uses_tools == plan.uses_tools,
            r@.tool_results.len() == 0,
    {
        let r = AiStepRun {
            model: plan.model.clone(),
            message: plan.message.clone(),
            iterations: 0,
            max_iterations: plan.max_iterations,
            uses_tools: plan.uses_tools,
            tool_results: Vec::new(),
        };
        assert(r@.tool_results =~= Seq::<(Seq<char>, Seq<char>)>::empty());
        r
    }

    /// The model of the next request.
    pub fn model(&self) -> (m: &str)
        ensures
            m@ == self@.model,
    {
        self.model.as_str()
    }

    /// The message of the next request.
    pub fn message(&self) -> (m: &str)
        ensures
            m@ == self@.message,
    {
        self.message.as_str()
    }

    /// The results of the last round's tool calls, as (call id, result).
    pub fn tool_results(&self) -> (r: &Vec<(String, String)>)
        ensures
            crate::manager::pair_texts(r@) == self@.tool_results,
    {
        &self.tool_results
    }

    /// The tool rounds taken so far.
    pub fn iterations(&self) -> (n: u32)
        ensures
            n == self@.iterations,
    {
        self.iterations
    }

    /// Before each request: a step with tools fails once it has used up its
    /// rounds (see `check_tool_rounds`); a step without tools is never
    /// stopped.
    pub fn before_request(&self, scenario_name: &str, step_name: &str) -> (r: Result<(), ExecuteError>)
        ensures
            !(self@.uses_tools && self@.iterations >= self@.max_iterations) ==> r is Ok,
            self@.uses_tools && self@.iterations >= self@.max_iterations ==> (r matches Err(e) && ai_failed_is(
                e,
                scenario_name@,
                step_name@,
                "max tool iterations ("@ + nat_decimal(self@.max_iterations) + ") exceeded"@,
            )),
    {
        if self.uses_tools {
            check_tool_rounds(self.iterations, self.max_iterations, scenario_name, step_name)
        } else {
            Ok(())
        }
    }

    /// After a failed request and the user's decision (none when no one can
    /// answer): a retry goes on, with the new model when the decision names
    /// one; anything else gives up. Nothing else changes.
    pub fn after_failure(&mut self, decision: Option<RetryDecision>) -> (retry: bool)
        ensures
            retry == (decision matches Some(RetryDecision::Retry { .. })),
            final(self)@.model == match decision {
                Some(RetryDecision::Retry { model: Some(m) }) => m@,
                _ => old(self)@.model,
            },
            final(self)@.message == old(self)@.message,
            final(self)@.iterations == old(self)@.iterations,
            final(self)@.max_iterations == old(self)@.max_iterations,
            final(self)@.uses_tools == old(self)@.uses_tools,
            final(self)@.tool_results == old(self)@.tool_results,
    {
        proof {
            use_type_invariant(&*self);
        }
        match decision {
            Some(RetryDecision::Retry { model: Some(m) }) => {
                self.model = m;
                true
            },
            Some(RetryDecision::Retry { model: None }) => true,
            _ => false,
        }
    }

    /// After an answer: a step without tools, or an answer without tool
    /// calls, ends the step with the answer (see `ai_response_result`), and
    /// the run stays as it was. Otherwise a tool round is counted (it never
    /// passes the bound, which `before_request` enforces), the last round's
    /// results are cleared, and the answer's text, when it has one, becomes
    /// the next message.
    pub fn after_answer(&mut self, content: Option<String>, tool_calls: usize) -> (r: Option<StepResult>)
        ensures
            !old(self)@.uses_tools || tool_calls == 0 ==> {
                &&& r matches Some(res)
                &&& res.exit_code == 0 && res.success && res.stdout@.len() == 0 && res.stderr@.len() == 0
                &&& res.stdout_stderr@.len() == 0 && res.cwd is None
                &&& res.message matches Some(m) && m@ == crate::turn::chunk_text(content)
                &&& final(self)@ == old(self)@
            },
            old(self)@.uses_tools && tool_calls > 0 ==> {
                &&& r is None
                &&& final(self)@.iterations == if old(self)@.iterations < old(self)@.max_iterations {
                    old(self)@.iterations + 1
                } else {
                    old(self)@.iterations
                }
                &&& final(self)@.tool_results.len() == 0
                &&& final(self)@.message == match content {
                    Some(c) => c@,
                    None => old(self)@.message,
                }
                &&& final(self)@.model == old(self)@.model
                &&& final(self)@.max_iterations == old(self)@.max_iterations
                &&& final(self)@.uses_tools == old(self)@.uses_tools
            },
    {
        proof {
            use_type_invariant(&*self);
        }
        if !self.uses_tools || tool_calls == 0 {
            return Some(ai_response_result(content));
        }
        if self.iterations < self.max_iterations {
            self.iterations = self.iterations + 1;
        }
        self.tool_results = Vec::new();
        if let Some(c) = content {
            self.message = c;
        }
        proof {
            lemma_no_pairs(self.tool_results@);
        }
        None
    }

    /// Keeps the result of one tool call of this round.
    pub fn record_tool_result(&mut self, call_id: String, result: String)
        ensures
            final(self)@.tool_results == old(self)@.tool_results.push((call_id@, result@)),
            final(self)@.model == old(self)@.model,
            final(self)@.message == old(self)@.message,
            final(self)@.iterations == old(self)@.iterations,
            final(self)@.max_iterations == old(self)@.max_iterations,
            final(self)@.uses_tools == old(self)@.uses_tools,
    {
        let mut run = AiStepRun {
            model: String::new(),
            message: String::new(),
            iterations: 0,
            max_iterations: 0,
            uses_tools: false,
            tool_results: Vec::new(),
        };
        std::mem::swap(self, &mut run);
        proof {
            use_type_invariant(&run);
        }
        let ghost before = run.tool_results@;
        let AiStepRun { model, message, iterations, max_iterations, uses_tools, tool_results } = run;
        let mut results = tool_results;
        let pair = (call_id, result);
        let ghost p = pair;
        results.push(pair);
        assert(crate::manager::pair_texts(results@) =~= crate::manager::pair_texts(before).push((p.0@, p.1@)));
        *self = AiStepRun { model, message, iterations, max_iterations, uses_tools, tool_results: results };
    }
}

/// No pairs have no texts.
proof fn lemma_no_pairs(v: Seq<(String, String)>)
    requires
        v.len() == 0,
    ensures
        crate::manager::pair_texts(v).len() == 0,
{
}

} // verus!
