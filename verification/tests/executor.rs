use rhd_chat::executor::{
    AiStepRun, is_flags_ref, resolve_mcp_launch, after_pause, ai_response_result, check_tool_rounds, command_line, finished_command_result,
    max_tool_iterations, pauses_on_failure, plan_ai_chat, plan_step, scenario_tool_route,
    set_flag_tool, spawn_failed_result, ResumeAction, RetryDecision, ScenarioTool, StepPlan,
};
use rhd_chat::keyed::StringMap;
use rhd_chat::placeholder::{ExecutionContext, OutputLine, StepResult};
use rhd_chat::scenario::{
    evaluate_skip, Action, AiChatAction, ExecuteError, ExecutionConfig, McpRef, MaxIterations,
    OutputAction, RunCommandAction,
};

fn step(code: i32, out: &str) -> StepResult {
    StepResult {
        exit_code: code,
        stdout: out.to_string(),
        stderr: String::new(),
        stdout_stderr: vec![OutputLine::Stdout(out.to_string())],
        success: code == 0,
        message: None,
        cwd: None,
    }
}

fn command(name: Option<&str>, cmd: &str, args: &[&str], dir: Option<&str>, skip: Option<&str>) -> Action {
    Action::RunCommand(RunCommandAction {
        name: name.map(|s| s.to_string()),
        command: cmd.to_string(),
        args: args.iter().map(|s| s.to_string()).collect(),
        working_dir: dir.map(|s| s.to_string()),
        skip: skip.map(|s| s.to_string()),
    })
}

fn chat(model: Option<&str>, skip: Option<&str>, mcp: Option<Vec<McpRef>>, max: Option<MaxIterations>) -> AiChatAction {
    AiChatAction {
        name: Some("ask".to_string()),
        system_prompt: Some("You see %build.exitCode%".to_string()),
        message: "Output: %build.stdout%".to_string(),
        model: model.map(|s| s.to_string()),
        mcp,
        max_tool_iterations: max,
        skip: skip.map(|s| s.to_string()),
    }
}

#[test]
fn command_plan_resolves_placeholders() {
    let mut ctx = ExecutionContext::default();
    ctx.record_step("build".to_string(), step(3, "target"));
    let a = command(None, "echo", &["%build.exitCode%", "x"], Some("/tmp/%build.stdout%"), None);
    match plan_step(&a, &ctx, "/home") {
        StepPlan::RunCommand { name, command, args, cwd } => {
            assert_eq!(name, "echo");
            assert_eq!(command, "echo");
            assert_eq!(args, vec!["3".to_string(), "x".to_string()]);
            assert_eq!(cwd, "/tmp/target");
        }
        other => panic!("unexpected {:?}", other),
    }
    let a = command(Some("ls"), "ls", &[], None, Some("never"));
    match plan_step(&a, &ctx, "/home") {
        StepPlan::RunCommand { name, cwd, args, .. } => {
            assert_eq!(name, "ls");
            assert_eq!(cwd, "/home");
            assert!(args.is_empty());
        }
        other => panic!("unexpected {:?}", other),
    }
}

#[test]
fn skipped_steps() {
    let mut ctx = ExecutionContext::default();
    ctx.set_flag("check.flag_done".to_string(), true);
    let a = command(Some("c"), "ls", &[], None, Some("check.flag_done"));
    match plan_step(&a, &ctx, "/") {
        StepPlan::Skipped { name, skip_expr } => {
            assert_eq!(name, "c");
            assert_eq!(skip_expr, "check.flag_done");
        }
        other => panic!("unexpected {:?}", other),
    }
    let a = Action::AiChat(chat(None, Some("check.flag_done"), None, None));
    assert!(matches!(plan_step(&a, &ctx, "/"), StepPlan::Skipped { .. }));
    let a = Action::AiChat(chat(None, Some("other"), None, None));
    match plan_step(&a, &ctx, "/") {
        StepPlan::AiChat { name } => assert_eq!(name, "ask"),
        other => panic!("unexpected {:?}", other),
    }
}

#[test]
fn output_plan() {
    let mut ctx = ExecutionContext::default();
    ctx.record_step("build".to_string(), step(0, "ok\n"));
    let a = Action::Output(OutputAction { name: None, text: "got %build.stdout%".to_string() });
    match plan_step(&a, &ctx, "/") {
        StepPlan::Output { name, text } => {
            assert_eq!(name, "output");
            assert_eq!(text, "got ok\n");
        }
        other => panic!("unexpected {:?}", other),
    }
}

#[test]
fn command_results() {
    let lines = vec![
        OutputLine::Stdout("a\n".to_string()),
        OutputLine::Stderr("e\n".to_string()),
        OutputLine::Stdout("b\n".to_string()),
    ];
    let r = finished_command_result(Some(2), false, lines, "/w".to_string());
    assert_eq!(r.exit_code, 2);
    assert!(!r.success);
    assert_eq!(r.stdout, "a\nb\n");
    assert_eq!(r.stderr, "e\n");
    assert_eq!(r.stdout_stderr_combined(), "a\ne\nb\n");
    assert_eq!(r.cwd, Some("/w".to_string()));
    assert_eq!(r.message, None);
    let r = finished_command_result(None, false, vec![], "/w".to_string());
    assert_eq!(r.exit_code, -1);
    let r = spawn_failed_result("No such file".to_string(), "/w".to_string());
    assert_eq!(r.exit_code, -1);
    assert_eq!(r.stderr, "No such file");
    assert_eq!(r.stdout, "");
    assert_eq!(r.stdout_stderr_combined(), "No such file");
    assert!(!r.success);
}

#[test]
fn command_line_text() {
    assert_eq!(command_line("cargo", &["test".to_string(), "--all".to_string()]), "cargo test --all");
    assert_eq!(command_line("ls", &[]), "ls ");
}

#[test]
fn ai_results() {
    let r = ai_response_result(Some("answer".to_string()));
    assert_eq!(r.exit_code, 0);
    assert!(r.success);
    assert_eq!(r.message, Some("answer".to_string()));
    assert_eq!(ai_response_result(None).message, Some(String::new()));
}

#[test]
fn tool_round_bounds() {
    assert_eq!(max_tool_iterations(None), 20);
    assert_eq!(max_tool_iterations(Some(MaxIterations::Finite(3))), 3);
    assert_eq!(max_tool_iterations(Some(MaxIterations::Infinite)), u32::MAX);
    assert!(check_tool_rounds(2, 3, "s", "t").is_ok());
    match check_tool_rounds(3, 3, "s", "t") {
        Err(ExecuteError::AiFailed { scenario, step, message }) => {
            assert_eq!((scenario.as_str(), step.as_str()), ("s", "t"));
            assert_eq!(message, "max tool iterations (3) exceeded");
        }
        other => panic!("unexpected {:?}", other),
    }
}

fn models() -> Vec<String> {
    vec!["gpt-4o".to_string(), "gpt-4o-mini".to_string()]
}

fn aliases() -> Vec<(String, String)> {
    vec![("fast".to_string(), "gpt-4o-mini".to_string())]
}

#[test]
fn ai_chat_plan() {
    let mut ctx = ExecutionContext::default();
    ctx.record_step("build".to_string(), step(1, "boom"));
    let mcp = vec![McpRef { name: "flags".to_string(), id: None, args: None, env: None }];
    let c = chat(Some("fast"), None, Some(mcp), Some(MaxIterations::Finite(4)));
    let p = plan_ai_chat(&c, &ctx, None, &aliases(), &models(), "s", "ask").unwrap();
    assert_eq!(p.model, "gpt-4o-mini");
    assert_eq!(p.system_prompt, "You see 1");
    assert_eq!(p.message, "Output: boom");
    assert!(p.uses_tools);
    assert_eq!(p.max_iterations, 4);
    let mut c = chat(None, None, Some(vec![]), None);
    c.system_prompt = None;
    let p = plan_ai_chat(&c, &ctx, Some("gpt-4o"), &aliases(), &models(), "s", "ask").unwrap();
    assert_eq!(p.model, "gpt-4o");
    assert_eq!(p.system_prompt, "");
    assert!(!p.uses_tools);
    assert_eq!(p.max_iterations, 20);
    assert!(matches!(
        plan_ai_chat(&c, &ctx, None, &aliases(), &models(), "s", "ask"),
        Err(ExecuteError::NoDefaultModel { .. })
    ));
    assert!(matches!(
        plan_ai_chat(&c, &ctx, Some("gpt-3"), &aliases(), &models(), "s", "ask"),
        Err(ExecuteError::UnknownModel { .. })
    ));
}

#[test]
fn pausing_on_failure() {
    let alive = ExecutionConfig { frontend_alive: true, never_fail: false };
    let never = ExecutionConfig { frontend_alive: false, never_fail: true };
    let none = ExecutionConfig { frontend_alive: false, never_fail: false };
    assert!(pauses_on_failure(&alive, true));
    assert!(pauses_on_failure(&never, true));
    assert!(!pauses_on_failure(&none, true));
    assert!(!pauses_on_failure(&alive, false));
}

#[test]
fn answers_to_a_pause() {
    assert_eq!(after_pause(ResumeAction::Abort, &aliases(), &models()), RetryDecision::Fail);
    assert_eq!(
        after_pause(ResumeAction::Retry { model_override: None }, &aliases(), &models()),
        RetryDecision::Retry { model: None }
    );
    assert_eq!(
        after_pause(ResumeAction::Retry { model_override: Some("fast".to_string()) }, &aliases(), &models()),
        RetryDecision::Retry { model: Some("gpt-4o-mini".to_string()) }
    );
    assert_eq!(
        after_pause(ResumeAction::Retry { model_override: Some("nope".to_string()) }, &aliases(), &models()),
        RetryDecision::Retry { model: None }
    );
}

#[test]
fn scenario_tool_routes() {
    let ids = vec!["files".to_string(), "git".to_string()];
    assert_eq!(scenario_tool_route("rhd_set_flag", &ids), ScenarioTool::SetFlag);
    assert_eq!(
        scenario_tool_route("git/status", &ids),
        ScenarioTool::Mcp { index: 1, tool: "status".to_string() }
    );
    assert_eq!(scenario_tool_route("web/get", &ids), ScenarioTool::Unknown);
    assert_eq!(scenario_tool_route("status", &ids), ScenarioTool::Unknown);
}

#[test]
fn flag_tool_sets_flags() {
    let mut ctx = ExecutionContext::default();
    let r = set_flag_tool("check_step", "{\"name\": \"ok\", \"value\": false}", &mut ctx);
    assert_eq!(r, "Flag 'check_step.flag_ok' set to false");
    assert_eq!(ctx.get_flag("check_step.flag_ok"), Some(false));
    assert!(!evaluate_skip("check_step.flag_ok", &ctx));
    let r = set_flag_tool("s", "{\"name\": \"done\"}", &mut ctx);
    assert_eq!(r, "Flag 's.flag_done' set to true");
    assert!(evaluate_skip("s.flag_done", &ctx));
    let r = set_flag_tool("s", "not json", &mut ctx);
    assert_eq!(r, "Flag 's.flag_' set to true");
    let r = set_flag_tool("s", "{\"name\": 3, \"value\": \"no\"}", &mut ctx);
    assert_eq!(r, "Flag 's.flag_' set to true");
}

fn string_map(pairs: &[(&str, &str)]) -> StringMap<String> {
    let mut m = StringMap::new();
    for (k, v) in pairs {
        m.insert(k.to_string(), v.to_string());
    }
    m
}

#[test]
fn mcp_launch_overrides() {
    let config_args = vec!["--stdio".to_string()];
    let config_env = string_map(&[("A", "1"), ("B", "2")]);
    let plain = McpRef { name: "srv".to_string(), id: None, args: None, env: None };
    let (args, env) = resolve_mcp_launch(&config_args, &config_env, &plain);
    assert_eq!(args, config_args);
    assert_eq!(env.len(), 2);
    assert_eq!(env.get("A"), Some(&"1".to_string()));
    let custom = McpRef {
        name: "srv".to_string(),
        id: Some("s2".to_string()),
        args: Some(vec!["--port".to_string(), "9".to_string()]),
        env: Some(string_map(&[("B", "20"), ("C", "30")])),
    };
    let (args, env) = resolve_mcp_launch(&config_args, &config_env, &custom);
    assert_eq!(args, vec!["--port".to_string(), "9".to_string()]);
    assert_eq!(env.len(), 3);
    assert_eq!(env.get("A"), Some(&"1".to_string()));
    assert_eq!(env.get("B"), Some(&"20".to_string()));
    assert_eq!(env.get("C"), Some(&"30".to_string()));
    assert!(!is_flags_ref(&custom));
    assert!(is_flags_ref(&McpRef { name: "flags".to_string(), id: None, args: None, env: None }));
}

#[test]
fn ai_step_run_with_tools() {
    let ctx = ExecutionContext::default();
    let mcp = vec![McpRef { name: "flags".to_string(), id: None, args: None, env: None }];
    let c = chat(Some("fast"), None, Some(mcp), Some(MaxIterations::Finite(1)));
    let plan = plan_ai_chat(&c, &ctx, None, &aliases(), &models(), "s", "ask").unwrap();
    let mut run = AiStepRun::new(&plan);
    assert_eq!(run.model(), "gpt-4o-mini");
    assert_eq!(run.message(), "Output: ");
    assert!(run.before_request("s", "ask").is_ok());
    assert!(run.after_failure(Some(RetryDecision::Retry { model: Some("gpt-4o".to_string()) })));
    assert_eq!(run.model(), "gpt-4o");
    assert!(run.after_failure(Some(RetryDecision::Retry { model: None })));
    assert_eq!(run.model(), "gpt-4o");
    assert!(!run.after_failure(Some(RetryDecision::Fail)));
    assert!(!run.after_failure(None));
    assert!(run.after_answer(Some("next".to_string()), 2).is_none());
    assert_eq!(run.iterations(), 1);
    assert_eq!(run.message(), "next");
    run.record_tool_result("call_1".to_string(), "ok".to_string());
    assert_eq!(run.tool_results(), &vec![("call_1".to_string(), "ok".to_string())]);
    match run.before_request("s", "ask") {
        Err(ExecuteError::AiFailed { message, .. }) => assert_eq!(message, "max tool iterations (1) exceeded"),
        other => panic!("unexpected {:?}", other),
    }
    let done = run.after_answer(Some("final".to_string()), 0).unwrap();
    assert_eq!(done.message, Some("final".to_string()));
}

#[test]
fn ai_step_run_without_tools() {
    let ctx = ExecutionContext::default();
    let c = chat(Some("gpt-4o"), None, None, Some(MaxIterations::Finite(1)));
    let plan = plan_ai_chat(&c, &ctx, None, &aliases(), &models(), "s", "ask").unwrap();
    let mut run = AiStepRun::new(&plan);
    let r = run.after_answer(Some("answer".to_string()), 3).unwrap();
    assert_eq!(r.message, Some("answer".to_string()));
    assert_eq!(run.iterations(), 0);
    assert!(run.before_request("s", "ask").is_ok());
}
