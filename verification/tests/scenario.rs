use rhd_chat::placeholder::ExecutionContext;
use rhd_chat::scenario::{
    apply_model_aliases, evaluate_skip, load_scenarios_dir, resolve_chat_model, step_name,
    validate_scenario, Action, AiChatAction, ExecuteError, MaxIterations, McpRef, OutputAction, RunCommandAction,
    Scenario, ScenarioLoadError,
};

fn output(name: Option<&str>, text: &str) -> Action {
    Action::Output(OutputAction { name: name.map(|n| n.to_string()), text: text.to_string() })
}

fn scenario(name: &str, actions: Vec<Action>) -> Scenario {
    Scenario { name: name.to_string(), description: None, actions }
}

fn validation_message(r: Result<(), ScenarioLoadError>) -> Option<(String, String)> {
    match r {
        Ok(()) => None,
        Err(ScenarioLoadError::Validation { path, message }) => Some((path, message)),
        Err(other) => panic!("unexpected error {:?}", other),
    }
}

#[test]
fn valid_scenario_passes() {
    let s = scenario("build", vec![output(Some("a"), "x"), output(None, "y"), output(Some("b"), "z")]);
    assert!(validate_scenario(&s, "build.yaml").is_ok());
}

#[test]
fn empty_scenario_name_is_refused() {
    let s = scenario("", vec![output(None, "x")]);
    assert_eq!(
        validation_message(validate_scenario(&s, "p.yaml")),
        Some(("p.yaml".to_string(), "scenario name must not be empty".to_string()))
    );
}

#[test]
fn scenario_without_actions_is_refused() {
    let s = scenario("s", vec![]);
    assert_eq!(
        validation_message(validate_scenario(&s, "p.yaml")),
        Some(("p.yaml".to_string(), "scenario must have at least one action".to_string()))
    );
}

#[test]
fn empty_action_name_is_refused() {
    let s = scenario("s", vec![output(Some("a"), "x"), output(Some(""), "y")]);
    assert_eq!(
        validation_message(validate_scenario(&s, "p.yaml")).unwrap().1,
        "action name must not be empty"
    );
}

#[test]
fn duplicate_action_name_is_refused() {
    let s = scenario("s", vec![output(Some("a"), "x"), output(None, "y"), output(Some("a"), "z")]);
    assert_eq!(
        validation_message(validate_scenario(&s, "p.yaml")).unwrap().1,
        "duplicate action name: 'a'"
    );
}

#[test]
fn first_bad_action_is_reported() {
    let s = scenario("s", vec![output(Some("a"), "x"), output(Some("a"), "y"), output(Some(""), "z")]);
    assert_eq!(
        validation_message(validate_scenario(&s, "p.yaml")).unwrap().1,
        "duplicate action name: 'a'"
    );
}

#[test]
fn load_collects_by_name_later_wins() {
    let sources = vec![
        Ok(("a.yaml".to_string(), scenario("one", vec![output(None, "first")]))),
        Ok(("b.yaml".to_string(), scenario("two", vec![output(None, "x")]))),
        Ok(("c.yaml".to_string(), scenario("one", vec![output(None, "second"), output(None, "more")]))),
    ];
    let m = load_scenarios_dir(sources).unwrap();
    assert_eq!(m.len(), 2);
    assert_eq!(m.get("one").unwrap().actions.len(), 2);
    assert_eq!(m.get("two").unwrap().actions.len(), 1);
    assert!(m.get("three").is_none());
}

#[test]
fn load_fails_on_first_bad_source() {
    let sources = vec![
        Ok(("a.yaml".to_string(), scenario("one", vec![output(None, "x")]))),
        Err(ScenarioLoadError::Parse { path: "b.yaml".to_string(), line: 3, column: 7, message: "bad".to_string() }),
        Ok(("c.yaml".to_string(), scenario("", vec![]))),
    ];
    match load_scenarios_dir(sources) {
        Err(ScenarioLoadError::Parse { path, line, column, .. }) => {
            assert_eq!(path, "b.yaml");
            assert_eq!((line, column), (3, 7));
        }
        other => panic!("unexpected {:?}", other.map(|m| m.len())),
    }
}

#[test]
fn load_fails_on_invalid_scenario() {
    let sources = vec![
        Ok(("a.yaml".to_string(), scenario("one", vec![output(None, "x")]))),
        Ok(("c.yaml".to_string(), scenario("two", vec![]))),
    ];
    match load_scenarios_dir(sources) {
        Err(ScenarioLoadError::Validation { path, message }) => {
            assert_eq!(path, "c.yaml");
            assert_eq!(message, "scenario must have at least one action");
        }
        other => panic!("unexpected {:?}", other.map(|m| m.len())),
    }
}

#[test]
fn load_of_nothing_is_empty() {
    assert_eq!(load_scenarios_dir(vec![]).unwrap().len(), 0);
}

fn aliases() -> Vec<(String, String)> {
    vec![
        ("fast".to_string(), "gpt-4o-mini".to_string()),
        ("smart".to_string(), "gpt-4o".to_string()),
        ("fast".to_string(), "ignored".to_string()),
    ]
}

#[test]
fn aliases_resolve_first_match() {
    assert_eq!(apply_model_aliases("fast", &aliases()), "gpt-4o-mini");
    assert_eq!(apply_model_aliases("smart", &aliases()), "gpt-4o");
    assert_eq!(apply_model_aliases("gpt-4", &aliases()), "gpt-4");
    assert_eq!(apply_model_aliases("fast", &[]), "fast");
}

#[test]
fn skip_follows_flags() {
    let mut ctx = ExecutionContext::default();
    ctx.set_flag("done".to_string(), true);
    ctx.set_flag("off".to_string(), false);
    assert!(evaluate_skip("done", &ctx));
    assert!(!evaluate_skip("off", &ctx));
    assert!(!evaluate_skip("missing", &ctx));
}

#[test]
fn step_names_fall_back_by_kind() {
    let cmd = Action::RunCommand(RunCommandAction {
        name: None,
        command: "cargo".to_string(),
        args: vec!["test".to_string()],
        working_dir: None,
        skip: None,
    });
    let chat = Action::AiChat(AiChatAction {
        name: None,
        system_prompt: None,
        message: "hi".to_string(),
        model: None,
        mcp: None,
        max_tool_iterations: None,
        skip: None,
    });
    assert_eq!(step_name(&cmd), "cargo");
    assert_eq!(step_name(&chat), "aiChat");
    assert_eq!(step_name(&output(None, "x")), "output");
    assert_eq!(step_name(&output(Some("print"), "x")), "print");
    assert_eq!(cmd.name(), None);
    assert_eq!(output(Some("print"), "x").name(), Some("print"));
}

#[test]
fn mcp_ref_effective_id() {
    let r = McpRef { name: "server".to_string(), id: None, args: None, env: None };
    assert_eq!(r.effective_id(), "server");
    let r = McpRef { name: "server".to_string(), id: Some("srv2".to_string()), args: None, env: None };
    assert_eq!(r.effective_id(), "srv2");
}

#[test]
fn chat_model_prefers_step_model() {
    let models = vec!["gpt-4o".to_string(), "gpt-4o-mini".to_string()];
    let r = resolve_chat_model(Some("fast"), Some("smart"), &aliases(), &models, "s", "step");
    assert_eq!(r.unwrap(), "gpt-4o-mini");
    let r = resolve_chat_model(None, Some("smart"), &aliases(), &models, "s", "step");
    assert_eq!(r.unwrap(), "gpt-4o");
}

#[test]
fn chat_model_errors() {
    let models = vec!["gpt-4o".to_string()];
    match resolve_chat_model(None, None, &aliases(), &models, "s", "step") {
        Err(ExecuteError::NoDefaultModel { scenario, step }) => {
            assert_eq!(scenario, "s");
            assert_eq!(step, "step");
        }
        other => panic!("unexpected {:?}", other),
    }
    match resolve_chat_model(Some("fast"), None, &aliases(), &models, "s", "step") {
        Err(ExecuteError::UnknownModel { scenario, step, model }) => {
            assert_eq!(scenario, "s");
            assert_eq!(step, "step");
            assert_eq!(model, "gpt-4o-mini");
        }
        other => panic!("unexpected {:?}", other),
    }
}

#[test]
fn max_iterations_from_file_values() {
    assert_eq!(MaxIterations::from_number(7), Ok(MaxIterations::Finite(7)));
    assert_eq!(MaxIterations::from_number(u32::MAX as u64), Ok(MaxIterations::Finite(u32::MAX)));
    assert_eq!(
        MaxIterations::from_number((1u64 << 32) + 5),
        Err("expected a positive integer or the string \"inf\", got 4294967301".to_string())
    );
    assert_eq!(
        MaxIterations::from_number(0),
        Err("expected a positive integer or the string \"inf\", got 0".to_string())
    );
    assert_eq!(MaxIterations::from_text("inf"), Ok(MaxIterations::Infinite));
    assert_eq!(MaxIterations::from_text("lots"), Err("expected \"inf\", got \"lots\"".to_string()));
}

#[test]
fn env_vars_are_substituted_everywhere() {
    let mut env = rhd_chat::keyed::StringMap::new();
    env.insert("TOKEN".to_string(), "${SECRET}".to_string());
    let mut s = scenario(
        "env",
        vec![
            Action::RunCommand(RunCommandAction {
                name: Some("${KEEP}".to_string()),
                command: "${BIN}".to_string(),
                args: vec!["${ARG}".to_string(), "plain".to_string()],
                working_dir: Some("${DIR}".to_string()),
                skip: None,
            }),
            Action::AiChat(AiChatAction {
                name: None,
                system_prompt: Some("${SYS}".to_string()),
                message: "${MSG}".to_string(),
                model: None,
                mcp: Some(vec![McpRef {
                    name: "srv".to_string(),
                    id: None,
                    args: Some(vec!["${MARG}".to_string()]),
                    env: Some(env),
                }]),
                max_tool_iterations: Some(MaxIterations::Finite(2)),
                skip: None,
            }),
            output(None, "${OUT}"),
        ],
    );
    let substitute = |t: &String| t.replace("${", "<").replace('}', ">");
    s.apply_env_vars(&substitute);
    match &s.actions[0] {
        Action::RunCommand(c) => {
            assert_eq!(c.name.as_deref(), Some("${KEEP}"));
            assert_eq!(c.command, "<BIN>");
            assert_eq!(c.args, vec!["<ARG>".to_string(), "plain".to_string()]);
            assert_eq!(c.working_dir.as_deref(), Some("<DIR>"));
        }
        _ => panic!("expected a command"),
    }
    match &s.actions[1] {
        Action::AiChat(c) => {
            assert_eq!(c.system_prompt.as_deref(), Some("<SYS>"));
            assert_eq!(c.message, "<MSG>");
            assert_eq!(c.model, None);
            let m = &c.mcp.as_ref().unwrap()[0];
            assert_eq!(m.name, "srv");
            assert_eq!(m.args, Some(vec!["<MARG>".to_string()]));
            assert_eq!(m.env.as_ref().unwrap().get("TOKEN"), Some(&"<SECRET>".to_string()));
            assert_eq!(c.max_tool_iterations, Some(MaxIterations::Finite(2)));
        }
        _ => panic!("expected a chat"),
    }
    match &s.actions[2] {
        Action::Output(o) => assert_eq!(o.text, "<OUT>"),
        _ => panic!("expected an output"),
    }
}
