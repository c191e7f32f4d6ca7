use rhd_chat::placeholder::{resolve_placeholders, ExecutionContext, OutputLine, StepResult};

fn make_result(
    exit_code: i32,
    stdout: &str,
    stderr: &str,
    stdout_stderr: Vec<OutputLine>,
    success: bool,
) -> StepResult {
    StepResult {
        exit_code,
        stdout: stdout.into(),
        stderr: stderr.into(),
        stdout_stderr,
        success,
        message: None,
        cwd: None,
    }
}

#[test]
fn resolves_exit_code() {
    let mut ctx = ExecutionContext::default();
    ctx.record_step("testsRun".into(), make_result(1, "", "", vec![], false));
    assert_eq!(resolve_placeholders("code: %testsRun.exitCode%", &ctx), "code: 1");
}

#[test]
fn missing_step_resolves_empty() {
    let ctx = ExecutionContext::default();
    assert_eq!(resolve_placeholders("val=%missing.exitCode%", &ctx), "val=");
}

#[test]
fn stdout_stderr_combined_from_lines() {
    let mut ctx = ExecutionContext::default();
    ctx.record_step(
        "run".into(),
        make_result(
            2,
            "out\n",
            "err\n",
            vec![OutputLine::Stdout("out\n".into()), OutputLine::Stderr("err\n".into())],
            false,
        ),
    );
    assert_eq!(resolve_placeholders("%run.stdoutStderr%", &ctx), "out\nerr\n");
}

#[test]
fn stdout_stderr_empty_when_no_lines() {
    let mut ctx = ExecutionContext::default();
    ctx.record_step("run".into(), make_result(0, "", "", vec![], true));
    assert_eq!(resolve_placeholders("%run.stdoutStderr%", &ctx), "");
}

#[test]
fn no_placeholder_passthrough() {
    let ctx = ExecutionContext::default();
    assert_eq!(resolve_placeholders("hello world", &ctx), "hello world");
}

#[test]
fn unclosed_percent_passthrough() {
    let ctx = ExecutionContext::default();
    assert_eq!(resolve_placeholders("abc%def", &ctx), "abc%def");
}

#[test]
fn negative_exit_code_and_other_fields() {
    let mut ctx = ExecutionContext::default();
    let mut r = make_result(-12, "o", "e", vec![], true);
    r.message = Some("hi".into());
    r.cwd = Some("/tmp".into());
    ctx.record_step("s".into(), r);
    assert_eq!(
        resolve_placeholders("%s.exitCode%|%s.stdout%|%s.stderr%|%s.success%|%s.message%|%s.cwd%|%s.nope%", &ctx),
        "-12|o|e|true|hi|/tmp|"
    );
}

#[test]
fn flag_placeholders_read_flags() {
    let mut ctx = ExecutionContext::default();
    ctx.set_flag("qa.flag_ok".into(), true);
    assert_eq!(resolve_placeholders("%qa.flag_ok% %qa.flag_other%", &ctx), "true false");
    assert_eq!(ctx.get_flag("qa.flag_ok"), Some(true));
    assert_eq!(ctx.get_flag("missing"), None);
}

#[test]
fn placeholder_without_dot_is_empty() {
    let ctx = ExecutionContext::default();
    assert_eq!(resolve_placeholders("a%b%c", &ctx), "ac");
    assert_eq!(resolve_placeholders("100%% done", &ctx), "100 done");
}

#[test]
fn later_record_replaces_earlier() {
    let mut ctx = ExecutionContext::default();
    ctx.record_step("x".into(), make_result(1, "", "", vec![], false));
    ctx.record_step("x".into(), make_result(7, "", "", vec![], true));
    assert_eq!(resolve_placeholders("%x.exitCode%", &ctx), "7");
    assert_eq!(ctx.steps.len(), 1);
}

#[test]
fn combined_lines_keep_order() {
    let r = make_result(
        0,
        "",
        "",
        vec![OutputLine::Stderr("a".into()), OutputLine::Stdout("b".into()), OutputLine::Stderr("c".into())],
        true,
    );
    assert_eq!(r.stdout_stderr_combined(), "abc");
}
