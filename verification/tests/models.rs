use ollama_manager::models::{
    check_ollama_status, delete_invocation, delete_model, greet, run_invocation, run_model,
};
use ollama_manager::process::{CapturedOutput, CapturedText};

fn ran(stdout: &str, stderr: &str, exit_code: Option<i32>) -> CapturedText {
    CapturedText {
        stdout: stdout.to_string(),
        stderr: stderr.to_string(),
        exit_code,
        spawn_error: None,
    }
}

fn missing() -> CapturedText {
    CapturedOutput::spawn_failed("No such file or directory (os error 2)".to_string()).decode()
}

#[test]
fn greet_by_name() {
    assert_eq!(greet("Ada"), "Hello, Ada! You've been greeted from Rust!");
    assert_eq!(greet(""), "Hello, ! You've been greeted from Rust!");
}

#[test]
fn status_of_a_present_tool_is_true_every_time() {
    let run = ran("NAME ID SIZE MODIFIED\n", "", Some(0));
    for _ in 0..5 {
        assert_eq!(check_ollama_status(&run), Ok(true));
    }
    assert_eq!(check_ollama_status(&ran("", "", Some(0))), Ok(true));
    assert_eq!(check_ollama_status(&ran("anything", "noise", Some(0))), Ok(true));
}

#[test]
fn status_of_a_failing_tool_is_false() {
    assert_eq!(check_ollama_status(&ran("", "connection refused", Some(1))), Ok(false));
    assert_eq!(check_ollama_status(&ran("", "", None)), Ok(false));
}

#[test]
fn status_of_a_missing_tool_is_an_error() {
    assert_eq!(
        check_ollama_status(&missing()),
        Err("Ollama not found or not running: No such file or directory (os error 2)".to_string())
    );
    let denied = CapturedOutput::spawn_failed("Permission denied (os error 13)".to_string());
    let message = check_ollama_status(&denied.decode()).unwrap_err();
    assert!(message.contains("Permission denied (os error 13)"));
}

#[test]
fn status_with_a_spawn_error_is_never_ok() {
    let mut run = ran("listing", "", Some(0));
    run.spawn_error = Some("not found".to_string());
    assert_eq!(
        check_ollama_status(&run),
        Err("Ollama not found or not running: not found".to_string())
    );
}

#[test]
fn run_invocation_asks_for_help_only() {
    let invocation = run_invocation("llama3");
    assert_eq!(invocation.program, "ollama");
    assert_eq!(
        invocation.arguments,
        vec!["run".to_string(), "llama3".to_string(), "--help".to_string()]
    );
}

#[test]
fn run_model_that_can_start() {
    assert_eq!(
        run_model("llama3", &ran("usage", "", Some(0))),
        Ok("Model llama3 is ready to run".to_string())
    );
}

#[test]
fn run_model_that_cannot_start() {
    assert_eq!(
        run_model("nope", &ran("", "model not found", Some(1))),
        Err("Failed to run model nope: model not found".to_string())
    );
}

#[test]
fn run_model_with_a_missing_tool() {
    assert_eq!(
        run_model("llama3", &missing()),
        Err("Failed to run model: No such file or directory (os error 2)".to_string())
    );
}

#[test]
fn delete_invocation_is_ollama_rm_model() {
    let invocation = delete_invocation("llama3");
    assert_eq!(invocation.program, "ollama");
    assert_eq!(invocation.arguments, vec!["rm".to_string(), "llama3".to_string()]);
}

#[test]
fn delete_model_that_is_there() {
    assert_eq!(
        delete_model("llama3", &ran("deleted 'llama3'", "", Some(0))),
        Ok("Model llama3 deleted successfully".to_string())
    );
}

#[test]
fn delete_model_that_is_not_there() {
    assert_eq!(
        delete_model("nope", &ran("", "model 'nope' not found", Some(1))),
        Err("Failed to delete model nope: model 'nope' not found".to_string())
    );
}

#[test]
fn delete_model_with_a_missing_tool() {
    assert_eq!(
        delete_model("llama3", &missing()),
        Err("Failed to delete model: No such file or directory (os error 2)".to_string())
    );
}
