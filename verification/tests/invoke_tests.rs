use fabrik::errors::FabrikError;
use fabrik::invoke::classify_outcome;
use fabrik::invoke::editor_args;
use fabrik::invoke::script_read_error;
use fabrik::invoke::spawn_failure_error;
use fabrik::invoke::temp_write_error;

#[test]
fn success_confirmation_names_the_temp_script() {
    let r = classify_outcome(true, "", "/tmp/fabrik_temp_script.jsx");
    let msg = r.expect("a successful exit must classify as ok");
    assert_eq!(
        msg,
        "script executed successfully; temp path: /tmp/fabrik_temp_script.jsx"
    );
    assert!(msg.contains("/tmp/fabrik_temp_script.jsx"));
}

#[test]
fn failure_carries_stderr_verbatim() {
    let r = classify_outcome(false, "mocked standard-error text", "/tmp/fabrik_temp_script.jsx");
    match r {
        Err(FabrikError::EditorExecution(m)) => {
            assert_eq!(m, "editor error: mocked standard-error text");
            assert!(m.contains("mocked standard-error text"));
        }
        _ => panic!("expected an editor-execution failure"),
    }
}

#[test]
fn launch_arguments_use_the_run_form() {
    let args = editor_args("/tmp/fabrik_temp_script.jsx");
    assert_eq!(args.len(), 2);
    assert_eq!(args[0], "-run");
    assert_eq!(args[1], "/tmp/fabrik_temp_script.jsx");
}

#[test]
fn read_error_names_script_path_and_reason() {
    let e = script_read_error("job.jsx", "/s/scripts/job.jsx", "no such file");
    match e {
        FabrikError::Io(m) => {
            assert_eq!(m, "cannot read script job.jsx (path: /s/scripts/job.jsx): no such file");
        }
        _ => panic!("expected an io failure"),
    }
}

#[test]
fn write_error_names_temp_path_and_reason() {
    let e = temp_write_error("/tmp/fabrik_temp_script.jsx", "disk full");
    match e {
        FabrikError::Io(m) => {
            assert_eq!(m, "cannot write temporary script /tmp/fabrik_temp_script.jsx: disk full");
        }
        _ => panic!("expected an io failure"),
    }
}

#[test]
fn spawn_error_carries_the_os_reason() {
    let e = spawn_failure_error("permission denied");
    match e {
        FabrikError::Spawn(m) => {
            assert_eq!(m, "cannot launch the editor: permission denied");
        }
        _ => panic!("expected a spawn failure"),
    }
}
