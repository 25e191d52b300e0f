//! Folding step results into the response body, and the fixed error bodies.
use lambdo::api::{parse_response, run_code};
use lambdo::protocol::{ExecuteRequest, ExecuteRequestStep, ExecuteResponse, ExecuteResponseStep};
use lambdo::agent::runner_engine::{CodeReturn, RunnerEngine};
use lambdo::vmm::Error;

#[test]
fn test_parse_response_stdout() {
    let response = ExecuteResponse {
        id: "test".to_string(),
        steps: vec![
            ExecuteResponseStep {
                command: "echo Hello".to_string(),
                stdout: "Hello".to_string(),
                stderr: "".to_string(),
                exit_code: 0,
            },
            ExecuteResponseStep {
                command: "echo World".to_string(),
                stdout: "World".to_string(),
                stderr: "".to_string(),
                exit_code: 0,
            },
        ],
    };

    let parsed = parse_response(response);

    assert_eq!(parsed.stdout, "HelloWorld");
    assert_eq!(parsed.stderr, "");
    assert_eq!(parsed.status, 0);
}

#[test]
fn test_parse_response_with_error() {
    let response = ExecuteResponse {
        id: "test".to_string(),
        steps: vec![
            ExecuteResponseStep {
                command: "echo Hello".to_string(),
                stdout: "Hello".to_string(),
                stderr: "".to_string(),
                exit_code: 0,
            },
            ExecuteResponseStep {
                command: "echo World".to_string(),
                stdout: "".to_string(),
                stderr: "Error".to_string(),
                exit_code: 1,
            },
        ],
    };

    let parsed = parse_response(response);

    assert_eq!(parsed.stdout, "Hello");
    assert_eq!(parsed.stderr, "Error");
    assert_eq!(parsed.status, 1);
}

#[test]
fn nothing_was_run_on_empty_steps() {
    let response = run_code(Ok(ExecuteResponse {
        id: "test".to_string(),
        steps: vec![],
    }));
    assert_eq!(response.status, 1);
    assert_eq!(response.stdout, "");
    assert_eq!(response.stderr, "Nothing was run");
}

#[test]
fn timeout_maps_to_status_128() {
    let response = run_code(Err(Error::Timeout));
    assert_eq!(response.status, 128);
    assert_eq!(response.stdout, "");
    assert_eq!(response.stderr, "Timeout");
}

#[test]
fn other_errors_map_to_internal_server_error() {
    let response = run_code(Err(Error::ExecutionError));
    assert_eq!(response.status, 1);
    assert_eq!(response.stdout, "");
    assert_eq!(response.stderr, "Internal server error");

    let response = run_code(Err(Error::VmAlreadyEnded));
    assert_eq!(response.status, 1);
    assert_eq!(response.stderr, "Internal server error");

    let response = run_code(Err(Error::NoIPAvalaible));
    assert_eq!(response.status, 1);
    assert_eq!(response.stderr, "Internal server error");
}

#[test]
fn out_of_range_exit_code_narrows_to_one() {
    let response = parse_response(ExecuteResponse {
        id: "test".to_string(),
        steps: vec![ExecuteResponseStep {
            command: "exit -1".to_string(),
            stdout: "".to_string(),
            stderr: "".to_string(),
            exit_code: -1,
        }],
    });
    assert_eq!(response.status, 1);

    let response = parse_response(ExecuteResponse {
        id: "test".to_string(),
        steps: vec![ExecuteResponseStep {
            command: "exit 300".to_string(),
            stdout: "".to_string(),
            stderr: "".to_string(),
            exit_code: 300,
        }],
    });
    assert_eq!(response.status, 1);

    let response = parse_response(ExecuteResponse {
        id: "test".to_string(),
        steps: vec![ExecuteResponseStep {
            command: "exit 128".to_string(),
            stdout: "".to_string(),
            stderr: "".to_string(),
            exit_code: 128,
        }],
    });
    assert_eq!(response.status, 128);
}

#[test]
fn service_workload_runs_correctly() {
    let files: Vec<lambdo::protocol::FileModel> = Vec::new();
    let steps: Vec<ExecuteRequestStep> = vec![
        ExecuteRequestStep {
            command: "echo 'This is stdout' && echo 'This is stderr' >&2".to_string(),
            enable_output: true,
        },
        ExecuteRequestStep {
            command: "echo 'This is stdout' && echo 'This is stderr' >&2 && exit 1".to_string(),
            enable_output: false,
        },
    ];

    let request_data = ExecuteRequest {
        id: "4bf68974-c315-4c41-aee2-3dc2920e76e9".to_string(),
        files,
        steps,
    };

    let api = RunnerEngine::new(request_data);

    // What the two shell commands produce when the host runs them.
    let outcomes = vec![
        CodeReturn::new(
            "This is stdout\n".to_string(),
            "This is stderr\n".to_string(),
            0,
        ),
        CodeReturn::new(
            "This is stdout\n".to_string(),
            "This is stderr\n".to_string(),
            1,
        ),
    ];
    let res = api.run(&outcomes);

    assert_eq!(res.steps[0].exit_code, 0);
    assert_eq!(res.steps[0].stderr, "This is stderr\n");
    assert_eq!(res.steps[0].stdout, "This is stdout\n");

    println!("{:?}", res.steps[1]);
    assert_eq!(res.steps[1].exit_code, 1);
    assert_eq!(res.steps[1].stderr, "This is stderr\n");
    assert!(res.steps[1].stdout.is_empty());

    assert_eq!(res.id, "4bf68974-c315-4c41-aee2-3dc2920e76e9");
}

fn two_step_request(second_enabled: bool) -> ExecuteRequest {
    ExecuteRequest {
        id: "req-1".to_string(),
        files: vec![],
        steps: vec![
            ExecuteRequestStep {
                command: "echo index.js".to_string(),
                enable_output: true,
            },
            ExecuteRequestStep {
                command: "cat index.js".to_string(),
                enable_output: second_enabled,
            },
        ],
    }
}

#[test]
fn simple_run_aggregates_both_stdouts() {
    let runner = RunnerEngine::new(two_step_request(true));
    let outcomes = vec![
        CodeReturn::new("index.js\n".to_string(), "".to_string(), 0),
        CodeReturn::new("...\n".to_string(), "".to_string(), 0),
    ];
    let result = runner.run(&outcomes);
    let response = parse_response(result);
    assert_eq!(response.status, 0);
    assert_eq!(response.stdout, "index.js\n...\n");
    assert_eq!(response.stderr, "");
}

#[test]
fn suppressed_stdout_is_left_out() {
    let runner = RunnerEngine::new(two_step_request(false));
    let outcomes = vec![
        CodeReturn::new("index.js\n".to_string(), "".to_string(), 0),
        CodeReturn::new("hidden".to_string(), "".to_string(), 0),
    ];
    let result = runner.run(&outcomes);
    assert_eq!(result.id, "req-1");
    assert_eq!(result.steps[1].stdout, "");
    let response = parse_response(result);
    assert_eq!(response.status, 0);
    assert_eq!(response.stdout, "index.js\n");
    assert_eq!(response.stderr, "");
}

#[test]
fn stderr_is_always_carried() {
    let runner = RunnerEngine::new(two_step_request(false));
    let outcomes = vec![
        CodeReturn::new("out".to_string(), "This is stderr\n".to_string(), 0),
        CodeReturn::new("hidden".to_string(), "more\n".to_string(), 1),
    ];
    let result = runner.run(&outcomes);
    let response = parse_response(result);
    assert_eq!(response.status, 1);
    assert_eq!(response.stdout, "out");
    assert_eq!(response.stderr, "This is stderr\nmore\n");
}
