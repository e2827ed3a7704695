use lambda_entry::entry::{
    detection_line, entry_plan, is_managed_environment, lambda_function, local_event,
    local_function, managed_function, starts_with, Directive, Step,
};
use lambda_entry::json::JsonValue;
use lambda_entry::payload::Payload;

fn names(xs: &[&str]) -> Vec<String> {
    xs.iter().map(|x| x.to_string()).collect()
}

fn echo(event: lambda_runtime::LambdaEvent<Payload<JsonValue>>) -> Result<String, String> {
    Ok(event.payload.raw_path)
}

#[test]
fn local_plan_invokes_once() {
    let plan = local_function();
    assert_eq!(plan, vec![Step::InvokeHandler, Step::PrintResult]);
    assert_eq!(plan.iter().filter(|s| **s == Step::InvokeHandler).count(), 1);
    assert!(!plan.contains(&Step::RunService));
}

#[test]
fn local_event_carries_default_payload() {
    let ev = local_event::<JsonValue>();
    assert_eq!(ev.payload, Payload::default());
    assert_eq!(ev.payload.version, "2.0");
    assert_eq!(ev.payload.body, Some(JsonValue::Null));
    assert_eq!(ev.context.request_id, "");
}

#[test]
fn managed_plan_only_runs_service() {
    assert_eq!(managed_function(), vec![Step::RunService]);
    assert_eq!(entry_plan(Directive::Managed, &names(&["AWS_LAMBDA_RUNTIME_API"])), vec![Step::RunService]);
    assert_eq!(entry_plan(Directive::Managed, &names(&[])), vec![Step::RunService]);
}

#[test]
fn local_directive_ignores_environment() {
    assert_eq!(
        entry_plan(Directive::Local, &names(&["AWS_LAMBDA_FUNCTION_NAME"])),
        vec![Step::InvokeHandler, Step::PrintResult]
    );
}

#[test]
fn adaptive_without_platform_variables_runs_locally() {
    let expected = vec![Step::Announce(false), Step::InvokeHandler, Step::PrintResult];
    assert_eq!(lambda_function(&names(&[])), expected);
    assert_eq!(lambda_function(&names(&["PATH", "HOME", "AWS_REGION", "XAWS_LAMBDA"])), expected);
    assert_eq!(entry_plan(Directive::Adaptive, &names(&["AWS_LAMBD"])), expected);
}

#[test]
fn adaptive_with_one_platform_variable_runs_service() {
    let expected = vec![Step::Announce(true), Step::RunService];
    assert_eq!(lambda_function(&names(&["PATH", "AWS_LAMBDA_FUNCTION_NAME"])), expected);
}

#[test]
fn adaptive_with_many_platform_variables_runs_service() {
    let expected = vec![Step::Announce(true), Step::RunService];
    let env = names(&["AWS_LAMBDA_FUNCTION_NAME", "HOME", "AWS_LAMBDA_RUNTIME_API", "AWS_LAMBDA_LOG_GROUP_NAME"]);
    assert_eq!(lambda_function(&env), expected);
    assert_eq!(entry_plan(Directive::Adaptive, &env), expected);
}

#[test]
fn adaptive_with_exact_prefix_name_announces_true_and_prints_no_result() {
    let plan = lambda_function(&names(&["AWS_LAMBDA"]));
    assert_eq!(plan, vec![Step::Announce(true), Step::RunService]);
    assert_eq!(detection_line(true), "Running in Lambda environment: true");
    assert!(!plan.contains(&Step::PrintResult));
    assert!(!plan.contains(&Step::InvokeHandler));
}

#[test]
fn detection_lines() {
    assert_eq!(detection_line(false), "Running in Lambda environment: false");
    assert_eq!(detection_line(true), "Running in Lambda environment: true");
}

#[test]
fn detection_is_case_sensitive_prefix() {
    assert!(!is_managed_environment(&names(&["aws_lambda_function_name"])));
    assert!(!is_managed_environment(&names(&["MY_AWS_LAMBDA"])));
    assert!(is_managed_environment(&names(&["AWS_LAMBDA_X"])));
}

#[test]
fn prefix_check() {
    assert!(starts_with("AWS_LAMBDA_RUNTIME_API", "AWS_LAMBDA"));
    assert!(starts_with("abc", ""));
    assert!(starts_with("", ""));
    assert!(!starts_with("", "a"));
    assert!(!starts_with("AWS", "AWS_LAMBDA"));
    assert!(!starts_with("AWS_LAMBDX", "AWS_LAMBDA"));
    assert!(starts_with("h\u{e9}llo", "h\u{e9}"));
}

#[test]
fn echo_handler_local_run_prints_empty_path() {
    let plan = local_function();
    let mut out = String::new();
    let mut result = None;
    let mut calls = 0;
    for step in plan {
        match step {
            Step::InvokeHandler => {
                calls += 1;
                result = Some(echo(local_event::<JsonValue>()).unwrap());
            },
            Step::PrintResult => out.push_str(&format!("{:?}", result.as_ref().unwrap())),
            _ => {},
        }
    }
    assert_eq!(calls, 1);
    assert_eq!(out, "\"\"");
}
