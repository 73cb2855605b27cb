use temporal::macro_plan::{plan_activity, plan_workflow, ActivityMacroError, FnParam, FnSignature};

fn typed(name: &str) -> FnParam {
    FnParam { typed: true, ident: Some(name.to_string()) }
}

fn sig(name: &str, is_async: bool, has_return_type: bool, params: Vec<FnParam>) -> FnSignature {
    FnSignature { name: name.to_string(), is_async, has_return_type, returns_result: has_return_type, params }
}

#[test]
fn activity_must_be_async() {
    let r = plan_activity(&sig("greet", false, true, vec![]));
    assert!(matches!(r, Err(ActivityMacroError::NotAsync)));
    assert_eq!(ActivityMacroError::NotAsync.message(), "activity functions must be async");
}

#[test]
fn activity_must_return_result() {
    let r = plan_activity(&sig("greet", true, false, vec![]));
    assert!(matches!(r, Err(ActivityMacroError::NoResultType)));
    assert_eq!(ActivityMacroError::NoResultType.message(), "activity functions must return a Result type");
    // Asyncness is checked first.
    assert!(matches!(plan_activity(&sig("greet", false, false, vec![])), Err(ActivityMacroError::NotAsync)));
}

#[test]
fn activity_must_return_a_result_type() {
    // `async fn f() -> u32` writes a return type that is not a Result.
    let s = FnSignature {
        name: "f".to_string(),
        is_async: true,
        has_return_type: true,
        returns_result: false,
        params: vec![],
    };
    assert!(matches!(plan_activity(&s), Err(ActivityMacroError::NoResultType)));
}

#[test]
fn activity_with_context_and_input() {
    let plan = plan_activity(&sig("greet", true, true, vec![typed("ctx"), typed("name")])).unwrap();
    assert_eq!(plan.activity_name, "greet");
    assert_eq!(plan.registration_fn, "__temporal_activity_register_greet");
    assert!(plan.has_context);
    assert_eq!(plan.value_params, vec![1]);
    assert_eq!(plan.value_names, vec!["name".to_string()]);
}

#[test]
fn activity_underscore_context() {
    let plan = plan_activity(&sig("a", true, true, vec![typed("_ctx")])).unwrap();
    assert!(plan.has_context);
    assert!(plan.value_params.is_empty());
}

#[test]
fn activity_without_context() {
    let plan = plan_activity(&sig("a", true, true, vec![typed("context"), typed("x")])).unwrap();
    assert!(!plan.has_context);
    assert_eq!(plan.value_params, vec![0, 1]);
    assert_eq!(plan.value_names, vec!["context".to_string(), "x".to_string()]);
}

#[test]
fn activity_skips_receivers_and_unnamed_patterns() {
    let params = vec![
        FnParam { typed: false, ident: None },
        typed("ctx"),
        FnParam { typed: true, ident: None },
        typed("y"),
    ];
    let plan = plan_activity(&sig("a", true, true, params)).unwrap();
    assert!(plan.has_context);
    assert_eq!(plan.value_params, vec![2, 3]);
    assert_eq!(plan.value_names, vec!["y".to_string()]);
}

#[test]
fn workflow_plan() {
    let plan = plan_workflow(&sig("order_workflow", true, true, vec![typed("ctx"), typed("order")]));
    assert_eq!(plan.workflow_name, "order_workflow");
    assert_eq!(plan.registration_fn, "order_workflow_registration");
    assert_eq!(plan.input_param, Some(1));
    assert!(!plan.returns_unit);
}

#[test]
fn workflow_without_input() {
    let plan = plan_workflow(&sig("w", true, false, vec![typed("ctx")]));
    assert_eq!(plan.input_param, None);
    assert!(plan.returns_unit);
    let receiver = plan_workflow(&sig("w", true, true, vec![typed("ctx"), FnParam { typed: false, ident: None }]));
    assert_eq!(receiver.input_param, None);
}
