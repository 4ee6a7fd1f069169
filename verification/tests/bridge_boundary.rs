use hyperlight::bridge::Bridge;
use hyperlight::run::{interpret_outcome, GuestOutcome};
use hyperlight::status::{
    RUN_ENGINE_FAILURE, RUN_NULL_ARGUMENT, RUN_WRONG_RETURN_SHAPE, STATUS_BAD_NAME_STRING,
    STATUS_BAD_PATH_STRING, STATUS_MODULE_PATH_UNSET, STATUS_NULL_BUILDER_BUILD,
    STATUS_NULL_BUILDER_REGISTER, STATUS_NULL_BUILDER_SET_PATH, STATUS_OK,
};

#[test]
fn null_builder_handle_is_rejected_at_every_call() {
    let mut br = Bridge::new();
    assert_eq!(br.sandbox_builder_set_module_path(0, Some(String::from("x"))), STATUS_NULL_BUILDER_SET_PATH);
    assert_eq!(
        br.sandbox_builder_register_host_function(0, 1, Some(String::from("emit")), 2),
        STATUS_NULL_BUILDER_REGISTER
    );
    let (status, plan) = br.sandbox_builder_build(0);
    assert_eq!(status, STATUS_NULL_BUILDER_BUILD);
    assert!(plan.is_none());
    assert!(!br.sandbox_builder_free(0));
}

#[test]
fn unknown_builder_handle_is_rejected_like_null() {
    let mut br = Bridge::new();
    assert_eq!(br.sandbox_builder_set_module_path(17, Some(String::from("x"))), STATUS_NULL_BUILDER_SET_PATH);
    let (status, plan) = br.sandbox_builder_build(17);
    assert_eq!(status, STATUS_NULL_BUILDER_BUILD);
    assert!(plan.is_none());
}

#[test]
fn unreadable_strings_are_rejected_with_their_own_codes() {
    let mut br = Bridge::new();
    let h = br.sandbox_builder_new();
    assert_eq!(br.sandbox_builder_set_module_path(h, None), STATUS_BAD_PATH_STRING);
    assert_eq!(br.sandbox_builder_register_host_function(h, 1, None, 2), STATUS_BAD_NAME_STRING);
}

#[test]
fn build_through_the_registry_needs_a_module_location() {
    let mut br = Bridge::new();
    let h = br.sandbox_builder_new();
    let (status, plan) = br.sandbox_builder_build(h);
    assert_eq!(status, STATUS_MODULE_PATH_UNSET);
    assert!(plan.is_none());
    assert_eq!(br.sandbox_builder_set_module_path(h, Some(String::from("guest.wasm"))), STATUS_OK);
    let (status, plan) = br.sandbox_builder_build(h);
    assert_eq!(status, STATUS_OK);
    let plan = plan.unwrap();
    assert_eq!(plan.module_location, "guest.wasm");
}

#[test]
fn registry_build_carries_registrations_made_through_it() {
    let mut br = Bridge::new();
    let h = br.sandbox_builder_new();
    assert_eq!(br.sandbox_builder_set_module_path(h, Some(String::from("guest.wasm"))), STATUS_OK);
    assert_eq!(br.sandbox_builder_register_host_function(h, 42, Some(String::from("emit")), 90), STATUS_OK);
    assert_eq!(br.sandbox_builder_register_host_function(h, 43, Some(String::from("emit")), 91), STATUS_OK);
    let (status, plan) = br.sandbox_builder_build(h);
    assert_eq!(status, STATUS_OK);
    let plan = plan.unwrap();
    assert_eq!(plan.host_functions.len(), 2);
    assert_eq!(plan.host_functions[0].name, "emit");
    assert_eq!(plan.host_functions[0].context, 42);
    assert_eq!(plan.host_functions[1].context, 43);
}

#[test]
fn builder_handles_are_distinct_and_freed_once() {
    let mut br = Bridge::new();
    let h1 = br.sandbox_builder_new();
    let h2 = br.sandbox_builder_new();
    assert_ne!(h1, 0);
    assert_ne!(h2, 0);
    assert_ne!(h1, h2);
    assert!(br.sandbox_builder_free(h1));
    assert!(!br.sandbox_builder_free(h1));
    assert_eq!(br.sandbox_builder_set_module_path(h1, Some(String::from("x"))), STATUS_NULL_BUILDER_SET_PATH);
    assert!(br.sandbox_builder_free(h2));
}

#[test]
fn sandbox_release_is_single_shot() {
    let mut br = Bridge::new();
    let s = br.record_loaded_sandbox(String::from("guest.wasm"));
    assert_ne!(s, 0);
    assert!(br.sandbox_free(s));
    assert!(!br.sandbox_free(s));
    assert!(!br.sandbox_free(0));
}

#[test]
fn run_on_null_handle_or_null_data_reports_the_boundary_code() {
    let mut br = Bridge::new();
    let r = br.sandbox_run_request(0, Some(vec![1, 2, 3]));
    assert_eq!(r.unwrap_err(), RUN_NULL_ARGUMENT);
    let s = br.record_loaded_sandbox(String::from("guest.wasm"));
    let r = br.sandbox_run_request(s, None);
    assert_eq!(r.unwrap_err(), RUN_NULL_ARGUMENT);
    let r = br.sandbox_run_request(s + 1, Some(vec![1]));
    assert_eq!(r.unwrap_err(), RUN_NULL_ARGUMENT);
}

#[test]
fn run_on_a_released_sandbox_reports_the_boundary_code() {
    let mut br = Bridge::new();
    let s = br.record_loaded_sandbox(String::from("guest.wasm"));
    assert!(br.sandbox_free(s));
    let r = br.sandbox_run_request(s, Some(vec![1, 2]));
    assert_eq!(r.unwrap_err(), RUN_NULL_ARGUMENT);
}

#[test]
fn run_request_carries_exactly_the_given_bytes() {
    let mut br = Bridge::new();
    let s = br.record_loaded_sandbox(String::from("guest.wasm"));
    let call = br.sandbox_run_request(s, Some(vec![9, 8, 7, 6])).unwrap();
    assert_eq!(call.entry_point, "onData");
    assert_eq!(call.data, vec![9, 8, 7, 6]);
    assert_eq!(call.length_argument, 4);
}

#[test]
fn run_request_with_no_bytes_carries_none() {
    let mut br = Bridge::new();
    let s = br.record_loaded_sandbox(String::from("guest.wasm"));
    let call = br.sandbox_run_request(s, Some(Vec::new())).unwrap();
    assert!(call.data.is_empty());
    assert_eq!(call.length_argument, 0);
}

#[test]
fn round_trip_of_a_ten_byte_buffer_reports_ten() {
    // A guest whose entry point answers with the byte count it was given:
    // form the call, play that guest's reply back, and the run reports 10.
    let mut br = Bridge::new();
    let h = br.sandbox_builder_new();
    assert_eq!(br.sandbox_builder_set_module_path(h, Some(String::from("size.wasm"))), STATUS_OK);
    let (status, plan) = br.sandbox_builder_build(h);
    assert_eq!(status, STATUS_OK);
    let plan = plan.unwrap();
    let s = br.record_loaded_sandbox(plan.module_location);
    let call = br.sandbox_run_request(s, Some(vec![0; 10])).unwrap();
    assert_eq!(call.length_argument, 10);
    let reply = GuestOutcome::Returned(call.length_argument);
    assert_eq!(interpret_outcome(&reply), 10);
    assert!(br.sandbox_free(s));
    assert!(br.sandbox_builder_free(h));
}

#[test]
fn guest_replies_are_reported_by_their_fixed_codes() {
    assert_eq!(interpret_outcome(&GuestOutcome::Returned(0)), 0);
    assert_eq!(interpret_outcome(&GuestOutcome::Returned(-5)), -5);
    assert_eq!(interpret_outcome(&GuestOutcome::WrongShape), RUN_WRONG_RETURN_SHAPE);
    assert_eq!(interpret_outcome(&GuestOutcome::Failed), RUN_ENGINE_FAILURE);
    assert_eq!(RUN_WRONG_RETURN_SHAPE, 8);
    assert_eq!(RUN_ENGINE_FAILURE, 10);
    assert_eq!(RUN_NULL_ARGUMENT, 7);
}

#[test]
fn status_codes_are_the_fixed_boundary_values() {
    assert_eq!(STATUS_OK, 0);
    assert_eq!(STATUS_MODULE_PATH_UNSET, 1);
    assert_eq!(STATUS_NULL_BUILDER_SET_PATH, 2);
    assert_eq!(STATUS_BAD_PATH_STRING, 3);
    assert_eq!(STATUS_NULL_BUILDER_REGISTER, 4);
    assert_eq!(STATUS_BAD_NAME_STRING, 5);
    assert_eq!(STATUS_NULL_BUILDER_BUILD, 6);
}
