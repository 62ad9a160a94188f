use tokio_with_wasm::macros::{MacroArg, MacroArgsError, check_args_given, check_macro_args, is_ignored};

fn named(name: &str) -> MacroArg {
    MacroArg { name: Some(name.to_owned()), string_value: None }
}

fn with_string(name: &str, value: &str) -> MacroArg {
    MacroArg { name: Some(name.to_owned()), string_value: Some(value.to_owned()) }
}

#[test]
fn no_arguments_refer_to_the_crate_by_its_name() {
    assert_eq!(check_macro_args(&Vec::new()).unwrap(), "tokio_with_wasm");
}

#[test]
fn runtime_arguments_are_accepted_and_ignored() {
    let args = vec![
        with_string("flavor", "multi_thread"),
        named("worker_threads"),
        named("start_paused"),
        named("unhandled_panic"),
    ];
    assert_eq!(check_macro_args(&args).unwrap(), "tokio_with_wasm");
    assert!(is_ignored("flavor"));
    assert!(!is_ignored("crate"));
}

#[test]
fn a_renamed_crate_is_honored() {
    let args = vec![with_string("crate", "renamed_wasm")];
    assert_eq!(check_macro_args(&args).unwrap(), "renamed_wasm");
    let args = vec![with_string("crate", "first"), named("flavor"), with_string("crate", "a::b")];
    assert_eq!(check_macro_args(&args).unwrap(), "a::b");
}

#[test]
fn unknown_arguments_are_refused() {
    let args = vec![named("flavor"), named("flavour")];
    let error = check_macro_args(&args).unwrap_err();
    assert_eq!(error, MacroArgsError::Unknown { index: 1 });
    assert_eq!(
        error.message(),
        "unknown attribute argument; expected one of: `flavor`, `worker_threads`, `start_paused`, `unhandled_panic`, `crate`"
    );
    let unnamed = MacroArg { name: None, string_value: None };
    assert_eq!(check_macro_args(&vec![unnamed]).unwrap_err(), MacroArgsError::Unknown { index: 0 });
}

#[test]
fn the_crate_argument_needs_a_string_that_is_a_path() {
    let error = check_macro_args(&vec![named("crate")]).unwrap_err();
    assert_eq!(error, MacroArgsError::CrateNeedsString { index: 0 });
    assert_eq!(error.message(), "`crate` expects a string literal, like `crate = \"my_alias\"`");
    let error = check_macro_args(&vec![with_string("crate", "not a path")]).unwrap_err();
    assert_eq!(error, MacroArgsError::BadCratePath { index: 0 });
    let error = check_macro_args(&vec![with_string("crate", "")]).unwrap_err();
    assert_eq!(error, MacroArgsError::BadCratePath { index: 0 });
}

#[test]
fn the_first_refused_argument_decides_the_error() {
    let args = vec![with_string("crate", "ok_path"), named("typo"), named("crate")];
    assert_eq!(check_args_given(&args, &vec![true, false, false]).unwrap_err(), MacroArgsError::Unknown {
        index: 1,
    });
    let args = vec![with_string("crate", "whatever")];
    assert_eq!(
        check_args_given(&args, &vec![false]).unwrap_err(),
        MacroArgsError::BadCratePath { index: 0 }
    );
    assert_eq!(check_args_given(&args, &vec![true]).unwrap(), "whatever");
}
