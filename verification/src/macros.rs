//! The arguments that the `main` and `test` attribute macros accept.
//!
//! The runtime arguments of real `tokio` configure a native runtime that
//! does not exist on the web, so their values are ignored; `crate = "..."`
//! renames the path that the expansion refers to this crate by, for
//! dependencies renamed in `Cargo.toml`; any other argument is an error, so
//! that a typo does not pass silently on the web target only.

use vstd::prelude::*;
use crate::fs::error::same_text;

verus! {

/// One argument of the attribute, as plain values.
pub struct MacroArg {
    /// The argument's name, when its path is a single identifier.
    pub name: Option<String>,
    /// The string, when the argument has the form `name = "string"`.
    pub string_value: Option<String>,
}

/// One argument of the attribute, as the contracts see it.
pub ghost struct MacroArgView {
    pub name: Option<Seq<char>>,
    pub string_value: Option<Seq<char>>,
}

impl View for MacroArg {
    type V = MacroArgView;

    open spec fn view(&self) -> MacroArgView {
        MacroArgView {
            name: match self.name {
                Some(name) => Some(name@),
                None => None,
            },
            string_value: match self.string_value {
                Some(value) => Some(value@),
                None => None,
            },
        }
    }
}

/// Why the arguments were refused, and which argument it was, counting
/// from zero.
#[derive(Clone, Copy, Debug, PartialEq, Eq, Structural)]
pub enum MacroArgsError {
    /// The argument is none of the accepted ones.
    Unknown { index: usize },
    /// `crate` was given something other than a string literal.
    CrateNeedsString { index: usize },
    /// The string given to `crate` is not a path.
    BadCratePath { index: usize },
}

/// The message of an error, except for a string that is not a path, whose
/// message comes from the parser that refused it.
pub open spec fn spec_args_error_message(error: MacroArgsError) -> Seq<char> {
    match error {
        MacroArgsError::Unknown { .. } => "unknown attribute argument; expected one of: `flavor`, `worker_threads`, `start_paused`, `unhandled_panic`, `crate`"@,
        MacroArgsError::CrateNeedsString { .. } => "`crate` expects a string literal, like `crate = \"my_alias\"`"@,
        MacroArgsError::BadCratePath { .. } => "the `crate` argument is not a path"@,
    }
}

impl MacroArgsError {
    /// Returns the message of the error.
    pub fn message(&self) -> (text: &'static str)
        ensures
            text@ == spec_args_error_message(*self),
    {
        match self {
            MacroArgsError::Unknown { .. } => "unknown attribute argument; expected one of: `flavor`, `worker_threads`, `start_paused`, `unhandled_panic`, `crate`",
            MacroArgsError::CrateNeedsString { .. } => "`crate` expects a string literal, like `crate = \"my_alias\"`",
            MacroArgsError::BadCratePath { .. } => "the `crate` argument is not a path",
        }
    }
}

/// Whether `name` is a runtime argument of real `tokio`, accepted and
/// ignored here.
pub open spec fn spec_is_ignored(name: Seq<char>) -> bool {
    name == "flavor"@ || name == "worker_threads"@ || name == "start_paused"@ || name
        == "unhandled_panic"@
}

/// Returns whether `name` is a runtime argument of real `tokio`.
pub fn is_ignored(name: &str) -> (ignored: bool)
    ensures
        ignored == spec_is_ignored(name@),
{
    same_text(name, "flavor") || same_text(name, "worker_threads") || same_text(
        name,
        "start_paused",
    ) || same_text(name, "unhandled_panic")
}

/// The path the expansion refers to this crate by, unless renamed.
pub open spec fn spec_default_crate_path() -> Seq<char> {
    "tokio_with_wasm"@
}

/// The outcome of checking the arguments from the `i`-th on, when the path
/// so far is `path` and `valid[k]` tells whether the string of the `k`-th
/// argument is a path: the first refused argument decides the error, and
/// the last `crate` argument decides the path.
pub open spec fn spec_check_from(
    args: Seq<MacroArgView>,
    valid: Seq<bool>,
    i: int,
    path: Seq<char>,
) -> Result<Seq<char>, MacroArgsError>
    decreases args.len() - i,
{
    if i >= args.len() || i < 0 {
        Ok(path)
    } else {
        match args[i].name {
            None => Err(MacroArgsError::Unknown { index: i as usize }),
            Some(name) => if name == "crate"@ {
                match args[i].string_value {
                    None => Err(MacroArgsError::CrateNeedsString { index: i as usize }),
                    Some(value) => if valid[i] {
                        spec_check_from(args, valid, i + 1, value)
                    } else {
                        Err(MacroArgsError::BadCratePath { index: i as usize })
                    },
                }
            } else if spec_is_ignored(name) {
                spec_check_from(args, valid, i + 1, path)
            } else {
                Err(MacroArgsError::Unknown { index: i as usize })
            },
        }
    }
}

/// The outcome of checking all of `args`, given which strings are paths.
pub open spec fn spec_check(args: Seq<MacroArgView>, valid: Seq<bool>) -> Result<
    Seq<char>,
    MacroArgsError,
> {
    spec_check_from(args, valid, 0, spec_default_crate_path())
}

/// An outcome of checking, as plain values.
pub open spec fn spec_outcome_view(outcome: Result<String, MacroArgsError>) -> Result<
    Seq<char>,
    MacroArgsError,
> {
    match outcome {
        Ok(path) => Ok(path@),
        Err(error) => Err(error),
    }
}

/// Checks the attribute arguments, given for each of them whether its
/// string, if it has one, is a path, and returns the path that the
/// expansion should refer to this crate by.
pub fn check_args_given(args: &Vec<MacroArg>, valid: &Vec<bool>) -> (outcome: Result<
    String,
    MacroArgsError,
>)
    requires
        valid.len() == args.len(),
    ensures
        spec_outcome_view(outcome) == spec_check(args@.map_values(|a: MacroArg| a@), valid@),
{
    let ghost views = args@.map_values(|a: MacroArg| a@);
    proof {
        reveal_strlit("tokio_with_wasm");
    }
    let mut path = "tokio_with_wasm".to_owned();
    let mut i: usize = 0;
    while i < args.len()
        invariant
            i <= args.len(),
            valid.len() == args.len(),
            views == args@.map_values(|a: MacroArg| a@),
            spec_check(views, valid@) == spec_check_from(views, valid@, i as int, path@),
        decreases args.len() - i,
    {
        let arg = &args[i];
        assert(views[i as int] == arg@);
        match &arg.name {
            None => {
                return Err(MacroArgsError::Unknown { index: i });
            },
            Some(name) => {
                if same_text(name.as_str(), "crate") {
                    match &arg.string_value {
                        None => {
                            return Err(MacroArgsError::CrateNeedsString { index: i });
                        },
                        Some(value) => {
                            if !valid[i] {
                                return Err(MacroArgsError::BadCratePath { index: i });
                            }
                            path = value.clone();
                        },
                    }
                } else if !is_ignored(name.as_str()) {
                    return Err(MacroArgsError::Unknown { index: i });
                }
            },
        }
        i = i + 1;
    }
    Ok(path)
}

/// Runtime arguments change nothing: from the `i`-th argument on, when all
/// of them are runtime arguments of real `tokio`, the path stays as it is.
proof fn lemma_ignored_from(args: Seq<MacroArgView>, valid: Seq<bool>, i: int, path: Seq<char>)
    requires
        0 <= i,
        forall|k: int|
            0 <= k < args.len() ==> (#[trigger] args[k].name matches Some(name) && spec_is_ignored(
                name,
            )),
    ensures
        spec_check_from(args, valid, i, path) == Ok::<Seq<char>, MacroArgsError>(path),
    decreases args.len() - i,
{
    if i < args.len() {
        let name = args[i].name.unwrap();
        assert(spec_is_ignored(name));
        reveal_strlit("crate");
        reveal_strlit("flavor");
        reveal_strlit("worker_threads");
        reveal_strlit("start_paused");
        reveal_strlit("unhandled_panic");
        assert(name != "crate"@) by {
            if name == "crate"@ {
                assert(name.len() == 5);
                assert(name[0] == 'c');
            }
        }
        lemma_ignored_from(args, valid, i + 1, path);
    }
}

/// The runtime arguments of real `tokio` are accepted and change nothing:
/// arguments that are all among them leave the expansion referring to
/// this crate by its own name.
pub proof fn lemma_runtime_arguments_change_nothing(args: Seq<MacroArgView>, valid: Seq<bool>)
    requires
        forall|k: int|
            0 <= k < args.len() ==> (#[trigger] args[k].name matches Some(name) && spec_is_ignored(
                name,
            )),
    ensures
        spec_check(args, valid) == Ok::<Seq<char>, MacroArgsError>(spec_default_crate_path()),
{
    lemma_ignored_from(args, valid, 0, spec_default_crate_path());
}

/// Whether `text` parses as a Rust path, such as `my_alias` or `a::b`, by
/// the `syn` crate's parser.
pub uninterp spec fn parses_as_path(text: Seq<char>) -> bool;

/// Asks `syn::parse_str::<syn::Path>` whether `text` parses as a Rust path.
/// What it accepts is the grammar of paths, which is not restated here; the
/// answer depends on the text alone.
#[verifier::external_body]
fn is_path(text: &str) -> (valid: bool)
    ensures
        valid == parses_as_path(text@),
{
    syn::parse_str::<syn::Path>(text).is_ok()
}

/// For each argument, whether it names `crate` with a string that parses
/// as a path.
pub open spec fn spec_path_checks(args: Seq<MacroArgView>) -> Seq<bool> {
    Seq::new(
        args.len(),
        |k: int|
            match args[k].string_value {
                Some(value) => args[k].name == Some("crate"@) && parses_as_path(value),
                None => false,
            },
    )
}

/// Checks the attribute arguments that real `tokio` macros accept and
/// returns the path that the expansion should refer to this crate by.
pub fn check_macro_args(args: &Vec<MacroArg>) -> (outcome: Result<String, MacroArgsError>)
    ensures
        spec_outcome_view(outcome) == spec_check(
            args@.map_values(|a: MacroArg| a@),
            spec_path_checks(args@.map_values(|a: MacroArg| a@)),
        ),
{
    let ghost views = args@.map_values(|a: MacroArg| a@);
    let mut valid: Vec<bool> = Vec::new();
    let mut i: usize = 0;
    while i < args.len()
        invariant
            i <= args.len(),
            valid.len() == i,
            views == args@.map_values(|a: MacroArg| a@),
            forall|k: int| 0 <= k < i ==> valid@[k] == #[trigger] spec_path_checks(views)[k],
        decreases args.len() - i,
    {
        let arg = &args[i];
        assert(views[i as int] == arg@);
        let checked = match (&arg.name, &arg.string_value) {
            (Some(name), Some(value)) => same_text(name.as_str(), "crate") && is_path(
                value.as_str(),
            ),
            _ => false,
        };
        valid.push(checked);
        i = i + 1;
    }
    assert(valid@ =~= spec_path_checks(views));
    check_args_given(args, &valid)
}

} // verus!
