//! Which interpreter an environment is cached under: the base interpreter
//! that underlies the one the caller has, so that every virtual environment
//! on top of one installation shares that installation's cached environments.

use vstd::prelude::*;

verus! {

/// How the base of an interpreter is found.
#[derive(Clone, Copy, Debug, PartialEq, Eq, Structural)]
pub enum BaseLookup {
    /// Follow the executable through its symbolic links.
    FollowSymlinks,
    /// Ask the interpreter for its base prefix.
    BasePrefix,
}

/// The interpreter to cache under, once the base executable is known.
#[derive(Clone, Debug, PartialEq, Eq)]
pub enum BaseInterpreter {
    /// The interpreter at hand is its own base: it is used as it is, and no
    /// interpreter is queried.
    Current,
    /// The base is another executable, which has to be queried.
    Other(String),
}

/// What a [`BaseInterpreter`] is.
pub enum BaseChoice {
    Current,
    Other(Seq<char>),
}

impl View for BaseInterpreter {
    type V = BaseChoice;

    open spec fn view(&self) -> BaseChoice {
        match self {
            BaseInterpreter::Current => BaseChoice::Current,
            BaseInterpreter::Other(path) => BaseChoice::Other(path@),
        }
    }
}

/// Whether `std::path::Path` holds two paths, given as text, to be equal.
pub uninterp spec fn same_path(a: Seq<char>, b: Seq<char>) -> bool;

/// The lookup that finds an interpreter's base: through symbolic links where
/// virtual environments link to their interpreter, through the base prefix
/// elsewhere.
pub open spec fn base_lookup_for(symlink_environments: bool) -> BaseLookup {
    if symlink_environments {
        BaseLookup::FollowSymlinks
    } else {
        BaseLookup::BasePrefix
    }
}

/// The interpreter to cache under: the one at hand if it is its own base,
/// else the one at the base path.
pub open spec fn base_choice(is_current: bool, base_python: Seq<char>) -> BaseChoice {
    if is_current {
        BaseChoice::Current
    } else {
        BaseChoice::Other(base_python)
    }
}

/// Compares two paths with `==` of `std::path::Path`. Trusted: the result is
/// that comparison's, and a path equals itself.
#[verifier::external_body]
fn paths_equal(a: &str, b: &str) -> (same: bool)
    ensures
        same == same_path(a@, b@),
        a@ == b@ ==> same,
{
    std::path::Path::new(a) == std::path::Path::new(b)
}

/// Whether the base executable that was found for an interpreter is the
/// interpreter's own executable.
pub fn is_own_base(sys_executable: &str, base_python: &str) -> (own: bool)
    ensures
        own == same_path(base_python@, sys_executable@),
        sys_executable@ == base_python@ ==> own,
{
    paths_equal(base_python, sys_executable)
}

/// The lookup that finds an interpreter's base on a platform.
pub fn base_lookup(symlink_environments: bool) -> (lookup: BaseLookup)
    ensures
        lookup == base_lookup_for(symlink_environments),
{
    if symlink_environments {
        BaseLookup::FollowSymlinks
    } else {
        BaseLookup::BasePrefix
    }
}

/// The interpreter to cache under, given whether the interpreter at hand is
/// its own base.
pub fn choose_base(is_current: bool, base_python: String) -> (choice: BaseInterpreter)
    ensures
        choice@ == base_choice(is_current, base_python@),
{
    if is_current {
        BaseInterpreter::Current
    } else {
        BaseInterpreter::Other(base_python)
    }
}

/// The interpreter to cache under, given the executable of the interpreter
/// at hand and the base executable that the lookup found. An interpreter
/// whose base is its own executable is used as it is.
pub fn base_interpreter(sys_executable: &str, base_python: String) -> (choice: BaseInterpreter)
    ensures
        choice@ == base_choice(same_path(base_python@, sys_executable@), base_python@),
        sys_executable@ == base_python@ ==> choice@ == BaseChoice::Current,
{
    let is_current = is_own_base(sys_executable, base_python.as_str());
    choose_base(is_current, base_python)
}

} // verus!
