use environment_cache::interpreter::{
    base_interpreter, base_lookup, choose_base, is_own_base, BaseInterpreter, BaseLookup,
};

#[test]
fn base_lookup_follows_symlinks_where_environments_link() {
    assert_eq!(base_lookup(true), BaseLookup::FollowSymlinks);
    assert_eq!(base_lookup(false), BaseLookup::BasePrefix);
}

#[test]
fn interpreter_that_is_its_own_base_is_kept() {
    let choice = base_interpreter("/usr/bin/python3", "/usr/bin/python3".to_string());
    assert_eq!(choice, BaseInterpreter::Current);
}

#[test]
fn interpreter_of_a_virtual_environment_gives_its_base() {
    let choice = base_interpreter("/work/.venv/bin/python", "/usr/bin/python3.12".to_string());
    assert_eq!(choice, BaseInterpreter::Other("/usr/bin/python3.12".to_string()));
}

#[test]
fn own_base_is_told_as_paths_are_compared() {
    assert!(is_own_base("/usr/bin/python3", "/usr/bin/python3"));
    assert!(is_own_base("/usr/bin/python3", "/usr/bin//python3"));
    assert!(is_own_base("/usr/bin/python3", "/usr/bin/./python3"));
    assert!(!is_own_base("/usr/bin/python3", "/usr/bin/python"));
    assert!(!is_own_base("/usr/bin/python3", "usr/bin/python3"));
}

#[test]
fn choose_base_follows_the_answer() {
    assert_eq!(choose_base(true, "/usr/bin/python3".to_string()), BaseInterpreter::Current);
    assert_eq!(
        choose_base(false, "/usr/bin/python3".to_string()),
        BaseInterpreter::Other("/usr/bin/python3".to_string())
    );
}
