use desktop_bootstrap::exe_path::{dir_or_no_parent, exe_dir, exe_dir_of, ExePathError};
use std::path::PathBuf;

#[test]
fn unknown_executable_is_unresolved() {
    assert_eq!(exe_dir(None), Err(ExePathError::Unresolved));
}

#[test]
fn executable_in_a_directory_gives_that_directory() {
    let exe = PathBuf::from("/opt/app/bin/app");
    assert_eq!(exe_dir(Some(exe)), Ok(PathBuf::from("/opt/app/bin")));
}

#[test]
fn directory_differs_from_the_executable() {
    let exe = PathBuf::from("/opt/shell/bin/shell");
    assert_ne!(exe_dir(Some(exe.clone())), Ok(exe));
}

#[test]
fn parent_components_are_kept_unresolved() {
    let exe = PathBuf::from("/opt/app/../bin/app");
    let dir = exe_dir(Some(exe));
    assert_eq!(dir, Ok(PathBuf::from("/opt/app/../bin")));
    assert_ne!(dir, Ok(PathBuf::from("/opt/bin")));
}

#[test]
fn executable_under_the_root_gives_the_root() {
    assert_eq!(exe_dir(Some(PathBuf::from("/app"))), Ok(PathBuf::from("/")));
}

#[test]
fn root_has_no_parent() {
    assert_eq!(exe_dir(Some(PathBuf::from("/"))), Err(ExePathError::NoParent));
}

#[test]
fn empty_path_has_no_parent() {
    assert_eq!(exe_dir(Some(PathBuf::new())), Err(ExePathError::NoParent));
}

#[test]
fn bare_file_name_gives_the_empty_directory() {
    assert_eq!(exe_dir(Some(PathBuf::from("shell"))), Ok(PathBuf::new()));
}

#[test]
fn equal_paths_give_equal_directories() {
    let first = exe_dir(Some(PathBuf::from("/srv/shell/shell")));
    let second = exe_dir(Some(PathBuf::from("/srv/shell/shell")));
    assert_eq!(first, second);
    assert_eq!(first, Ok(PathBuf::from("/srv/shell")));
}

#[test]
fn directory_joined_with_the_file_name_is_the_executable() {
    let exe = PathBuf::from("/opt/app/bin/app");
    let dir = exe_dir(Some(exe.clone())).unwrap();
    assert_eq!(dir.join("app"), exe);
}

#[test]
fn directory_of_a_path_with_a_parent() {
    assert_eq!(
        exe_dir_of(&PathBuf::from("/opt/app/bin/app")),
        PathBuf::from("/opt/app/bin")
    );
    assert_eq!(exe_dir_of(&PathBuf::from("/app")), PathBuf::from("/"));
    assert_eq!(
        exe_dir_of(&PathBuf::from("/opt/app/../bin/app")),
        PathBuf::from("/opt/app/../bin")
    );
}

#[test]
fn both_functions_agree_where_a_parent_exists() {
    let exe = PathBuf::from("relative/dir/shell");
    assert_eq!(exe_dir(Some(exe.clone())), Ok(exe_dir_of(&exe)));
}

#[test]
fn parent_that_was_found_is_the_directory() {
    let parent = PathBuf::from("/usr/local/bin");
    assert_eq!(dir_or_no_parent(Some(parent.clone())), Ok(parent));
}

#[test]
fn missing_parent_is_reported() {
    assert_eq!(dir_or_no_parent(None), Err(ExePathError::NoParent));
}
