use file_explorer::filesystem::explorer::{
    copy_file_to_cache, cut_file, delete_file, make_file, paste_file, rename_file, FileOp,
    FsError,
};

fn s(x: &str) -> String {
    x.to_string()
}

#[test]
fn make_file_creates_placeholder_in_directory() {
    assert_eq!(
        make_file(&s("/d"), &s("f.txt")),
        vec![FileOp::CreateNew { path: s("/d/f.txt"), content: s("Initial content\n") }]
    );
}

#[test]
fn rename_targets_new_name_in_directory() {
    assert_eq!(
        rename_file(&s("/d/old.txt"), &s("/d"), &s("new")),
        vec![FileOp::Rename { from: s("/d/old.txt"), to: s("/d/new") }]
    );
}

#[test]
fn delete_removes_path() {
    assert_eq!(delete_file(&s("/d/x")), vec![FileOp::Remove(s("/d/x"))]);
}

#[test]
fn staging_copies_then_clears_previous_file() {
    assert_eq!(
        copy_file_to_cache("/src/p.bin", &s("/exe/cache"), &vec![s("/exe/cache/old.bin")]),
        vec![
            FileOp::CreateDir(s("/exe/cache")),
            FileOp::Copy { from: s("/src/p.bin"), to: s("/exe/cache/p.bin") },
            FileOp::Remove(s("/exe/cache/old.bin")),
        ]
    );
}

#[test]
fn staging_with_empty_area() {
    assert_eq!(
        copy_file_to_cache("C:\\w\\q.txt", &s("/c"), &Vec::new()),
        vec![FileOp::CreateDir(s("/c")), FileOp::Copy { from: s("C:\\w\\q.txt"), to: s("/c/q.txt") }]
    );
}

#[test]
fn staging_keeps_the_copy_target() {
    assert_eq!(
        copy_file_to_cache("/src/p.bin", &s("/c"), &vec![s("/c/p.bin"), s("/c/q.bin")]),
        vec![
            FileOp::CreateDir(s("/c")),
            FileOp::Copy { from: s("/src/p.bin"), to: s("/c/p.bin") },
            FileOp::Remove(s("/c/q.bin")),
        ]
    );
}

#[test]
fn staging_never_removes_outside_staging_directory() {
    assert_eq!(
        copy_file_to_cache("/src/p.bin", &s("/c"), &vec![s("/home/me/keep.txt"), s("/c/sub/x")]),
        vec![FileOp::CreateDir(s("/c")), FileOp::Copy { from: s("/src/p.bin"), to: s("/c/p.bin") }]
    );
}

#[test]
fn staging_an_already_staged_file_keeps_it() {
    assert_eq!(
        copy_file_to_cache("/c/p.bin", &s("/c"), &vec![s("/c/p.bin"), s("/c/old.bin")]),
        vec![FileOp::CreateDir(s("/c")), FileOp::Remove(s("/c/old.bin"))]
    );
}

#[test]
fn cut_stages_before_removing() {
    assert_eq!(
        cut_file(&s("/src/p.bin"), &s("/c"), &vec![s("/c/old.bin")]),
        vec![
            FileOp::CreateDir(s("/c")),
            FileOp::Copy { from: s("/src/p.bin"), to: s("/c/p.bin") },
            FileOp::Remove(s("/c/old.bin")),
            FileOp::Remove(s("/src/p.bin")),
        ]
    );
}

#[test]
fn cut_of_staged_file_does_not_remove_it() {
    assert_eq!(
        cut_file(&s("/c/p.bin"), &s("/c"), &vec![s("/c/p.bin")]),
        vec![FileOp::CreateDir(s("/c"))]
    );
}

#[test]
fn paste_copies_under_original_name_then_clears() {
    assert_eq!(
        paste_file(&s("/dest"), &vec![s("/c/p.bin")]),
        Ok(vec![
            FileOp::Copy { from: s("/c/p.bin"), to: s("/dest/p.bin") },
            FileOp::Remove(s("/c/p.bin")),
        ])
    );
}

#[test]
fn stage_then_paste_keeps_name() {
    let stage = copy_file_to_cache("/src/p.bin", &s("/c"), &Vec::new());
    let staged_at = match stage.last() {
        Some(FileOp::Copy { to, .. }) => to.clone(),
        other => panic!("unexpected {:?}", other),
    };
    let paste = paste_file(&s("/d"), &vec![staged_at.clone()]).unwrap();
    assert_eq!(paste[0], FileOp::Copy { from: staged_at.clone(), to: s("/d/p.bin") });
    assert_eq!(paste[1], FileOp::Remove(staged_at));
    assert_eq!(paste_file(&s("/d"), &Vec::new()), Err(FsError::NothingStaged));
}

#[test]
fn paste_with_nothing_staged_fails() {
    assert_eq!(paste_file(&s("/dest"), &Vec::new()), Err(FsError::NothingStaged));
}

#[test]
fn error_messages() {
    assert_eq!(FsError::NotFound.message(), "not found");
    assert_eq!(FsError::NotADirectory.message(), "not a directory");
    assert_eq!(FsError::AlreadyExists.message(), "already exists");
    assert_eq!(FsError::PermissionDenied.message(), "permission denied");
    assert_eq!(FsError::NothingStaged.message(), "nothing staged");
    assert_eq!(FsError::InvalidPath.message(), "invalid path");
    assert_eq!(FsError::Other.message(), "operation failed");
}
