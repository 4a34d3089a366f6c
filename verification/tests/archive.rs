use graders::archive::{add_to_zip, zip_recursive, ArchiveEntry, FsNode};
use graders::ziputils::{unzip, ZipEntry};

fn file(name: &str, mode: u32) -> FsNode {
    FsNode::File { name: name.to_owned(), mode }
}

fn dir(name: &str, children: Vec<FsNode>) -> FsNode {
    FsNode::Dir { name: name.to_owned(), children }
}

fn record(name: &str) -> ArchiveEntry {
    ArchiveEntry::Directory { name: name.to_owned() }
}

fn archived(name: &str, source: &str, unix_mode: u32) -> ArchiveEntry {
    ArchiveEntry::File { name: name.to_owned(), source: source.to_owned(), unix_mode }
}

fn tree() -> Vec<FsNode> {
    vec![
        file("configure", 0o100755),
        dir(
            "src",
            vec![
                file("main.c", 0o100644),
                dir("empty", vec![]),
                FsNode::Other { name: "socket".to_owned() },
                dir("driver", vec![file("dtiger", 0o100700)]),
            ],
        ),
        FsNode::Other { name: "fifo".to_owned() },
        file("Makefile", 0o100644),
    ]
}

#[test]
fn an_empty_directory_is_one_record() {
    assert_eq!(zip_recursive(&vec![], "/tmp/c/lab1/dt", "dt"), vec![record("dt/")]);
}

#[test]
fn a_tree_is_archived_depth_first_under_the_top_level_name() {
    assert_eq!(
        zip_recursive(&tree(), "/tmp/c/lab1/dt", "top"),
        vec![
            record("top/"),
            archived("top/configure", "/tmp/c/lab1/dt/configure", 0o100755),
            record("top/src/"),
            archived("top/src/main.c", "/tmp/c/lab1/dt/src/main.c", 0o100644),
            record("top/src/empty/"),
            record("top/src/driver/"),
            archived("top/src/driver/dtiger", "/tmp/c/lab1/dt/src/driver/dtiger", 0o100700),
            archived("top/Makefile", "/tmp/c/lab1/dt/Makefile", 0o100644),
        ]
    );
}

#[test]
fn entries_are_appended_to_what_is_there() {
    let mut out = vec![record("x/")];
    add_to_zip(&mut out, &vec![file("a", 0o644)], "/d", "y");
    assert_eq!(out, vec![record("x/"), record("y/"), archived("y/a", "/d/a", 0o644)]);
}

#[test]
fn what_is_archived_can_be_unpacked() {
    let entries: Vec<ZipEntry> = zip_recursive(&tree(), "/tmp/c/lab1/dt", "dt")
        .into_iter()
        .map(|e| match e {
            ArchiveEntry::Directory { name } => ZipEntry { name, unix_mode: None },
            ArchiveEntry::File { name, unix_mode, .. } => {
                ZipEntry { name, unix_mode: Some(unix_mode) }
            }
        })
        .collect();
    let plan = unzip("/out", &entries, "dt");
    assert_eq!(plan.steps.len(), entries.len());
    assert_eq!(plan.outcome, Ok("/out/dt".to_owned()));
    let other = unzip("/out", &entries, "other");
    assert!(other.steps.is_empty());
    assert!(other.outcome.is_err());
}
