use graders::ziputils::{
    check_download, unzip, zip_source, ExtractStep, ZipEntry, ZipError, ZipSource,
};

fn entry(name: &str, unix_mode: Option<u32>) -> ZipEntry {
    ZipEntry { name: name.to_owned(), unix_mode }
}

#[test]
fn archives_are_local_or_remote() {
    assert_eq!(
        zip_source("/tmp/x", "/data/a.zip", "dt"),
        ZipSource::Local { file: "/data/a.zip".to_owned() }
    );
    assert_eq!(
        zip_source("/tmp/x", "http://d/zips/a.zip", "dt"),
        ZipSource::Remote {
            url: "http://d/zips/a.zip".to_owned(),
            download_to: "/tmp/x/dt.zip".to_owned()
        }
    );
    assert_eq!(
        zip_source("/tmp/x", "https://d/zips/a.zip", "dt"),
        ZipSource::Remote {
            url: "https://d/zips/a.zip".to_owned(),
            download_to: "/tmp/x/dt.zip".to_owned()
        }
    );
    assert_eq!(
        zip_source("/tmp/x", "ftp://d/a.zip", "dt"),
        ZipSource::Local { file: "ftp://d/a.zip".to_owned() }
    );
    assert_eq!(
        zip_source("/tmp/x", "http:/d/a.zip", "dt"),
        ZipSource::Local { file: "http:/d/a.zip".to_owned() }
    );
}

#[test]
fn only_status_200_carries_an_archive() {
    assert_eq!(check_download("http://d/a.zip", 200), Ok(()));
    assert_eq!(
        check_download("http://d/a.zip", 404),
        Err(ZipError::CouldNotRetrieve("http://d/a.zip".to_owned(), 404))
    );
    assert_eq!(
        check_download("http://d/a.zip", 204),
        Err(ZipError::CouldNotRetrieve("http://d/a.zip".to_owned(), 204))
    );
}

#[test]
fn a_good_archive_is_unpacked_in_order() {
    let entries = vec![
        entry("dt/", None),
        entry("dt/configure", Some(0o100755)),
        entry("dt/src/", Some(0o40755)),
        entry("dt/src/main.c", None),
    ];
    let plan = unzip("/tmp/x", &entries, "dt");
    assert_eq!(
        plan.steps,
        vec![
            ExtractStep::CreateDir { path: "/tmp/x/dt/".to_owned() },
            ExtractStep::WriteFile {
                index: 1,
                path: "/tmp/x/dt/configure".to_owned(),
                mode: 0o100755
            },
            ExtractStep::CreateDir { path: "/tmp/x/dt/src/".to_owned() },
            ExtractStep::WriteFile {
                index: 3,
                path: "/tmp/x/dt/src/main.c".to_owned(),
                mode: 0o600
            },
        ]
    );
    assert_eq!(plan.outcome, Ok("/tmp/x/dt".to_owned()));
}

#[test]
fn an_empty_archive_unpacks_to_nothing() {
    let plan = unzip("/tmp/x", &vec![], "dt");
    assert!(plan.steps.is_empty());
    assert_eq!(plan.outcome, Ok("/tmp/x/dt".to_owned()));
}

#[test]
fn zip_prefix_enforcement() {
    let entries = vec![entry("dt/", None), entry("other/file", None), entry("dt/late", None)];
    let plan = unzip("/tmp/x", &entries, "dt");
    assert_eq!(plan.steps, vec![ExtractStep::CreateDir { path: "/tmp/x/dt/".to_owned() }]);
    assert_eq!(
        plan.outcome,
        Err(ZipError::BadPrefix("dt/".to_owned(), "other/file".to_owned()))
    );
}

#[test]
fn entries_outside_the_prefix_are_rejected() {
    for bad in ["/dt/file", "/etc/passwd", "dtx/file", "dt", "", "./dt/file", "a/dt/file", "DT/x"] {
        let plan = unzip("/tmp/x", &vec![entry(bad, None)], "dt");
        assert!(plan.steps.is_empty(), "{bad}");
        assert_eq!(
            plan.outcome,
            Err(ZipError::BadPrefix("dt/".to_owned(), bad.to_owned())),
            "{bad}"
        );
    }
}

#[test]
fn absolute_entries_are_rejected_even_under_an_absolute_prefix() {
    let plan = unzip("/tmp/x", &vec![entry("/dt/file", None)], "/dt");
    assert_eq!(
        plan.outcome,
        Err(ZipError::BadPrefix("/dt/".to_owned(), "/dt/file".to_owned()))
    );
}

#[test]
fn zip_errors_in_words() {
    assert_eq!(
        ZipError::BadPrefix("dt/".to_owned(), "x/y".to_owned()).to_string(),
        "file name in zip does not start with dt/: `x/y'"
    );
    assert_eq!(
        ZipError::CannotWrite("disk full".to_owned(), "/tmp/dt.zip".to_owned()).to_string(),
        "cannot write zip file /tmp/dt.zip"
    );
    assert_eq!(
        ZipError::CouldNotRetrieve("http://d/a.zip".to_owned(), 404).to_string(),
        "could not retrieve `http://d/a.zip': 404"
    );
    assert_eq!(ZipError::IoError("denied".to_owned()).to_string(), "IO error");
    assert_eq!(
        ZipError::ReqwestError("timeout".to_owned(), "http://d/a.zip".to_owned()).to_string(),
        "could not retrieve `http://d/a.zip'"
    );
    assert_eq!(
        ZipError::ZipError("bad magic".to_owned()).to_string(),
        "error when processing zip file"
    );
}
