//! Artifacts as archives: how the entries of an archive are named when it is
//! built, and which entries are let out when it is unpacked.

use vstd::prelude::*;
use vstd::string::*;
use crate::paths::{join_path, joined_path};
use crate::text::{chars_of, concat2, format_decimal, starts_with};

verus! {

/// Why an archive could not be fetched or unpacked.
#[derive(Debug, PartialEq, Eq)]
pub enum ZipError {
    /// An entry lies outside the expected directory: the expected prefix,
    /// then the entry's name.
    BadPrefix(String, String),
    /// The fetched archive could not be written: the reason, then the file.
    CannotWrite(String, String),
    /// The server answered with another status than 200: the address, then
    /// the status.
    CouldNotRetrieve(String, u16),
    /// A file operation failed; the text says why.
    IoError(String),
    /// The request failed: the reason, then the address.
    ReqwestError(String, String),
    /// The archive is damaged; the text says how.
    ZipError(String),
}

/// An error in words.
pub open spec fn zip_error_text(error: ZipError) -> Seq<char> {
    match error {
        ZipError::BadPrefix(prefix, name) => "file name in zip does not start with "@ + prefix@
            + ": `"@ + name@ + "'"@,
        ZipError::CannotWrite(_, file) => "cannot write zip file "@ + file@,
        ZipError::CouldNotRetrieve(url, status) => "could not retrieve `"@ + url@ + "': "@
            + crate::text::decimal(status as nat),
        ZipError::IoError(_) => "IO error"@,
        ZipError::ReqwestError(_, url) => "could not retrieve `"@ + url@ + "'"@,
        ZipError::ZipError(_) => "error when processing zip file"@,
    }
}

impl ZipError {
    /// The error in words.
    pub fn to_string(&self) -> (r: String)
        ensures
            r@ == zip_error_text(*self),
    {
        match self {
            ZipError::BadPrefix(prefix, name) => {
                let mut r = "file name in zip does not start with ".to_owned();
                r.append(prefix.as_str());
                r.append(": `");
                r.append(name.as_str());
                r.append("'");
                r
            },
            ZipError::CannotWrite(_, file) => concat2("cannot write zip file ", file.as_str()),
            ZipError::CouldNotRetrieve(url, status) => {
                let mut r = "could not retrieve `".to_owned();
                r.append(url.as_str());
                r.append("': ");
                r.append(format_decimal(*status as u64).as_str());
                r
            },
            ZipError::IoError(_) => "IO error".to_owned(),
            ZipError::ReqwestError(_, url) => {
                let mut r = "could not retrieve `".to_owned();
                r.append(url.as_str());
                r.append("'");
                r
            },
            ZipError::ZipError(_) => "error when processing zip file".to_owned(),
        }
    }
}

/// Whether an archive is named by an address to fetch it from.
pub open spec fn is_remote(source: Seq<char>) -> bool {
    "http://"@.is_prefix_of(source) || "https://"@.is_prefix_of(source)
}

/// Where an archive comes from.
#[derive(Debug, PartialEq, Eq)]
pub enum ZipSource {
    /// A file that is already there.
    Local { file: String },
    /// An address to fetch, and the file to store what comes back.
    Remote { url: String, download_to: String },
}

/// Tells where an archive comes from. One that is named by an `http://` or
/// `https://` address is fetched into `<prefix>.zip` below `dir` first.
pub fn zip_source(dir: &str, zip_file: &str, prefix: &str) -> (r: ZipSource)
    ensures
        is_remote(zip_file@) ==> (r matches ZipSource::Remote { url, download_to } && url@
            == zip_file@ && download_to@ == joined_path(dir@, prefix@ + ".zip"@)),
        !is_remote(zip_file@) ==> (r matches ZipSource::Local { file } && file@ == zip_file@),
{
    if starts_with(zip_file, "http://") || starts_with(zip_file, "https://") {
        ZipSource::Remote {
            url: zip_file.to_owned(),
            download_to: join_path(dir, concat2(prefix, ".zip").as_str()),
        }
    } else {
        ZipSource::Local { file: zip_file.to_owned() }
    }
}

/// Checks the answer to the request for an archive: only status 200 carries
/// one.
pub fn check_download(url: &str, status: u16) -> (r: Result<(), ZipError>)
    ensures
        status == 200 ==> r is Ok,
        status != 200 ==> (r matches Err(ZipError::CouldNotRetrieve(u, s)) && u@ == url@ && s
            == status),
{
    if status == 200 {
        Ok(())
    } else {
        Err(ZipError::CouldNotRetrieve(url.to_owned(), status))
    }
}

/// An entry of an archive: its name, and its permission bits where the
/// archive records them.
#[derive(Debug, PartialEq, Eq)]
pub struct ZipEntry {
    pub name: String,
    pub unix_mode: Option<u32>,
}

/// An entry is let out when its name is not absolute and begins with the
/// expected directory and a slash.
pub open spec fn entry_ok(name: Seq<char>, prefix: Seq<char>) -> bool {
    !(name.len() > 0 && name[0] == '/') && (prefix + "/"@).is_prefix_of(name)
}

/// How many entries, from the first on, are let out before one is not.
pub open spec fn leading_ok(entries: Seq<ZipEntry>, prefix: Seq<char>) -> nat
    decreases entries.len(),
{
    if entries.len() == 0 || !entry_ok(entries[0].name@, prefix) {
        0
    } else {
        1 + leading_ok(entries.skip(1), prefix)
    }
}

/// What to do with one entry.
#[derive(Debug, PartialEq, Eq)]
pub enum ExtractStep {
    /// Create this directory.
    CreateDir { path: String },
    /// Write the contents of the entry at `index` to this file, and give the
    /// file these permission bits.
    WriteFile { index: usize, path: String, mode: u32 },
}

/// The permission bits of an unpacked file: those of its entry where the
/// archive records them, else read and write for the owner only.
pub open spec fn mode_of(entry: ZipEntry) -> u32 {
    match entry.unix_mode {
        Some(m) => m,
        None => 0o600,
    }
}

/// Whether a step is the one for the entry at `index`, unpacked below `dir`:
/// an entry whose place ends in a slash is a directory, any other a file.
pub open spec fn step_for(step: ExtractStep, dir: Seq<char>, entry: ZipEntry, index: int) -> bool {
    let target = joined_path(dir, entry.name@);
    if target.len() > 0 && target.last() == '/' {
        step matches ExtractStep::CreateDir { path } && path@ == target
    } else {
        step matches ExtractStep::WriteFile { index: i, path, mode } && i == index && path@
            == target && mode == mode_of(entry)
    }
}

/// What unpacking an archive amounts to: the steps to take, in order, and
/// how it ends once they are taken.
#[derive(Debug, PartialEq, Eq)]
pub struct Extraction {
    pub steps: Vec<ExtractStep>,
    pub outcome: Result<String, ZipError>,
}

fn extract_step(dir: &str, entry: &ZipEntry, index: usize) -> (r: ExtractStep)
    ensures
        step_for(r, dir@, *entry, index as int),
{
    let target = join_path(dir, entry.name.as_str());
    let v = chars_of(target.as_str());
    if v.len() > 0 && v[v.len() - 1] == '/' {
        ExtractStep::CreateDir { path: target }
    } else {
        let mode = match entry.unix_mode {
            Some(m) => m,
            None => 0o600,
        };
        ExtractStep::WriteFile { index, path: target, mode }
    }
}

fn entry_is_ok(name: &str, with_slash: &str) -> (r: bool)
    ensures
        r == (!(name@.len() > 0 && name@[0] == '/') && with_slash@.is_prefix_of(name@)),
{
    let v = chars_of(name);
    let absolute = v.len() > 0 && v[0] == '/';
    !absolute && starts_with(name, with_slash)
}

/// Plans the unpacking of an archive into `dir`. Entries are unpacked in
/// order until one lies outside `<prefix>/`; that one ends the unpacking with
/// an error. An archive without such an entry unpacks to `<prefix>` below
/// `dir`.
pub fn unzip(dir: &str, entries: &Vec<ZipEntry>, prefix: &str) -> (r: Extraction)
    ensures
        r.steps.len() == leading_ok(entries@, prefix@),
        forall|i: int|
            0 <= i < r.steps.len() ==> step_for(#[trigger] r.steps[i], dir@, entries[i], i),
        r.steps.len() == entries.len() ==> (r.outcome matches Ok(d) && d@ == joined_path(
            dir@,
            prefix@,
        )),
        r.steps.len() < entries.len() ==> (r.outcome matches Err(ZipError::BadPrefix(p, n)) && p@
            == prefix@ + "/"@ && n@ == entries[r.steps.len() as int].name@),
{
    let with_slash = concat2(prefix, "/");
    let mut steps: Vec<ExtractStep> = Vec::new();
    let mut i: usize = 0;
    assert(entries@.skip(0) =~= entries@);
    while i < entries.len()
        invariant
            i <= entries.len(),
            steps.len() == i,
            with_slash@ == prefix@ + "/"@,
            leading_ok(entries@, prefix@) == i + leading_ok(entries@.skip(i as int), prefix@),
            forall|k: int| 0 <= k < i ==> step_for(#[trigger] steps[k], dir@, entries[k], k),
        decreases entries.len() - i,
    {
        assert(entries@.skip(i as int).skip(1) =~= entries@.skip(i + 1));
        assert(entries@.skip(i as int)[0] == entries[i as int]);
        if !entry_is_ok(entries[i].name.as_str(), with_slash.as_str()) {
            return Extraction {
                steps,
                outcome: Err(ZipError::BadPrefix(with_slash, entries[i].name.clone())),
            };
        }
        let step = extract_step(dir, &entries[i], i);
        steps.push(step);
        i = i + 1;
    }
    Extraction { steps, outcome: Ok(join_path(dir, prefix)) }
}

/// An archive is unpacked to the end exactly when every entry of it lies
/// under the expected directory; a single entry that does not has the
/// archive rejected.
pub proof fn foreign_entries_are_rejected(entries: Seq<ZipEntry>, prefix: Seq<char>)
    ensures
        leading_ok(entries, prefix) <= entries.len(),
        leading_ok(entries, prefix) == entries.len() <==> (forall|i: int|
            0 <= i < entries.len() ==> entry_ok(#[trigger] entries[i].name@, prefix)),
        forall|i: int|
            0 <= i < leading_ok(entries, prefix) ==> entry_ok(#[trigger] entries[i].name@, prefix),
    decreases entries.len(),
{
    if entries.len() > 0 && entry_ok(entries[0].name@, prefix) {
        let rest = entries.skip(1);
        foreign_entries_are_rejected(rest, prefix);
        assert forall|i: int| 0 <= i < leading_ok(entries, prefix) implies entry_ok(
            #[trigger] entries[i].name@,
            prefix,
        ) by {
            if i > 0 {
                assert(entries[i] == rest[i - 1]);
                assert(entry_ok(rest[i - 1].name@, prefix));
            }
        }
        if leading_ok(rest, prefix) == rest.len() {
            assert forall|i: int| 0 <= i < entries.len() implies entry_ok(
                #[trigger] entries[i].name@,
                prefix,
            ) by {
                if i > 0 {
                    assert(entries[i] == rest[i - 1]);
                    assert(entry_ok(rest[i - 1].name@, prefix));
                }
            }
        } else {
            let j = choose|j: int| 0 <= j < rest.len() && !entry_ok(#[trigger] rest[j].name@, prefix);
            assert(entries[j + 1] == rest[j]);
        }
    }
}

} // verus!
