//! Building an artifact: the entries that the archive of a directory tree
//! is made of.

use vstd::prelude::*;
use vstd::string::*;
use crate::paths::{join_path, joined_path};
use crate::text::concat2;
use crate::ziputils::entry_ok;

verus! {

/// What was found in a directory that is to be archived.
#[derive(Debug, PartialEq, Eq)]
pub enum FsNode {
    /// A regular file, with its permission bits.
    File { name: String, mode: u32 },
    /// A directory, with what was found in it, in the order of reading.
    Dir { name: String, children: Vec<FsNode> },
    /// Anything else; it is left out of the archive.
    Other { name: String },
}

/// An entry of an archive that is being built.
#[derive(Debug, PartialEq, Eq)]
pub enum ArchiveEntry {
    /// The record of a directory; its name ends in a slash.
    Directory { name: String },
    /// A file: its name in the archive, where its contents are read from,
    /// and its permission bits.
    File { name: String, source: String, unix_mode: u32 },
}

/// What an entry holds.
pub enum EntryView {
    Directory { name: Seq<char> },
    File { name: Seq<char>, source: Seq<char>, unix_mode: u32 },
}

impl View for ArchiveEntry {
    type V = EntryView;

    open spec fn view(&self) -> EntryView {
        match *self {
            ArchiveEntry::Directory { name } => EntryView::Directory { name: name@ },
            ArchiveEntry::File { name, source, unix_mode } => EntryView::File {
                name: name@,
                source: source@,
                unix_mode,
            },
        }
    }
}

/// The views of a list of entries, in order.
pub open spec fn entries_view(entries: Seq<ArchiveEntry>) -> Seq<EntryView> {
    Seq::new(entries.len(), |i: int| entries[i]@)
}

/// The entries for the first `n` of the things found in the directory `dir`,
/// which goes into the archive as `dir_in_zip`.
pub open spec fn children_entries(
    children: Seq<FsNode>,
    n: nat,
    dir: Seq<char>,
    dir_in_zip: Seq<char>,
) -> Seq<EntryView>
    decreases children, n,
{
    if n == 0 || n > children.len() {
        Seq::empty()
    } else {
        children_entries(children, (n - 1) as nat, dir, dir_in_zip) + node_entries(
            children[n - 1],
            dir,
            dir_in_zip,
        )
    }
}

/// The entries for one thing found in the directory `dir`: a file is one
/// entry, a directory is archived with all that is in it, anything else is
/// left out.
pub open spec fn node_entries(node: FsNode, dir: Seq<char>, dir_in_zip: Seq<char>) -> Seq<
    EntryView,
>
    decreases node, 0nat,
{
    match node {
        FsNode::File { name, mode } => seq![
            EntryView::File {
                name: joined_path(dir_in_zip, name@),
                source: joined_path(dir, name@),
                unix_mode: mode,
            },
        ],
        FsNode::Dir { name, children } => directory_entries(
            children@,
            joined_path(dir, name@),
            joined_path(dir_in_zip, name@),
        ),
        FsNode::Other { .. } => Seq::empty(),
    }
}

/// The entries for a directory: its own record, then what is in it.
pub open spec fn directory_entries(
    children: Seq<FsNode>,
    dir: Seq<char>,
    dir_in_zip: Seq<char>,
) -> Seq<EntryView>
    decreases children, children.len() + 1,
{
    seq![EntryView::Directory { name: dir_in_zip + "/"@ }] + children_entries(
        children,
        children.len(),
        dir,
        dir_in_zip,
    )
}

/// Appends the entries for a directory to an archive that is being built.
pub fn add_to_zip(out: &mut Vec<ArchiveEntry>, children: &Vec<FsNode>, dir: &str, dir_in_zip: &str)
    ensures
        entries_view(final(out)@) == entries_view(old(out)@) + directory_entries(
            children@,
            dir@,
            dir_in_zip@,
        ),
    decreases children,
{
    let ghost before = entries_view(out@);
    out.push(ArchiveEntry::Directory { name: concat2(dir_in_zip, "/") });
    assert(entries_view(out@) =~= before + seq![EntryView::Directory { name: dir_in_zip@ + "/"@ }]);
    let mut i: usize = 0;
    assert(entries_view(out@) =~= before + seq![EntryView::Directory { name: dir_in_zip@ + "/"@ }]
        + children_entries(children@, 0, dir@, dir_in_zip@));
    while i < children.len()
        invariant
            i <= children.len(),
            entries_view(out@) == before + seq![EntryView::Directory { name: dir_in_zip@ + "/"@ }]
                + children_entries(children@, i as nat, dir@, dir_in_zip@),
        decreases children.len() - i,
    {
        let ghost so_far = entries_view(out@);
        match &children[i] {
            FsNode::File { name, mode } => {
                let entry = ArchiveEntry::File {
                    name: join_path(dir_in_zip, name.as_str()),
                    source: join_path(dir, name.as_str()),
                    unix_mode: *mode,
                };
                out.push(entry);
                assert(entries_view(out@) =~= so_far + node_entries(
                    children@[i as int],
                    dir@,
                    dir_in_zip@,
                ));
            },
            FsNode::Dir { name, children: inner } => {
                let below = join_path(dir, name.as_str());
                let below_in_zip = join_path(dir_in_zip, name.as_str());
                add_to_zip(out, inner, below.as_str(), below_in_zip.as_str());
            },
            FsNode::Other { .. } => {
                assert(so_far + node_entries(children@[i as int], dir@, dir_in_zip@) =~= so_far);
            },
        }
        assert(entries_view(out@) =~= before + seq![
            EntryView::Directory { name: dir_in_zip@ + "/"@ },
        ] + children_entries(children@, (i + 1) as nat, dir@, dir_in_zip@));
        i = i + 1;
    }
}

/// Lists the entries of the archive of the directory `dir`, whose contents
/// are `children`, under the top-level name `top_level`: first the record of
/// a directory, then its contents in the order of reading, directories with
/// all that is in them.
pub fn zip_recursive(children: &Vec<FsNode>, dir: &str, top_level: &str) -> (r: Vec<ArchiveEntry>)
    ensures
        entries_view(r@) == directory_entries(children@, dir@, top_level@),
{
    let mut r: Vec<ArchiveEntry> = Vec::new();
    assert(entries_view(r@) =~= Seq::<EntryView>::empty());
    add_to_zip(&mut r, children, dir, top_level);
    assert(Seq::<EntryView>::empty() + directory_entries(children@, dir@, top_level@)
        =~= directory_entries(children@, dir@, top_level@));
    r
}

/// The name of an entry.
pub open spec fn entry_name(entry: EntryView) -> Seq<char> {
    match entry {
        EntryView::Directory { name } => name,
        EntryView::File { name, .. } => name,
    }
}

/// Whether a name can be that of something in a directory: it is not empty
/// and does not begin with a slash.
pub open spec fn plain_name(name: Seq<char>) -> bool {
    name.len() > 0 && name[0] != '/'
}

/// Whether the first `n` of the things found in a directory, and all that is
/// in them, have plain names.
pub open spec fn plain_children(children: Seq<FsNode>, n: nat) -> bool
    decreases children, n,
{
    if n == 0 || n > children.len() {
        true
    } else {
        plain_children(children, (n - 1) as nat) && plain_node(children[n - 1])
    }
}

/// Whether a thing found in a directory, and all that is in it, has a plain
/// name.
pub open spec fn plain_node(node: FsNode) -> bool
    decreases node, 0nat,
{
    match node {
        FsNode::File { name, .. } => plain_name(name@),
        FsNode::Dir { name, children } => plain_name(name@) && plain_children(
            children@,
            children@.len(),
        ),
        FsNode::Other { name } => plain_name(name@),
    }
}

/// Whether a place in an archive is the top-level directory or lies below
/// it.
pub open spec fn within(place: Seq<char>, top_level: Seq<char>) -> bool {
    place == top_level || (top_level + "/"@).is_prefix_of(place)
}

/// Whether a name can be the top-level directory of an archive: it is plain
/// and does not end in a slash.
pub open spec fn plain_top_level(top_level: Seq<char>) -> bool {
    plain_name(top_level) && top_level.last() != '/'
}

/// Below a top-level directory, the record of a directory is let out when
/// the archive is unpacked, and so is everything that is named in that
/// directory, which in turn lies within the top-level directory.
proof fn lemma_step_within(top_level: Seq<char>, dir_in_zip: Seq<char>, file_name: Seq<char>)
    requires
        plain_top_level(top_level),
        within(dir_in_zip, top_level),
        plain_name(file_name),
    ensures
        entry_ok(dir_in_zip + "/"@, top_level),
        entry_ok(joined_path(dir_in_zip, file_name), top_level),
        within(joined_path(dir_in_zip, file_name), top_level),
{
    reveal_strlit("/");
    let slash = top_level + "/"@;
    let d = dir_in_zip + "/"@;
    let c = joined_path(dir_in_zip, file_name);
    assert(dir_in_zip.len() >= top_level.len());
    assert(dir_in_zip.subrange(0, top_level.len() as int) =~= top_level) by {
        if dir_in_zip != top_level {
            assert(dir_in_zip.subrange(0, slash.len() as int) == slash);
            assert forall|k: int| 0 <= k < top_level.len() implies dir_in_zip[k] == top_level[k] by {
                assert(dir_in_zip.subrange(0, slash.len() as int)[k] == slash[k]);
            }
        }
    }
    assert(dir_in_zip[0] == dir_in_zip.subrange(0, top_level.len() as int)[0]);
    assert(d.subrange(0, slash.len() as int) =~= slash) by {
        if dir_in_zip != top_level {
            assert(dir_in_zip.subrange(0, slash.len() as int) == slash);
            assert forall|k: int| 0 <= k < slash.len() implies d[k] == slash[k] by {
                assert(dir_in_zip.subrange(0, slash.len() as int)[k] == slash[k]);
            }
        }
    }
    assert(c.subrange(0, slash.len() as int) =~= slash) by {
        if dir_in_zip != top_level {
            assert(dir_in_zip.subrange(0, slash.len() as int) == slash);
            assert forall|k: int| 0 <= k < slash.len() implies c[k] == slash[k] by {
                assert(dir_in_zip.subrange(0, slash.len() as int)[k] == slash[k]);
            }
        } else {
            assert(c =~= dir_in_zip + seq!['/'] + file_name);
        }
    }
}

proof fn lemma_children_let_out(
    children: Seq<FsNode>,
    n: nat,
    dir: Seq<char>,
    dir_in_zip: Seq<char>,
    top_level: Seq<char>,
)
    requires
        plain_top_level(top_level),
        within(dir_in_zip, top_level),
        plain_children(children, n),
    ensures
        forall|k: int|
            0 <= k < children_entries(children, n, dir, dir_in_zip).len() ==> entry_ok(
                entry_name(#[trigger] children_entries(children, n, dir, dir_in_zip)[k]),
                top_level,
            ),
    decreases children, n,
{
    if n == 0 || n > children.len() {
    } else {
        lemma_children_let_out(children, (n - 1) as nat, dir, dir_in_zip, top_level);
        lemma_node_let_out(children[n - 1], dir, dir_in_zip, top_level);
        let before = children_entries(children, (n - 1) as nat, dir, dir_in_zip);
        let last = node_entries(children[n - 1], dir, dir_in_zip);
        let all = children_entries(children, n, dir, dir_in_zip);
        assert(all == before + last);
        assert forall|k: int| 0 <= k < all.len() implies entry_ok(
            entry_name(#[trigger] all[k]),
            top_level,
        ) by {
            if k < before.len() {
                assert(all[k] == before[k]);
            } else {
                assert(all[k] == last[k - before.len()]);
            }
        }
    }
}

proof fn lemma_node_let_out(
    node: FsNode,
    dir: Seq<char>,
    dir_in_zip: Seq<char>,
    top_level: Seq<char>,
)
    requires
        plain_top_level(top_level),
        within(dir_in_zip, top_level),
        plain_node(node),
    ensures
        forall|k: int|
            0 <= k < node_entries(node, dir, dir_in_zip).len() ==> entry_ok(
                entry_name(#[trigger] node_entries(node, dir, dir_in_zip)[k]),
                top_level,
            ),
    decreases node, 0nat,
{
    let all = node_entries(node, dir, dir_in_zip);
    match node {
        FsNode::File { name, mode } => {
            lemma_step_within(top_level, dir_in_zip, name@);
            assert forall|k: int| 0 <= k < all.len() implies entry_ok(
                entry_name(#[trigger] all[k]),
                top_level,
            ) by {
                assert(entry_name(all[0]) == joined_path(dir_in_zip, name@));
            }
        },
        FsNode::Dir { name, children } => {
            lemma_step_within(top_level, dir_in_zip, name@);
            lemma_directory_let_out(
                children@,
                joined_path(dir, name@),
                joined_path(dir_in_zip, name@),
                top_level,
            );
            assert(all == directory_entries(
                children@,
                joined_path(dir, name@),
                joined_path(dir_in_zip, name@),
            ));
        },
        FsNode::Other { .. } => {
            assert(all.len() == 0);
        },
    }
}

proof fn lemma_directory_let_out(
    children: Seq<FsNode>,
    dir: Seq<char>,
    dir_in_zip: Seq<char>,
    top_level: Seq<char>,
)
    requires
        plain_top_level(top_level),
        within(dir_in_zip, top_level),
        plain_children(children, children.len()),
    ensures
        forall|k: int|
            0 <= k < directory_entries(children, dir, dir_in_zip).len() ==> entry_ok(
                entry_name(#[trigger] directory_entries(children, dir, dir_in_zip)[k]),
                top_level,
            ),
    decreases children, children.len() + 1,
{
    lemma_children_let_out(children, children.len(), dir, dir_in_zip, top_level);
    lemma_step_within(top_level, dir_in_zip, seq!['x']);
    let record = seq![EntryView::Directory { name: dir_in_zip + "/"@ }];
    let inside = children_entries(children, children.len(), dir, dir_in_zip);
    let all = directory_entries(children, dir, dir_in_zip);
    assert(all == record + inside);
    assert forall|k: int| 0 <= k < all.len() implies entry_ok(
        entry_name(#[trigger] all[k]),
        top_level,
    ) by {
        if k == 0 {
            assert(entry_name(all[0]) == dir_in_zip + "/"@);
        } else {
            assert(all[k] == inside[k - 1]);
        }
    }
}

/// What is archived can be unpacked. Every entry of the archive of a
/// directory tree with plain names, made under a plain top-level name, is
/// let out when the archive is unpacked with that name as the expected
/// directory.
pub proof fn archived_entries_are_let_out(
    children: Seq<FsNode>,
    dir: Seq<char>,
    top_level: Seq<char>,
)
    requires
        plain_top_level(top_level),
        plain_children(children, children.len()),
    ensures
        forall|k: int|
            0 <= k < directory_entries(children, dir, top_level).len() ==> entry_ok(
                entry_name(#[trigger] directory_entries(children, dir, top_level)[k]),
                top_level,
            ),
{
    lemma_directory_let_out(children, dir, top_level, top_level);
}

} // verus!
