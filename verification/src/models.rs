//! The data of the file browser: users, and the listing of a directory.

use vstd::prelude::*;
use vstd::string::StringExecFns;

verus! {

/// A user as stored: the name and the hash of the password.
#[derive(Debug, PartialEq, Eq)]
pub struct User {
    pub username: String,
    pub hash: String,
}

/// A user to be stored.
#[derive(Debug, PartialEq, Eq)]
pub struct NewUser<'x> {
    pub username: &'x str,
    pub hash: &'x str,
}

/// What was found in a directory under one name.
#[derive(Debug, PartialEq, Eq)]
pub struct DirEntry {
    /// The name of the file or directory.
    pub name: String,
    /// Whether it is a directory.
    pub is_dir: bool,
    /// Its size in bytes.
    pub size: u64,
}

/// One line of a directory listing.
#[derive(Debug, PartialEq, Eq)]
pub struct EntryModel {
    /// The name to show and to link to; that of a directory ends in `/`.
    pub name: String,
    /// The size in bytes.
    pub size: u64,
    /// The directory that the entry is in, as the path of its listing.
    pub base: String,
}

/// What an `EntryModel` holds, as mathematical values.
pub struct EntryModelView {
    pub name: Seq<char>,
    pub size: int,
    pub base: Seq<char>,
}

impl View for EntryModel {
    type V = EntryModelView;

    open spec fn view(&self) -> EntryModelView {
        EntryModelView { name: self.name@, size: self.size as int, base: self.base@ }
    }
}

/// The listing of a directory.
#[derive(Debug, PartialEq, Eq)]
pub struct DirectoryModel<'a> {
    /// The path of the listing.
    pub uri: &'a str,
    /// The lines of the listing.
    pub entries: Vec<EntryModel>,
}

impl<'a> DirectoryModel<'a> {
    /// The listing of `uri` with the given lines.
    pub fn new(uri: &'a str, entries: Vec<EntryModel>) -> (model: Self)
        ensures
            model.uri@ == uri@,
            model.entries == entries,
    {
        Self { uri, entries }
    }
}

/// The line that shows `entry` in the listing of `uri`.
pub open spec fn entry_line(entry: DirEntry, uri: Seq<char>) -> EntryModelView {
    EntryModelView {
        name: if entry.is_dir {
            entry.name@.push('/')
        } else {
            entry.name@
        },
        size: entry.size as int,
        base: uri,
    }
}

/// The line that leads from the listing of `uri` to the directory above.
pub open spec fn parent_line(uri: Seq<char>) -> EntryModelView {
    EntryModelView { name: seq!['.', '.'], size: 0, base: uri }
}

/// The lines of the listing of `uri`, a directory in which `found` was
/// found: one line for each entry, in the order found, and before them, in
/// every directory but `root`, the line that leads one directory up.
pub open spec fn listing_lines(uri: Seq<char>, root: Seq<char>, found: Seq<DirEntry>) -> Seq<
    EntryModelView,
> {
    let lines = Seq::new(found.len(), |i: int| entry_line(found[i], uri));
    if uri != root {
        seq![parent_line(uri)] + lines
    } else {
        lines
    }
}

/// The views of the lines in `entries`.
pub open spec fn lines_view(entries: Seq<EntryModel>) -> Seq<EntryModelView> {
    Seq::new(entries.len(), |i: int| entries[i]@)
}

/// Builds the lines of the listing of `uri`, a directory in which `found`
/// was found, where `root` is the path of the topmost listing.
pub fn directory_entries(uri: &str, root: &str, found: &Vec<DirEntry>) -> (entries: Vec<
    EntryModel,
>)
    ensures
        lines_view(entries@) == listing_lines(uri@, root@, found@),
{
    let mut entries: Vec<EntryModel> = Vec::new();
    let below_root = String::from_str(uri) != String::from_str(root);
    if below_root {
        proof {
            reveal_strlit("..");
        }
        entries.push(EntryModel { name: String::from_str(".."), size: 0, base: String::from_str(uri) });
        assert("..".view() =~= seq!['.', '.']);
    }
    let ghost lead: int = if below_root { 1 } else { 0 };
    let mut i: usize = 0;
    while i < found.len()
        invariant
            i <= found@.len(),
            lead == (if uri@ != root@ { 1int } else { 0int }),
            entries@.len() == lead + i,
            lead == 1 ==> entries@[0]@ == parent_line(uri@),
            forall|j: int| 0 <= j < i ==> (#[trigger] entries@[lead + j])@ == entry_line(found@[j], uri@),
        decreases found@.len() - i,
    {
        let entry = &found[i];
        let mut name = entry.name.clone();
        if entry.is_dir {
            proof {
                reveal_strlit("/");
            }
            name.append("/");
            assert(name@ =~= entry.name@.push('/'));
        }
        entries.push(EntryModel { name, size: entry.size, base: String::from_str(uri) });
        i = i + 1;
    }
    proof {
        let built = lines_view(entries@);
        let wanted = listing_lines(uri@, root@, found@);
        assert forall|k: int| 0 <= k < built.len() implies built[k] == wanted[k] by {
            if k >= lead {
                assert(entries@[lead + (k - lead)]@ == entry_line(found@[k - lead], uri@));
            }
        }
    }
    entries
}

} // verus!
