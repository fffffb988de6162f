//! Which entries of a directory tree are inputs of the batch.
//!
//! An entry is an input when it is a regular file and its extension, in lower
//! case, is on the allow-list. The caller walks the tree and says of each
//! entry where it is and whether it is a regular file; the choice is made
//! here.

use vstd::prelude::*;
use crate::path::{file_extension, path_extension};
use crate::text::{lowercase, split, split_spec, to_lowercase, trim, trim_spec};

verus! {

/// One entry met while walking the input tree.
#[derive(Clone, Debug, PartialEq, Eq)]
pub struct Entry {
    /// Where the entry is.
    pub path: String,
    /// Whether it is a regular file.
    pub is_file: bool,
}

/// An [`Entry`] as contracts see it.
pub struct EntryView {
    pub path: Seq<char>,
    pub is_file: bool,
}

impl View for Entry {
    type V = EntryView;

    open spec fn view(&self) -> EntryView {
        EntryView { path: self.path@, is_file: self.is_file }
    }
}

impl DeepView for Entry {
    type V = EntryView;

    open spec fn deep_view(&self) -> EntryView {
        self@
    }
}

/// A video file to extract keyframes from: its path, and its extension in
/// lower case (empty where it has none).
#[derive(Debug, PartialEq, Eq)]
pub struct InputSpec {
    path: String,
    extension: String,
}

/// An [`InputSpec`] as contracts see it.
pub struct InputSpecView {
    pub path: Seq<char>,
    pub extension: Seq<char>,
}

impl View for InputSpec {
    type V = InputSpecView;

    closed spec fn view(&self) -> InputSpecView {
        InputSpecView { path: self.path@, extension: self.extension@ }
    }
}

impl DeepView for InputSpec {
    type V = InputSpecView;

    open spec fn deep_view(&self) -> InputSpecView {
        self@
    }
}

/// The extension under which a path is looked up in the allow-list: its
/// extension in lower case, and the empty string where it has none.
pub open spec fn normalized_extension(path: Seq<char>) -> Seq<char> {
    match path_extension(path) {
        Some(extension) => lowercase(extension),
        None => Seq::empty(),
    }
}

/// The input that a path stands for.
pub open spec fn input_of(path: Seq<char>) -> InputSpecView {
    InputSpecView { path, extension: normalized_extension(path) }
}

/// The allow-list that a comma-separated list of extensions denotes: its
/// items in order, each trimmed and in lower case.
pub open spec fn parsed_extensions(list: Seq<char>) -> Seq<Seq<char>> {
    split_spec(list, ',').map_values(|item: Seq<char>| lowercase(trim_spec(item)))
}

/// Whether an entry is an input: a regular file whose lower-case extension is
/// on the allow-list.
pub open spec fn eligible(entry: EntryView, allowed: Seq<Seq<char>>) -> bool {
    entry.is_file && allowed.contains(normalized_extension(entry.path))
}

/// The inputs among the entries, in the order of the walk.
pub open spec fn discovered(entries: Seq<EntryView>, allowed: Seq<Seq<char>>) -> Seq<
    InputSpecView,
> {
    entries.filter(|entry: EntryView| eligible(entry, allowed)).map_values(
        |entry: EntryView| input_of(entry.path),
    )
}

impl InputSpec {
    #[verifier::type_invariant]
    spec fn extension_is_normalized(&self) -> bool {
        self.extension@ == normalized_extension(self.path@)
    }

    /// The input at `path`.
    pub fn new(path: String) -> (input: InputSpec)
        ensures
            input@ == input_of(path@),
    {
        let extension = lookup_extension(path.as_str());
        InputSpec { path, extension }
    }

    /// Where the video file is.
    pub fn path(&self) -> (path: &String)
        ensures
            path@ == self@.path,
    {
        &self.path
    }

    /// The file's extension in lower case, empty where it has none.
    pub fn extension(&self) -> (extension: &String)
        ensures
            extension@ == self@.extension,
            extension@ == normalized_extension(self@.path),
    {
        proof {
            use_type_invariant(self);
        }
        &self.extension
    }
}

impl Clone for InputSpec {
    fn clone(&self) -> (copy: InputSpec)
        ensures
            copy@ == self@,
    {
        proof {
            use_type_invariant(self);
        }
        InputSpec { path: self.path.clone(), extension: self.extension.clone() }
    }
}

/// The extension under which `path` is looked up in the allow-list.
pub fn lookup_extension(path: &str) -> (extension: String)
    ensures
        extension@ == normalized_extension(path@),
{
    match file_extension(path) {
        Some(extension) => to_lowercase(extension.as_str()),
        None => String::new(),
    }
}

/// Reads a comma-separated list of extensions, such as `mp4,mov,avi`, into an
/// allow-list.
pub fn get_video_extensions(exts: &str) -> (allowed: Vec<String>)
    ensures
        allowed.deep_view() == parsed_extensions(exts@),
{
    let items = split(exts, ',');
    let mut allowed: Vec<String> = Vec::new();
    let mut i: usize = 0;
    while i < items.len()
        invariant
            i <= items.len(),
            items.deep_view() == split_spec(exts@, ','),
            allowed.len() == i,
            forall|k: int|
                0 <= k < i ==> (#[trigger] allowed[k])@ == lowercase(trim_spec(items[k]@)),
        decreases items.len() - i,
    {
        let item = to_lowercase(trim(items[i].as_str()));
        allowed.push(item);
        i = i + 1;
    }
    assert(allowed.deep_view() =~= parsed_extensions(exts@));
    allowed
}

/// Whether `item` is on the list.
fn on_list(list: &Vec<String>, item: &String) -> (found: bool)
    ensures
        found == list.deep_view().contains(item@),
{
    let mut i: usize = 0;
    while i < list.len()
        invariant
            i <= list.len(),
            forall|k: int| 0 <= k < i ==> list.deep_view()[k] != item@,
        decreases list.len() - i,
    {
        if list[i] == *item {
            assert(list.deep_view()[i as int] == item@);
            return true;
        }
        i = i + 1;
    }
    false
}

/// Decides whether an entry is an input of the batch.
pub fn is_eligible(entry: &Entry, allowed: &Vec<String>) -> (yes: bool)
    ensures
        yes == eligible(entry@, allowed.deep_view()),
{
    if !entry.is_file {
        return false;
    }
    let extension = lookup_extension(entry.path.as_str());
    on_list(allowed, &extension)
}

/// Picks the inputs of the batch out of the entries of a walk, keeping the
/// order of the walk.
pub fn discover(entries: &Vec<Entry>, allowed: &Vec<String>) -> (inputs: Vec<InputSpec>)
    ensures
        inputs.deep_view() == discovered(entries.deep_view(), allowed.deep_view()),
{
    let ghost all = entries.deep_view();
    let ghost list = allowed.deep_view();
    let mut inputs: Vec<InputSpec> = Vec::new();
    let mut i: usize = 0;
    proof {
        reveal(Seq::filter);
    }
    while i < entries.len()
        invariant
            i <= entries.len(),
            all == entries.deep_view(),
            list == allowed.deep_view(),
            inputs.deep_view() == discovered(all.take(i as int), list),
        decreases entries.len() - i,
    {
        let entry = &entries[i];
        let ghost keep = |entry: EntryView| eligible(entry, list);
        let ghost to_input = |entry: EntryView| input_of(entry.path);
        proof {
            all.lemma_take_succ_push(i as int);
            all.take(i as int).lemma_filter_push(entry@, keep);
            all.take(i as int).filter(keep).lemma_push_map_commute(to_input, entry@);
        }
        if is_eligible(entry, allowed) {
            let input = InputSpec::new(entry.path.clone());
            inputs.push(input);
        }
        i = i + 1;
    }
    proof {
        all.lemma_take_len();
    }
    inputs
}

/// The inputs that a walk gives are the regular files among its entries whose
/// lower-case extension is on the allow-list, and no others: the input at a
/// path is among the discovered exactly when an eligible entry is at that
/// path.
pub proof fn lemma_discovered_are_the_eligible(
    entries: Seq<EntryView>,
    allowed: Seq<Seq<char>>,
    path: Seq<char>,
)
    ensures
        discovered(entries, allowed).contains(input_of(path)) <==> exists|k: int|
            0 <= k < entries.len() && (#[trigger] entries[k]).path == path && eligible(
                entries[k],
                allowed,
            ),
{
    let keep = |entry: EntryView| eligible(entry, allowed);
    let kept = entries.filter(keep);
    let found = discovered(entries, allowed);
    if found.contains(input_of(path)) {
        let j = choose|j: int| 0 <= j < found.len() && found[j] == input_of(path);
        kept.lemma_index_contains(j);
        entries.lemma_filter_pred(keep, j);
        entries.lemma_filter_contains_rev(keep, kept[j]);
    }
    if exists|k: int|
        0 <= k < entries.len() && (#[trigger] entries[k]).path == path && eligible(
            entries[k],
            allowed,
        ) {
        let k = choose|k: int|
            0 <= k < entries.len() && (#[trigger] entries[k]).path == path && eligible(
                entries[k],
                allowed,
            );
        entries.lemma_filter_contains(keep, k);
        let j = choose|j: int| 0 <= j < kept.len() && kept[j] == entries[k];
        assert(found[j] == input_of(path));
    }
}

} // verus!
