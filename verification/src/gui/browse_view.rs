//! What the browser of a disc shows.

use vstd::prelude::*;
use crate::disc::browse::entry::{models, EntryModel, FileEntry};
use crate::gui::text_view::{decoded, TextEncoding};
use crate::text::str_eq;

verus! {

/// Largest file that is shown.
pub const MAX_VIEW_SIZE: u64 = 10 * 1024 * 1024;

/// How the content of a file is shown.
#[derive(Debug, Clone, Copy, PartialEq, Eq, Structural)]
pub enum ViewMode {
    /// As hexadecimal bytes.
    Hex,
    /// As text.
    Text,
    /// As text if it is text, else as hexadecimal bytes.
    Auto,
}

/// The content of a file that was loaded for viewing.
#[derive(Debug)]
pub enum FileContent {
    /// Bytes.
    Binary(Vec<u8>),
    /// Text, with the encoding it was decoded from.
    Text(String, TextEncoding),
}

impl ViewMode {
    /// The display name of the mode.
    pub fn display_name(&self) -> (r: &'static str)
        ensures
            r@ == match *self {
                ViewMode::Hex => "Hex"@,
                ViewMode::Text => "Text"@,
                ViewMode::Auto => "Auto"@,
            },
    {
        match self {
            ViewMode::Hex => "Hex",
            ViewMode::Text => "Text",
            ViewMode::Auto => "Auto",
        }
    }
}

/// The bytes that a content stands for: the bytes themselves, or the
/// text in UTF-8.
pub open spec fn content_bytes(content: FileContent) -> Seq<u8> {
    match content {
        FileContent::Binary(data) => data@,
        FileContent::Text(text, _) => vstd::utf8::encode_utf8(text@),
    }
}

impl FileContent {
    /// The bytes of the content.
    pub fn get_content_bytes(&self) -> (r: &[u8])
        ensures
            r@ == content_bytes(*self),
    {
        match self {
            FileContent::Binary(data) => data.as_slice(),
            FileContent::Text(text, _) => text.as_str().as_bytes(),
        }
    }

    /// The content that bytes are shown as.
    pub fn of_bytes(data: Vec<u8>, encoding: Option<TextEncoding>) -> (r: Self)
        ensures
            match r {
                FileContent::Binary(bytes) => encoding is None && bytes@ == data@,
                FileContent::Text(text, e) => encoding == Some(e) && text@ == decoded(e, data@),
            },
    {
        match encoding {
            Some(e) => FileContent::Text(e.decode(data.as_slice()), e),
            None => FileContent::Binary(data),
        }
    }
}

/// The listings that a list of paths with their listings holds: a later
/// listing of a path takes the place of an earlier one.
pub open spec fn listing_map(pairs: Seq<(String, Vec<FileEntry>)>) -> Map<Seq<char>, Seq<EntryModel>>
    decreases pairs.len(),
{
    if pairs.len() == 0 {
        Map::empty()
    } else {
        listing_map(pairs.drop_last()).insert(pairs.last().0@, models(pairs.last().1@))
    }
}

/// The paths that a list of paths holds.
pub open spec fn path_set(paths: Seq<String>) -> Set<Seq<char>>
    decreases paths.len(),
{
    if paths.len() == 0 {
        Set::empty()
    } else {
        path_set(paths.drop_last()).insert(paths.last()@)
    }
}

/// The listing of a path is the last that the list holds for it.
proof fn lemma_listing_found(pairs: Seq<(String, Vec<FileEntry>)>, key: Seq<char>, i: int)
    requires
        0 <= i < pairs.len(),
        pairs[i].0@ == key,
        forall|j: int| i < j < pairs.len() ==> (#[trigger] pairs[j]).0@ != key,
    ensures
        listing_map(pairs).contains_key(key),
        listing_map(pairs)[key] == models(pairs[i].1@),
    decreases pairs.len(),
{
    if i < pairs.len() - 1 {
        let rest = pairs.drop_last();
        assert(rest[i] == pairs[i]);
        assert forall|j: int| i < j < rest.len() implies (#[trigger] rest[j]).0@ != key by {
            assert(rest[j] == pairs[j]);
        }
        lemma_listing_found(rest, key, i);
    }
}

/// A path that the list does not hold has no listing.
proof fn lemma_listing_absent(pairs: Seq<(String, Vec<FileEntry>)>, key: Seq<char>)
    requires
        forall|j: int| 0 <= j < pairs.len() ==> (#[trigger] pairs[j]).0@ != key,
    ensures
        !listing_map(pairs).contains_key(key),
    decreases pairs.len(),
{
    if pairs.len() > 0 {
        let rest = pairs.drop_last();
        assert forall|j: int| 0 <= j < rest.len() implies (#[trigger] rest[j]).0@ != key by {
            assert(rest[j] == pairs[j]);
        }
        lemma_listing_absent(rest, key);
    }
}

/// A path is in the set exactly if the list holds it.
proof fn lemma_path_member(paths: Seq<String>, key: Seq<char>)
    ensures
        path_set(paths).contains(key) <==> exists|j: int|
            0 <= j < paths.len() && (#[trigger] paths[j])@ == key,
    decreases paths.len(),
{
    if paths.len() > 0 {
        let rest = paths.drop_last();
        lemma_path_member(rest, key);
        if path_set(paths).contains(key) {
            if paths.last()@ == key {
                assert(paths[paths.len() - 1]@ == key);
            } else {
                let j = choose|j: int| 0 <= j < rest.len() && (#[trigger] rest[j])@ == key;
                assert(paths[j] == rest[j]);
            }
        }
        if exists|j: int| 0 <= j < paths.len() && (#[trigger] paths[j])@ == key {
            let j = choose|j: int| 0 <= j < paths.len() && (#[trigger] paths[j])@ == key;
            if j < paths.len() - 1 {
                assert(rest[j] == paths[j]);
            }
        }
    }
}

/// State of the browser of a disc: the directories that were listed, the
/// file that is selected and its content. The listings and the content
/// are read by the caller and handed in.
pub struct BrowseView {
    root: Option<FileEntry>,
    expanded_paths: Vec<String>,
    directory_cache: Vec<(String, Vec<FileEntry>)>,
    selected_entry: Option<FileEntry>,
    content: Option<FileContent>,
    view_mode: ViewMode,
    loading: bool,
    error: Option<String>,
    loading_path: Option<String>,
}

impl BrowseView {
    /// The root directory, once the browser is initialized.
    pub closed spec fn root_entry(&self) -> Option<EntryModel> {
        match self.root {
            Some(root) => Some(root@),
            None => None,
        }
    }

    /// The paths of the directories that are shown open.
    pub closed spec fn expanded(&self) -> Set<Seq<char>> {
        path_set(self.expanded_paths@)
    }

    /// The listings of the directories that were listed, by path.
    pub closed spec fn listings(&self) -> Map<Seq<char>, Seq<EntryModel>> {
        listing_map(self.directory_cache@)
    }

    /// The file that is selected.
    pub closed spec fn selected(&self) -> Option<EntryModel> {
        match self.selected_entry {
            Some(entry) => Some(entry@),
            None => None,
        }
    }

    /// The content of the selected file, once it is loaded.
    pub closed spec fn shown(&self) -> Option<FileContent> {
        self.content
    }

    /// How the content is shown.
    pub closed spec fn mode(&self) -> ViewMode {
        self.view_mode
    }

    /// Whether a listing or a content is awaited.
    pub closed spec fn awaiting(&self) -> bool {
        self.loading
    }

    /// The path of the directory whose listing is awaited.
    pub closed spec fn awaited_path(&self) -> Option<Seq<char>> {
        crate::text::optional_view(self.loading_path)
    }

    /// The message of what went wrong last.
    pub closed spec fn failure(&self) -> Option<Seq<char>> {
        crate::text::optional_view(self.error)
    }

    /// The state before a disc is opened: nothing listed, nothing
    /// selected, nothing awaited.
    pub open spec fn fresh(&self) -> bool {
        &&& self.root_entry() is None
        &&& self.expanded() == Set::<Seq<char>>::empty()
        &&& self.listings() == Map::<Seq<char>, Seq<EntryModel>>::empty()
        &&& self.selected() is None
        &&& self.shown() is None
        &&& self.mode() == ViewMode::Auto
        &&& !self.awaiting()
        &&& self.awaited_path() is None
        &&& self.failure() is None
    }

    /// Whether two states differ at most in what was listed, what is
    /// awaited and what went wrong.
    pub open spec fn same_selection(&self, other: &Self) -> bool {
        &&& self.root_entry() == other.root_entry()
        &&& self.selected() == other.selected()
        &&& self.shown() == other.shown()
        &&& self.mode() == other.mode()
    }

    /// The state before a disc is opened.
    pub fn new() -> (r: Self)
        ensures
            r.fresh(),
    {
        BrowseView {
            root: None,
            expanded_paths: Vec::new(),
            directory_cache: Vec::new(),
            selected_entry: None,
            content: None,
            view_mode: ViewMode::Auto,
            loading: false,
            error: None,
            loading_path: None,
        }
    }

    /// Takes the root directory of a disc and its listing: the browser is
    /// active from now on, the root is listed and shown open, and what
    /// went wrong before is forgotten.
    pub fn initialize(&mut self, root: FileEntry, root_entries: Vec<FileEntry>)
        ensures
            final(self).root_entry() == Some(root@),
            final(self).listings() == old(self).listings().insert("/"@, models(root_entries@)),
            final(self).expanded() == old(self).expanded().insert("/"@),
            final(self).failure() is None,
            final(self).selected() == old(self).selected(),
            final(self).shown() == old(self).shown(),
            final(self).mode() == old(self).mode(),
            final(self).awaiting() == old(self).awaiting(),
            final(self).awaited_path() == old(self).awaited_path(),
    {
        self.root = Some(root);
        self.remember("/".to_owned(), root_entries);
        self.error = None;
    }

    /// Whether the browser was initialized.
    pub fn is_active(&self) -> (r: bool)
        ensures
            r == self.root_entry() is Some,
    {
        self.root.is_some()
    }

    /// Takes the listing of a directory: it is listed and shown open.
    pub fn remember(&mut self, path: String, entries: Vec<FileEntry>)
        ensures
            final(self).listings() == old(self).listings().insert(path@, models(entries@)),
            final(self).expanded() == old(self).expanded().insert(path@),
            final(self).same_selection(old(self)),
            final(self).awaiting() == old(self).awaiting(),
            final(self).awaited_path() == old(self).awaited_path(),
            final(self).failure() == old(self).failure(),
    {
        let ghost pairs = self.directory_cache@;
        let ghost paths = self.expanded_paths@;
        let again = path.clone();
        assert(again@ == path@);
        self.directory_cache.push((path, entries));
        self.expanded_paths.push(again);
        proof {
            assert(self.directory_cache@.drop_last() =~= pairs);
            assert(self.expanded_paths@.drop_last() =~= paths);
        }
    }

    /// Notes that the listing of a directory is awaited.
    pub fn expect_listing(&mut self, path: String)
        ensures
            final(self).awaiting(),
            final(self).awaited_path() == Some(path@),
            final(self).same_selection(old(self)),
            final(self).listings() == old(self).listings(),
            final(self).expanded() == old(self).expanded(),
            final(self).failure() == old(self).failure(),
    {
        self.loading = true;
        self.loading_path = Some(path);
    }

    /// Takes what has arrived. A listing ends the wait: it is taken for
    /// the directory that was awaited, if one was, and its failure is
    /// noted. A content ends the wait as well: it is shown, or its failure
    /// is noted.
    pub fn poll(
        &mut self,
        listing: Option<Result<Vec<FileEntry>, String>>,
        content: Option<Result<FileContent, String>>,
    )
        ensures
            final(self).root_entry() == old(self).root_entry(),
            final(self).selected() == old(self).selected(),
            final(self).mode() == old(self).mode(),
            final(self).awaiting() == (old(self).awaiting() && listing is None && content is None),
            final(self).awaited_path() == (match listing {
                Some(Ok(_)) => None,
                _ => old(self).awaited_path(),
            }),
            final(self).listings() == (match (listing, old(self).awaited_path()) {
                (Some(Ok(entries)), Some(path)) => old(self).listings().insert(
                    path,
                    models(entries@),
                ),
                _ => old(self).listings(),
            }),
            final(self).expanded() == (match (listing, old(self).awaited_path()) {
                (Some(Ok(_)), Some(path)) => old(self).expanded().insert(path),
                _ => old(self).expanded(),
            }),
            final(self).shown() == (match content {
                Some(Ok(c)) => Some(c),
                _ => old(self).shown(),
            }),
            final(self).failure() == (match (listing, content) {
                (_, Some(Err(e))) => Some(e@),
                (Some(Err(e)), _) => Some(e@),
                _ => old(self).failure(),
            }),
    {
        match listing {
            Some(result) => {
                self.loading = false;
                match result {
                    Ok(entries) => {
                        let awaited = self.loading_path.take();
                        match awaited {
                            Some(path) => {
                                self.remember(path, entries);
                            },
                            None => {},
                        }
                    },
                    Err(e) => {
                        self.error = Some(e);
                    },
                }
            },
            None => {},
        }
        match content {
            Some(result) => {
                self.loading = false;
                match result {
                    Ok(c) => {
                        self.content = Some(c);
                    },
                    Err(e) => {
                        self.error = Some(e);
                    },
                }
            },
            None => {},
        }
    }

    /// Selects a file: its content is not shown yet, and what went wrong
    /// before is forgotten. Says whether the file is small enough for its
    /// content to be loaded.
    pub fn select_file(&mut self, entry: FileEntry) -> (load: bool)
        ensures
            load == (entry.size <= MAX_VIEW_SIZE),
            final(self).selected() == Some(entry@),
            final(self).shown() is None,
            final(self).failure() is None,
            final(self).root_entry() == old(self).root_entry(),
            final(self).mode() == old(self).mode(),
            final(self).listings() == old(self).listings(),
            final(self).expanded() == old(self).expanded(),
            final(self).awaiting() == old(self).awaiting(),
            final(self).awaited_path() == old(self).awaited_path(),
    {
        let load: bool = entry.size <= MAX_VIEW_SIZE;
        self.selected_entry = Some(entry);
        self.content = None;
        self.error = None;
        load
    }

    /// The listing of a directory, if it was listed.
    pub fn children_of(&self, path: &str) -> (r: Option<&Vec<FileEntry>>)
        ensures
            match r {
                Some(entries) => self.listings().contains_key(path@) && self.listings()[path@]
                    == models(entries@),
                None => !self.listings().contains_key(path@),
            },
    {
        let mut i: usize = self.directory_cache.len();
        while i > 0
            invariant
                i <= self.directory_cache@.len(),
                forall|j: int|
                    i <= j < self.directory_cache@.len() ==> (#[trigger] self.directory_cache@[j]).0@
                        != path@,
            decreases i,
        {
            i = i - 1;
            if str_eq(self.directory_cache[i].0.as_str(), path) {
                proof {
                    lemma_listing_found(self.directory_cache@, path@, i as int);
                }
                return Some(&self.directory_cache[i].1);
            }
        }
        proof {
            lemma_listing_absent(self.directory_cache@, path@);
        }
        None
    }

    /// Whether a directory is shown open.
    pub fn is_expanded(&self, path: &str) -> (r: bool)
        ensures
            r == self.expanded().contains(path@),
    {
        let mut i: usize = 0;
        while i < self.expanded_paths.len()
            invariant
                i <= self.expanded_paths@.len(),
                forall|j: int| 0 <= j < i ==> (#[trigger] self.expanded_paths@[j])@ != path@,
            decreases self.expanded_paths@.len() - i,
        {
            if str_eq(self.expanded_paths[i].as_str(), path) {
                proof {
                    lemma_path_member(self.expanded_paths@, path@);
                    assert(self.expanded_paths@[i as int]@ == path@);
                }
                return true;
            }
            i = i + 1;
        }
        proof {
            lemma_path_member(self.expanded_paths@, path@);
        }
        false
    }

    /// The bytes of the content that is shown.
    pub fn get_content_bytes(&self) -> (r: Option<&[u8]>)
        ensures
            match r {
                Some(bytes) => self.shown() is Some && bytes@ == content_bytes(self.shown()->0),
                None => self.shown() is None,
            },
    {
        match &self.content {
            Some(content) => Some(content.get_content_bytes()),
            None => None,
        }
    }

    /// The root directory, once the browser is initialized.
    pub fn root(&self) -> (r: Option<&FileEntry>)
        ensures
            match r {
                Some(entry) => self.root_entry() == Some(entry@),
                None => self.root_entry() is None,
            },
    {
        self.root.as_ref()
    }

    /// The file that is selected.
    pub fn selected_entry(&self) -> (r: Option<&FileEntry>)
        ensures
            match r {
                Some(entry) => self.selected() == Some(entry@),
                None => self.selected() is None,
            },
    {
        self.selected_entry.as_ref()
    }

    /// The content that is shown.
    pub fn content(&self) -> (r: Option<&FileContent>)
        ensures
            match r {
                Some(content) => self.shown() == Some(*content),
                None => self.shown() is None,
            },
    {
        self.content.as_ref()
    }

    /// The message of what went wrong last.
    pub fn error(&self) -> (r: Option<&String>)
        ensures
            match r {
                Some(message) => self.failure() == Some(message@),
                None => self.failure() is None,
            },
    {
        self.error.as_ref()
    }

    /// Whether a listing or a content is awaited.
    pub fn is_loading(&self) -> (r: bool)
        ensures
            r == self.awaiting(),
    {
        self.loading
    }

    /// How the content is shown.
    pub fn view_mode(&self) -> (r: ViewMode)
        ensures
            r == self.mode(),
    {
        self.view_mode
    }

    /// Sets how the content is shown.
    pub fn set_view_mode(&mut self, mode: ViewMode)
        ensures
            final(self).mode() == mode,
            final(self).root_entry() == old(self).root_entry(),
            final(self).selected() == old(self).selected(),
            final(self).shown() == old(self).shown(),
            final(self).listings() == old(self).listings(),
            final(self).expanded() == old(self).expanded(),
            final(self).awaiting() == old(self).awaiting(),
            final(self).awaited_path() == old(self).awaited_path(),
            final(self).failure() == old(self).failure(),
    {
        self.view_mode = mode;
    }

    /// Forgets everything: the state is that before a disc is opened.
    pub fn clear(&mut self)
        ensures
            final(self).fresh(),
    {
        *self = BrowseView::new();
    }
}

} // verus!
