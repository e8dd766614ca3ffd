use vstd::prelude::*;
use vstd::string::*;

use crate::diff::{compute_diff, diff_spec, has_change, join_lines, pieces, side, DiffKind, DiffLine};
use crate::search::{filter_paths, filter_spec, texts};
use crate::sql::{format_query, is_sql_file, is_sql_path, parent_of, path_parent, sql_formatted};
use crate::text::{pop_char, push_char};

verus! {

/// What reading the selected entry from disk gave.
pub enum FileRead {
    /// A regular file, read whole as text.
    Text(String),
    /// A directory or anything else that is not a regular file.
    NotAFile,
    /// A file that could not be opened or is not valid text.
    Unreadable,
}

/// A file to overwrite with formatted text.
pub struct SaveRequest {
    pub path: String,
    pub content: String,
}

/// The browsing session: the directory shown, its entries, the selection, the
/// search, and the result of formatting the selected file.
pub struct App {
    pub files: Vec<String>,
    pub selected_file: Option<String>,
    pub file_content: String,
    pub selected_index: usize,
    pub notification: Option<String>,
    pub formatted_content: Option<String>,
    pub diff_content: Option<Vec<DiffLine>>,
    pub search_query: String,
    pub search_results: Vec<String>,
    pub is_searching: bool,
    pub current_dir: String,
}

/// Shown in place of the content of an entry that is not a regular file.
pub open spec fn not_a_file_text() -> Seq<char> {
    "Selected item is not a file"@
}

/// Shown in place of the content of a file that could not be read.
pub open spec fn unreadable_text() -> Seq<char> {
    "Selected file could not be read as text"@
}

/// Notification after a successful format.
pub open spec fn formatted_text() -> Seq<char> {
    "SQL formatted successfully"@
}

/// Notification when the selected file is not an SQL file.
pub open spec fn not_sql_text() -> Seq<char> {
    "Selected file is not an SQL file"@
}

/// Notification when formatting is asked with nothing selected.
pub open spec fn no_selection_text() -> Seq<char> {
    "No file selected"@
}

/// Notification when saving is asked before any formatting.
pub open spec fn nothing_to_save_text() -> Seq<char> {
    "nothing to save"@
}

/// Notification after the formatted text was written.
pub open spec fn saved_text() -> Seq<char> {
    "File saved successfully"@
}

/// Notification when writing the formatted text failed.
pub open spec fn save_failed_text() -> Seq<char> {
    "Failed to save file"@
}

/// The text shown for a selected entry, given what reading it gave.
pub open spec fn content_of(read: FileRead) -> Seq<char> {
    match read {
        FileRead::Text(s) => s@,
        FileRead::NotAFile => not_a_file_text(),
        FileRead::Unreadable => unreadable_text(),
    }
}

/// A copy of a list of paths.
fn copy_paths(v: &Vec<String>) -> (r: Vec<String>)
    ensures
        r@ == v@,
{
    let mut r: Vec<String> = Vec::new();
    let mut i: usize = 0;
    while i < v.len()
        invariant
            i <= v@.len(),
            r@ == v@.subrange(0, i as int),
        decreases v@.len() - i,
    {
        r.push(v[i].clone());
        assert(r@ =~= v@.subrange(0, i + 1));
        i = i + 1;
    }
    assert(v@.subrange(0, i as int) =~= v@);
    r
}

impl App {
    /// The selection lies inside the entries, and a diff is only held beside the
    /// formatted text it was computed from.
    pub open spec fn wf(&self) -> bool {
        &&& (self.selected_index < self.files@.len() || (self.files@.len() == 0
            && self.selected_index == 0))
        &&& (self.diff_content is Some ==> self.formatted_content is Some)
    }

    /// Everything that choosing an entry leaves alone.
    pub open spec fn same_but_selection(&self, o: &App) -> bool {
        &&& self.files == o.files
        &&& self.notification == o.notification
        &&& self.search_query == o.search_query
        &&& self.search_results == o.search_results
        &&& self.is_searching == o.is_searching
        &&& self.current_dir == o.current_dir
    }

    /// Everything that editing the search leaves alone.
    pub open spec fn same_but_search(&self, o: &App) -> bool {
        &&& self.files == o.files
        &&& self.selected_index == o.selected_index
        &&& self.selected_file == o.selected_file
        &&& self.file_content == o.file_content
        &&& self.formatted_content == o.formatted_content
        &&& self.diff_content == o.diff_content
        &&& self.notification == o.notification
        &&& self.current_dir == o.current_dir
    }

    /// Everything that formatting or saving leaves alone.
    pub open spec fn same_but_output(&self, o: &App) -> bool {
        &&& self.files == o.files
        &&& self.selected_index == o.selected_index
        &&& self.selected_file == o.selected_file
        &&& self.file_content == o.file_content
        &&& self.search_query == o.search_query
        &&& self.search_results == o.search_results
        &&& self.is_searching == o.is_searching
        &&& self.current_dir == o.current_dir
    }

    /// A fresh session on the current directory, whose entries are `files`.
    pub fn new(files: Vec<String>) -> (r: App)
        ensures
            r.wf(),
            r.files@ == files@,
            r.selected_file is None,
            r.file_content@.len() == 0,
            r.selected_index == 0,
            r.notification is None,
            r.formatted_content is None,
            r.diff_content is None,
            r.search_query@.len() == 0,
            r.search_results@.len() == 0,
            !r.is_searching,
            r.current_dir@ == "."@,
    {
        App {
            files,
            selected_file: None,
            file_content: String::new(),
            selected_index: 0,
            notification: None,
            formatted_content: None,
            diff_content: None,
            search_query: String::new(),
            search_results: Vec::new(),
            is_searching: false,
            current_dir: String::from_str("."),
        }
    }

    /// Recomputes the search results: the entries whose path contains the query.
    pub fn search_files(&mut self)
        ensures
            texts(final(self).search_results@) == filter_spec(
                texts(old(self).files@),
                old(self).search_query@,
            ),
            final(self).files == old(self).files,
            final(self).search_query == old(self).search_query,
            final(self).selected_index == old(self).selected_index,
            final(self).selected_file == old(self).selected_file,
            final(self).file_content == old(self).file_content,
            final(self).formatted_content == old(self).formatted_content,
            final(self).diff_content == old(self).diff_content,
            final(self).notification == old(self).notification,
            final(self).is_searching == old(self).is_searching,
            final(self).current_dir == old(self).current_dir,
    {
        self.search_results = filter_paths(&self.files, &self.search_query);
    }

    /// Selects entry `index`, if there is one, and shows what reading it gave:
    /// the text of a regular file, or a fixed message for anything else. Any
    /// earlier formatting result is dropped. Past the end nothing changes.
    pub fn select_file(&mut self, index: usize, read: FileRead)
        ensures
            old(self).wf() ==> final(self).wf(),
            index < old(self).files@.len() ==> {
                &&& final(self).selected_file matches Some(p) && p@ == old(self).files@[index as int]@
                &&& final(self).selected_index == index
                &&& final(self).file_content@ == content_of(read)
                &&& final(self).formatted_content is None
                &&& final(self).diff_content is None
                &&& final(self).same_but_selection(old(self))
            },
            index >= old(self).files@.len() ==> *final(self) == *old(self),
    {
        if index < self.files.len() {
            self.selected_file = Some(self.files[index].clone());
            self.selected_index = index;
            self.read_selected_file(read);
        }
    }

    fn read_selected_file(&mut self, read: FileRead)
        ensures
            final(self).file_content@ == content_of(read),
            final(self).formatted_content is None,
            final(self).diff_content is None,
            final(self).same_but_selection(old(self)),
            final(self).selected_file == old(self).selected_file,
            final(self).selected_index == old(self).selected_index,
    {
        self.file_content = match read {
            FileRead::Text(text) => text,
            FileRead::NotAFile => String::from_str("Selected item is not a file"),
            FileRead::Unreadable => String::from_str("Selected file could not be read as text"),
        };
        self.formatted_content = None;
        self.diff_content = None;
    }

    /// Starts a search with an empty query and no results.
    pub fn enter_search(&mut self)
        ensures
            final(self).is_searching,
            final(self).search_query@.len() == 0,
            final(self).search_results@.len() == 0,
            final(self).same_but_search(old(self)),
    {
        self.is_searching = true;
        self.search_query = String::new();
        self.search_results = Vec::new();
    }

    /// Appends `c` to the query and recomputes the results.
    pub fn type_char(&mut self, c: char)
        ensures
            final(self).search_query@ == old(self).search_query@.push(c),
            texts(final(self).search_results@) == filter_spec(
                texts(old(self).files@),
                final(self).search_query@,
            ),
            final(self).is_searching == old(self).is_searching,
            final(self).same_but_search(old(self)),
    {
        push_char(&mut self.search_query, c);
        self.search_files();
    }

    /// Drops the last character of the query, if any, and recomputes the results.
    pub fn backspace(&mut self)
        ensures
            final(self).search_query@ == (if old(self).search_query@.len() == 0 {
                old(self).search_query@
            } else {
                old(self).search_query@.drop_last()
            }),
            texts(final(self).search_results@) == filter_spec(
                texts(old(self).files@),
                final(self).search_query@,
            ),
            final(self).is_searching == old(self).is_searching,
            final(self).same_but_search(old(self)),
    {
        let _ = pop_char(&mut self.search_query);
        self.search_files();
    }

    /// Ends the search. With results, they become the entries and the first
    /// one is to be selected: its index is returned. Without, nothing else
    /// changes.
    pub fn confirm_search(&mut self) -> (r: Option<usize>)
        ensures
            !final(self).is_searching,
            final(self).search_query == old(self).search_query,
            final(self).search_results == old(self).search_results,
            old(self).search_results@.len() > 0 ==> {
                &&& r == Some(0usize)
                &&& final(self).files@ == old(self).search_results@
                &&& final(self).selected_index == 0
                &&& final(self).selected_file == old(self).selected_file
                &&& final(self).file_content == old(self).file_content
                &&& final(self).formatted_content == old(self).formatted_content
                &&& final(self).diff_content == old(self).diff_content
                &&& final(self).notification == old(self).notification
                &&& final(self).current_dir == old(self).current_dir
            },
            old(self).search_results@.len() == 0 ==> r is None && final(self).same_but_search(
                old(self),
            ),
            old(self).wf() ==> final(self).wf(),
    {
        self.is_searching = false;
        if self.search_results.len() > 0 {
            self.files = copy_paths(&self.search_results);
            self.selected_index = 0;
            Some(0)
        } else {
            None
        }
    }

    /// Ends the search and changes nothing else.
    pub fn cancel_search(&mut self)
        ensures
            !final(self).is_searching,
            final(self).search_query == old(self).search_query,
            final(self).search_results == old(self).search_results,
            final(self).same_but_search(old(self)),
    {
        self.is_searching = false;
    }

    /// Moves the cursor one entry down, unless it is on the last entry. The
    /// index of the entry to select next is returned; at the end nothing
    /// changes and nothing is to be read.
    pub fn move_down(&mut self) -> (r: Option<usize>)
        ensures
            old(self).selected_index + 1 < old(self).files@.len() ==> {
                &&& r == Some((old(self).selected_index + 1) as usize)
                &&& *final(self) == (App { selected_index: (old(self).selected_index + 1) as usize, ..*old(self) })
            },
            old(self).selected_index + 1 >= old(self).files@.len() ==> r is None && *final(self)
                == *old(self),
            old(self).wf() ==> final(self).wf(),
    {
        if self.selected_index < self.files.len() && self.selected_index + 1 < self.files.len() {
            self.selected_index = self.selected_index + 1;
            Some(self.selected_index)
        } else {
            None
        }
    }

    /// Moves the cursor one entry up, unless it is on the first entry. The
    /// index of the entry to select next is returned; at the top nothing
    /// changes and nothing is to be read.
    pub fn move_up(&mut self) -> (r: Option<usize>)
        ensures
            old(self).selected_index > 0 ==> {
                &&& r == Some((old(self).selected_index - 1) as usize)
                &&& *final(self) == (App { selected_index: (old(self).selected_index - 1) as usize, ..*old(self) })
            },
            old(self).selected_index == 0 ==> r is None && *final(self) == *old(self),
            old(self).wf() ==> final(self).wf(),
    {
        if self.selected_index > 0 {
            self.selected_index = self.selected_index - 1;
            Some(self.selected_index)
        } else {
            None
        }
    }

    /// Formats the selected file when it is an SQL file: keeps the formatted
    /// text, the line diff from the shown text to it, and reports success.
    /// Otherwise only a notification says why nothing was formatted.
    pub fn format_sql(&mut self)
        ensures
            final(self).same_but_output(old(self)),
            old(self).wf() ==> final(self).wf(),
            match old(self).selected_file {
                Some(p) => if is_sql_path(p@) {
                    &&& final(self).formatted_content matches Some(f) && f@ == sql_formatted(
                        old(self).file_content@,
                    )
                    &&& final(self).diff_content matches Some(d) && {
                        let ps = pieces(d@);
                        let f = final(self).formatted_content->0@;
                        &&& ps == diff_spec(old(self).file_content@, f)
                        &&& join_lines(side(ps, DiffKind::Added)) == old(self).file_content@
                        &&& join_lines(side(ps, DiffKind::Removed)) == f
                        &&& has_change(ps) <==> old(self).file_content@ != f
                    }
                    &&& final(self).notification matches Some(n) && n@ == formatted_text()
                } else {
                    &&& final(self).notification matches Some(n) && n@ == not_sql_text()
                    &&& final(self).formatted_content == old(self).formatted_content
                    &&& final(self).diff_content == old(self).diff_content
                },
                None => {
                    &&& final(self).notification matches Some(n) && n@ == no_selection_text()
                    &&& final(self).formatted_content == old(self).formatted_content
                    &&& final(self).diff_content == old(self).diff_content
                },
            },
    {
        match &self.selected_file {
            Some(path) => {
                if is_sql_file(path) {
                    let formatted = format_query(&self.file_content);
                    let diff = compute_diff(&self.file_content, &formatted);
                    self.formatted_content = Some(formatted);
                    self.diff_content = Some(diff);
                    self.notification = Some(String::from_str("SQL formatted successfully"));
                } else {
                    self.notification = Some(String::from_str("Selected file is not an SQL file"));
                }
            },
            None => {
                self.notification = Some(String::from_str("No file selected"));
            },
        }
    }

    /// Asks to save the formatted text over the selected SQL file: the file and
    /// the text to write are returned, and nothing changes until the outcome is
    /// recorded. Without formatted text a notification says there is nothing to
    /// save and nothing is to be written.
    pub fn save_formatted_file(&mut self) -> (r: Option<SaveRequest>)
        ensures
            final(self).same_but_output(old(self)),
            final(self).formatted_content == old(self).formatted_content,
            final(self).diff_content == old(self).diff_content,
            old(self).formatted_content is None ==> {
                &&& r is None
                &&& final(self).notification matches Some(n) && n@ == nothing_to_save_text()
            },
            old(self).formatted_content matches Some(f) ==> {
                &&& final(self).notification == old(self).notification
                &&& match old(self).selected_file {
                    Some(p) => if is_sql_path(p@) {
                        r matches Some(req) && req.path@ == p@ && req.content@ == f@
                    } else {
                        r is None
                    },
                    None => r is None,
                }
            },
    {
        match &self.formatted_content {
            None => {
                self.notification = Some(String::from_str("nothing to save"));
                None
            },
            Some(content) => match &self.selected_file {
                Some(path) => {
                    if is_sql_file(path) {
                        Some(SaveRequest { path: path.clone(), content: content.clone() })
                    } else {
                        None
                    }
                },
                None => None,
            },
        }
    }

    /// Records how writing a save request went. On success the diff is dropped,
    /// since the file now holds the formatted text.
    pub fn record_save(&mut self, saved: bool)
        ensures
            final(self).same_but_output(old(self)),
            final(self).formatted_content == old(self).formatted_content,
            saved ==> final(self).diff_content is None,
            saved ==> (final(self).notification matches Some(n) && n@ == saved_text()),
            !saved ==> final(self).diff_content == old(self).diff_content,
            !saved ==> (final(self).notification matches Some(n) && n@ == save_failed_text()),
            old(self).wf() ==> final(self).wf(),
    {
        if saved {
            self.notification = Some(String::from_str("File saved successfully"));
            self.diff_content = None;
        } else {
            self.notification = Some(String::from_str("Failed to save file"));
        }
    }

    /// Shows `dir`, whose entries are `files`, with nothing selected.
    fn enter_dir(&mut self, dir: String, files: Vec<String>)
        ensures
            final(self).current_dir == dir,
            final(self).files == files,
            final(self).selected_index == 0,
            final(self).selected_file is None,
            final(self).formatted_content is None,
            final(self).diff_content is None,
            final(self).file_content == old(self).file_content,
            final(self).notification == old(self).notification,
            final(self).search_query == old(self).search_query,
            final(self).search_results == old(self).search_results,
            final(self).is_searching == old(self).is_searching,
            final(self).wf(),
    {
        self.current_dir = dir;
        self.files = files;
        self.selected_index = 0;
        self.selected_file = None;
        self.formatted_content = None;
        self.diff_content = None;
    }

    /// Enters the selected entry, a directory whose entries are `files`. With
    /// nothing selected nothing changes.
    pub fn navigate_into_folder(&mut self, files: Vec<String>)
        ensures
            match old(self).selected_file {
                Some(p) => {
                    &&& final(self).current_dir == p
                    &&& final(self).files == files
                    &&& final(self).selected_index == 0
                    &&& final(self).selected_file is None
                    &&& final(self).formatted_content is None
                    &&& final(self).diff_content is None
                    &&& final(self).file_content == old(self).file_content
                    &&& final(self).notification == old(self).notification
                    &&& final(self).search_query == old(self).search_query
                    &&& final(self).search_results == old(self).search_results
                    &&& final(self).is_searching == old(self).is_searching
                    &&& final(self).wf()
                },
                None => *final(self) == *old(self),
            },
    {
        match self.selected_file.clone() {
            Some(path) => self.enter_dir(path, files),
            None => {},
        }
    }

    /// The directory that contains the current one, if it is not a root.
    pub fn parent_dir(&self) -> (r: Option<String>)
        ensures
            match r {
                Some(q) => parent_of(self.current_dir@) == Some(q@),
                None => parent_of(self.current_dir@) is None,
            },
    {
        path_parent(&self.current_dir)
    }

    /// Goes up to the parent directory, whose entries are `files`. At a root
    /// nothing changes.
    pub fn navigate_back(&mut self, files: Vec<String>)
        ensures
            match parent_of(old(self).current_dir@) {
                Some(q) => {
                    &&& final(self).current_dir@ == q
                    &&& final(self).files == files
                    &&& final(self).selected_index == 0
                    &&& final(self).selected_file is None
                    &&& final(self).formatted_content is None
                    &&& final(self).diff_content is None
                    &&& final(self).file_content == old(self).file_content
                    &&& final(self).notification == old(self).notification
                    &&& final(self).search_query == old(self).search_query
                    &&& final(self).search_results == old(self).search_results
                    &&& final(self).is_searching == old(self).is_searching
                    &&& final(self).wf()
                },
                None => *final(self) == *old(self),
            },
    {
        match self.parent_dir() {
            Some(parent) => self.enter_dir(parent, files),
            None => {},
        }
    }
}

} // verus!
