//! The state of the browser: the directory that is shown, its listing, the
//! entry that has the focus, the capacity of a page and a message that waits
//! to be dismissed.

use vstd::prelude::*;
use vstd::string::StringExecFns;
use crate::fms::{
    is_listing_of, list_files_in_directory, scan_failure, DirProbe, EntryView, PathKind, ScanError,
};
use crate::order::{entry_views, listing_sorted, parent_name};
use crate::paging::{
    column_height, current_page, focus_after, lemma_page_among_pages, lemma_step_keeps_focus_valid,
    next_focus, page_count, page_number, total_pages, Direction,
};

verus! {

/// The state of the browser as a mathematical value.
pub struct NavigationState {
    /// The path of the directory that is shown.
    pub path: Seq<char>,
    /// The listing of that directory.
    pub listing: Seq<EntryView>,
    /// The index of the entry that has the focus.
    pub focus: nat,
    /// The number of entries that a page shows; zero before the first page
    /// was laid out.
    pub capacity: nat,
    /// The message of a failure that the user has not yet dismissed.
    pub error: Option<Seq<char>>,
}

impl NavigationState {
    /// What holds of every state: the listing is sorted and starts with the
    /// parent entry, and the focus is on one of its entries.
    pub open spec fn valid(self) -> bool {
        &&& self.listing.len() >= 1
        &&& self.focus < self.listing.len()
        &&& listing_sorted(self.listing)
        &&& self.listing[0].is_dir
        &&& self.listing[0].info.name == parent_name()
    }

    /// The state after one step of the focus.
    pub open spec fn moved(self, dir: Direction) -> NavigationState {
        NavigationState {
            focus: focus_after(
                dir,
                self.focus as int,
                self.listing.len() as int,
                column_height(self.capacity as int),
            ) as nat,
            ..self
        }
    }
}

/// The state of the browser.
pub struct App {
    dir_path: String,
    files: Vec<PathKind>,
    focused_file_index: usize,
    max_files_per_page: usize,
    error_message: Option<String>,
}

impl View for App {
    type V = NavigationState;

    closed spec fn view(&self) -> NavigationState {
        NavigationState {
            path: self.dir_path@,
            listing: entry_views(self.files@),
            focus: self.focused_file_index as nat,
            capacity: self.max_files_per_page as nat,
            error: match self.error_message {
                Some(text) => Some(text@),
                None => None,
            },
        }
    }
}

impl App {
    /// Every state is valid.
    #[verifier::type_invariant]
    closed spec fn well_formed(self) -> bool {
        self@.valid()
    }

    /// The state that shows the directory `dir_path`, of which `probe` was
    /// read, with the focus on its first entry; or the failure of the scan.
    pub fn new(dir_path: &str, probe: DirProbe) -> (made: Result<App, ScanError>)
        ensures
            match scan_failure(probe) {
                Some(failure) => made matches Err(e) && e == failure,
                None => {
                    &&& made matches Ok(app)
                    &&& probe matches DirProbe::Entries(probes)
                    &&& is_listing_of(app@.listing, probes@)
                    &&& app@.path == dir_path@
                    &&& app@.focus == 0
                    &&& app@.capacity == 0
                    &&& app@.error is None
                    &&& app@.valid()
                },
            },
    {
        match list_files_in_directory(probe) {
            Err(failure) => Err(failure),
            Ok(files) => {
                Ok(
                    App {
                        dir_path: String::from_str(dir_path),
                        files,
                        focused_file_index: 0,
                        max_files_per_page: 0,
                        error_message: None,
                    },
                )
            },
        }
    }

    /// The path of the directory that is shown.
    pub fn dir_path(&self) -> (path: String)
        ensures
            path@ == self@.path,
    {
        self.dir_path.clone()
    }

    /// Shows the directory `dir_path`, of which `probe` was read, with the
    /// focus on its first entry. Where the scan fails, nothing changes.
    pub fn set_dir_path(&mut self, dir_path: &str, probe: DirProbe) -> (done: Result<(), ScanError>)
        ensures
            final(self)@.valid(),
            match scan_failure(probe) {
                Some(failure) => done matches Err(e) && e == failure && final(self)@ == old(self)@,
                None => {
                    &&& done is Ok
                    &&& probe matches DirProbe::Entries(probes)
                    &&& is_listing_of(final(self)@.listing, probes@)
                    &&& final(self)@ == (NavigationState {
                        path: dir_path@,
                        listing: final(self)@.listing,
                        focus: 0,
                        ..old(self)@
                    })
                },
            },
    {
        proof {
            use_type_invariant(&*self);
        }
        match list_files_in_directory(probe) {
            Err(failure) => Err(failure),
            Ok(files) => {
                self.focused_file_index = 0;
                self.files = files;
                self.dir_path = String::from_str(dir_path);
                Ok(())
            },
        }
    }

    /// The listing of the directory that is shown.
    pub fn file_list(&self) -> (files: &Vec<PathKind>)
        ensures
            entry_views(files@) == self@.listing,
            self@.valid(),
    {
        proof {
            use_type_invariant(self);
        }
        &self.files
    }

    /// The number of entries of the listing.
    pub fn count_file_list(&self) -> (count: usize)
        ensures
            count == self@.listing.len(),
            count >= 1,
    {
        proof {
            use_type_invariant(self);
        }
        self.files.len()
    }

    /// The entry that has the focus.
    pub fn focused_file(&self) -> (entry: PathKind)
        ensures
            self@.focus < self@.listing.len(),
            entry@ == self@.listing[self@.focus as int],
    {
        proof {
            use_type_invariant(self);
        }
        self.files[self.focused_file_index].clone()
    }

    /// The index of the entry that has the focus.
    pub fn focus_file_no(&self) -> (focus: usize)
        ensures
            focus == self@.focus,
            focus < self@.listing.len(),
    {
        proof {
            use_type_invariant(self);
        }
        self.focused_file_index
    }

    /// Puts the focus on the entry at `no`.
    pub fn set_focus_file_no(&mut self, no: usize)
        requires
            no < old(self)@.listing.len(),
        ensures
            final(self)@ == (NavigationState { focus: no as nat, ..old(self)@ }),
            final(self)@.valid(),
    {
        proof {
            use_type_invariant(&*self);
        }
        self.focused_file_index = no;
    }

    /// Moves the focus by one step over the grid of the page as it was last
    /// laid out.
    pub fn move_focus(&mut self, dir: Direction)
        ensures
            final(self)@ == old(self)@.moved(dir),
            final(self)@.valid(),
    {
        proof {
            use_type_invariant(&*self);
            lemma_step_keeps_focus_valid(
                dir,
                self@.focus as int,
                self@.listing.len() as int,
                column_height(self@.capacity as int),
            );
        }
        self.focused_file_index = next_focus(
            dir,
            self.focused_file_index,
            self.files.len(),
            self.max_files_per_page / 2,
        );
    }

    /// The number of entries that a page shows.
    pub fn max_files_per_page(&self) -> (capacity: usize)
        ensures
            capacity == self@.capacity,
    {
        self.max_files_per_page
    }

    /// Sets the number of entries that a page shows.
    pub fn set_max_files_per_page(&mut self, count: usize)
        ensures
            final(self)@ == (NavigationState { capacity: count as nat, ..old(self)@ }),
            final(self)@.valid(),
    {
        proof {
            use_type_invariant(&*self);
        }
        self.max_files_per_page = count;
    }

    /// The page that holds the focus, counted from one. Before a page was
    /// laid out it is the first.
    pub fn current_page_no(&self) -> (page: usize)
        ensures
            page == page_number(self@.focus as int, self@.capacity as int),
            1 <= page <= page_count(self@.listing.len() as int, self@.capacity as int),
    {
        proof {
            use_type_invariant(self);
            lemma_page_among_pages(
                self@.focus as int,
                self@.listing.len() as int,
                self@.capacity as int,
            );
        }
        // the focus is an index into the listing, so one more than it is a `usize`
        let count: usize = self.files.len();
        assert(self.focused_file_index < count);
        current_page(self.focused_file_index, self.max_files_per_page)
    }

    /// The number of pages of the listing.
    pub fn total_pages(&self) -> (pages: usize)
        ensures
            pages == page_count(self@.listing.len() as int, self@.capacity as int),
    {
        total_pages(self.files.len(), self.max_files_per_page)
    }

    /// The message that waits to be dismissed, if there is one.
    pub fn error_message(&self) -> (message: Option<String>)
        ensures
            match message {
                Some(text) => self@.error == Some(text@),
                None => self@.error is None,
            },
    {
        match &self.error_message {
            Some(text) => Some(text.clone()),
            None => None,
        }
    }

    /// Whether a message waits to be dismissed.
    pub fn has_error(&self) -> (pending: bool)
        ensures
            pending == self@.error is Some,
            self@.valid(),
    {
        proof {
            use_type_invariant(self);
        }
        self.error_message.is_some()
    }

    /// Sets the message that the user is to dismiss.
    pub fn set_error_message(&mut self, message: &str)
        ensures
            final(self)@ == (NavigationState { error: Some(message@), ..old(self)@ }),
            final(self)@.valid(),
    {
        proof {
            use_type_invariant(&*self);
        }
        self.error_message = Some(String::from_str(message));
    }

    /// Dismisses the message.
    pub fn clear_error_message(&mut self)
        ensures
            final(self)@ == (NavigationState { error: None, ..old(self)@ }),
            final(self)@.valid(),
    {
        proof {
            use_type_invariant(&*self);
        }
        self.error_message = None;
    }
}

} // verus!
