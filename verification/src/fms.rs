//! The entries of a directory: what is known of each, how it is shown, and
//! how the listing of a directory is made from what was read of it.

use vstd::prelude::*;
use vstd::string::StringExecFns;
use crate::clock::Timestamp;
use vstd::seq_lib::to_multiset_contains;
use crate::order::{
    entry_rank, entry_views, lemma_parent_first, listing_sorted, parent_name, sort_entries,
};
use crate::size::{format_size, size_text};
use crate::text::{push_spaces, spaces};
use crate::width::{display_columns, fit_name, formatted_name};

verus! {

/// What is known of a file or a directory.
#[derive(Debug)]
pub struct FileInformation {
    /// The place of the entry in the order in which the directory was read.
    pub file_no: u16,
    pub file_name: String,
    /// The size in bytes; zero for a directory.
    pub file_size: u64,
    /// The minute of the last modification; the parent entry has none.
    pub last_modified: Option<Timestamp>,
}

/// An entry of a listing: a file or a directory.
#[derive(Debug)]
pub enum PathKind {
    FILE(FileInformation),
    DIR(FileInformation),
}

/// `FileInformation` with its name as a sequence of characters.
pub struct InfoView {
    pub file_no: u16,
    pub name: Seq<char>,
    pub size: u64,
    pub modified: Option<Timestamp>,
}

/// `PathKind` as a mathematical value.
pub struct EntryView {
    pub is_dir: bool,
    pub info: InfoView,
}

impl View for FileInformation {
    type V = InfoView;

    open spec fn view(&self) -> InfoView {
        InfoView {
            file_no: self.file_no,
            name: self.file_name@,
            size: self.file_size,
            modified: self.last_modified,
        }
    }
}

impl View for PathKind {
    type V = EntryView;

    open spec fn view(&self) -> EntryView {
        match *self {
            PathKind::FILE(info) => EntryView { is_dir: false, info: info@ },
            PathKind::DIR(info) => EntryView { is_dir: true, info: info@ },
        }
    }
}

/// The text of the time of modification: the minute where there is one, and
/// as many spaces where there is none.
pub open spec fn modified_text(modified: Option<Timestamp>) -> Seq<char> {
    match modified {
        Some(minute) => minute.spec_text(),
        None => spaces(16),
    }
}

impl Clone for FileInformation {
    fn clone(&self) -> (copy: Self)
        ensures
            copy == *self,
    {
        FileInformation {
            file_no: self.file_no,
            file_name: self.file_name.clone(),
            file_size: self.file_size,
            last_modified: self.last_modified,
        }
    }
}

impl Clone for PathKind {
    fn clone(&self) -> (copy: Self)
        ensures
            copy == *self,
    {
        match self {
            PathKind::FILE(info) => PathKind::FILE(info.clone()),
            PathKind::DIR(info) => PathKind::DIR(info.clone()),
        }
    }
}

impl FileInformation {
    /// The name in a field of `max_width` columns: followed by spaces where it
    /// is narrower, cut and marked with an ellipsis where it is wider.
    ///
    /// The field is exactly `max_width` columns wide, if it has room for the
    /// ellipsis or the name takes no column at all.
    pub fn format_file_name(&self, max_width: usize) -> (field: String)
        ensures
            field@ == formatted_name(self@.name, max_width as nat),
            max_width >= 1 || display_columns(self@.name) == 0 ==> display_columns(field@)
                == max_width,
    {
        fit_name(self.file_name.as_str(), max_width)
    }

    /// The size in a field of eight characters, scaled to `K`, `M` or `G`
    /// from 1024 bytes on.
    pub fn format_file_size(&self) -> (field: String)
        ensures
            field@ == size_text(self@.size as nat),
    {
        format_size(self.file_size)
    }

    /// The time of the last modification as `YYYY/MM/DD HH:MM`, or sixteen
    /// spaces for an entry that has none. The field has sixteen characters,
    /// unless the year has a sign.
    pub fn formatted_modified(&self) -> (field: String)
        ensures
            field@ == modified_text(self@.modified),
            match self@.modified {
                Some(minute) => 0 <= minute.spec_year() <= 9999 ==> field@.len() == 16,
                None => field@.len() == 16,
            },
    {
        match self.last_modified {
            Some(minute) => minute.text(),
            None => {
                let mut field = String::new();
                push_spaces(&mut field, 16);
                field
            },
        }
    }
}

impl PathKind {
    /// What is known of the entry, file or directory.
    pub open spec fn spec_info(&self) -> FileInformation {
        match *self {
            PathKind::FILE(info) => info,
            PathKind::DIR(info) => info,
        }
    }

    /// What is known of the entry, file or directory.
    pub fn info(&self) -> (info: &FileInformation)
        ensures
            *info == self.spec_info(),
            info@ == self@.info,
    {
        match self {
            PathKind::FILE(info) => info,
            PathKind::DIR(info) => info,
        }
    }

    /// Whether the entry is a directory.
    pub fn is_dir(&self) -> (dir: bool)
        ensures
            dir == self@.is_dir,
    {
        match self {
            PathKind::FILE(_) => false,
            PathKind::DIR(_) => true,
        }
    }
}

/// What reading one entry of a directory came to.
#[derive(Debug)]
pub enum EntryProbe {
    /// The entry and its metadata were read.
    Found { name: String, size: u64, modified: Timestamp, is_dir: bool },
    /// The name of the entry is not valid text.
    BadName,
    /// The entry or its metadata could not be read, and why, in the words of
    /// the system.
    Fault(String),
}

/// What reading a directory came to.
#[derive(Debug)]
pub enum DirProbe {
    /// The path does not lead to a directory.
    NotADirectory,
    /// The directory could not be opened for reading, and why, in the words
    /// of the system.
    Unreadable(String),
    /// The entries of the directory, in the order in which they were read.
    Entries(Vec<EntryProbe>),
}

/// Why a directory has no listing.
#[derive(Debug, PartialEq, Eq)]
pub enum ScanError {
    /// The path does not lead to a directory.
    NotADirectory,
    /// The name of an entry is not valid text.
    NameDecodingFailure,
    /// The directory or one of its entries could not be read; the words of
    /// the system say why.
    ReadFailure(String),
}

/// The text that tells the user of a path that is not a directory.
pub open spec fn not_a_directory_text() -> Seq<char> {
    "指定されたパスはディレクトリではありません"@
}

/// The text that tells the user of a name that is not valid text.
pub open spec fn name_decoding_text() -> Seq<char> {
    "ファイル名の変換に失敗しました"@
}

impl Clone for ScanError {
    fn clone(&self) -> (copy: Self)
        ensures
            copy == *self,
    {
        match self {
            ScanError::NotADirectory => ScanError::NotADirectory,
            ScanError::NameDecodingFailure => ScanError::NameDecodingFailure,
            ScanError::ReadFailure(detail) => ScanError::ReadFailure(detail.clone()),
        }
    }
}

impl ScanError {
    /// The text that tells the user of the failure: the words of the system
    /// for a failure to read, and a fixed text for the two others.
    pub open spec fn spec_message(self) -> Seq<char> {
        match self {
            ScanError::NotADirectory => not_a_directory_text(),
            ScanError::NameDecodingFailure => name_decoding_text(),
            ScanError::ReadFailure(detail) => detail@,
        }
    }

    /// The text that tells the user of the failure.
    pub fn message(&self) -> (text: String)
        ensures
            text@ == self.spec_message(),
    {
        match self {
            ScanError::NotADirectory => String::from_str("指定されたパスはディレクトリではありません"),
            ScanError::NameDecodingFailure => String::from_str("ファイル名の変換に失敗しました"),
            ScanError::ReadFailure(detail) => detail.clone(),
        }
    }
}

/// The entry that leads to the parent directory: a directory named `..`,
/// first in the order of reading, without size or time.
pub open spec fn parent_entry() -> EntryView {
    EntryView {
        is_dir: true,
        info: InfoView { file_no: 0, name: parent_name(), size: 0, modified: None },
    }
}

/// The entry that the probe `probe` stands for, read as number `file_no`. A
/// directory has no size.
pub open spec fn found_entry(probe: EntryProbe, file_no: u16) -> EntryView
    recommends
        probe is Found,
{
    EntryView {
        is_dir: probe->is_dir,
        info: InfoView {
            file_no,
            name: probe->name@,
            size: if probe->is_dir {
                0
            } else {
                probe->size
            },
            modified: Some(probe->modified),
        },
    }
}

/// The number under which the entry at `index` of a directory is read:
/// counted from one, and from zero again after 65535.
pub open spec fn file_no_at(index: int) -> u16 {
    ((index + 1) % 65536) as u16
}

/// The entries of a directory in the order of reading, behind the parent
/// entry.
pub open spec fn unsorted_listing(probes: Seq<EntryProbe>) -> Seq<EntryView> {
    seq![parent_entry()] + Seq::new(probes.len(), |i: int| found_entry(probes[i], file_no_at(i)))
}

/// The failure of the first entry that was not read, if there is one.
pub open spec fn first_failure(probes: Seq<EntryProbe>) -> Option<ScanError>
    decreases probes.len(),
{
    if probes.len() == 0 {
        None
    } else {
        match probes.first() {
            EntryProbe::BadName => Some(ScanError::NameDecodingFailure),
            EntryProbe::Fault(detail) => Some(ScanError::ReadFailure(detail)),
            EntryProbe::Found { .. } => first_failure(probes.drop_first()),
        }
    }
}

/// `listing` is the listing of the directory whose entries are `probes`: it
/// holds the parent entry and every entry of the directory and nothing else,
/// in the order of a listing.
pub open spec fn is_listing_of(listing: Seq<EntryView>, probes: Seq<EntryProbe>) -> bool {
    &&& listing_sorted(listing)
    &&& listing.to_multiset() == unsorted_listing(probes).to_multiset()
    &&& listing.len() == probes.len() + 1
}

/// What scanning a directory comes to, as far as the failures go.
pub open spec fn scan_failure(probe: DirProbe) -> Option<ScanError> {
    match probe {
        DirProbe::NotADirectory => Some(ScanError::NotADirectory),
        DirProbe::Unreadable(detail) => Some(ScanError::ReadFailure(detail)),
        DirProbe::Entries(probes) => first_failure(probes@),
    }
}

/// Adds an entry to `file_list`: a directory, which has no size, or a file.
fn add_file_info(
    file_list: &mut Vec<PathKind>,
    file_no: u16,
    file_name: String,
    file_size: u64,
    modified: Timestamp,
    is_dir: bool,
)
    ensures
        final(file_list)@.len() == old(file_list)@.len() + 1,
        final(file_list)@.drop_last() == old(file_list)@,
        final(file_list)@.last()@ == (EntryView {
            is_dir,
            info: InfoView {
                file_no,
                name: file_name@,
                size: if is_dir {
                    0
                } else {
                    file_size
                },
                modified: Some(modified),
            },
        }),
{
    if is_dir {
        let info = FileInformation {
            file_no,
            file_name,
            file_size: 0,
            last_modified: Some(modified),
        };
        file_list.push(PathKind::DIR(info));
    } else {
        let info = FileInformation { file_no, file_name, file_size, last_modified: Some(modified) };
        file_list.push(PathKind::FILE(info));
    }
}

/// Makes the listing of a directory from what was read of it.
///
/// A path that is no directory, a directory that cannot be read and the first
/// entry that was not read each end the scan with their failure. Otherwise
/// the listing holds the parent entry and every entry that was read, the
/// directories before the files and each group by name.
pub fn list_files_in_directory(probe: DirProbe) -> (scan: Result<Vec<PathKind>, ScanError>)
    ensures
        match scan_failure(probe) {
            Some(failure) => scan == Err::<Vec<PathKind>, ScanError>(failure),
            None => {
                &&& scan matches Ok(listing)
                &&& probe matches DirProbe::Entries(probes)
                &&& is_listing_of(entry_views(listing@), probes@)
                &&& entry_views(listing@)[0].is_dir
                &&& entry_views(listing@)[0].info.name == parent_name()
            },
        },
{
    let probes = match probe {
        DirProbe::NotADirectory => {
            return Err(ScanError::NotADirectory);
        },
        DirProbe::Unreadable(detail) => {
            return Err(ScanError::ReadFailure(detail));
        },
        DirProbe::Entries(probes) => probes,
    };
    let mut file_list: Vec<PathKind> = Vec::new();
    let mut file_no: u16 = 0;
    file_list.push(
        PathKind::DIR(
            FileInformation {
                file_no,
                file_name: String::from_str(".."),
                file_size: 0,
                last_modified: None,
            },
        ),
    );
    proof {
        reveal_strlit("..");
        assert(".."@ =~= parent_name());
        assert(entry_views(file_list@) =~= unsorted_listing(probes@).take(1));
        assert(probes@.skip(0) =~= probes@);
    }
    let ghost all = probes@;
    for entry in it: probes
        invariant
            it.seq() == all,
            scan_failure(probe) == first_failure(all),
            file_list@.len() == it.index() + 1,
            entry_views(file_list@) == unsorted_listing(all).take(it.index() + 1),
            file_no == it.index() % 65536,
            first_failure(all) == first_failure(all.skip(it.index())),
    {
        let ghost index: int = it.index();
        proof {
            assert(all.skip(index).drop_first() =~= all.skip(index + 1));
        }
        file_no = file_no.wrapping_add(1);
        match entry {
            EntryProbe::Found { name, size, modified, is_dir } => {
                add_file_info(&mut file_list, file_no, name, size, modified, is_dir);
                assert(entry_views(file_list@) =~= unsorted_listing(all).take(index + 2));
            },
            EntryProbe::BadName => {
                return Err(ScanError::NameDecodingFailure);
            },
            EntryProbe::Fault(detail) => {
                return Err(ScanError::ReadFailure(detail));
            },
        }
    }
    proof {
        assert(unsorted_listing(all).take(all.len() as int + 1) =~= unsorted_listing(all));
    }
    let listing = sort_entries(file_list);
    proof {
        lemma_listing_starts_with_parent(entry_views(listing@), all);
    }
    Ok(listing)
}

/// A listing is never empty, and its first entry is a parent entry: a
/// directory named `..`.
pub proof fn lemma_listing_starts_with_parent(listing: Seq<EntryView>, probes: Seq<EntryProbe>)
    requires
        is_listing_of(listing, probes),
    ensures
        listing.len() >= 1,
        listing[0].is_dir,
        listing[0].info.name == parent_name(),
{
    let unsorted = unsorted_listing(probes);
    assert(unsorted[0] == parent_entry());
    to_multiset_contains(unsorted, parent_entry());
    to_multiset_contains(listing, parent_entry());
    let at = choose|i: int| 0 <= i < listing.len() && listing[i] == parent_entry();
    if entry_rank(listing[0]) != 0 {
        lemma_parent_first(listing, at, 0);
    }
}

} // verus!
