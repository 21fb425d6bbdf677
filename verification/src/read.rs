//! Collecting test suites: which paths are read, searched or refused, which files of a
//! searched directory count as suites, and which suites are kept.

use vstd::prelude::*;

use crate::config::Configuration;
use crate::dto::TestSuite;
use crate::error::{ApplicationError, ApplicationResult};
use crate::filter::{create_filter, filter_keeps, Filter};
use crate::text::{texts_view, text_equal};

verus! {

/// The extension of the file that a path names, as `std::path::Path::extension` gives it.
pub uninterp spec fn path_extension(path: Seq<char>) -> Option<Seq<char>>;

/// Calls `std::path::Path::extension` on the path. The contract claims only that the
/// result is a function of the path (`path_extension`); what that function is
/// (the text after the last '.' of the file name, with the exceptions that std lists)
/// is not stated.
#[verifier::external_body]
fn file_extension(path: &str) -> (e: Option<String>)
    ensures
        e matches Some(x) ==> path_extension(path@) == Some(x@),
        e is None ==> path_extension(path@) is None,
{
    match std::path::Path::new(path).extension() {
        Some(x) => Some(x.to_string_lossy().into_owned()),
        None => None,
    }
}

/// Whether a file with that extension is read while searching a directory: always
/// when no extensions are given, otherwise when it has one of them.
pub open spec fn extension_accepted(extension: Option<Seq<char>>, extensions: Option<Seq<String>>) -> bool {
    match extensions {
        None => true,
        Some(list) => match extension {
            None => false,
            Some(x) => extension_listed(x, list),
        },
    }
}

/// The extension is one of the list.
pub open spec fn extension_listed(x: Seq<char>, list: Seq<String>) -> bool {
    exists|i: int| 0 <= i < list.len() && #[trigger] list[i]@ == x
}

/// Whether a file with the extension `file_extension` is read while searching a directory.
pub fn extension_matches(file_extension: Option<&str>, extensions: Option<&Vec<String>>) -> (b: bool)
    ensures
        b == extension_accepted(
            match file_extension {
                Some(x) => Some(x@),
                None => None,
            },
            match extensions {
                Some(l) => Some(l@),
                None => None,
            },
        ),
{
    match (extensions, file_extension) {
        (Some(list), Some(x)) => {
            let mut i: usize = 0;
            while i < list.len()
                invariant
                    extensions == Some(list),
                    file_extension == Some(x),
                    i <= list.len(),
                    forall|k: int| 0 <= k < i ==> list@[k]@ != x@,
                decreases list.len() - i,
            {
                if text_equal(list[i].as_str(), x) {
                    assert(list@[i as int]@ == x@);
                    assert(extension_listed(x@, list@));
                    return true;
                }
                i = i + 1;
            }
            false
        },
        (Some(_), None) => false,
        (None, _) => true,
    }
}

/// Whether the file at `file_path` is read while searching a directory.
pub fn is_extension_matches(file_path: &str, extensions: Option<&Vec<String>>) -> (b: bool)
    ensures
        b == extension_accepted(
            path_extension(file_path@),
            match extensions {
                Some(l) => Some(l@),
                None => None,
            },
        ),
{
    let extension = file_extension(file_path);
    match &extension {
        Some(x) => extension_matches(Some(x.as_str()), extensions),
        None => extension_matches(None, extensions),
    }
}

/// What to do with a suite path given on the command line.
#[derive(Debug, Clone, Copy, PartialEq, Eq, Structural)]
pub enum PathAction {
    /// Read the file as a suite.
    ReadFile,
    /// Search the directory.
    Search,
    /// Stop: the path is a directory and directories are not searched.
    Refuse,
}

/// A file is read; a directory is searched when the search is recursive; anything
/// else is refused.
pub fn path_action(is_file: bool, is_dir: bool, recursive: bool) -> (a: PathAction)
    ensures
        is_file ==> a == PathAction::ReadFile,
        !is_file && recursive && is_dir ==> a == PathAction::Search,
        !is_file && !(recursive && is_dir) ==> a == PathAction::Refuse,
{
    if is_file {
        PathAction::ReadFile
    } else if recursive && is_dir {
        PathAction::Search
    } else {
        PathAction::Refuse
    }
}

/// What to do with an entry of a searched directory.
#[derive(Debug, Clone, Copy, PartialEq, Eq, Structural)]
pub enum EntryAction {
    ReadFile,
    Search,
    Ignore,
}

/// A file with an accepted extension is read, a directory is searched, anything else
/// is passed over.
pub fn entry_action(is_file: bool, is_dir: bool, extension_matches: bool) -> (a: EntryAction)
    ensures
        is_file && extension_matches ==> a == EntryAction::ReadFile,
        !(is_file && extension_matches) && is_dir ==> a == EntryAction::Search,
        !(is_file && extension_matches) && !is_dir ==> a == EntryAction::Ignore,
{
    if is_file && extension_matches {
        EntryAction::ReadFile
    } else if is_dir {
        EntryAction::Search
    } else {
        EntryAction::Ignore
    }
}

/// The suites read so far, and the filter that decides which are kept.
#[derive(Debug)]
pub struct SuiteReader {
    pub filter: Filter,
    pub suites: Vec<TestSuite>,
}

impl SuiteReader {
    /// A reader with the filter that the configuration asks for, and no suite yet.
    pub fn new(config: &Configuration) -> (r: SuiteReader)
        ensures
            r.suites@.len() == 0,
            config.filter is None ==> r.filter is Empty,
            config.filter matches Some(e) ==> (r.filter matches Filter::Simple(s) && texts_view(
                s.filter@,
            ) == crate::filter::filter_terms(e@)),
    {
        SuiteReader { filter: create_filter(config), suites: Vec::new() }
    }

    /// Keeps a suite that was read, if the filter keeps it.
    pub fn add_suite(&mut self, suite: TestSuite)
        ensures
            final(self).filter == old(self).filter,
            filter_keeps(old(self).filter, suite.name@) ==> final(self).suites@ == old(
                self,
            ).suites@.push(suite),
            !filter_keeps(old(self).filter, suite.name@) ==> final(self).suites@ == old(self).suites@,
    {
        if self.filter.start_suite(&suite) {
            self.suites.push(suite);
        }
    }

    /// The suites kept, or an error when none was.
    pub fn finish(self) -> (r: ApplicationResult<Vec<TestSuite>>)
        ensures
            self.suites@.len() > 0 ==> (r matches Ok(v) && v@ == self.suites@),
            self.suites@.len() == 0 ==> r == Err::<Vec<TestSuite>, ApplicationError>(
                ApplicationError::NoSuitesFound,
            ),
    {
        if self.suites.len() > 0 {
            Ok(self.suites)
        } else {
            Err(ApplicationError::no_suites_found())
        }
    }
}

} // verus!
