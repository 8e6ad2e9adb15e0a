//! The sample directories of the channels, and which of a directory's
//! files are samples.

use vstd::prelude::*;

use crate::settings::Settings;

verus! {

/// A part of the name of a hidden file's companion, which is no sample.
pub const HIDDEN_FILE: &'static str = "._";

/// A part of the name of every sample file.
pub const WAV_EXTENSION: &'static str = "wav";

/// Whether `pat` occurs in `s`.
pub open spec fn occurs_in(s: Seq<char>, pat: Seq<char>) -> bool {
    exists|i: int| 0 <= i && i + pat.len() <= s.len() && #[trigger] s.subrange(i, i + pat.len()) == pat
}

/// Whether a path names a sample file.
pub open spec fn is_sample_path(path: Seq<char>) -> bool {
    occurs_in(path, WAV_EXTENSION@) && !occurs_in(path, HIDDEN_FILE@)
}

/// The sample files among the paths of a directory listing, in the
/// listing's order.
pub open spec fn sample_files(listing: Seq<Seq<char>>) -> Seq<Seq<char>>
    decreases listing.len(),
{
    if listing.len() == 0 {
        Seq::empty()
    } else {
        let rest = sample_files(listing.drop_last());
        if is_sample_path(listing.last()) {
            rest.push(listing.last())
        } else {
            rest
        }
    }
}

/// The text of each path of a listing.
pub open spec fn path_texts(paths: Seq<String>) -> Seq<Seq<char>> {
    paths.map_values(|p: String| p@)
}

/// Relies on `str::contains` with a `&str` pattern: whether `pat` occurs
/// in `s`.
#[verifier::external_body]
pub(crate) fn str_contains(s: &str, pat: &str) -> (r: bool)
    ensures
        r == occurs_in(s@, pat@),
{
    s.contains(pat)
}

/// Whether `path` names a sample file: it holds `wav` and not `._`.
pub fn is_valid_file(path: &str) -> (r: bool)
    ensures
        r == is_sample_path(path@),
{
    str_contains(path, WAV_EXTENSION) && !str_contains(path, HIDDEN_FILE)
}

/// The directory of one channel's samples.
#[derive(Clone, Debug)]
pub struct SampleDir {
    path: String,
}

impl View for SampleDir {
    type V = Seq<char>;

    closed spec fn view(&self) -> Seq<char> {
        self.path@
    }
}

impl SampleDir {
    pub fn from_path(path: &str) -> (r: Self)
        ensures
            r@ == path@,
    {
        SampleDir { path: path.to_owned() }
    }

    pub fn path(&self) -> (r: &str)
        ensures
            r@ == self@,
    {
        self.path.as_str()
    }

    /// The sample files among `listing`, the paths read from this
    /// directory, in the order read.
    pub fn entries(&self, listing: &Vec<String>) -> (r: Vec<String>)
        ensures
            path_texts(r@) == sample_files(path_texts(listing@)),
    {
        let mut files: Vec<String> = Vec::new();
        let mut i: usize = 0;
        while i < listing.len()
            invariant
                i <= listing@.len(),
                path_texts(files@) == sample_files(path_texts(listing@).take(i as int)),
            decreases listing@.len() - i,
        {
            let ghost prefix = path_texts(listing@).take(i + 1);
            assert(prefix.drop_last() =~= path_texts(listing@).take(i as int));
            assert(prefix.last() == listing@[i as int]@);
            if is_valid_file(listing[i].as_str()) {
                files.push(listing[i].clone());
                assert(path_texts(files@) =~= sample_files(prefix));
            }
            i += 1;
        }
        assert(path_texts(listing@).take(listing@.len() as int) =~= path_texts(listing@));
        files
    }
}

/// The sample directory of each channel.
#[derive(Debug)]
pub struct SampleManager {
    dirs: Vec<SampleDir>,
}

impl View for SampleManager {
    type V = Seq<Seq<char>>;

    closed spec fn view(&self) -> Seq<Seq<char>> {
        self.dirs@.map_values(|d: SampleDir| d@)
    }
}

impl SampleManager {
    pub fn new(settings: &Settings) -> (r: Self)
        ensures
            r@.len() == settings.channels@.len(),
            forall|i: int| 0 <= i < r@.len() ==> r@[i] == settings.channels@[i].sample_dir@,
    {
        let paths = settings.sample_dirs();
        let mut dirs: Vec<SampleDir> = Vec::new();
        let mut i: usize = 0;
        while i < paths.len()
            invariant
                i <= paths@.len(),
                paths@.len() == settings.channels@.len(),
                forall|k: int| 0 <= k < paths@.len() ==> paths@[k]@ == settings.channels@[k].sample_dir@,
                dirs@.len() == i,
                forall|k: int| 0 <= k < i ==> dirs@[k]@ == settings.channels@[k].sample_dir@,
            decreases paths@.len() - i,
        {
            dirs.push(SampleDir::from_path(paths[i]));
            i += 1;
        }
        SampleManager { dirs }
    }

    /// The directory of channel `channel_index`, if the channel exists.
    pub fn sample_dir(&self, channel_index: usize) -> (r: Option<&SampleDir>)
        ensures
            channel_index < self@.len() ==> (r matches Some(d) && d@ == self@[channel_index as int]),
            channel_index >= self@.len() ==> r is None,
    {
        if channel_index < self.dirs.len() {
            Some(&self.dirs[channel_index])
        } else {
            None
        }
    }

    /// The path of sample `sample_index` of channel `channel_index`, where
    /// `listing` holds the paths read from that channel's directory: `None`
    /// when the channel does not exist or has fewer samples.
    pub fn get_path_for_sample(
        &self,
        channel_index: usize,
        sample_index: usize,
        listing: &Vec<String>,
    ) -> (r: Option<String>)
        ensures
            channel_index >= self@.len() ==> r is None,
            channel_index < self@.len() ==> {
                let files = sample_files(path_texts(listing@));
                &&& sample_index < files.len() ==> (r matches Some(p) && p@ == files[sample_index as int])
                &&& sample_index >= files.len() ==> r is None
            },
    {
        if channel_index >= self.dirs.len() {
            return None;
        }
        let entries = self.dirs[channel_index].entries(listing);
        if sample_index < entries.len() {
            assert(path_texts(entries@)[sample_index as int] == entries@[sample_index as int]@);
            Some(entries[sample_index].clone())
        } else {
            None
        }
    }
}

} // verus!
