//! The profile files resolution works on.
//!
//! Resolution itself performs no disk I/O: the caller probes the file
//! system, reads and parses whatever candidate files exist, and hands the
//! outcome over as a [`ProfileSource`] — a map from path to what loading
//! that path produced.  A path absent from the source is a file that does
//! not exist.

use crate::config::RusticConfig;
use crate::config::RusticConfigV;
use vstd::prelude::*;

verus! {

/// What loading one existing profile file produced.
#[derive(Debug)]
pub enum LoadedFile {
    /// The file parsed into a configuration document.
    Parsed(RusticConfig),
    /// The file exists but its syntax is malformed; the detail says how.
    Malformed(String),
    /// The file exists but could not be read; the detail says why.
    Unreadable(String),
    /// The file holds a top-level key the schema does not recognise.
    UnknownField(String),
}

/// Mathematical image of [`LoadedFile`].
pub enum LoadedFileV {
    Parsed(RusticConfigV),
    Malformed(Seq<char>),
    Unreadable(Seq<char>),
    UnknownField(Seq<char>),
}

impl View for LoadedFile {
    type V = LoadedFileV;

    open spec fn view(&self) -> LoadedFileV {
        match self {
            LoadedFile::Parsed(c) => LoadedFileV::Parsed(c@),
            LoadedFile::Malformed(d) => LoadedFileV::Malformed(d@),
            LoadedFile::Unreadable(d) => LoadedFileV::Unreadable(d@),
            LoadedFile::UnknownField(d) => LoadedFileV::UnknownField(d@),
        }
    }
}

/// The map described by a sequence of entries, a later entry for a path
/// shadowing an earlier one.
pub open spec fn spec_files_map(s: Seq<(String, LoadedFile)>) -> Map<Seq<char>, LoadedFileV>
    decreases s.len(),
{
    if s.len() == 0 {
        Map::empty()
    } else {
        spec_files_map(s.drop_last()).insert(s.last().0@, s.last().1@)
    }
}

/// The map a file sequence describes has finitely many paths, at most one
/// per entry.
pub proof fn lemma_files_map_dom(s: Seq<(String, LoadedFile)>)
    ensures
        spec_files_map(s).dom().finite(),
        spec_files_map(s).dom().len() <= s.len(),
    decreases s.len(),
{
    if s.len() > 0 {
        lemma_files_map_dom(s.drop_last());
        assert(spec_files_map(s).dom() =~= spec_files_map(s.drop_last()).dom().insert(
            s.last().0@,
        ));
    }
}

/// The outcome of probing and loading every candidate profile file that
/// exists, keyed by path.
#[derive(Debug)]
pub struct ProfileSource {
    files: Vec<(String, LoadedFile)>,
}

impl View for ProfileSource {
    type V = Map<Seq<char>, LoadedFileV>;

    closed spec fn view(&self) -> Map<Seq<char>, LoadedFileV> {
        spec_files_map(self.files@)
    }
}

impl Default for ProfileSource {
    /// No profile file exists at all.
    fn default() -> (r: Self)
        ensures
            r@ == Map::<Seq<char>, LoadedFileV>::empty(),
    {
        ProfileSource { files: Vec::new() }
    }
}

impl ProfileSource {
    /// Record what loading the file at `path` produced.
    pub fn insert(&mut self, path: String, file: LoadedFile)
        ensures
            final(self)@ == old(self)@.insert(path@, file@),
    {
        self.files.push((path, file));
        proof {
            assert(self.files@.drop_last() =~= old(self).files@);
        }
    }

    /// The source has finitely many paths.
    pub proof fn lemma_finite_dom(&self)
        ensures
            self@.dom().finite(),
    {
        lemma_files_map_dom(self.files@);
    }

    /// What loading `path` produced, or `None` where no such file exists.
    pub fn get(&self, path: &String) -> (r: Option<&LoadedFile>)
        ensures
            r matches Some(f) ==> self@.contains_key(path@) && f@ == self@[path@],
            r is None ==> !self@.contains_key(path@),
    {
        let mut i: usize = self.files.len();
        proof {
            assert(self.files@.take(self.files.len() as int) =~= self.files@);
        }
        while i > 0
            invariant
                i <= self.files.len(),
                self@.contains_key(path@) ==> spec_files_map(
                    self.files@.take(i as int),
                ).contains_key(path@) && spec_files_map(self.files@.take(i as int))[path@]
                    == self@[path@],
                !self@.contains_key(path@) ==> !spec_files_map(
                    self.files@.take(i as int),
                ).contains_key(path@),
            decreases i,
        {
            i = i - 1;
            proof {
                assert(self.files@.take(i as int + 1).drop_last() =~= self.files@.take(i as int));
                assert(self.files@.take(i as int + 1).last() == self.files@[i as int]);
            }
            if self.files[i].0 == *path {
                return Some(&self.files[i].1);
            }
        }
        proof {
            assert(self.files@.take(0) =~= Seq::<(String, LoadedFile)>::empty());
        }
        None
    }

    /// Whether a profile file exists at `path`.
    pub fn contains(&self, path: &String) -> (r: bool)
        ensures
            r == self@.contains_key(path@),
    {
        self.get(path).is_some()
    }
}

} // verus!
