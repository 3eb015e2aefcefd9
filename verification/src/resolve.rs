//! Recursive profile resolution.
//!
//! Given a starting profile name, resolution computes the candidate paths,
//! picks the first that exists in the [`ProfileSource`], and folds the
//! parsed document into the accumulator — after first resolving, in order,
//! every profile the document references, so that nested profiles have
//! lower precedence than the profile referencing them.  A missing profile
//! is no error: it is recorded in the merge log at a caller-chosen
//! severity.  A chain of references that revisits a file in resolution
//! fails fast with a cycle error instead of recursing without bound.
//!
//! The whole computation is specified by [`spec_resolve_profile`], a pure
//! function of the location snapshot, the file source, the accumulator,
//! the log so far and the profile name.

use crate::config::merge_config;
use crate::config::RusticConfig;
use crate::config::RusticConfigV;
use crate::level::LogLevel;
use crate::paths::get_config_paths;
use crate::paths::spec_config_paths;
use crate::paths::ConfigLocations;
use crate::paths::ConfigLocationsV;
use crate::source::LoadedFile;
use crate::source::LoadedFileV;
use crate::source::ProfileSource;
use crate::strings::clone_string_vec;
use crate::strings::join_comma;
use crate::strings::spec_join_comma;
use vstd::prelude::*;
use vstd::set_lib::lemma_len_subset;

verus! {

/// Why resolution failed hard; a missing profile is not among these.
#[derive(Debug)]
pub enum ProfileError {
    /// The file at `path` is already being resolved further up the chain.
    Cycle { path: String },
    /// The file at `path` has malformed syntax.
    Malformed { path: String, detail: String },
    /// The file at `path` exists but could not be read.
    Unreadable { path: String, detail: String },
    /// The file at `path` holds a key the schema does not recognise.
    UnknownField { path: String, detail: String },
}

/// Mathematical image of [`ProfileError`].
pub enum ProfileErrorV {
    Cycle { path: Seq<char> },
    Malformed { path: Seq<char>, detail: Seq<char> },
    Unreadable { path: Seq<char>, detail: Seq<char> },
    UnknownField { path: Seq<char>, detail: Seq<char> },
}

impl View for ProfileError {
    type V = ProfileErrorV;

    open spec fn view(&self) -> ProfileErrorV {
        match self {
            ProfileError::Cycle { path } => ProfileErrorV::Cycle { path: path@ },
            ProfileError::Malformed { path, detail } => ProfileErrorV::Malformed {
                path: path@,
                detail: detail@,
            },
            ProfileError::Unreadable { path, detail } => ProfileErrorV::Unreadable {
                path: path@,
                detail: detail@,
            },
            ProfileError::UnknownField { path, detail } => ProfileErrorV::UnknownField {
                path: path@,
                detail: detail@,
            },
        }
    }
}

/// The mathematical value of a merge log.
pub open spec fn spec_logs(s: Seq<(LogLevel, String)>) -> Seq<(LogLevel, Seq<char>)> {
    s.map_values(|p: (LogLevel, String)| (p.0, p.1@))
}

/// The file name a profile is stored under.
pub open spec fn spec_profile_filename(name: Seq<char>) -> Seq<char> {
    name + ".toml"@
}

fn profile_filename(name: &str) -> (r: String)
    ensures
        r@ == spec_profile_filename(name@),
{
    String::from_str(name).concat(".toml")
}

/// The log message naming the file a profile was read from.
pub open spec fn spec_using_msg(path: Seq<char>) -> Seq<char> {
    "using config "@ + path
}

fn using_msg(path: &str) -> (r: String)
    ensures
        r@ == spec_using_msg(path@),
{
    String::from_str("using config ").concat(path)
}

/// The log message listing every probed path of a missing profile.
pub open spec fn spec_missing_msg(cands: Seq<Seq<char>>) -> Seq<char> {
    "using no config file, none of these exist: "@ + spec_join_comma(cands)
}

fn missing_msg(cands: &Vec<String>) -> (r: String)
    ensures
        r@ == spec_missing_msg(cands.deep_view()),
{
    let joined = join_comma(cands);
    String::from_str("using no config file, none of these exist: ").concat(joined.as_str())
}

/// The first candidate path under which a file exists, probing in order.
pub open spec fn spec_first_existing(
    cands: Seq<Seq<char>>,
    files: Map<Seq<char>, LoadedFileV>,
) -> Option<Seq<char>>
    decreases cands.len(),
{
    if cands.len() == 0 {
        None
    } else if files.contains_key(cands.first()) {
        Some(cands.first())
    } else {
        spec_first_existing(cands.drop_first(), files)
    }
}

/// A chosen candidate is a path of the source.
pub proof fn lemma_first_existing_in(cands: Seq<Seq<char>>, files: Map<Seq<char>, LoadedFileV>)
    ensures
        spec_first_existing(cands, files) matches Some(p) ==> files.contains_key(p),
    decreases cands.len(),
{
    if cands.len() > 0 {
        lemma_first_existing_in(cands.drop_first(), files);
    }
}

/// What resolving `name` into the accumulator `doc` produces: the new
/// accumulator and merge log, or the error that aborts the chain together
/// with the log up to that point.
///
/// `visiting` holds the paths currently being resolved further up the
/// chain; choosing one of them again is a cycle.
pub open spec fn spec_resolve_profile(
    locs: ConfigLocationsV,
    files: Map<Seq<char>, LoadedFileV>,
    doc: RusticConfigV,
    logs: Seq<(LogLevel, Seq<char>)>,
    name: Seq<char>,
    missing: LogLevel,
    visiting: Set<Seq<char>>,
) -> Result<
    (RusticConfigV, Seq<(LogLevel, Seq<char>)>),
    (ProfileErrorV, Seq<(LogLevel, Seq<char>)>),
>
    decreases files.dom().len() - visiting.len(), 0int, 0int
        when visiting.finite() && files.dom().finite() && visiting.subset_of(files.dom())
        via spec_resolve_profile_decreases
{
    let cands = spec_config_paths(locs, spec_profile_filename(name));
    match spec_first_existing(cands, files) {
        None => Ok((doc, logs.push((missing, spec_missing_msg(cands))))),
        Some(path) => if visiting.contains(path) {
            Err((ProfileErrorV::Cycle { path }, logs))
        } else {
            let logs1 = logs.push((LogLevel::Info, spec_using_msg(path)));
            match files[path] {
                LoadedFileV::Parsed(cfg) => match spec_resolve_children(
                    locs,
                    files,
                    doc,
                    logs1,
                    cfg.global.use_profile,
                    visiting.insert(path),
                ) {
                    Ok((d2, l2)) => Ok((merge_config(d2, cfg), l2)),
                    Err(e) => Err(e),
                },
                LoadedFileV::Malformed(d) => Err(
                    (ProfileErrorV::Malformed { path, detail: d }, logs1),
                ),
                LoadedFileV::Unreadable(d) => Err(
                    (ProfileErrorV::Unreadable { path, detail: d }, logs1),
                ),
                LoadedFileV::UnknownField(d) => Err(
                    (ProfileErrorV::UnknownField { path, detail: d }, logs1),
                ),
            }
        },
    }
}

#[via_fn]
proof fn spec_resolve_profile_decreases(
    locs: ConfigLocationsV,
    files: Map<Seq<char>, LoadedFileV>,
    doc: RusticConfigV,
    logs: Seq<(LogLevel, Seq<char>)>,
    name: Seq<char>,
    missing: LogLevel,
    visiting: Set<Seq<char>>,
) {
    let cands = spec_config_paths(locs, spec_profile_filename(name));
    lemma_first_existing_in(cands, files);
    match spec_first_existing(cands, files) {
        Some(path) => {
            if !visiting.contains(path) {
                lemma_len_subset(visiting.insert(path), files.dom());
            }
        },
        None => {},
    }
}

/// Resolve, in order, every profile a document references, folding each
/// into the accumulator at warning severity for the missing case.
pub open spec fn spec_resolve_children(
    locs: ConfigLocationsV,
    files: Map<Seq<char>, LoadedFileV>,
    doc: RusticConfigV,
    logs: Seq<(LogLevel, Seq<char>)>,
    names: Seq<Seq<char>>,
    visiting: Set<Seq<char>>,
) -> Result<
    (RusticConfigV, Seq<(LogLevel, Seq<char>)>),
    (ProfileErrorV, Seq<(LogLevel, Seq<char>)>),
>
    decreases files.dom().len() - visiting.len(), 1int, names.len()
        when visiting.finite() && files.dom().finite() && visiting.subset_of(files.dom())
        via spec_resolve_children_decreases
{
    if names.len() == 0 {
        Ok((doc, logs))
    } else {
        match spec_resolve_profile(locs, files, doc, logs, names.first(), LogLevel::Warn, visiting) {
            Ok((d1, l1)) => spec_resolve_children(locs, files, d1, l1, names.drop_first(), visiting),
            Err(e) => Err(e),
        }
    }
}

#[via_fn]
proof fn spec_resolve_children_decreases(
    locs: ConfigLocationsV,
    files: Map<Seq<char>, LoadedFileV>,
    doc: RusticConfigV,
    logs: Seq<(LogLevel, Seq<char>)>,
    names: Seq<Seq<char>>,
    visiting: Set<Seq<char>>,
) {
    lemma_len_subset(visiting, files.dom());
}

/// Appending one element to a sequence adds exactly it to the set of
/// elements.
proof fn lemma_push_to_set(s: Seq<Seq<char>>, x: Seq<char>)
    ensures
        s.push(x).to_set() == s.to_set().insert(x),
{
    assert forall|y| s.push(x).to_set().contains(y) implies s.to_set().insert(x).contains(y) by {
        let i = choose|i: int| 0 <= i < s.push(x).len() && s.push(x)[i] == y;
        if i < s.len() {
            assert(s[i] == y);
        }
    };
    assert forall|y| s.to_set().insert(x).contains(y) implies s.push(x).to_set().contains(y) by {
        if y == x {
            assert(s.push(x)[s.len() as int] == y);
        } else {
            let i = choose|i: int| 0 <= i < s.len() && s[i] == y;
            assert(s.push(x)[i] == y);
        }
    };
    assert(s.push(x).to_set() =~= s.to_set().insert(x));
}

fn find_first_existing(cands: &Vec<String>, source: &ProfileSource) -> (r: Option<usize>)
    ensures
        r matches Some(i) ==> i < cands@.len() && spec_first_existing(
            cands.deep_view(),
            source@,
        ) == Some(cands.deep_view()[i as int]),
        r is None ==> spec_first_existing(cands.deep_view(), source@) is None,
{
    let mut i: usize = 0;
    proof {
        assert(cands.deep_view().skip(0) =~= cands.deep_view());
    }
    while i < cands.len()
        invariant
            i <= cands@.len(),
            cands@.len() == cands.deep_view().len(),
            spec_first_existing(cands.deep_view(), source@) == spec_first_existing(
                cands.deep_view().skip(i as int),
                source@,
            ),
        decreases cands@.len() - i,
    {
        if source.contains(&cands[i]) {
            proof {
                assert(cands.deep_view().skip(i as int).first() == cands.deep_view()[i as int]);
            }
            return Some(i);
        }
        proof {
            assert(cands.deep_view().skip(i as int).drop_first() =~= cands.deep_view().skip(
                i as int + 1,
            ));
        }
        i = i + 1;
    }
    proof {
        assert(cands.deep_view().skip(cands@.len() as int) =~= Seq::<Seq<char>>::empty());
    }
    None
}

fn vec_contains_string(v: &Vec<String>, s: &String) -> (r: bool)
    ensures
        r == v.deep_view().contains(s@),
{
    let mut i: usize = 0;
    while i < v.len()
        invariant
            i <= v@.len(),
            forall|j: int| 0 <= j < i ==> v.deep_view()[j] != s@,
        decreases v@.len() - i,
    {
        if v[i] == *s {
            proof {
                assert(v.deep_view()[i as int] == s@);
            }
            return true;
        }
        i = i + 1;
    }
    proof {
        assert(!v.deep_view().contains(s@));
    }
    false
}

impl RusticConfig {
    /// Merge the named profile into this accumulator: probe the candidate
    /// paths, fold the referenced profiles depth-first, then the document
    /// itself, recording in `merge_logs` which file was used or that none
    /// was found.  `level_missing` is the severity of the top-level missing
    /// case; referenced profiles use warning severity.
    pub fn merge_profile(
        &mut self,
        profile: &str,
        merge_logs: &mut Vec<(LogLevel, String)>,
        level_missing: LogLevel,
        locations: &ConfigLocations,
        source: &ProfileSource,
    ) -> (r: Result<(), ProfileError>)
        ensures
            ({
                let out = spec_resolve_profile(
                    locations@,
                    source@,
                    old(self)@,
                    spec_logs(old(merge_logs)@),
                    profile@,
                    level_missing,
                    Set::empty(),
                );
                match r {
                    Ok(_) => out matches Ok((d, lg)) && final(self)@ == d && spec_logs(
                        final(merge_logs)@,
                    ) == lg,
                    Err(e) => out matches Err((ev, lg)) && e@ == ev && spec_logs(
                        final(merge_logs)@,
                    ) == lg,
                }
            }),
    {
        let mut visiting: Vec<String> = Vec::new();
        proof {
            assert(visiting.deep_view() =~= Seq::<Seq<char>>::empty());
            assert(visiting.deep_view().to_set() =~= Set::<Seq<char>>::empty());
        }
        self.merge_profile_inner(profile, merge_logs, level_missing, locations, source, &mut visiting)
    }

    #[verifier::loop_isolation(false)]
    fn merge_profile_inner(
        &mut self,
        profile: &str,
        merge_logs: &mut Vec<(LogLevel, String)>,
        level_missing: LogLevel,
        locations: &ConfigLocations,
        source: &ProfileSource,
        visiting: &mut Vec<String>,
    ) -> (r: Result<(), ProfileError>)
        requires
            old(visiting).deep_view().no_duplicates(),
            forall|j: int|
                0 <= j < old(visiting).deep_view().len() ==> source@.contains_key(
                    #[trigger] old(visiting).deep_view()[j],
                ),
        ensures
            final(visiting)@ == old(visiting)@,
            ({
                let out = spec_resolve_profile(
                    locations@,
                    source@,
                    old(self)@,
                    spec_logs(old(merge_logs)@),
                    profile@,
                    level_missing,
                    old(visiting).deep_view().to_set(),
                );
                match r {
                    Ok(_) => out matches Ok((d, lg)) && final(self)@ == d && spec_logs(
                        final(merge_logs)@,
                    ) == lg,
                    Err(e) => out matches Err((ev, lg)) && e@ == ev && spec_logs(
                        final(merge_logs)@,
                    ) == lg,
                }
            }),
        decreases source@.dom().len() - old(visiting)@.len(),
    {
        proof {
            source.lemma_finite_dom();
        }
        let ghost vseq = visiting.deep_view();
        let ghost vset = vseq.to_set();
        proof {
            vseq.unique_seq_to_set();
            assert forall|x| vset.contains(x) implies source@.dom().contains(x) by {
                let j = choose|j: int| 0 <= j < vseq.len() && vseq[j] == x;
                assert(source@.contains_key(vseq[j]));
            };
            assert(vset.subset_of(source@.dom()));
        }
        let filename = profile_filename(profile);
        let cands = get_config_paths(locations, filename.as_str());
        match find_first_existing(&cands, source) {
            None => {
                let msg = missing_msg(&cands);
                merge_logs.push((level_missing, msg));
                proof {
                    assert(spec_logs(merge_logs@) =~= spec_logs(old(merge_logs)@).push(
                        (level_missing, spec_missing_msg(cands.deep_view())),
                    ));
                }
                Ok(())
            },
            Some(ci) => {
                let path: &String = &cands[ci];
                let ghost pathv = path@;
                proof {
                    lemma_first_existing_in(cands.deep_view(), source@);
                }
                if vec_contains_string(visiting, path) {
                    return Err(ProfileError::Cycle { path: path.clone() });
                }
                match source.get(path) {
                    // the chosen candidate was probed as existing, so the
                    // lookup cannot miss
                    None => {
                        proof {
                            assert(false);
                        }
                        Ok(())
                    },
                    Some(file) => {
                        let msg = using_msg(path.as_str());
                        merge_logs.push((LogLevel::Info, msg));
                        proof {
                            assert(spec_logs(merge_logs@) =~= spec_logs(old(merge_logs)@).push(
                                (LogLevel::Info, spec_using_msg(pathv)),
                            ));
                        }
                        match file {
                            LoadedFile::Parsed(cfg_ref) => {
                                let children = clone_string_vec(&cfg_ref.global.use_profile);
                                visiting.push(path.clone());
                                let ghost vpushed = visiting@;
                                let ghost vset1 = vset.insert(pathv);
                                let ghost doc1 = self@;
                                let ghost logs1 = spec_logs(merge_logs@);
                                let ghost childrenv = children.deep_view();
                                proof {
                                    assert(visiting.deep_view() =~= vseq.push(pathv));
                                    lemma_push_to_set(vseq, pathv);
                                    assert(visiting.deep_view().to_set() == vset1);
                                    assert(visiting.deep_view().no_duplicates());
                                    assert(childrenv.skip(0) =~= childrenv);
                                }
                                let mut k: usize = 0;
                                while k < children.len()
                                    invariant
                                        k <= childrenv.len(),
                                        children.deep_view() == childrenv,
                                        children@.len() == childrenv.len(),
                                        visiting@ == vpushed,
                                        visiting.deep_view() == vseq.push(pathv),
                                        spec_resolve_children(
                                            locations@,
                                            source@,
                                            doc1,
                                            logs1,
                                            childrenv,
                                            vset1,
                                        ) == spec_resolve_children(
                                            locations@,
                                            source@,
                                            self@,
                                            spec_logs(merge_logs@),
                                            childrenv.skip(k as int),
                                            vset1,
                                        ),
                                    decreases childrenv.len() - k,
                                {
                                    proof {
                                        visiting.deep_view().unique_seq_to_set();
                                        lemma_push_to_set(vseq, pathv);
                                        assert(visiting.deep_view().to_set() == vset1);
                                        lemma_len_subset(vset1, source@.dom());
                                    }
                                    let step = self.merge_profile_inner(
                                        children[k].as_str(),
                                        merge_logs,
                                        LogLevel::Warn,
                                        locations,
                                        source,
                                        visiting,
                                    );
                                    proof {
                                        assert(childrenv.skip(k as int).first() == childrenv[
                                            k as int
                                        ]);
                                        assert(childrenv.skip(k as int).drop_first()
                                            =~= childrenv.skip(k as int + 1));
                                    }
                                    match step {
                                        Ok(_) => {},
                                        Err(e) => {
                                            let _ = visiting.pop();
                                            proof {
                                                assert(visiting@ =~= vpushed.drop_last());
                                                assert(vpushed.drop_last() =~= old(visiting)@);
                                            }
                                            return Err(e);
                                        },
                                    }
                                    k = k + 1;
                                }
                                proof {
                                    assert(childrenv.skip(childrenv.len() as int)
                                        =~= Seq::<Seq<char>>::empty());
                                }
                                let _ = visiting.pop();
                                proof {
                                    assert(visiting@ =~= vpushed.drop_last());
                                    assert(vpushed.drop_last() =~= old(visiting)@);
                                }
                                let cfg = cfg_ref.duplicate();
                                self.merge(cfg);
                                Ok(())
                            },
                            LoadedFile::Malformed(d) => Err(
                                ProfileError::Malformed { path: path.clone(), detail: d.clone() },
                            ),
                            LoadedFile::Unreadable(d) => Err(
                                ProfileError::Unreadable { path: path.clone(), detail: d.clone() },
                            ),
                            LoadedFile::UnknownField(d) => Err(
                                ProfileError::UnknownField {
                                    path: path.clone(),
                                    detail: d.clone(),
                                },
                            ),
                        }
                    },
                }
            },
        }
    }
}

} // verus!
