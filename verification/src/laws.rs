//! Properties of merging and resolution, stated and proved once for all
//! inputs.

use crate::config::default_config;
use crate::config::merge_config;
use crate::config::RusticConfigV;
use crate::level::LogLevel;
use crate::paths::spec_config_paths;
use crate::paths::ConfigLocationsV;
use crate::resolve::spec_first_existing;
use crate::resolve::spec_missing_msg;
use crate::resolve::spec_profile_filename;
use crate::resolve::spec_resolve_children;
use crate::resolve::spec_resolve_profile;
use crate::resolve::spec_using_msg;
use crate::resolve::lemma_first_existing_in;
use crate::resolve::ProfileErrorV;
use crate::source::LoadedFileV;
use vstd::prelude::*;

verus! {

/// Merging any document into the all-defaults accumulator yields that
/// document itself: every category's rule lets an incoming value fill an
/// empty default.
pub proof fn lemma_merge_into_default(d: RusticConfigV)
    ensures
        merge_config(default_config(), d) == d,
{
    assert(merge_config(default_config(), d) =~~= d);
}

/// Merging the same incoming document a second time is idempotent for the
/// replace-if-empty and union fields, and purely additive for the
/// accumulating fields: applying `b` twice never removes a value present
/// after applying it once.
pub proof fn lemma_merge_idempotent(a: RusticConfigV, b: RusticConfigV)
    ensures
        merge_config(merge_config(a, b), b).global.run_before == merge_config(
            a,
            b,
        ).global.run_before,
        merge_config(merge_config(a, b), b).global.run_after == merge_config(
            a,
            b,
        ).global.run_after,
        merge_config(merge_config(a, b), b).snapshot_filter == merge_config(a, b).snapshot_filter,
        merge_config(merge_config(a, b), b).backup.sources == merge_config(a, b).backup.sources,
        merge_config(merge_config(a, b), b).copy.targets == merge_config(a, b).copy.targets,
        merge_config(merge_config(a, b), b).forget.keep_tags == merge_config(
            a,
            b,
        ).forget.keep_tags,
        merge_config(merge_config(a, b), b).global.env == merge_config(a, b).global.env,
        merge_config(a, b).global.use_profile.is_prefix_of(
            merge_config(merge_config(a, b), b).global.use_profile,
        ),
{
    assert(merge_config(merge_config(a, b), b).global.env =~= merge_config(a, b).global.env);
    assert(merge_config(merge_config(a, b), b).snapshot_filter =~~= merge_config(
        a,
        b,
    ).snapshot_filter);
    assert(merge_config(a, b).global.use_profile =~= merge_config(
        merge_config(a, b),
        b,
    ).global.use_profile.take(merge_config(a, b).global.use_profile.len() as int));
}

/// Resolving a name for which no candidate file exists appends exactly one
/// log entry, at the caller-chosen severity, listing every probed path; it
/// leaves the accumulator untouched and does not fail.
pub proof fn lemma_missing_profile(
    locs: ConfigLocationsV,
    files: Map<Seq<char>, LoadedFileV>,
    doc: RusticConfigV,
    logs: Seq<(LogLevel, Seq<char>)>,
    name: Seq<char>,
    missing: LogLevel,
)
    requires
        files.dom().finite(),
        spec_first_existing(spec_config_paths(locs, spec_profile_filename(name)), files) is None,
    ensures
        spec_resolve_profile(locs, files, doc, logs, name, missing, Set::empty()) == Ok::<
            (RusticConfigV, Seq<(LogLevel, Seq<char>)>),
            (ProfileErrorV, Seq<(LogLevel, Seq<char>)>),
        >(
            (
                doc,
                logs.push(
                    (
                        missing,
                        spec_missing_msg(spec_config_paths(locs, spec_profile_filename(name))),
                    ),
                ),
            ),
        ),
{
}

/// Resolving a profile with no references of its own, starting from the
/// all-defaults accumulator, yields exactly the parsed document, plus one
/// informational log entry naming the file used.
pub proof fn lemma_single_profile_resolution(
    locs: ConfigLocationsV,
    files: Map<Seq<char>, LoadedFileV>,
    logs: Seq<(LogLevel, Seq<char>)>,
    name: Seq<char>,
    missing: LogLevel,
    cfg: RusticConfigV,
    path: Seq<char>,
)
    requires
        files.dom().finite(),
        spec_first_existing(spec_config_paths(locs, spec_profile_filename(name)), files) == Some(
            path,
        ),
        files[path] == LoadedFileV::Parsed(cfg),
        cfg.global.use_profile.len() == 0,
    ensures
        spec_resolve_profile(locs, files, default_config(), logs, name, missing, Set::empty())
            == Ok::<
            (RusticConfigV, Seq<(LogLevel, Seq<char>)>),
            (ProfileErrorV, Seq<(LogLevel, Seq<char>)>),
        >((cfg, logs.push((LogLevel::Info, spec_using_msg(path))))),
{
    let cands = spec_config_paths(locs, spec_profile_filename(name));
    lemma_first_existing_in(cands, files);
    let logs1 = logs.push((LogLevel::Info, spec_using_msg(path)));
    assert(spec_resolve_children(
        locs,
        files,
        default_config(),
        logs1,
        cfg.global.use_profile,
        Set::empty().insert(path),
    ) == Ok::<
        (RusticConfigV, Seq<(LogLevel, Seq<char>)>),
        (ProfileErrorV, Seq<(LogLevel, Seq<char>)>),
    >((default_config(), logs1)));
    lemma_merge_into_default(cfg);
}

/// A three-level chain of references applies the deepest profile first:
/// with A referencing B and B referencing C, the result folds C, then B,
/// then A into the accumulator, so B's explicit values override C's and
/// A's override both.  The log names the three files in resolution order.
pub proof fn lemma_three_level_chain(
    locs: ConfigLocationsV,
    files: Map<Seq<char>, LoadedFileV>,
    doc: RusticConfigV,
    logs: Seq<(LogLevel, Seq<char>)>,
    name_a: Seq<char>,
    name_b: Seq<char>,
    name_c: Seq<char>,
    path_a: Seq<char>,
    path_b: Seq<char>,
    path_c: Seq<char>,
    cfg_a: RusticConfigV,
    cfg_b: RusticConfigV,
    cfg_c: RusticConfigV,
    missing: LogLevel,
)
    requires
        files.dom().finite(),
        spec_first_existing(spec_config_paths(locs, spec_profile_filename(name_a)), files) == Some(
            path_a,
        ),
        spec_first_existing(spec_config_paths(locs, spec_profile_filename(name_b)), files) == Some(
            path_b,
        ),
        spec_first_existing(spec_config_paths(locs, spec_profile_filename(name_c)), files) == Some(
            path_c,
        ),
        files[path_a] == LoadedFileV::Parsed(cfg_a),
        files[path_b] == LoadedFileV::Parsed(cfg_b),
        files[path_c] == LoadedFileV::Parsed(cfg_c),
        cfg_a.global.use_profile == seq![name_b],
        cfg_b.global.use_profile == seq![name_c],
        cfg_c.global.use_profile.len() == 0,
        path_a != path_b,
        path_a != path_c,
        path_b != path_c,
    ensures
        spec_resolve_profile(locs, files, doc, logs, name_a, missing, Set::empty()) == Ok::<
            (RusticConfigV, Seq<(LogLevel, Seq<char>)>),
            (ProfileErrorV, Seq<(LogLevel, Seq<char>)>),
        >(
            (
                merge_config(merge_config(merge_config(doc, cfg_c), cfg_b), cfg_a),
                logs.push((LogLevel::Info, spec_using_msg(path_a))).push(
                    (LogLevel::Info, spec_using_msg(path_b)),
                ).push((LogLevel::Info, spec_using_msg(path_c))),
            ),
        ),
        cfg_a.global.log_level is Some ==> merge_config(
            merge_config(merge_config(doc, cfg_c), cfg_b),
            cfg_a,
        ).global.log_level == cfg_a.global.log_level,
{
    lemma_first_existing_in(spec_config_paths(locs, spec_profile_filename(name_a)), files);
    lemma_first_existing_in(spec_config_paths(locs, spec_profile_filename(name_b)), files);
    lemma_first_existing_in(spec_config_paths(locs, spec_profile_filename(name_c)), files);
    let set_a = Set::<Seq<char>>::empty().insert(path_a);
    let set_ab = set_a.insert(path_b);
    let set_abc = set_ab.insert(path_c);
    let logs1 = logs.push((LogLevel::Info, spec_using_msg(path_a)));
    let logs2 = logs1.push((LogLevel::Info, spec_using_msg(path_b)));
    let logs3 = logs2.push((LogLevel::Info, spec_using_msg(path_c)));
    let doc_c = merge_config(doc, cfg_c);
    let doc_cb = merge_config(doc_c, cfg_b);
    let doc_cba = merge_config(doc_cb, cfg_a);
    // C, innermost: no references of its own.
    assert(spec_resolve_children(locs, files, doc, logs3, cfg_c.global.use_profile, set_abc)
        == Ok::<
        (RusticConfigV, Seq<(LogLevel, Seq<char>)>),
        (ProfileErrorV, Seq<(LogLevel, Seq<char>)>),
    >((doc, logs3)));
    assert(spec_resolve_profile(locs, files, doc, logs2, name_c, LogLevel::Warn, set_ab) == Ok::<
        (RusticConfigV, Seq<(LogLevel, Seq<char>)>),
        (ProfileErrorV, Seq<(LogLevel, Seq<char>)>),
    >((doc_c, logs3)));
    // B: references C.
    assert(spec_resolve_children(locs, files, doc_c, logs3, Seq::<Seq<char>>::empty(), set_ab)
        == Ok::<
        (RusticConfigV, Seq<(LogLevel, Seq<char>)>),
        (ProfileErrorV, Seq<(LogLevel, Seq<char>)>),
    >((doc_c, logs3)));
    assert(cfg_b.global.use_profile.first() == name_c);
    assert(cfg_b.global.use_profile.drop_first() =~= Seq::<Seq<char>>::empty());
    assert(spec_resolve_children(locs, files, doc, logs2, cfg_b.global.use_profile, set_ab)
        == Ok::<
        (RusticConfigV, Seq<(LogLevel, Seq<char>)>),
        (ProfileErrorV, Seq<(LogLevel, Seq<char>)>),
    >((doc_c, logs3)));
    assert(spec_resolve_profile(locs, files, doc, logs1, name_b, LogLevel::Warn, set_a) == Ok::<
        (RusticConfigV, Seq<(LogLevel, Seq<char>)>),
        (ProfileErrorV, Seq<(LogLevel, Seq<char>)>),
    >((doc_cb, logs3)));
    // A: references B.
    assert(spec_resolve_children(locs, files, doc_cb, logs3, Seq::<Seq<char>>::empty(), set_a)
        == Ok::<
        (RusticConfigV, Seq<(LogLevel, Seq<char>)>),
        (ProfileErrorV, Seq<(LogLevel, Seq<char>)>),
    >((doc_cb, logs3)));
    assert(cfg_a.global.use_profile.first() == name_b);
    assert(cfg_a.global.use_profile.drop_first() =~= Seq::<Seq<char>>::empty());
    assert(spec_resolve_children(locs, files, doc, logs1, cfg_a.global.use_profile, set_a)
        == Ok::<
        (RusticConfigV, Seq<(LogLevel, Seq<char>)>),
        (ProfileErrorV, Seq<(LogLevel, Seq<char>)>),
    >((doc_cb, logs3)));
    assert(spec_resolve_profile(locs, files, doc, logs, name_a, missing, Set::empty()) == Ok::<
        (RusticConfigV, Seq<(LogLevel, Seq<char>)>),
        (ProfileErrorV, Seq<(LogLevel, Seq<char>)>),
    >((doc_cba, logs3)));
}

} // verus!
