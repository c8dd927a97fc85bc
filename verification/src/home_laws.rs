//! Which home is taken, what lies within it, and what its global state says.
use vstd::prelude::*;

use crate::config::{
    candidate, home_alias, home_fingerprint_of, nearest, no_stray_links, paths_of, resolved, under,
    within_home, MetadataPathFacts, PrefixFact, PrefixStatus, ResolutionFacts,
};
use crate::diagnostics::DiagnosticSeverity;
use crate::global_state::{
    id_remarks, invalid_remarks, read_state, trims, GlobalFacts, GlobalStateRead, Remark,
};
use crate::order::sorted_texts;
use crate::platform::{is_absolute, Platform};
use crate::text::{has_control, trim};

verus! {

/// A home that cannot be resolved, is not absolute, or does not hold one of its files is no
/// configuration, and says why, and which file it was: the state index before the session index,
/// and that before the global state. Every other home is one, with all three files.
pub proof fn law_homes_are_taken_or_refused(
    platform: Platform,
    attempted_home: Seq<char>,
    resolved_home: Option<Seq<char>>,
    metadata: MetadataPathFacts,
    inside: [bool; 3],
    r: ResolutionFacts,
)
    requires
        r == resolved(platform, attempted_home, resolved_home, metadata, inside),
    ensures
        r is Ready <==> resolved_home is Some && is_absolute(platform, resolved_home->0)
            && inside[0] && inside[1] && inside[2],
        r matches ResolutionFacts::Ready(config) ==> config.home == resolved_home->0
            && config.metadata == metadata && config.home_fingerprint == home_fingerprint_of(
            config.home,
        ),
        r matches ResolutionFacts::Invalid(error) ==> {
            &&& error.attempted_home == attempted_home
            &&& error.resolved_home == resolved_home
            &&& resolved_home is None ==> error.code == "CODEX_HOME_RESOLUTION_FAILED"@
                && error.metadata_path is None
            &&& resolved_home is Some && !is_absolute(platform, resolved_home->0) ==> error.code
                == "CODEX_HOME_NOT_ABSOLUTE"@ && error.metadata_path is None
            &&& resolved_home is Some && is_absolute(platform, resolved_home->0) ==> {
                &&& error.code == "CODEX_METADATA_HOME_MISMATCH"@
                &&& !inside[0] ==> error.metadata_path == Some(metadata.state_index_path)
                &&& inside[0] && !inside[1] ==> error.metadata_path == Some(
                    metadata.session_index_path,
                )
                &&& inside[0] && inside[1] ==> error.metadata_path == Some(
                    metadata.global_state_path,
                )
            }
        },
{
}

/// The home that is configured is tried if it is not empty. Else it is the directory `.codex`, on
/// Unix below the home of the user where that is known.
pub proof fn law_configured_homes_come_first(
    platform: Platform,
    codex_home: Option<Seq<char>>,
    user_home: Option<Seq<char>>,
    r: Seq<char>,
)
    requires
        r == candidate(platform, codex_home, user_home),
    ensures
        codex_home is Some && codex_home->0.len() > 0 ==> r == codex_home->0,
        (codex_home is None || codex_home->0.len() == 0) && user_home is None ==> r == ".codex"@,
        (codex_home is None || codex_home->0.len() == 0) && user_home is Some
            && !platform.windows() && user_home->0.len() > 0 && user_home->0.last() != '/' ==> r
            == user_home->0 + "/"@ + ".codex"@,
{
    reveal_strlit("/");
    reveal_strlit(".codex");
    assert("/"@ =~= seq!['/']);
}

/// On Unix the three files of a home are known by their names.
pub proof fn law_files_are_known_by_name(platform: Platform, home: Seq<char>, r: MetadataPathFacts)
    requires
        r == paths_of(platform, home),
        !platform.windows(),
        home.len() > 0,
        home.last() != '/',
    ensures
        r.state_index_path == home + "/"@ + "state_5.sqlite"@,
        r.session_index_path == home + "/"@ + "session_index.jsonl"@,
        r.global_state_path == home + "/"@ + ".codex-global-state.json"@,
{
    reveal_strlit("/");
    reveal_strlit("state_5.sqlite");
    reveal_strlit("session_index.jsonl");
    reveal_strlit(".codex-global-state.json");
    assert("/"@ =~= seq!['/']);
}

/// The path at `k` is the last on the way that exists.
pub open spec fn last_present(prefixes: Seq<PrefixFact>, k: int) -> bool {
    &&& 0 <= k < prefixes.len()
    &&& prefixes[k].status is Present
    &&& forall|j: int| k < j < prefixes.len() ==> (#[trigger] prefixes[j]).status is Missing
}

proof fn lemma_nearest(prefixes: Seq<PrefixFact>)
    ensures
        nearest(prefixes) matches Some(found) ==> exists|k: int|
            #[trigger] last_present(prefixes, k) && prefixes[k] == found,
        forall|k: int| #[trigger] last_present(prefixes, k) ==> nearest(prefixes) == Some(
            prefixes[k],
        ),
    decreases prefixes.len(),
{
    if prefixes.len() > 0 {
        let rest = prefixes.drop_last();
        let n = prefixes.len() - 1;
        lemma_nearest(rest);
        assert(prefixes.last() == prefixes[n]);
        assert forall|j: int| 0 <= j < n implies rest[j] == #[trigger] prefixes[j] by {}
        if prefixes.last().status is Missing {
            if nearest(rest) is Some {
                let k = choose|k: int|
                    #[trigger] last_present(rest, k) && rest[k] == nearest(rest)->0;
                assert(last_present(prefixes, k)) by {
                    assert forall|j: int| k < j < prefixes.len() implies (
                    #[trigger] prefixes[j]).status is Missing by {
                        if j < n {
                            assert(rest[j].status is Missing);
                        }
                    }
                }
            }
            assert forall|k: int| #[trigger] last_present(prefixes, k) implies nearest(prefixes)
                == Some(prefixes[k]) by {
                assert(k < n);
                assert(last_present(rest, k)) by {
                    assert forall|j: int| k < j < rest.len() implies (#[trigger] rest[j]).status
                        is Missing by {
                        assert(prefixes[j].status is Missing);
                    }
                }
            }
        } else if prefixes.last().status is Present {
            assert(last_present(prefixes, n));
            assert forall|k: int| #[trigger] last_present(prefixes, k) implies nearest(prefixes)
                == Some(prefixes[k]) by {
                if k < n {
                    assert(prefixes[n].status is Missing);
                }
            }
        } else {
            assert forall|k: int| #[trigger] last_present(prefixes, k) implies false by {
                if k < n {
                    assert(prefixes[n].status is Missing);
                }
            }
        }
    }
}

proof fn lemma_links(platform: Platform, prefixes: Seq<PrefixFact>, home: Seq<char>, i: int, k: int)
    requires
        0 <= i <= k < prefixes.len(),
        no_stray_links(platform, prefixes, home, i),
        forall|j: int| i <= j <= k ==> !((#[trigger] prefixes[j]).status is Missing),
    ensures
        prefixes[k].status is Present,
        prefixes[k].status->symlink ==> home_alias(platform, prefixes[k], home),
    decreases k - i,
{
    assert(!(prefixes[i].status is Missing));
    if i < k {
        lemma_links(platform, prefixes, home, i + 1, k);
    }
}

/// A file that exists lies within home if the path it leads to does. One that does not exist
/// lies within home only if the last path on the way that exists is a directory, or a link, that
/// leads into home; and no link on the way to there, before anything is missing, leads anywhere
/// but to a directory above home. Without a home nothing lies within it.
pub proof fn law_files_within_home(
    platform: Platform,
    home: Option<String>,
    path: Option<String>,
    prefixes: Seq<PrefixFact>,
    r: bool,
    k: int,
)
    requires
        r == within_home(platform, home, path, prefixes),
    ensures
        home is None ==> !r,
        home is Some && path is Some ==> r == under(platform, path->0@, home->0@),
        r && path is None ==> exists|n: int|
            #[trigger] last_present(prefixes, n) && (prefixes[n].status->directory
                || prefixes[n].status->symlink) && prefixes[n].canonical is Some && under(
                platform,
                prefixes[n].canonical->0@,
                home->0@,
            ),
        r && path is None && 0 <= k < prefixes.len() && (forall|j: int|
            0 <= j <= k ==> !((#[trigger] prefixes[j]).status is Missing)) ==> {
            &&& prefixes[k].status is Present
            &&& prefixes[k].status->symlink ==> prefixes[k].canonical is Some && !under(
                platform,
                prefixes[k].path@,
                home->0@,
            ) && under(platform, home->0@, prefixes[k].canonical->0@)
        },
{
    lemma_nearest(prefixes);
    if r && path is None {
        let found = nearest(prefixes)->0;
        let n = choose|n: int| #[trigger] last_present(prefixes, n) && prefixes[n] == found;
        assert(last_present(prefixes, n));
        if 0 <= k < prefixes.len() && forall|j: int|
            0 <= j <= k ==> !((#[trigger] prefixes[j]).status is Missing) {
            lemma_links(platform, prefixes, home->0@, 0, k);
        }
    }
}

/// A text that names a thread: not empty, and without control characters.
pub open spec fn names_a_thread(text: Seq<char>) -> bool {
    trim(text).len() > 0 && !has_control(trim(text))
}

/// Every text of a list names a thread.
pub open spec fn all_name_threads(texts: Seq<Seq<char>>) -> bool {
    forall|i: int| 0 <= i < texts.len() ==> names_a_thread(#[trigger] texts[i])
}

/// A file is complete if and only if it is a document with both lists, and everything in them names
/// a thread. A file that is not there, not readable or no document says so.
pub proof fn law_complete_states_hold_both_lists(read: GlobalStateRead, r: GlobalFacts)
    requires
        r == read_state(read),
    ensures
        r.status is NotPresent <==> read is NotPresent,
        r.status is Unreadable <==> read is Unreadable,
        read is NotADocument ==> r.status is Malformed,
        r.status is Complete <==> (read matches GlobalStateRead::Document(parsed)
            && parsed.projectless_thread_ids is Some && parsed.assignment_keys is Some
            && all_name_threads(parsed.projectless_thread_ids.deep_view()->0) && all_name_threads(
            parsed.assignment_keys.deep_view()->0,
        )),
        read is NotPresent ==> tells_alone(r, "file_not_present"@, DiagnosticSeverity::Info, None),
        read is Unreadable ==> tells_alone(
            r,
            "file_unreadable"@,
            DiagnosticSeverity::Warning,
            None,
        ),
        read is NotADocument ==> tells_alone(
            r,
            "invalid_json"@,
            DiagnosticSeverity::Warning,
            None,
        ),
        read matches GlobalStateRead::Document(parsed) ==> {
            &&& parsed.projectless_thread_ids is None ==> tells_alone(
                r,
                "missing_field"@,
                DiagnosticSeverity::Warning,
                Some("projectless-thread-ids"@),
            )
            &&& parsed.projectless_thread_ids is Some && parsed.assignment_keys is None
                ==> tells_alone(
                r,
                "missing_field"@,
                DiagnosticSeverity::Warning,
                Some("thread-project-assignments"@),
            )
        },
{
    if let GlobalStateRead::Document(parsed) = read {
        if parsed.projectless_thread_ids is Some && parsed.assignment_keys is Some {
            let ids = parsed.projectless_thread_ids.deep_view()->0;
            let keys = parsed.assignment_keys.deep_view()->0;
            lemma_valid(ids);
            lemma_valid(keys);
            lemma_sorted_valid(keys);
        }
    }
}

/// There is one remark, and it is this.
pub open spec fn tells_alone(
    r: GlobalFacts,
    code: Seq<char>,
    severity: DiagnosticSeverity,
    field: Option<Seq<char>>,
) -> bool {
    &&& r.diagnostics.len() == 1
    &&& r.diagnostics[0].code == code
    &&& r.diagnostics[0].severity == severity
    &&& r.diagnostics[0].field == field
    &&& r.diagnostics[0].source_kind == "codex_global_state_json"@
}

proof fn lemma_valid(texts: Seq<Seq<char>>)
    ensures
        crate::global_state::all_valid(trims(texts)) <==> all_name_threads(texts),
{
    if crate::global_state::all_valid(trims(texts)) {
        assert forall|i: int| 0 <= i < texts.len() implies names_a_thread(#[trigger] texts[i]) by {
            assert(crate::global_state::valid_id(trims(texts)[i]));
        }
    }
    if all_name_threads(texts) {
        assert forall|i: int| 0 <= i < trims(texts).len() implies crate::global_state::valid_id(
            #[trigger] trims(texts)[i],
        ) by {
            assert(names_a_thread(texts[i]));
        }
    }
}

proof fn lemma_sorted_valid(texts: Seq<Seq<char>>)
    ensures
        crate::global_state::all_valid(sorted_texts(trims(texts)))
            <==> crate::global_state::all_valid(trims(texts)),
{
    let all = trims(texts);
    let sorted = sorted_texts(all);
    crate::order::lemma_sorted_texts(all);
    if crate::global_state::all_valid(sorted) {
        assert forall|i: int| 0 <= i < all.len() implies crate::global_state::valid_id(
            #[trigger] all[i],
        ) by {
            assert(all.contains(all[i]));
            assert(sorted.contains(all[i]));
            let j = choose|j: int| 0 <= j < sorted.len() && sorted[j] == all[i];
            assert(crate::global_state::valid_id(sorted[j]));
        }
    }
    if crate::global_state::all_valid(all) {
        assert forall|i: int| 0 <= i < sorted.len() implies crate::global_state::valid_id(
            #[trigger] sorted[i],
        ) by {
            assert(sorted.contains(sorted[i]));
            assert(all.contains(sorted[i]));
            let j = choose|j: int| 0 <= j < all.len() && all[j] == sorted[i];
            assert(crate::global_state::valid_id(all[j]));
        }
    }
}

/// In a complete state a thread has a project assigned if and only if its id, without the white
/// space around it, is a key of the assignments; and it is without a project if and only if its
/// id is listed so.
pub proof fn law_states_hold_what_is_listed(read: GlobalStateRead, r: GlobalFacts, id: Seq<char>)
    requires
        r == read_state(read),
        r.status is Complete,
    ensures
        read matches GlobalStateRead::Document(parsed) && {
            &&& r.assigned.contains(id) <==> exists|i: int|
                0 <= i < parsed.assignment_keys.deep_view()->0.len() && trim(
                    #[trigger] parsed.assignment_keys.deep_view()->0[i],
                ) == id
            &&& r.projectless.contains(id) <==> exists|i: int|
                0 <= i < parsed.projectless_thread_ids.deep_view()->0.len() && trim(
                    #[trigger] parsed.projectless_thread_ids.deep_view()->0[i],
                ) == id
        },
{
    if let GlobalStateRead::Document(parsed) = read {
        lemma_listed(parsed.assignment_keys.deep_view()->0, id);
        lemma_listed(parsed.projectless_thread_ids.deep_view()->0, id);
    }
}

proof fn lemma_listed(texts: Seq<Seq<char>>, id: Seq<char>)
    ensures
        sorted_texts(trims(texts)).contains(id) <==> exists|i: int|
            0 <= i < texts.len() && trim(#[trigger] texts[i]) == id,
{
    let all = trims(texts);
    crate::order::lemma_sorted_texts(all);
    if all.contains(id) {
        let i = choose|i: int| 0 <= i < all.len() && all[i] == id;
        assert(trim(texts[i]) == id);
    }
    if exists|i: int| 0 <= i < texts.len() && trim(#[trigger] texts[i]) == id {
        let i = choose|i: int| 0 <= i < texts.len() && trim(#[trigger] texts[i]) == id;
        assert(all[i] == id);
    }
}

/// A remark that an id came twice, or that it is none.
pub open spec fn is_id_remark(remark: Remark) -> bool {
    &&& remark.source_kind == "codex_global_state_json"@
    &&& {
        ||| remark.code == "duplicate_thread_id"@ && remark.severity is Info
        ||| remark.code == "invalid_thread_id"@ && remark.severity is Warning
    }
}

proof fn lemma_id_remarks(ids: Seq<Seq<char>>, field: Seq<char>)
    ensures
        forall|i: int| 0 <= i < id_remarks(ids, field).len() ==> is_id_remark(
            #[trigger] id_remarks(ids, field)[i],
        ) && id_remarks(ids, field)[i].field == Some(field),
        crate::global_state::all_valid(ids) ==> forall|i: int|
            0 <= i < id_remarks(ids, field).len() ==> (#[trigger] id_remarks(ids, field)[i]).severity
                is Info,
        crate::global_state::all_valid(ids) ==> (id_remarks(ids, field).len() == 0
            <==> ids.no_duplicates()),
    decreases ids.len(),
{
    if ids.len() > 0 {
        let rest = ids.drop_last();
        let n = ids.len() - 1;
        lemma_id_remarks(rest, field);
        assert(ids.last() == ids[n]);
        assert forall|i: int| 0 <= i < n implies rest[i] == #[trigger] ids[i] by {}
        if crate::global_state::all_valid(ids) {
            assert(crate::global_state::valid_id(ids[n]));
            assert forall|i: int| 0 <= i < rest.len() implies crate::global_state::valid_id(
                #[trigger] rest[i],
            ) by {
                assert(crate::global_state::valid_id(ids[i]));
            }
            if rest.contains(ids.last()) {
                let i = choose|i: int| 0 <= i < rest.len() && rest[i] == ids.last();
                assert(ids[i] == ids[n]);
            } else {
                if rest.no_duplicates() {
                    assert forall|i: int, j: int|
                        0 <= i < ids.len() && 0 <= j < ids.len() && i != j implies ids[i]
                        != ids[j] by {
                        if i < n && j < n {
                            assert(rest[i] != rest[j]);
                        } else if i < n {
                            assert(rest.contains(rest[i]));
                        } else {
                            assert(rest.contains(rest[j]));
                        }
                    }
                }
                if ids.no_duplicates() {
                    assert forall|i: int, j: int|
                        0 <= i < rest.len() && 0 <= j < rest.len() && i != j implies rest[i]
                        != rest[j] by {
                        assert(ids[i] != ids[j]);
                    }
                }
            }
        }
    }
}

proof fn lemma_invalid_remarks(ids: Seq<Seq<char>>, field: Seq<char>)
    ensures
        forall|i: int| 0 <= i < invalid_remarks(ids, field).len() ==> is_id_remark(
            #[trigger] invalid_remarks(ids, field)[i],
        ) && invalid_remarks(ids, field)[i].severity is Warning && invalid_remarks(
            ids,
            field,
        )[i].field == Some(field),
    decreases ids.len(),
{
    if ids.len() > 0 {
        lemma_invalid_remarks(ids.drop_last(), field);
    }
}

/// What is remarked on a document with both lists is about an id that is none, as a warning, or
/// about one that came before, in passing. On a complete one nothing is remarked if and only if
/// no id comes twice in its list.
pub proof fn law_remarks_are_about_ids(read: GlobalStateRead, r: GlobalFacts)
    requires
        r == read_state(read),
    ensures
        read matches GlobalStateRead::Document(parsed) ==> (parsed.projectless_thread_ids is Some
            && parsed.assignment_keys is Some ==> {
            &&& forall|i: int|
                0 <= i < r.diagnostics.len() ==> is_id_remark(#[trigger] r.diagnostics[i])
            &&& r.status is Complete ==> forall|i: int|
                0 <= i < r.diagnostics.len() ==> (#[trigger] r.diagnostics[i]).severity is Info
            &&& r.status is Complete ==> (r.diagnostics.len() == 0 <==> trims(
                parsed.projectless_thread_ids.deep_view()->0,
            ).no_duplicates() && trims(parsed.assignment_keys.deep_view()->0).no_duplicates())
        }),
{
    if let GlobalStateRead::Document(parsed) = read {
        if parsed.projectless_thread_ids is Some && parsed.assignment_keys is Some {
            let ids = trims(parsed.projectless_thread_ids.deep_view()->0);
            let keys = trims(parsed.assignment_keys.deep_view()->0);
            lemma_sorted_valid(parsed.assignment_keys.deep_view()->0);
            lemma_id_remarks(ids, "projectless-thread-ids"@);
            lemma_id_remarks(keys, "thread-project-assignments"@);
            lemma_invalid_remarks(sorted_texts(keys), "thread-project-assignments"@);
        }
    }
}

} // verus!
