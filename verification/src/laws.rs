//! What holds of the pipeline as a whole, stated over the functions that
//! the contracts of the other modules use.

use vstd::prelude::*;
use crate::catalog::{
    catalog_entries, catalog_of, catalog_of_file, codes_non_negative, parsed_code,
    record_message,
};
use crate::gpu::{probe_outcome, reported_success};
use crate::config::CommonConfigData;
use crate::layout::{
    active_data_path, data_dir_text, is_separator, joined_path, printed_path, separator,
};
use crate::json::{json_document, Json};
use crate::pipeline::{runs_extractor, DiskFacts, NextMove};
use crate::steps::{
    current_launch_arguments, decimal_text, extract_arguments, fallback_text,
    launch_arguments, legacy_launch_arguments, step_outcome, tooling_missing_text,
};
use crate::version::{
    current_format_version, precedes, resolved_version, shape_for, LaunchShape, ToolVersion,
};

verus! {

/// A toolchain before 0.1.35 is launched with the legacy arguments; every
/// other one, 0.1.35 itself included, with the current arguments. The two
/// shapes never coincide.
pub proof fn launch_shape_follows_version(
    version: ToolVersion,
    game_name: Seq<char>,
    data_dir: Seq<char>,
    in_debug: bool,
)
    ensures
        precedes(version, current_format_version()) <==> shape_for(version)
            == LaunchShape::Legacy,
        !precedes(version, current_format_version()) <==> shape_for(version)
            == LaunchShape::Current,
        shape_for(current_format_version()) == LaunchShape::Current,
        precedes(version, current_format_version()) ==> launch_arguments(
            version,
            game_name,
            data_dir,
            in_debug,
        ) == legacy_launch_arguments(data_dir, in_debug),
        !precedes(version, current_format_version()) ==> launch_arguments(
            version,
            game_name,
            data_dir,
            in_debug,
        ) == current_launch_arguments(game_name, data_dir, in_debug),
        launch_arguments(current_format_version(), game_name, data_dir, in_debug)
            == current_launch_arguments(game_name, data_dir, in_debug),
        legacy_launch_arguments(data_dir, in_debug) != current_launch_arguments(
            game_name,
            data_dir,
            in_debug,
        ),
        precedes(version, current_format_version()) <==> (version.major == 0 && (version.minor
            == 0 || (version.minor == 1 && version.patch < 35))),
{
    assert(legacy_launch_arguments(data_dir, in_debug).len() < 6);
    assert(current_launch_arguments(game_name, data_dir, in_debug).len() > 6);
}

/// A version string that cannot be read counts as 0.1.35 and is launched
/// with the current arguments.
pub proof fn unreadable_version_is_current(
    game_name: Seq<char>,
    data_dir: Seq<char>,
    in_debug: bool,
)
    ensures
        resolved_version(None) == current_format_version(),
        shape_for(resolved_version(None)) == LaunchShape::Current,
        launch_arguments(resolved_version(None), game_name, data_dir, in_debug)
            == current_launch_arguments(game_name, data_dir, in_debug),
{
}

/// The exit code that a member of the catalog object contributes a message
/// for, if it contributes one.
pub open spec fn member_code(m: (String, Json)) -> Option<i32> {
    if record_message(m.1).is_some() {
        parsed_code(m.0@)
    } else {
        None
    }
}

/// A catalog file that is missing, unreadable, not JSON, or whose root is
/// not an object gives the empty catalog.
pub proof fn unusable_catalog_is_empty(text: Seq<char>, doc: Json)
    ensures
        catalog_of(None) == Map::<i32, Seq<char>>::empty(),
        !(doc is Object) ==> catalog_of(Some(doc)) == Map::<i32, Seq<char>>::empty(),
        catalog_of_file(None) == Map::<i32, Seq<char>>::empty(),
        json_document(text).is_none() ==> catalog_of_file(Some(text)) == Map::<
            i32,
            Seq<char>,
        >::empty(),
        json_document(text).is_some() && !(json_document(text).unwrap() is Object)
            ==> catalog_of_file(Some(text)) == Map::<i32, Seq<char>>::empty(),
{
}

/// A key that writes a negative number is no exit code: whatever a key
/// stands for is not negative.
pub proof fn parsed_codes_are_exit_codes(key: Seq<char>)
    ensures
        parsed_code(key).is_some() ==> parsed_code(key).unwrap() >= 0,
{
}

/// Every code that the members of an object give is an exit code, that is
/// not negative: a member with a negative key is left out like any other
/// malformed member.
pub proof fn member_codes_are_exit_codes(members: Seq<(String, Json)>)
    ensures
        codes_non_negative(catalog_entries(members)),
    decreases members.len(),
{
    if members.len() > 0 {
        member_codes_are_exit_codes(members.drop_last());
        parsed_codes_are_exit_codes(members.last().0@);
    }
}

/// Every code of a catalog is an exit code, whatever document or file the
/// catalog is loaded from.
pub proof fn catalog_codes_are_exit_codes(doc: Option<Json>, contents: Option<Seq<char>>)
    ensures
        codes_non_negative(catalog_of(doc)),
        codes_non_negative(catalog_of_file(contents)),
{
    match doc {
        Some(Json::Object(inner)) => {
            member_codes_are_exit_codes(inner@);
        },
        _ => {},
    }
    match contents {
        Some(text) => {
            match json_document(text) {
                Some(Json::Object(inner)) => {
                    member_codes_are_exit_codes(inner@);
                },
                _ => {},
            }
        },
        None => {},
    }
}

/// The catalog holds exactly the codes of the well-formed members of the
/// object: a malformed member adds nothing and takes nothing away, and an
/// object without a well-formed member gives the empty catalog.
pub proof fn catalog_holds_the_valid_codes(members: Seq<(String, Json)>, code: i32)
    ensures
        catalog_entries(members).contains_key(code) <==> exists|i: int|
            0 <= i < members.len() && #[trigger] member_code(members[i]) == Some(code),
    decreases members.len(),
{
    if members.len() > 0 {
        let front = members.drop_last();
        catalog_holds_the_valid_codes(front, code);
        if catalog_entries(members).contains_key(code) {
            if member_code(members.last()) == Some(code) {
                assert(member_code(members[members.len() - 1]) == Some(code));
            } else {
                assert(catalog_entries(front).contains_key(code));
                let i = choose|i: int|
                    0 <= i < front.len() && #[trigger] member_code(front[i]) == Some(code);
                assert(member_code(members[i]) == Some(code));
            }
        }
        if exists|i: int|
            0 <= i < members.len() && #[trigger] member_code(members[i]) == Some(code) {
            let i = choose|i: int|
                0 <= i < members.len() && #[trigger] member_code(members[i]) == Some(code);
            if i < members.len() - 1 {
                assert(member_code(front[i]) == Some(code));
            }
        }
    }
}

/// The message of a code is that of the last well-formed member with that
/// code.
pub proof fn catalog_holds_the_last_message(members: Seq<(String, Json)>, i: int)
    requires
        0 <= i < members.len(),
        member_code(members[i]).is_some(),
        forall|j: int|
            i < j < members.len() ==> #[trigger] member_code(members[j]) != member_code(
                members[i],
            ),
    ensures
        catalog_entries(members).contains_key(member_code(members[i]).unwrap()),
        catalog_entries(members)[member_code(members[i]).unwrap()] == record_message(
            members[i].1,
        ).unwrap(),
    decreases members.len(),
{
    if i < members.len() - 1 {
        let front = members.drop_last();
        assert(front[i] == members[i]);
        assert forall|j: int| i < j < front.len() implies #[trigger] member_code(front[j])
            != member_code(front[i]) by {
            assert(front[j] == members[j]);
        }
        catalog_holds_the_last_message(front, i);
        assert(member_code(members[members.len() - 1]) != member_code(members[i]));
    }
}

/// An object whose members are all malformed gives the empty catalog.
pub proof fn malformed_members_give_nothing(members: Seq<(String, Json)>)
    requires
        forall|i: int| 0 <= i < members.len() ==> (#[trigger] member_code(members[i])).is_none(),
    ensures
        catalog_entries(members) == Map::<i32, Seq<char>>::empty(),
{
    assert forall|code: i32| !catalog_entries(members).contains_key(code) by {
        catalog_holds_the_valid_codes(members, code);
    }
    assert(catalog_entries(members) =~= Map::<i32, Seq<char>>::empty());
}

/// Exit code zero is success without a message, whatever the catalog holds.
pub proof fn zero_exit_is_success(catalog: Map<i32, Seq<char>>)
    ensures
        step_outcome(Some(0i32), catalog) == (true, None::<Seq<char>>),
{
}

/// Another exit code is a failure: with the catalog's message where the
/// catalog knows the code, and else with a message that ends in the code
/// written in decimal. A negative exit code is never in a catalog and so
/// always gets that numbered message. No exit code at all is a failure whose
/// message does not depend on the catalog.
pub proof fn failed_exit_is_explained(
    code: i32,
    catalog: Map<i32, Seq<char>>,
    other: Map<i32, Seq<char>>,
)
    requires
        code != 0,
    ensures
        catalog.contains_key(code) ==> step_outcome(Some(code), catalog) == (
            false,
            Some(catalog[code]),
        ),
        !catalog.contains_key(code) ==> step_outcome(Some(code), catalog) == (
            false,
            Some(fallback_text(code as int)),
        ),
        fallback_text(code as int).len() >= decimal_text(code as int).len(),
        fallback_text(code as int).skip(
            fallback_text(code as int).len() - decimal_text(code as int).len(),
        ) == decimal_text(code as int),
        !step_outcome(None, catalog).0,
        step_outcome(None, catalog) == step_outcome(None, other),
        code < 0 && codes_non_negative(catalog) ==> step_outcome(Some(code), catalog) == (
            false,
            Some(fallback_text(code as int)),
        ),
{
    let head = "Unexpected error occurred with code "@;
    let tail = decimal_text(code as int);
    assert((head + tail).skip((head + tail).len() - tail.len()) =~= tail);
}

/// A step whose executable is missing runs nothing and fails with the
/// message that suggests a reinstall; a step whose executable exists is run.
pub proof fn missing_executable_is_reported(
    next: NextMove,
    config: CommonConfigData,
    facts: DiskFacts,
    args: Seq<Seq<char>>,
    append: bool,
)
    requires
        runs_extractor(next, config, facts, args, append),
    ensures
        !facts.executable_exists <==> next is Finish,
        facts.executable_exists <==> next is Run,
        next matches NextMove::Finish(out) ==> !out.success && out.text() == Some(
            tooling_missing_text(),
        ),
{
}

/// A game's data directory is printed as the install root, `active`, the
/// game's name and `data`, in that order with one separator between them,
/// where neither the root nor the name is empty or ends in a separator.
pub proof fn data_dir_is_printed_below_the_root(
    config: CommonConfigData,
    game_name: Seq<char>,
    windows: bool,
)
    requires
        config.install_path@.len() > 0,
        !is_separator(config.install_path@.last(), windows),
        game_name.len() > 0,
        !is_separator(game_name.last(), windows),
    ensures
        data_dir_text(config, game_name, windows) == config.install_path@.push(
            separator(windows),
        ) + "active"@.push(separator(windows)) + game_name.push(separator(windows)) + "data"@,
{
    reveal_strlit("active");
    reveal_strlit("data");
    let sep = separator(windows);
    let parts = active_data_path(config, game_name);
    let p1 = parts.take(1);
    let p2 = parts.take(2);
    let p3 = parts.take(3);
    assert(p1.drop_last() =~= Seq::<Seq<char>>::empty());
    assert(p2.drop_last() =~= p1);
    assert(p3.drop_last() =~= p2);
    assert(parts.drop_last() =~= p3);
    assert(printed_path(p1.drop_last(), windows) =~= Seq::<char>::empty());
    let t1 = printed_path(p1, windows);
    assert(t1 =~= config.install_path@);
    let t2 = printed_path(p2, windows);
    assert(t2 =~= joined_path(t1, "active"@, windows));
    assert(t2 =~= config.install_path@.push(sep) + "active"@);
    assert(t2.last() == 'e');
    let t3 = printed_path(p3, windows);
    assert(t3 =~= joined_path(t2, game_name, windows));
    assert(t3 =~= t2.push(sep) + game_name);
    assert(t3.last() == game_name.last());
    let t4 = printed_path(parts, windows);
    assert(t4 =~= joined_path(t3, "data"@, windows));
    assert(t4 =~= config.install_path@.push(sep) + "active"@.push(sep) + game_name.push(sep)
        + "data"@);
}

/// Extraction from a directory takes the arguments of extraction from a
/// file with the directory flag added at the end; extraction from a file
/// takes exactly the five arguments without it.
pub proof fn directory_source_adds_flag(source: Seq<char>, data_dir: Seq<char>)
    ensures
        extract_arguments(source, data_dir, true) == extract_arguments(
            source,
            data_dir,
            false,
        ).push("--folder"@),
        extract_arguments(source, data_dir, false) == seq![
            source,
            "--extract"@,
            "--validate"@,
            "--proj-path"@,
            data_dir,
        ],
{
}

/// A result document that reports `success: false` gives a definite "no";
/// a probe that did not exit with zero, a result file that is missing or
/// unreadable, and one that is not JSON give "unknown".
pub proof fn probe_tells_failure_from_unknown(
    doc: Json,
    code: Option<i32>,
    text: Seq<char>,
)
    ensures
        doc.text_field("error"@).is_some() && doc.text_field("errorCause"@).is_some()
            && doc.bool_field("success"@) == Some(false) ==> reported_success(Some(doc))
            == Some(false),
        json_document(text) == Some(doc) ==> probe_outcome(Some(0i32), Some(text))
            == reported_success(Some(doc)),
        code != Some(0i32) ==> probe_outcome(code, Some(text)).is_none(),
        probe_outcome(code, None).is_none(),
        json_document(text).is_none() ==> probe_outcome(code, Some(text)).is_none(),
{
}

} // verus!
