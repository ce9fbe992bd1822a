//! The toolchain patcher: resolving the three dependency paths through the
//! package database, validating them, and driving the patch tool over the
//! toolchain's `bin` and `lib` directories.
//!
//! Every function here is a decision over observations: what a query
//! printed, what metadata a path has, what a directory enumeration yielded,
//! how a spawned patch command ended.  The binary gathers the observations
//! and follows the decisions; the contracts pin each decision down.

use vstd::prelude::*;
use vstd::string::StringExecFns;

use crate::bytes::{bytes_to_string_lossy, copy_string, lossy_of, trim_ending_whitespace, trim_spec};
use crate::command::{
    require_success, run_words_model, try_into_stdout, words_of, CommandLine, RunOutcome,
};
use crate::error::{error_matches, ErrShape, Error};
use crate::fsmeta::{is_executable, is_executable_spec, FileMeta, FileType};

verus! {

/// The toolchain root a patch run is asked to fix.
#[derive(Debug, PartialEq, Eq)]
pub struct PathConfig {
    pub toolchain_path: String,
}

// ---------------------------------------------------------------------------
// Package-database queries
// ---------------------------------------------------------------------------

/// The words of the attribute build query for `attr`: a no-link build that
/// prints the resulting store path.
pub open spec fn nix_build_words(attr: Seq<char>) -> Seq<Seq<char>> {
    seq!["nix-build"@, "<nixpkgs>"@, "--no-out-link"@, "-A"@, attr]
}

/// The words of the raw evaluation query for the dynamic linker path.
pub open spec fn nix_eval_linker_words() -> Seq<Seq<char>> {
    seq!["nix"@, "eval"@, "--raw"@, "-f"@, "<nixpkgs>"@, "stdenv.cc.bintools.dynamicLinker"@]
}

/// The path a query's standard output names: the bytes with trailing
/// whitespace removed, read as text.
pub open spec fn path_of_output(stdout: Seq<u8>) -> Seq<char> {
    lossy_of(trim_spec(stdout))
}

/// The command of the attribute build query for `attr`.
pub fn nix_path_command(attr: &str) -> (c: CommandLine)
    ensures
        words_of(c) == nix_build_words(attr@),
{
    let mut args: Vec<String> = Vec::new();
    args.push("<nixpkgs>".to_owned());
    args.push("--no-out-link".to_owned());
    args.push("-A".to_owned());
    args.push(attr.to_owned());
    let c = CommandLine { program: "nix-build".to_owned(), args };
    proof {
        assert(words_of(c) =~= nix_build_words(attr@));
    }
    c
}

/// The command of the raw evaluation query for the dynamic linker.
pub fn nix_dynamic_linker_command() -> (c: CommandLine)
    ensures
        words_of(c) == nix_eval_linker_words(),
{
    let mut args: Vec<String> = Vec::new();
    args.push("eval".to_owned());
    args.push("--raw".to_owned());
    args.push("-f".to_owned());
    args.push("<nixpkgs>".to_owned());
    args.push("stdenv.cc.bintools.dynamicLinker".to_owned());
    let c = CommandLine { program: "nix".to_owned(), args };
    proof {
        assert(words_of(c) =~= nix_eval_linker_words());
    }
    c
}

/// Turns a query's captured standard output into the path it names.
pub fn path_from_output(stdout: &Vec<u8>) -> (r: String)
    ensures
        r@ == path_of_output(stdout@),
{
    let trimmed = trim_ending_whitespace(stdout.as_slice());
    bytes_to_string_lossy(trimmed)
}

/// What resolving an attribute to a path yields for a given query outcome.
pub open spec fn nix_path_model(attr: Seq<char>, outcome: RunOutcome) -> Result<Seq<char>, ErrShape> {
    match run_words_model(nix_build_words(attr), outcome) {
        Ok(b) => Ok(path_of_output(b)),
        Err(s) => Err(s),
    }
}

/// Resolves an attribute to a filesystem path: interprets what running the
/// attribute build query led to, requiring success and trimming the output.
pub fn nix_path(attr: &str, outcome: RunOutcome) -> (r: Result<String, Error>)
    ensures
        match nix_path_model(attr@, outcome) {
            Ok(p) => r matches Ok(v) && v@ == p,
            Err(s) => r matches Err(e) && error_matches(e, s),
        },
{
    let cmd = nix_path_command(attr);
    match try_into_stdout(&cmd, outcome) {
        Ok(stdout) => Ok(path_from_output(&stdout)),
        Err(e) => Err(e),
    }
}

// ---------------------------------------------------------------------------
// Path composition and validation
// ---------------------------------------------------------------------------

/// `base` with one more component appended.
pub fn path_join(base: &String, component: &str) -> (r: String)
    ensures
        r@ == base@ + "/"@ + component@,
{
    let mut s = copy_string(base);
    s.append("/");
    s.append(component);
    s
}

/// The rpath written into shared libraries: first the `lib` directory next
/// to the patched file, then the resolved compression-library directory.
pub open spec fn rpath_of(lib_dir: Seq<char>) -> Seq<char> {
    "$ORIGIN/../lib:"@ + lib_dir
}

/// Composes the rpath value from the resolved compression-library
/// directory.
pub fn compose_rpath(lib_dir: &String) -> (r: String)
    ensures
        r@ == rpath_of(lib_dir@),
{
    let mut s = "$ORIGIN/../lib:".to_owned();
    s.append(lib_dir.as_str());
    s
}

/// Accepts the resolved patch tool only when it is an executable regular
/// file.
pub fn validate_patch_tool(path: &String, meta: &Option<FileMeta>) -> (r: Result<(), Error>)
    ensures
        is_executable_spec(*meta) ==> r is Ok,
        !is_executable_spec(*meta) ==> (r matches Err(e) && error_matches(
            e,
            (ErrShape::Nix { message: path@ + " is not executable"@ }),
        )),
{
    if is_executable(meta) {
        Ok(())
    } else {
        let mut m = copy_string(path);
        m.append(" is not executable");
        Err(Error::Nix { message: m })
    }
}

/// Accepts the resolved dynamic linker only when it is an executable
/// regular file.
pub fn validate_dynamic_linker(path: &String, meta: &Option<FileMeta>) -> (r: Result<(), Error>)
    ensures
        is_executable_spec(*meta) ==> r is Ok,
        !is_executable_spec(*meta) ==> (r matches Err(e) && error_matches(
            e,
            (ErrShape::Nix { message: "Invalid dynamic linker: "@ + path@ }),
        )),
{
    if is_executable(meta) {
        Ok(())
    } else {
        let mut m = "Invalid dynamic linker: ".to_owned();
        m.append(path.as_str());
        Err(Error::Nix { message: m })
    }
}

/// Accepts the resolved compression-library directory only when it is an
/// existing directory; `is_dir` is what the caller observed of it.
pub fn validate_library_dir(path: &String, is_dir: bool) -> (r: Result<(), Error>)
    ensures
        is_dir ==> r is Ok,
        !is_dir ==> (r matches Err(e) && error_matches(
            e,
            (ErrShape::Nix { message: path@ + " is not directory"@ }),
        )),
{
    if is_dir {
        Ok(())
    } else {
        let mut m = copy_string(path);
        m.append(" is not directory");
        Err(Error::Nix { message: m })
    }
}

/// What resolving and validating the dynamic linker yields: the raw
/// evaluation query's outcome, then the executability check on the path it
/// named, whose metadata is `meta`.
pub open spec fn dynamic_linker_model(outcome: RunOutcome, meta: Option<FileMeta>) -> Result<
    Seq<char>,
    ErrShape,
> {
    match run_words_model(nix_eval_linker_words(), outcome) {
        Err(s) => Err(s),
        Ok(b) => {
            let p = path_of_output(b);
            if is_executable_spec(meta) {
                Ok(p)
            } else {
                Err(ErrShape::Nix { message: "Invalid dynamic linker: "@ + p })
            }
        },
    }
}

/// Resolves the dynamic linker: interprets the raw evaluation query's
/// outcome and validates that the resolved path is executable.  `meta` is
/// the metadata the caller read for that path.
pub fn nix_dynamic_linker(outcome: RunOutcome, meta: &Option<FileMeta>) -> (r: Result<
    String,
    Error,
>)
    ensures
        match dynamic_linker_model(outcome, *meta) {
            Ok(p) => r matches Ok(v) && v@ == p,
            Err(s) => r matches Err(e) && error_matches(e, s),
        },
{
    let cmd = nix_dynamic_linker_command();
    let stdout = match try_into_stdout(&cmd, outcome) {
        Ok(b) => b,
        Err(e) => {
            return Err(e);
        },
    };
    let path = path_from_output(&stdout);
    match validate_dynamic_linker(&path, meta) {
        Ok(_) => Ok(path),
        Err(e) => Err(e),
    }
}


// ---------------------------------------------------------------------------
// The directory walk and the patch actions
// ---------------------------------------------------------------------------

/// A patch action: how one file of the toolchain is to be rewritten.
#[derive(Debug, PartialEq, Eq)]
pub enum PatchAction {
    /// Rewrite the program interpreter of an executable.
    SetInterpreter { patchelf: String, linker: String },
    /// Rewrite the runtime library search path of a shared library.
    SetRpath { patchelf: String, rpath: String },
}

/// The view of a patch action, over character sequences.
pub ghost enum ActionV {
    SetInterpreter { patchelf: Seq<char>, linker: Seq<char> },
    SetRpath { patchelf: Seq<char>, rpath: Seq<char> },
}

pub open spec fn action_view(a: PatchAction) -> ActionV {
    match a {
        PatchAction::SetInterpreter { patchelf, linker } => ActionV::SetInterpreter {
            patchelf: patchelf@,
            linker: linker@,
        },
        PatchAction::SetRpath { patchelf, rpath } => ActionV::SetRpath {
            patchelf: patchelf@,
            rpath: rpath@,
        },
    }
}

/// Whether the action patches only files that pass the executable test.
pub open spec fn only_executables(av: ActionV) -> bool {
    av matches ActionV::SetInterpreter { .. }
}

/// The words of the patch command an action runs on one file.
pub open spec fn action_words(av: ActionV, path: Seq<char>) -> Seq<Seq<char>> {
    match av {
        ActionV::SetInterpreter { patchelf, linker } => seq![
            patchelf,
            "--set-interpreter"@,
            linker,
            path,
        ],
        ActionV::SetRpath { patchelf, rpath } => seq![patchelf, "--set-rpath"@, rpath, path],
    }
}

/// One step of a directory enumeration, as the caller observed it.
#[derive(Debug, PartialEq, Eq)]
pub enum EntryEvent {
    /// Reading the next directory entry failed.
    ReadFailed { os_error: String },
    /// An entry was read but its file type could not be determined.
    TypeFailed { path: String, os_error: String },
    /// An entry was read: its path, its file type as the enumeration
    /// reports it (symbolic links not followed), and the metadata of the
    /// path (`None` when reading it failed).
    Found { path: String, file_type: FileType, meta: Option<FileMeta> },
}

/// What opening and enumerating one directory yielded.
#[derive(Debug, PartialEq, Eq)]
pub enum DirListing {
    /// The directory could not be opened at all.
    OpenFailed { os_error: String },
    /// The directory was opened; its entries, in enumeration order.
    Opened { entries: Vec<EntryEvent> },
}

/// Whether an entry is one the action patches: a regular file, and, for an
/// interpreter rewrite, one with an execute bit set.
pub open spec fn wants_entry(only_exec: bool, ev: EntryEvent) -> bool {
    match ev {
        EntryEvent::Found { path, file_type, meta } => file_type == FileType::Regular && (!only_exec
            || is_executable_spec(meta)),
        _ => false,
    }
}

/// The path an event names.
pub open spec fn entry_path(ev: EntryEvent) -> Seq<char> {
    match ev {
        EntryEvent::Found { path, file_type, meta } => path@,
        EntryEvent::TypeFailed { path, os_error } => path@,
        EntryEvent::ReadFailed { os_error } => Seq::empty(),
    }
}

/// The decision for one event of a pass over directory `dir`: an
/// enumeration failure is the error that aborts the pass; a regular file
/// the action wants is patched; everything else is skipped.
pub open spec fn entry_decision(av: ActionV, dir: Seq<char>, ev: EntryEvent) -> Result<
    Option<Seq<char>>,
    ErrShape,
> {
    match ev {
        EntryEvent::ReadFailed { os_error } => Err(
            ErrShape::Io { actions: "`readdir` for "@ + dir, os_error: os_error@ },
        ),
        EntryEvent::TypeFailed { path, os_error } => Err(
            ErrShape::Io { actions: "`lstat` "@ + path@, os_error: os_error@ },
        ),
        EntryEvent::Found { .. } => if wants_entry(only_executables(av), ev) {
            Ok(Some(entry_path(ev)))
        } else {
            Ok(None)
        },
    }
}

/// How many events of the sequence the action wants to patch.
pub open spec fn wanted_count(only_exec: bool, events: Seq<EntryEvent>) -> nat
    decreases events.len(),
{
    if events.len() == 0 {
        0
    } else {
        (if wants_entry(only_exec, events[0]) {
            1nat
        } else {
            0nat
        }) + wanted_count(only_exec, events.drop_first())
    }
}

/// The error for a directory that could not be opened for enumeration.
pub fn open_dir_error(dir: &String, os_error: String) -> (e: Error)
    ensures
        error_matches(e, (ErrShape::Io { actions: "`opendir` for "@ + dir@, os_error: os_error@ })),
{
    let mut a = "`opendir` for ".to_owned();
    a.append(dir.as_str());
    Error::Io { actions: a, os_error }
}

/// Decides one event of a pass: the command to run on the file, nothing,
/// or the error that aborts the pass.
pub fn plan_entry(action: &PatchAction, dir: &String, ev: &EntryEvent) -> (r: Result<
    Option<CommandLine>,
    Error,
>)
    ensures
        match entry_decision(action_view(*action), dir@, *ev) {
            Ok(po) => r matches Ok(c) && (match po {
                Some(p) => c matches Some(cmd) && words_of(cmd) == action_words(
                    action_view(*action),
                    p,
                ),
                None => c is None,
            }),
            Err(s) => r matches Err(e) && error_matches(e, s),
        },
{
    match ev {
        EntryEvent::ReadFailed { os_error } => {
            let mut a = "`readdir` for ".to_owned();
            a.append(dir.as_str());
            Err(Error::Io { actions: a, os_error: copy_string(os_error) })
        },
        EntryEvent::TypeFailed { path, os_error } => {
            let mut a = "`lstat` ".to_owned();
            a.append(path.as_str());
            Err(Error::Io { actions: a, os_error: copy_string(os_error) })
        },
        EntryEvent::Found { path, file_type, meta } => {
            if !(*file_type == FileType::Regular) {
                Ok(None)
            } else {
                match action {
                    PatchAction::SetInterpreter { patchelf, linker } => {
                        if is_executable(meta) {
                            let mut args: Vec<String> = Vec::new();
                            args.push("--set-interpreter".to_owned());
                            args.push(copy_string(linker));
                            args.push(copy_string(path));
                            let cmd = CommandLine { program: copy_string(patchelf), args };
                            proof {
                                assert(words_of(cmd) =~= action_words(
                                    action_view(*action),
                                    path@,
                                ));
                            }
                            Ok(Some(cmd))
                        } else {
                            Ok(None)
                        }
                    },
                    PatchAction::SetRpath { patchelf, rpath } => {
                        let mut args: Vec<String> = Vec::new();
                        args.push("--set-rpath".to_owned());
                        args.push(copy_string(rpath));
                        args.push(copy_string(path));
                        let cmd = CommandLine { program: copy_string(patchelf), args };
                        proof {
                            assert(words_of(cmd) =~= action_words(action_view(*action), path@));
                        }
                        Ok(Some(cmd))
                    },
                }
            }
        },
    }
}

/// What one whole pass over a directory does: the paths patched, in order,
/// and how the pass ended.
pub ghost struct PassModel {
    /// The path of each file for which a patch command was spawned.
    pub paths: Seq<Seq<char>>,
    /// `Ok` when the pass completed; otherwise the error that aborted it.
    pub outcome: Result<(), ErrShape>,
}

/// The pass over a sequence of enumeration events, consuming one spawn
/// outcome per patched file.  The first enumeration failure or failed
/// patch aborts the pass; later events are not processed.
pub open spec fn pass_model(
    av: ActionV,
    dir: Seq<char>,
    events: Seq<EntryEvent>,
    outcomes: Seq<RunOutcome>,
) -> PassModel
    decreases events.len(),
{
    if events.len() == 0 {
        PassModel { paths: seq![], outcome: Ok(()) }
    } else {
        match entry_decision(av, dir, events[0]) {
            Err(s) => PassModel { paths: seq![], outcome: Err(s) },
            Ok(None) => pass_model(av, dir, events.drop_first(), outcomes),
            Ok(Some(p)) => {
                if outcomes.len() == 0 {
                    // not reached under the callers' bound on the outcomes
                    PassModel { paths: seq![], outcome: Ok(()) }
                } else {
                    match run_words_model(action_words(av, p), outcomes[0]) {
                        Err(s) => PassModel { paths: seq![p], outcome: Err(s) },
                        Ok(b) => {
                            let rest = pass_model(
                                av,
                                dir,
                                events.drop_first(),
                                outcomes.drop_first(),
                            );
                            PassModel { paths: seq![p] + rest.paths, outcome: rest.outcome }
                        },
                    }
                }
            },
        }
    }
}

/// [`pass_model`] lifted to a whole directory listing: a directory that
/// could not be opened fails at once, with no file patched.
pub open spec fn listing_model(
    av: ActionV,
    dir: Seq<char>,
    listing: DirListing,
    outcomes: Seq<RunOutcome>,
) -> PassModel {
    match listing {
        DirListing::OpenFailed { os_error } => PassModel {
            paths: seq![],
            outcome: Err(ErrShape::Io { actions: "`opendir` for "@ + dir, os_error: os_error@ }),
        },
        DirListing::Opened { entries } => pass_model(av, dir, entries@, outcomes),
    }
}

/// How many files of the listing the action wants to patch.
pub open spec fn listing_wanted(only_exec: bool, listing: DirListing) -> nat {
    match listing {
        DirListing::OpenFailed { os_error } => 0,
        DirListing::Opened { entries } => wanted_count(only_exec, entries@),
    }
}

/// The invocations grew by exactly the commands of the given paths.
pub open spec fn invocations_extend(
    base: Seq<CommandLine>,
    now: Seq<CommandLine>,
    av: ActionV,
    paths: Seq<Seq<char>>,
) -> bool {
    &&& now.len() == base.len() + paths.len()
    &&& forall|i: int| 0 <= i < base.len() ==> now[i] == base[i]
    &&& forall|i: int|
        0 <= i < paths.len() ==> words_of(#[trigger] now[base.len() + i]) == action_words(
            av,
            paths[i],
        )
}

/// The returned result has the outcome the model gives.
pub open spec fn result_matches(r: Result<(), Error>, outcome: Result<(), ErrShape>) -> bool {
    match outcome {
        Ok(u) => r is Ok,
        Err(s) => r matches Err(e) && error_matches(e, s),
    }
}

/// The whole contract of a directory pass.
pub open spec fn apply_post(
    av: ActionV,
    dir: Seq<char>,
    listing: DirListing,
    outcomes: Seq<RunOutcome>,
    base: Seq<CommandLine>,
    now: Seq<CommandLine>,
    r: Result<(), Error>,
) -> bool {
    let m = listing_model(av, dir, listing, outcomes);
    invocations_extend(base, now, av, m.paths) && result_matches(r, m.outcome)
}

/// A pass never patches more files than it wants.
pub proof fn lemma_pass_paths_bound(
    av: ActionV,
    dir: Seq<char>,
    events: Seq<EntryEvent>,
    outcomes: Seq<RunOutcome>,
)
    ensures
        pass_model(av, dir, events, outcomes).paths.len() <= wanted_count(
            only_executables(av),
            events,
        ),
    decreases events.len(),
{
    if events.len() == 0 {
    } else {
        match entry_decision(av, dir, events[0]) {
            Err(s) => {},
            Ok(None) => {
                lemma_pass_paths_bound(av, dir, events.drop_first(), outcomes);
            },
            Ok(Some(p)) => {
                if outcomes.len() == 0 {
                } else {
                    match run_words_model(action_words(av, p), outcomes[0]) {
                        Err(s) => {},
                        Ok(b) => {
                            lemma_pass_paths_bound(
                                av,
                                dir,
                                events.drop_first(),
                                outcomes.drop_first(),
                            );
                        },
                    }
                }
            },
        }
    }
}

/// Applies the patch action to every qualifying file of one directory, in
/// enumeration order: plans each entry, spawns one patch command per wanted
/// file (its outcome read from `outcomes`, starting at `start`), pushes
/// each spawned command onto `invocations`, and aborts on the first error.
#[verifier::loop_isolation(false)]
pub fn apply(
    action: &PatchAction,
    dir: &String,
    listing: &DirListing,
    outcomes: &Vec<RunOutcome>,
    start: usize,
    invocations: &mut Vec<CommandLine>,
) -> (r: Result<(), Error>)
    requires
        start as int + listing_wanted(only_executables(action_view(*action)), *listing)
            <= outcomes@.len(),
    ensures
        apply_post(
            action_view(*action),
            dir@,
            *listing,
            outcomes@.skip(start as int),
            old(invocations)@,
            final(invocations)@,
            r,
        ),
{
    let ghost av = action_view(*action);
    let ghost oe = only_executables(av);
    let ghost dirv = dir@;
    let ghost outs = outcomes@.skip(start as int);
    let ghost base = invocations@;
    match listing {
        DirListing::OpenFailed { os_error } => {
            Err(open_dir_error(dir, copy_string(os_error)))
        },
        DirListing::Opened { entries } => {
            let ghost evs = entries@;
            let ghost full = pass_model(av, dirv, evs, outs);
            let n: usize = entries.len();
            let mut i: usize = 0;
            let mut idx: usize = start;
            let ghost mut pushed: Seq<Seq<char>> = seq![];
            proof {
                assert(evs.skip(0) =~= evs);
                assert(outs.skip(0) =~= outs);
                assert(outs.len() == outcomes@.len() - start);
            }
            while i < n
                invariant
                    i <= n,
                    start <= idx,
                    pushed.len() == idx - start,
                    invocations@.len() == base.len() + pushed.len(),
                    forall|k: int| 0 <= k < base.len() ==> invocations@[k] == base[k],
                    forall|k: int|
                        0 <= k < pushed.len() ==> words_of(
                            #[trigger] invocations@[base.len() + k],
                        ) == action_words(av, pushed[k]),
                    full.paths == pushed + pass_model(
                        av,
                        dirv,
                        evs.skip(i as int),
                        outs.skip(idx as int - start as int),
                    ).paths,
                    full.outcome == pass_model(
                        av,
                        dirv,
                        evs.skip(i as int),
                        outs.skip(idx as int - start as int),
                    ).outcome,
                    idx as int - start as int + wanted_count(oe, evs.skip(i as int)) <= outs.len(),
                decreases n - i,
            {
                let ghost d = idx as int - start as int;
                proof {
                    assert(evs.skip(i as int)[0] == evs[i as int]);
                    assert(evs.skip(i as int).drop_first() =~= evs.skip(i as int + 1));
                }
                match plan_entry(action, dir, &entries[i]) {
                    Err(e) => {
                        proof {
                            let rest = pass_model(av, dirv, evs.skip(i as int), outs.skip(d));
                            assert(rest.paths =~= Seq::<Seq<char>>::empty());
                            assert(full.paths =~= pushed);
                        }
                        return Err(e);
                    },
                    Ok(None) => {
                        proof {
                            assert(pass_model(av, dirv, evs.skip(i as int), outs.skip(d))
                                == pass_model(av, dirv, evs.skip(i as int + 1), outs.skip(d)));
                        }
                        i = i + 1;
                    },
                    Ok(Some(cmd)) => {
                        proof {
                            assert(wants_entry(oe, evs[i as int]));
                            assert(wanted_count(oe, evs.skip(i as int)) >= 1);
                            assert(idx < outcomes@.len());
                            assert(outs.skip(d)[0] == outcomes@[idx as int]);
                            assert(outs.skip(d).drop_first() =~= outs.skip(d + 1));
                        }
                        // ties the ghost bound to the executable length, so
                        // that the increment of `idx` below cannot overflow
                        let olen: usize = outcomes.len();
                        proof {
                            assert(idx < olen);
                        }
                        let res = require_success(&cmd, &outcomes[idx]);
                        let ghost p = entry_path(evs[i as int]);
                        invocations.push(cmd);
                        proof {
                            pushed = pushed + seq![p];
                        }
                        idx = idx + 1;
                        match res {
                            Err(e) => {
                                proof {
                                    let rest = pass_model(av, dirv, evs.skip(i as int), outs.skip(d));
                                    assert(rest.paths =~= seq![p]);
                                    assert(full.paths =~= pushed);
                                }
                                return Err(e);
                            },
                            Ok(u) => {
                                proof {
                                    let rest1 = pass_model(
                                        av,
                                        dirv,
                                        evs.skip(i as int + 1),
                                        outs.skip(d + 1),
                                    );
                                    assert(pushed + rest1.paths =~= full.paths);
                                }
                                i = i + 1;
                            },
                        }
                    },
                }
            }
            proof {
                assert(evs.skip(n as int) =~= Seq::<EntryEvent>::empty());
                let rest = pass_model(av, dirv, evs.skip(n as int), outs.skip(idx as int - start as int));
                assert(rest.paths =~= Seq::<Seq<char>>::empty());
                assert(full.paths =~= pushed);
            }
            Ok(())
        },
    }
}


// ---------------------------------------------------------------------------
// The toolchain patcher
// ---------------------------------------------------------------------------

/// The toolchain root as observed: whether the root and its two
/// subdirectories are directories, and the enumeration of each
/// subdirectory.
#[derive(Debug, PartialEq, Eq)]
pub struct ToolchainObs {
    pub root: String,
    pub root_is_dir: bool,
    pub bin_is_dir: bool,
    pub lib_is_dir: bool,
    pub bin_listing: DirListing,
    pub lib_listing: DirListing,
}

pub open spec fn bin_dir_of(root: Seq<char>) -> Seq<char> {
    root + "/bin"@
}

pub open spec fn lib_dir_of(root: Seq<char>) -> Seq<char> {
    root + "/lib"@
}

/// The root layout is acceptable: the root, its `bin` and its `lib` are
/// all directories.
pub open spec fn toolchain_valid(obs: ToolchainObs) -> bool {
    obs.root_is_dir && obs.bin_is_dir && obs.lib_is_dir
}

/// Validates the toolchain root layout: all three of the root, `bin` and
/// `lib` must be directories, else the root is rejected as a whole.
pub fn validate_toolchain(
    root: &String,
    root_is_dir: bool,
    bin_is_dir: bool,
    lib_is_dir: bool,
) -> (r: Result<(), Error>)
    ensures
        (root_is_dir && bin_is_dir && lib_is_dir) ==> r is Ok,
        !(root_is_dir && bin_is_dir && lib_is_dir) ==> (r matches Err(e) && error_matches(
            e,
            (ErrShape::InvalidToolchain { path: root@ }),
        )),
{
    if root_is_dir && bin_is_dir && lib_is_dir {
        Ok(())
    } else {
        Err(Error::InvalidToolchainPath { path: copy_string(root) })
    }
}

/// The whole contract of the parameterized patch: an invalid root fails
/// with no invocation at all; otherwise the `bin` pass runs first with the
/// interpreter rewrite, and only when it completes does the `lib` pass run
/// with the rpath rewrite on the remaining outcomes.
pub open spec fn with_options_post(
    obs: ToolchainObs,
    pe: Seq<char>,
    lk: Seq<char>,
    rp: Seq<char>,
    outcomes: Seq<RunOutcome>,
    invocations: Seq<CommandLine>,
    r: Result<(), Error>,
) -> bool {
    let avi = ActionV::SetInterpreter { patchelf: pe, linker: lk };
    let avr = ActionV::SetRpath { patchelf: pe, rpath: rp };
    let binm = listing_model(avi, bin_dir_of(obs.root@), obs.bin_listing, outcomes);
    let libm = listing_model(
        avr,
        lib_dir_of(obs.root@),
        obs.lib_listing,
        outcomes.skip(binm.paths.len() as int),
    );
    if !toolchain_valid(obs) {
        invocations.len() == 0 && (r matches Err(e) && error_matches(
            e,
            ErrShape::InvalidToolchain { path: obs.root@ },
        ))
    } else if binm.outcome is Err {
        invocations_extend(Seq::empty(), invocations, avi, binm.paths) && result_matches(
            r,
            binm.outcome,
        )
    } else {
        &&& invocations.len() == binm.paths.len() + libm.paths.len()
        &&& forall|i: int|
            0 <= i < binm.paths.len() ==> words_of(#[trigger] invocations[i]) == action_words(
                avi,
                binm.paths[i],
            )
        &&& forall|i: int|
            0 <= i < libm.paths.len() ==> words_of(
                #[trigger] invocations[binm.paths.len() + i],
            ) == action_words(avr, libm.paths[i])
        &&& result_matches(r, libm.outcome)
    }
}

/// Patches the toolchain under the already-resolved patch tool, linker and
/// rpath values: validates the root layout, then patches `bin` (only
/// executable regular files, interpreter rewrite) and afterwards `lib`
/// (every regular file, rpath rewrite).  One outcome of `outcomes` is
/// consumed per spawned command; each spawned command is pushed onto
/// `invocations`; the first failure aborts everything after it.
pub fn patch_toolchain_with_options(
    obs: &ToolchainObs,
    patchelf: &String,
    linker: &String,
    rpath: &String,
    outcomes: &Vec<RunOutcome>,
    invocations: &mut Vec<CommandLine>,
) -> (r: Result<(), Error>)
    requires
        old(invocations)@.len() == 0,
        listing_wanted(true, obs.bin_listing) + listing_wanted(false, obs.lib_listing)
            <= outcomes@.len(),
    ensures
        with_options_post(*obs, patchelf@, linker@, rpath@, outcomes@, final(invocations)@, r),
{
    let ghost avi = ActionV::SetInterpreter { patchelf: patchelf@, linker: linker@ };
    let ghost avr = ActionV::SetRpath { patchelf: patchelf@, rpath: rpath@ };
    proof {
        assert(old(invocations)@ =~= Seq::<CommandLine>::empty());
    }
    match validate_toolchain(&obs.root, obs.root_is_dir, obs.bin_is_dir, obs.lib_is_dir) {
        Err(e) => {
            return Err(e);
        },
        Ok(u) => {},
    }
    let bin_dir = path_join(&obs.root, "bin");
    proof {
        reveal_strlit("/");
        reveal_strlit("bin");
        reveal_strlit("/bin");
        assert(bin_dir@ =~= bin_dir_of(obs.root@));
    }
    let action_i = PatchAction::SetInterpreter {
        patchelf: copy_string(patchelf),
        linker: copy_string(linker),
    };
    proof {
        assert(action_view(action_i) == avi);
        assert(outcomes@.skip(0) =~= outcomes@);
    }
    let r1 = apply(&action_i, &bin_dir, &obs.bin_listing, outcomes, 0, invocations);
    let ghost binm = listing_model(avi, bin_dir_of(obs.root@), obs.bin_listing, outcomes@);
    match r1 {
        Err(e) => {
            proof {
                assert(invocations_extend(Seq::empty(), invocations@, avi, binm.paths));
            }
            return Err(e);
        },
        Ok(u) => {},
    }
    let lib_dir = path_join(&obs.root, "lib");
    proof {
        reveal_strlit("lib");
        reveal_strlit("/lib");
        assert(lib_dir@ =~= lib_dir_of(obs.root@));
    }
    let action_r = PatchAction::SetRpath {
        patchelf: copy_string(patchelf),
        rpath: copy_string(rpath),
    };
    let start: usize = invocations.len();
    let ghost mid = invocations@;
    proof {
        assert(invocations_extend(Seq::empty(), mid, avi, binm.paths));
        assert(action_view(action_r) == avr);
        assert(start as int == binm.paths.len());
        match &obs.bin_listing {
            DirListing::OpenFailed { os_error } => {},
            DirListing::Opened { entries } => {
                lemma_pass_paths_bound(avi, bin_dir_of(obs.root@), entries@, outcomes@);
            },
        }
        assert(binm.paths.len() <= listing_wanted(true, obs.bin_listing));
    }
    let r2 = apply(&action_r, &lib_dir, &obs.lib_listing, outcomes, start, invocations);
    proof {
        let libm = listing_model(
            avr,
            lib_dir_of(obs.root@),
            obs.lib_listing,
            outcomes@.skip(binm.paths.len() as int),
        );
        let now = invocations@;
        assert(invocations_extend(mid, now, avr, libm.paths));
        assert forall|j: int| 0 <= j < binm.paths.len() implies words_of(#[trigger] now[j])
            == action_words(avi, binm.paths[j]) by {
            assert(mid.len() == binm.paths.len());
            assert(now[j] == mid[j]);
            assert(words_of(mid[0 + j]) == action_words(avi, binm.paths[j]));
        }
    }
    r2
}

/// What each query of the automatic resolution observed.  The metadata
/// fields are of the paths the successful queries named: the patch tool
/// appended with `bin/patchelf`, and the linker path itself;
/// `zlib_lib_is_dir` is whether the resolved path's `lib` subdirectory is
/// a directory.
#[derive(Debug, PartialEq, Eq)]
pub struct NixObservations {
    pub patchelf_outcome: RunOutcome,
    pub patchelf_meta: Option<FileMeta>,
    pub linker_outcome: RunOutcome,
    pub linker_meta: Option<FileMeta>,
    pub zlib_outcome: RunOutcome,
    pub zlib_lib_is_dir: bool,
}

/// What the automatic resolution yields: the validated patch-tool path,
/// the validated linker path, and the composed rpath, or the first error
/// of the three queries and their validations, in that order.
pub open spec fn resolution_model(nix: NixObservations) -> Result<
    (Seq<char>, Seq<char>, Seq<char>),
    ErrShape,
> {
    match run_words_model(nix_build_words("patchelf"@), nix.patchelf_outcome) {
        Err(s) => Err(s),
        Ok(b) => {
            let patchelf = path_of_output(b) + "/bin/patchelf"@;
            if !is_executable_spec(nix.patchelf_meta) {
                Err(ErrShape::Nix { message: patchelf + " is not executable"@ })
            } else {
                match run_words_model(nix_eval_linker_words(), nix.linker_outcome) {
                    Err(s) => Err(s),
                    Ok(lb) => {
                        let linker = path_of_output(lb);
                        if !is_executable_spec(nix.linker_meta) {
                            Err(ErrShape::Nix { message: "Invalid dynamic linker: "@ + linker })
                        } else {
                            match run_words_model(nix_build_words("zlib"@), nix.zlib_outcome) {
                                Err(s) => Err(s),
                                Ok(zb) => {
                                    let zlib = path_of_output(zb) + "/lib"@;
                                    if !nix.zlib_lib_is_dir {
                                        Err(ErrShape::Nix { message: zlib + " is not directory"@ })
                                    } else {
                                        Ok((patchelf, linker, rpath_of(zlib)))
                                    }
                                },
                            }
                        }
                    },
                }
            }
        },
    }
}

/// Patches the toolchain with automatic resolution: resolves the patch
/// tool, the dynamic linker and the compression library through the
/// package database (their query outcomes and the metadata of the named
/// paths stand in `nix`), validates each, composes the rpath, and then
/// patches as [`patch_toolchain_with_options`] does.
pub fn patch_toolchain(
    nix: NixObservations,
    obs: &ToolchainObs,
    outcomes: &Vec<RunOutcome>,
    invocations: &mut Vec<CommandLine>,
) -> (r: Result<(), Error>)
    requires
        old(invocations)@.len() == 0,
        listing_wanted(true, obs.bin_listing) + listing_wanted(false, obs.lib_listing)
            <= outcomes@.len(),
    ensures
        match resolution_model(nix) {
            Err(s) => final(invocations)@.len() == 0 && (r matches Err(e) && error_matches(e, s)),
            Ok(res) => with_options_post(
                *obs,
                res.0,
                res.1,
                res.2,
                outcomes@,
                final(invocations)@,
                r,
            ),
        },
{
    let NixObservations {
        patchelf_outcome,
        patchelf_meta,
        linker_outcome,
        linker_meta,
        zlib_outcome,
        zlib_lib_is_dir,
    } = nix;
    let pdir = match nix_path("patchelf", patchelf_outcome) {
        Ok(p) => p,
        Err(e) => {
            return Err(e);
        },
    };
    let p1 = path_join(&pdir, "bin");
    let patchelf = path_join(&p1, "patchelf");
    proof {
        reveal_strlit("/");
        reveal_strlit("bin");
        reveal_strlit("patchelf");
        reveal_strlit("/bin/patchelf");
        assert(patchelf@ =~= pdir@ + "/bin/patchelf"@);
    }
    match validate_patch_tool(&patchelf, &patchelf_meta) {
        Ok(u) => {},
        Err(e) => {
            return Err(e);
        },
    }
    let linker = match nix_dynamic_linker(linker_outcome, &linker_meta) {
        Ok(p) => p,
        Err(e) => {
            return Err(e);
        },
    };
    let zdir = match nix_path("zlib", zlib_outcome) {
        Ok(p) => p,
        Err(e) => {
            return Err(e);
        },
    };
    let zlib = path_join(&zdir, "lib");
    proof {
        reveal_strlit("lib");
        reveal_strlit("/lib");
        assert(zlib@ =~= zdir@ + "/lib"@);
    }
    match validate_library_dir(&zlib, zlib_lib_is_dir) {
        Ok(u) => {},
        Err(e) => {
            return Err(e);
        },
    }
    let rpath = compose_rpath(&zlib);
    patch_toolchain_with_options(obs, &patchelf, &linker, &rpath, outcomes, invocations)
}

// ---------------------------------------------------------------------------
// Laws of the directory pass
// ---------------------------------------------------------------------------

/// In a `bin` pass over two regular files of which only the first passes
/// the executable test, only the first receives a patch invocation,
/// whatever its patch run led to; and when that run succeeds, the pass
/// completes.
pub proof fn lemma_bin_pass_skips_nonexecutable(
    av: ActionV,
    dir: Seq<char>,
    a: EntryEvent,
    b: EntryEvent,
    outcomes: Seq<RunOutcome>,
)
    requires
        av matches ActionV::SetInterpreter { .. },
        wants_entry(true, a),
        b matches EntryEvent::Found { .. },
        !wants_entry(true, b),
        outcomes.len() >= 1,
    ensures
        pass_model(av, dir, seq![a, b], outcomes).paths == seq![entry_path(a)],
        run_words_model(action_words(av, entry_path(a)), outcomes[0]) is Ok ==> pass_model(
            av,
            dir,
            seq![a, b],
            outcomes,
        ).outcome is Ok,
{
    reveal_with_fuel(pass_model, 4);
    let s = seq![a, b];
    assert(s[0] == a);
    assert(s.drop_first() =~= seq![b]);
    assert(seq![b][0] == b);
    assert(seq![b].drop_first() =~= Seq::<EntryEvent>::empty());
    match run_words_model(action_words(av, entry_path(a)), outcomes[0]) {
        Ok(out) => {
            let rest = pass_model(av, dir, seq![b], outcomes.drop_first());
            assert(rest.paths =~= Seq::<Seq<char>>::empty());
            assert(pass_model(av, dir, s, outcomes).paths =~= seq![entry_path(a)]);
        },
        Err(e) => {
            assert(pass_model(av, dir, s, outcomes).paths =~= seq![entry_path(a)]);
        },
    }
}

/// A failed patch aborts the pass: over two events of which the first is
/// a wanted file, when the patch command on that file does not succeed,
/// the pass ends with exactly that failure, one command was spawned, and
/// the second event is never processed, whatever it is.
pub proof fn lemma_pass_aborts_on_failure(
    av: ActionV,
    dir: Seq<char>,
    a: EntryEvent,
    b: EntryEvent,
    outcomes: Seq<RunOutcome>,
)
    requires
        wants_entry(only_executables(av), a),
        outcomes.len() >= 1,
        run_words_model(action_words(av, entry_path(a)), outcomes[0]) is Err,
    ensures
        pass_model(av, dir, seq![a, b], outcomes).paths == seq![entry_path(a)],
        run_words_model(action_words(av, entry_path(a)), outcomes[0]) matches Err(s) ==> pass_model(
            av,
            dir,
            seq![a, b],
            outcomes,
        ).outcome == Err::<(), ErrShape>(s),
{
    let s = seq![a, b];
    assert(s[0] == a);
    assert(pass_model(av, dir, s, outcomes).paths =~= seq![entry_path(a)]);
}

} // verus!
