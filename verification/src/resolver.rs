//! The command profile resolver: a pure map from `(platform, options,
//! endpoints)` to the executable name and the exact argument vector of the
//! native copy tool.
//!
//! The POSIX grammar is `rsync`'s: a flag cluster and long flags first, then
//! source and target as the final two positional arguments. The Windows
//! grammar is `ROBOCOPY`'s: source and rewritten target first, then
//! switches. Both grammars are written out below as spec functions; every
//! executable builder is proved to emit exactly them.

use vstd::prelude::*;

use crate::options::CopyEndpoints;
use crate::options::CopyOptions;
use crate::options::Platform;
use crate::paths::rewrite_target;
use crate::paths::rewritten_target;

verus! {

/// The executable name the resolver picks for platform `p`. A bare program
/// name, not a path: it is resolved against the search path at launch time.
pub open spec fn spec_executable(p: Platform) -> Seq<char> {
    match p {
        Platform::Posix => "rsync"@,
        Platform::Windows => "ROBOCOPY"@,
    }
}

/// The leading rsync flag cluster: human-readable output, with archive mode
/// folded into the same cluster when metadata is to be preserved.
pub open spec fn posix_head_flag(o: CopyOptions) -> Seq<char> {
    if o.preserve_metadata {
        "-ha"@
    } else {
        "-h"@
    }
}

/// The rsync flags in emission order: the head cluster, the base
/// single-letter flags (recursive, links, verbose, progress, whole-file),
/// then the optional delete and checksum flags.
pub open spec fn posix_flags(o: CopyOptions) -> Seq<Seq<char>> {
    let base = seq![posix_head_flag(o), "-r"@, "-l"@, "-v"@, "-P"@, "-W"@];
    let with_delete = if o.mirror_delete {
        base.push("--delete-during"@)
    } else {
        base
    };
    if o.validate_content {
        with_delete.push("--checksum"@)
    } else {
        with_delete
    }
}

/// The full rsync argv: flags first, then source, then target.
pub open spec fn posix_args(o: CopyOptions, source: Seq<char>, target: Seq<char>) -> Seq<
    Seq<char>,
> {
    posix_flags(o).push(source).push(target)
}

/// The ROBOCOPY switches in emission order: recursive with empty
/// directories, time-remaining progress, two transfer threads, no automatic
/// retries, verbose; then the optional copy-all-attributes and purge
/// switches. The checksum intent has no counterpart here and is ignored.
pub open spec fn windows_flags(o: CopyOptions) -> Seq<Seq<char>> {
    let base = seq!["/E"@, "/ETA"@, "/MT:2"@, "/R:0"@, "/V"@];
    let with_meta = if o.preserve_metadata {
        base.push("/COPYALL"@)
    } else {
        base
    };
    if o.mirror_delete {
        with_meta.push("/PURGE"@)
    } else {
        with_meta
    }
}

/// The full ROBOCOPY argv: source, then the rewritten target
/// (`target / basename(source)`), then the switches.
pub open spec fn windows_args(o: CopyOptions, source: Seq<char>, target: Seq<char>) -> Seq<
    Seq<char>,
> {
    seq![source, rewritten_target(source, target)] + windows_flags(o)
}

/// The argv the resolver owes for platform `p`.
pub open spec fn resolved_args(
    p: Platform,
    o: CopyOptions,
    source: Seq<char>,
    target: Seq<char>,
) -> Seq<Seq<char>> {
    match p {
        Platform::Posix => posix_args(o, source, target),
        Platform::Windows => windows_args(o, source, target),
    }
}

/// How many entries of `args` equal `flag`.
pub open spec fn flag_count(args: Seq<Seq<char>>, flag: Seq<char>) -> nat
    decreases args.len(),
{
    if args.len() == 0 {
        0
    } else {
        flag_count(args.drop_last(), flag) + (if args.last() == flag {
            1nat
        } else {
            0nat
        })
    }
}

/// A flag absent from every entry is counted zero times.
proof fn lemma_flag_count_zero(args: Seq<Seq<char>>, flag: Seq<char>)
    requires
        forall|i: int| 0 <= i < args.len() ==> args[i] != flag,
    ensures
        flag_count(args, flag) == 0,
    decreases args.len(),
{
    if args.len() > 0 {
        lemma_flag_count_zero(args.drop_last(), flag);
    }
}

/// Appending one entry raises the count exactly when the entry is the flag.
proof fn lemma_flag_count_push(args: Seq<Seq<char>>, entry: Seq<char>, flag: Seq<char>)
    ensures
        flag_count(args.push(entry), flag) == flag_count(args, flag) + (if entry == flag {
            1nat
        } else {
            0nat
        }),
{
    assert(args.push(entry).drop_last() =~= args);
}

/// Counting distributes over concatenation.
proof fn lemma_flag_count_concat(left: Seq<Seq<char>>, right: Seq<Seq<char>>, flag: Seq<char>)
    ensures
        flag_count(left + right, flag) == flag_count(left, flag) + flag_count(right, flag),
    decreases right.len(),
{
    if right.len() == 0 {
        assert(left + right =~= left);
    } else {
        assert((left + right).drop_last() =~= left + right.drop_last());
        lemma_flag_count_concat(left, right.drop_last(), flag);
    }
}

/// The delete flag appears in the rsync flags exactly when the mirror-delete
/// intent is set, and then exactly once; without the intent, never.
pub proof fn lemma_posix_delete_flag(o: CopyOptions)
    ensures
        flag_count(posix_flags(o), "--delete-during"@) == (if o.mirror_delete {
            1nat
        } else {
            0nat
        }),
{
    let d = "--delete-during"@;
    reveal_strlit("--delete-during");
    reveal_strlit("--checksum");
    reveal_strlit("-ha");
    reveal_strlit("-h");
    reveal_strlit("-r");
    reveal_strlit("-l");
    reveal_strlit("-v");
    reveal_strlit("-P");
    reveal_strlit("-W");
    let base = seq![posix_head_flag(o), "-r"@, "-l"@, "-v"@, "-P"@, "-W"@];
    assert(d.len() == 15);
    assert forall|i: int| 0 <= i < base.len() implies base[i] != d by {
        if i == 0 {
            if o.preserve_metadata {
                assert("-ha"@.len() == 3);
            } else {
                assert("-h"@.len() == 2);
            }
        } else if i == 1 {
            assert("-r"@.len() == 2);
        } else if i == 2 {
            assert("-l"@.len() == 2);
        } else if i == 3 {
            assert("-v"@.len() == 2);
        } else if i == 4 {
            assert("-P"@.len() == 2);
        } else {
            assert("-W"@.len() == 2);
        }
    }
    lemma_flag_count_zero(base, d);
    let with_delete = if o.mirror_delete {
        base.push(d)
    } else {
        base
    };
    if o.mirror_delete {
        lemma_flag_count_push(base, d, d);
    }
    if o.validate_content {
        assert("--checksum"@.len() == 10);
        lemma_flag_count_push(with_delete, "--checksum"@, d);
    }
}

/// The delete flag appears in the full rsync argv exactly when the
/// mirror-delete intent is set, and then exactly once — as long as neither
/// endpoint path is itself spelled like the flag.
pub proof fn lemma_posix_args_delete_flag(o: CopyOptions, source: Seq<char>, target: Seq<char>)
    requires
        source != "--delete-during"@,
        target != "--delete-during"@,
    ensures
        flag_count(posix_args(o, source, target), "--delete-during"@) == (if o.mirror_delete {
            1nat
        } else {
            0nat
        }),
{
    let d = "--delete-during"@;
    lemma_posix_delete_flag(o);
    lemma_flag_count_push(posix_flags(o), source, d);
    lemma_flag_count_push(posix_flags(o).push(source), target, d);
}

/// The checksum flag never appears among the ROBOCOPY switches, whatever
/// the options say: the Windows tool has no checksum mode, and the intent
/// is deliberately ignored there.
pub proof fn lemma_windows_checksum_flag(o: CopyOptions)
    ensures
        flag_count(windows_flags(o), "--checksum"@) == 0,
{
    let c = "--checksum"@;
    reveal_strlit("--checksum");
    reveal_strlit("/E");
    reveal_strlit("/ETA");
    reveal_strlit("/MT:2");
    reveal_strlit("/R:0");
    reveal_strlit("/V");
    reveal_strlit("/COPYALL");
    reveal_strlit("/PURGE");
    let base = seq!["/E"@, "/ETA"@, "/MT:2"@, "/R:0"@, "/V"@];
    assert(c.len() == 10);
    assert forall|i: int| 0 <= i < base.len() implies base[i] != c by {
        if i == 0 {
            assert("/E"@.len() == 2);
        } else if i == 1 {
            assert("/ETA"@.len() == 4);
        } else if i == 2 {
            assert("/MT:2"@.len() == 5);
        } else if i == 3 {
            assert("/R:0"@.len() == 4);
        } else {
            assert("/V"@.len() == 2);
        }
    }
    lemma_flag_count_zero(base, c);
    let with_meta = if o.preserve_metadata {
        base.push("/COPYALL"@)
    } else {
        base
    };
    if o.preserve_metadata {
        assert("/COPYALL"@.len() == 8);
        lemma_flag_count_push(base, "/COPYALL"@, c);
    }
    if o.mirror_delete {
        assert("/PURGE"@.len() == 6);
        lemma_flag_count_push(with_meta, "/PURGE"@, c);
    }
}

/// The checksum flag never appears in the full ROBOCOPY argv — as long as
/// neither the source nor the rewritten target is itself spelled like the
/// flag.
pub proof fn lemma_windows_args_checksum_flag(
    o: CopyOptions,
    source: Seq<char>,
    target: Seq<char>,
)
    requires
        source != "--checksum"@,
        rewritten_target(source, target) != "--checksum"@,
    ensures
        flag_count(windows_args(o, source, target), "--checksum"@) == 0,
{
    let c = "--checksum"@;
    let prefix = seq![source, rewritten_target(source, target)];
    let single = seq![source];
    assert(prefix.drop_last() =~= single);
    assert(single.drop_last() =~= Seq::<Seq<char>>::empty());
    assert(flag_count(Seq::<Seq<char>>::empty(), c) == 0);
    assert(flag_count(single, c) == 0);
    assert(flag_count(prefix, c) == 0);
    lemma_windows_checksum_flag(o);
    lemma_flag_count_concat(prefix, windows_flags(o), c);
}

/// Argument order is fixed: the POSIX argv is the flags followed by source
/// and target as the final two positional arguments; the Windows argv is
/// source and the rewritten target followed by the switches.
pub proof fn lemma_argument_order(o: CopyOptions, source: Seq<char>, target: Seq<char>)
    ensures
        posix_args(o, source, target) == posix_flags(o) + (seq![source, target]),
        windows_args(o, source, target) == (seq![source, rewritten_target(source, target)])
            + windows_flags(o),
{
    assert(posix_args(o, source, target) =~= posix_flags(o) + seq![source, target]);
}

/// The resolver's output: pure data, carrying no handle to any process. It
/// can be logged, compared or discarded without side effects.
#[derive(Debug)]
pub struct ResolvedCommand {
    /// Program name to resolve against the search path at launch time.
    pub executable: String,
    /// Fully formed argv, endpoints included in the position the tool
    /// expects.
    pub arguments: Vec<String>,
}

impl ResolvedCommand {
    /// A command is resolved for `(p, o, source, target)` when it names the
    /// platform's tool and carries exactly the argv the grammar owes.
    pub open spec fn is_resolved_for(
        self,
        p: Platform,
        o: CopyOptions,
        source: Seq<char>,
        target: Seq<char>,
    ) -> bool {
        &&& self.executable@ == spec_executable(p)
        &&& self.arguments.deep_view() == resolved_args(p, o, source, target)
    }
}

/// Picks the native copy tool for the platform: `rsync` on POSIX hosts,
/// `ROBOCOPY` on Windows hosts.
pub fn native_copy_command(platform: Platform) -> (r: String)
    ensures
        r@ == spec_executable(platform),
{
    match platform {
        Platform::Posix => "rsync".to_owned(),
        Platform::Windows => "ROBOCOPY".to_owned(),
    }
}

/// Builds the rsync argv for the given intents and endpoints.
fn posix_copy_args(
    archive_copy: bool,
    delete_copy: bool,
    validate_copy: bool,
    source: &String,
    target: &String,
) -> (args: Vec<String>)
    ensures
        args.deep_view() == posix_args(
            CopyOptions {
                preserve_metadata: archive_copy,
                mirror_delete: delete_copy,
                validate_content: validate_copy,
            },
            source@,
            target@,
        ),
{
    let mut args: Vec<String> = Vec::new();
    if archive_copy {
        args.push("-ha".to_owned());  // human-readable output + archive mode
    } else {
        args.push("-h".to_owned());  // human-readable output
    }
    args.push("-r".to_owned());  // recursive copying
    args.push("-l".to_owned());  // preserve symbolic links
    args.push("-v".to_owned());  // verbose summary
    args.push("-P".to_owned());  // progress report
    args.push("-W".to_owned());  // copy whole files (no delta encoding)
    if delete_copy {
        args.push("--delete-during".to_owned());  // receiver deletes during the transfer
    }
    if validate_copy {
        args.push("--checksum".to_owned());  // skip by checksum, not mod-time and size
    }
    args.push(source.clone());
    args.push(target.clone());
    proof {
        let o = CopyOptions {
            preserve_metadata: archive_copy,
            mirror_delete: delete_copy,
            validate_content: validate_copy,
        };
        assert(args.deep_view() =~= posix_args(o, source@, target@));
    }
    args
}

/// Builds the ROBOCOPY argv for the given intents and endpoints. The target
/// argument is rewritten to `target / basename(source)` so that the source
/// directory lands as a subdirectory of the target, as on POSIX; the
/// checksum intent is ignored, the tool having no checksum mode.
fn windows_copy_args(
    archive_copy: bool,
    delete_copy: bool,
    source: &String,
    target: &String,
) -> (args: Vec<String>)
    ensures
        forall|validate_copy: bool|
            args.deep_view() == windows_args(
                CopyOptions {
                    preserve_metadata: archive_copy,
                    mirror_delete: delete_copy,
                    validate_content: validate_copy,
                },
                source@,
                target@,
            ),
{
    let mut args: Vec<String> = Vec::new();
    args.push(source.clone());
    args.push(rewrite_target(source.as_str(), target.as_str()));
    args.push("/E".to_owned());  // recursive, including empty directories
    args.push("/ETA".to_owned());  // estimated-time-remaining progress
    args.push("/MT:2".to_owned());  // two transfer threads
    args.push("/R:0".to_owned());  // no retry upon failure
    args.push("/V".to_owned());  // verbose (show skipped items)
    if archive_copy {
        args.push("/COPYALL".to_owned());  // copy all file and directory attributes
    }
    if delete_copy {
        args.push("/PURGE".to_owned());  // delete target items missing at the source
    }
    proof {
        assert forall|validate_copy: bool|
            args.deep_view() == windows_args(
                CopyOptions {
                    preserve_metadata: archive_copy,
                    mirror_delete: delete_copy,
                    validate_content: validate_copy,
                },
                source@,
                target@,
            ) by {
            let o = CopyOptions {
                preserve_metadata: archive_copy,
                mirror_delete: delete_copy,
                validate_content: validate_copy,
            };
            assert(args.deep_view() =~= windows_args(o, source@, target@));
        }
    }
    args
}

/// Builds the native tool's argv for the platform: rsync flags then
/// `source target` on POSIX; `source rewrittenTarget` then ROBOCOPY
/// switches on Windows.
pub fn native_copy_args(
    platform: Platform,
    archive_copy: &bool,
    delete_copy: &bool,
    validate_copy: &bool,
    source: &String,
    target: &String,
) -> (args: Vec<String>)
    ensures
        args.deep_view() == resolved_args(
            platform,
            CopyOptions {
                preserve_metadata: *archive_copy,
                mirror_delete: *delete_copy,
                validate_content: *validate_copy,
            },
            source@,
            target@,
        ),
{
    match platform {
        Platform::Posix => posix_copy_args(
            *archive_copy,
            *delete_copy,
            *validate_copy,
            source,
            target,
        ),
        Platform::Windows => windows_copy_args(*archive_copy, *delete_copy, source, target),
    }
}

/// Resolves one copy request to the concrete command to launch. Total and
/// pure: it never fails, performs no input/output, and two calls on equal
/// inputs yield equal commands.
pub fn resolve(platform: Platform, options: &CopyOptions, endpoints: &CopyEndpoints) -> (r:
    ResolvedCommand)
    ensures
        r.is_resolved_for(platform, *options, endpoints.source@, endpoints.target@),
{
    ResolvedCommand {
        executable: native_copy_command(platform),
        arguments: native_copy_args(
            platform,
            &options.preserve_metadata,
            &options.mirror_delete,
            &options.validate_content,
            &endpoints.source,
            &endpoints.target,
        ),
    }
}

/// Resolution is a pure function of `(platform, options, endpoints)`: any
/// two commands resolved for the same request are byte-identical — the same
/// executable name and the same argument vector, character for character.
pub proof fn lemma_resolution_deterministic(
    first: ResolvedCommand,
    second: ResolvedCommand,
    p: Platform,
    o: CopyOptions,
    source: Seq<char>,
    target: Seq<char>,
)
    requires
        first.is_resolved_for(p, o, source, target),
        second.is_resolved_for(p, o, source, target),
    ensures
        first.executable@ == second.executable@,
        first.arguments.deep_view() == second.arguments.deep_view(),
{
}

} // verus!

