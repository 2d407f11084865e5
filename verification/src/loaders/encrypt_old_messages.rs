//! The command line of the tool that seals old messages.

use vstd::prelude::*;

use crate::text;

verus! {

/// How many messages are loaded at a time where nothing else is asked for.
pub const DEFAULT_BATCH_SIZE: u32 = 200;

/// What the tool is to do.
#[derive(Clone, Copy, Debug, PartialEq, Eq)]
pub struct MigrateOptions {
    pub dry_run: bool,
    pub batch_size: u32,
    pub limit: Option<u64>,
}

/// What a command line asks for.
#[derive(Clone, Copy, Debug, PartialEq, Eq)]
pub enum Command {
    Run(MigrateOptions),
    Help,
    InvalidBatchSize,
    InvalidLimit,
    /// The argument at this place is not known.
    Unknown(usize),
}

/// `s` without all the `p` that it begins with.
pub open spec fn without_prefixes(s: Seq<char>, p: Seq<char>) -> Seq<char>
    decreases s.len(),
{
    if p.len() > 0 && text::without_prefix(s, p) is Some {
        without_prefixes(s.skip(p.len() as int), p)
    } else {
        s
    }
}

fn strip_prefixes(s: &str, p: &str) -> (r: String)
    requires
        p@.len() > 0,
    ensures
        r@ == without_prefixes(s@, p@),
{
    let mut rest = s.to_owned();
    loop
        invariant
            p@.len() > 0,
            without_prefixes(s@, p@) == without_prefixes(rest@, p@),
        decreases rest@.len(),
    {
        match text::strip_prefix(rest.as_str(), p) {
            None => return rest,
            Some(t) => {
                rest = t;
            },
        }
    }
}

/// What one argument asks for.
pub enum Argument {
    Apply,
    DryRun,
    Help,
    /// A number of messages to load at a time, where it is one.
    BatchSize(Option<u32>),
    /// A number of messages to stop after, where it is one.
    Limit(Option<u64>),
    Unknown,
}

/// What an argument asks for.
pub open spec fn argument_of(a: Seq<char>) -> Argument {
    if a == "--apply"@ {
        Argument::Apply
    } else if a == "--dry-run"@ {
        Argument::DryRun
    } else if a == "--help"@ || a == "-h"@ {
        Argument::Help
    } else if text::without_prefix(a, "--batch-size="@) is Some {
        Argument::BatchSize(text::u32_of(without_prefixes(a, "--batch-size="@)))
    } else if text::without_prefix(a, "--limit="@) is Some {
        Argument::Limit(text::u64_of(without_prefixes(a, "--limit="@)))
    } else {
        Argument::Unknown
    }
}

/// Reads what an argument asks for.
pub fn read_argument(a: &str) -> (r: Argument)
    ensures
        r == argument_of(a@),
{
    proof {
        reveal_strlit("--batch-size=");
        reveal_strlit("--limit=");
    }
    if text::same_text(a, "--apply") {
        Argument::Apply
    } else if text::same_text(a, "--dry-run") {
        Argument::DryRun
    } else if text::same_text(a, "--help") || text::same_text(a, "-h") {
        Argument::Help
    } else if text::strip_prefix(a, "--batch-size=").is_some() {
        Argument::BatchSize(text::parse_u32(strip_prefixes(a, "--batch-size=").as_str()))
    } else if text::strip_prefix(a, "--limit=").is_some() {
        Argument::Limit(text::parse_u64(strip_prefixes(a, "--limit=").as_str()))
    } else {
        Argument::Unknown
    }
}

/// What the arguments from the place `i` on ask for, after `so_far` was asked for. The first that
/// is not in order or asks for help decides.
pub open spec fn command_from(args: Seq<Seq<char>>, i: int, so_far: MigrateOptions) -> Command
    decreases args.len() - i,
{
    if i < 0 || i >= args.len() {
        Command::Run(so_far)
    } else {
        match argument_of(args[i]) {
            Argument::Apply => command_from(args, i + 1, MigrateOptions { dry_run: false, ..so_far }),
            Argument::DryRun => command_from(args, i + 1, MigrateOptions { dry_run: true, ..so_far }),
            Argument::Help => Command::Help,
            Argument::BatchSize(None) => Command::InvalidBatchSize,
            Argument::BatchSize(Some(n)) => command_from(
                args,
                i + 1,
                MigrateOptions { batch_size: n, ..so_far },
            ),
            Argument::Limit(None) => Command::InvalidLimit,
            Argument::Limit(Some(n)) => command_from(
                args,
                i + 1,
                MigrateOptions { limit: Some(n), ..so_far },
            ),
            Argument::Unknown => Command::Unknown(i as usize),
        }
    }
}

/// What is done where nothing is asked for: nothing is written.
pub open spec fn default_options() -> MigrateOptions {
    MigrateOptions { dry_run: true, batch_size: DEFAULT_BATCH_SIZE, limit: None }
}

/// Reads what a command line asks for; `args` are its arguments without the name of the tool.
pub fn parse_args(args: &Vec<String>) -> (r: Command)
    ensures
        r == command_from(text::texts(args@), 0, default_options()),
{
    let ghost all = text::texts(args@);
    let mut so_far = MigrateOptions { dry_run: true, batch_size: DEFAULT_BATCH_SIZE, limit: None };
    let mut i: usize = 0;
    while i < args.len()
        invariant
            i <= args.len(),
            all == text::texts(args@),
            command_from(all, 0, default_options()) == command_from(all, i as int, so_far),
        decreases args.len() - i,
    {
        assert(all[i as int] == args@[i as int]@);
        match read_argument(args[i].as_str()) {
            Argument::Apply => {
                so_far = MigrateOptions { dry_run: false, ..so_far };
            },
            Argument::DryRun => {
                so_far = MigrateOptions { dry_run: true, ..so_far };
            },
            Argument::Help => return Command::Help,
            Argument::BatchSize(None) => return Command::InvalidBatchSize,
            Argument::BatchSize(Some(n)) => {
                so_far = MigrateOptions { batch_size: n, ..so_far };
            },
            Argument::Limit(None) => return Command::InvalidLimit,
            Argument::Limit(Some(n)) => {
                so_far = MigrateOptions { limit: Some(n), ..so_far };
            },
            Argument::Unknown => return Command::Unknown(i),
        }
        i += 1;
    }
    Command::Run(so_far)
}

/// Nothing is written unless `--apply` is one of the arguments.
pub proof fn law_nothing_is_written_unasked(args: Seq<Seq<char>>, i: int, so_far: MigrateOptions)
    requires
        0 <= i <= args.len(),
        so_far.dry_run,
        forall|k: int| i <= k < args.len() ==> #[trigger] args[k] != "--apply"@,
    ensures
        command_from(args, i, so_far) matches Command::Run(o) ==> o.dry_run,
    decreases args.len() - i,
{
    if i < args.len() {
        match argument_of(args[i]) {
            Argument::Apply => {
                assert(args[i] == "--apply"@);
            },
            Argument::DryRun => {
                law_nothing_is_written_unasked(
                    args,
                    i + 1,
                    MigrateOptions { dry_run: true, ..so_far },
                );
            },
            Argument::BatchSize(Some(n)) => {
                law_nothing_is_written_unasked(
                    args,
                    i + 1,
                    MigrateOptions { batch_size: n, ..so_far },
                );
            },
            Argument::Limit(Some(n)) => {
                law_nothing_is_written_unasked(
                    args,
                    i + 1,
                    MigrateOptions { limit: Some(n), ..so_far },
                );
            },
            _ => {},
        }
    }
}

/// Arguments are read in order, and the later of two that contradict each other counts: an argument
/// changes what it names and nothing else, help and mistakes end the reading.
pub proof fn law_arguments_are_read_in_order(args: Seq<Seq<char>>, i: int, so_far: MigrateOptions)
    requires
        0 <= i < args.len(),
    ensures
        args[i] == "--apply"@ ==> command_from(args, i, so_far) == command_from(
            args,
            i + 1,
            MigrateOptions { dry_run: false, ..so_far },
        ),
        args[i] == "--dry-run"@ ==> command_from(args, i, so_far) == command_from(
            args,
            i + 1,
            MigrateOptions { dry_run: true, ..so_far },
        ),
        args[i] == "--help"@ || args[i] == "-h"@ ==> command_from(args, i, so_far) is Help,
        command_from(args, args.len() as int, so_far) == Command::Run(so_far),
        default_options().dry_run && default_options().batch_size == 200 && default_options().limit is
            None,
{
    reveal_strlit("--apply");
    reveal_strlit("--dry-run");
    reveal_strlit("--help");
    reveal_strlit("-h");
    assert("--apply"@.len() != "--dry-run"@.len());
    assert("--apply"@.len() != "--help"@.len());
    assert("--dry-run"@.len() != "--help"@.len());
    assert("-h"@.len() == 2);
}

} // verus!
