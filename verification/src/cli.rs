//! Command-line flags of the daemon.
use vstd::prelude::*;
use crate::text::text_eq;

verus! {

/// Flags given on the command line.
///
/// - `manifest_path`: path of the manifest
/// - `reset_pipewire_token`: forget the stored capture-session token
#[derive(Clone, Debug, PartialEq, Eq)]
pub struct CLIFlags {
    pub manifest_path: String,
    pub reset_pipewire_token: bool,
}

/// Parser of the command line.
pub struct CLIFlagsManager;

/// What the command line asks for.
#[derive(Clone, Debug, PartialEq, Eq)]
pub enum CliAction {
    /// Run with these flags.
    Run(CLIFlags),
    /// `-h`/`--help`: print the help text and exit with status 0.
    ShowHelp,
    /// `-p`/`--path` came last, without its path: report it and exit with status 1.
    MissingPath,
}

/// The outcome of parsing: the arguments ignored as unknown, in order, and the action.
#[derive(Clone, Debug, PartialEq, Eq)]
pub struct CliParse {
    pub ignored: Vec<String>,
    pub action: CliAction,
}

/// The action of a command line, as text.
pub enum CliOutcome {
    Run { manifest_path: Seq<char>, reset: bool },
    ShowHelp,
    MissingPath,
}

/// The command line `args`, read from the first argument on, with the flags so far.
pub open spec fn parse_args(
    args: Seq<Seq<char>>,
    path: Seq<char>,
    reset: bool,
    ignored: Seq<Seq<char>>,
) -> (CliOutcome, Seq<Seq<char>>)
    decreases args.len(),
{
    if args.len() == 0 {
        (CliOutcome::Run { manifest_path: path, reset }, ignored)
    } else {
        let a = args[0];
        if a == "-p"@ || a == "--path"@ {
            if args.len() >= 2 {
                parse_args(args.skip(2), args[1], reset, ignored)
            } else {
                (CliOutcome::MissingPath, ignored)
            }
        } else if a == "-r"@ || a == "--reset"@ {
            parse_args(args.drop_first(), path, true, ignored)
        } else if a == "-h"@ || a == "--help"@ {
            (CliOutcome::ShowHelp, ignored)
        } else {
            parse_args(args.drop_first(), path, reset, ignored.push(a))
        }
    }
}

/// The text view of a list of strings.
pub open spec fn texts(v: Seq<String>) -> Seq<Seq<char>> {
    Seq::new(v.len(), |i: int| v[i]@)
}

/// The text view of an action.
pub open spec fn outcome_of(a: CliAction) -> CliOutcome {
    match a {
        CliAction::Run(f) => CliOutcome::Run {
            manifest_path: f.manifest_path@,
            reset: f.reset_pipewire_token,
        },
        CliAction::ShowHelp => CliOutcome::ShowHelp,
        CliAction::MissingPath => CliOutcome::MissingPath,
    }
}

impl CLIFlagsManager {
    /// Read the arguments that follow the program name.
    ///
    /// `-p`/`--path <path>` sets the manifest path (default `config.toml`),
    /// `-r`/`--reset` asks to forget the session token, `-h`/`--help` asks for the
    /// help text; anything else is ignored. Reading stops at help or at a `-p`
    /// without its path.
    pub fn parse(args: &Vec<String>) -> (r: CliParse)
        ensures
            (outcome_of(r.action), texts(r.ignored@)) == parse_args(
                texts(args@),
                "config.toml"@,
                false,
                Seq::empty(),
            ),
    {
        let mut manifest_path = String::from_str("config.toml");
        let mut reset_pipewire_token = false;
        let mut ignored: Vec<String> = Vec::new();
        let ghost all = texts(args@);
        let mut i: usize = 0;
        proof {
            assert(all.skip(0) =~= all);
            assert(texts(ignored@) =~= Seq::<Seq<char>>::empty());
        }
        while i < args.len()
            invariant
                i <= args@.len(),
                all == texts(args@),
                parse_args(all, "config.toml"@, false, Seq::empty()) == parse_args(
                    all.skip(i as int),
                    manifest_path@,
                    reset_pipewire_token,
                    texts(ignored@),
                ),
            decreases args@.len() - i,
        {
            let a = args[i].as_str();
            let ghost rest = all.skip(i as int);
            proof {
                assert(rest[0] == a@);
            }
            if text_eq(a, "-p") || text_eq(a, "--path") {
                if i + 1 < args.len() {
                    manifest_path = args[i + 1].clone();
                    proof {
                        assert(rest[1] == manifest_path@);
                        assert(rest.skip(2) =~= all.skip(i + 2));
                    }
                    i = i + 2;
                } else {
                    return CliParse { ignored, action: CliAction::MissingPath };
                }
            } else if text_eq(a, "-r") || text_eq(a, "--reset") {
                reset_pipewire_token = true;
                proof {
                    assert(rest.drop_first() =~= all.skip(i + 1));
                }
                i = i + 1;
            } else if text_eq(a, "-h") || text_eq(a, "--help") {
                return CliParse { ignored, action: CliAction::ShowHelp };
            } else {
                let ghost before = texts(ignored@);
                ignored.push(args[i].clone());
                proof {
                    assert(rest.drop_first() =~= all.skip(i + 1));
                    assert(texts(ignored@) =~= before.push(a@));
                }
                i = i + 1;
            }
        }
        proof {
            assert(all.skip(i as int) =~= Seq::<Seq<char>>::empty());
        }
        CliParse {
            ignored,
            action: CliAction::Run(CLIFlags { manifest_path, reset_pipewire_token }),
        }
    }
}

/// An argument the command line understands: `-p`, `--path`, `-r`, `--reset`, `-h`, `--help`.
pub open spec fn is_option(a: Seq<char>) -> bool {
    a == "-p"@ || a == "--path"@ || a == "-r"@ || a == "--reset"@ || a == "-h"@ || a == "--help"@
}

/// The six option spellings are different texts.
pub proof fn lemma_options_distinct()
    ensures
        "-p"@ != "-r"@,
        "-p"@ != "-h"@,
        "-r"@ != "-h"@,
        "--path"@ != "-r"@,
        "--path"@ != "--reset"@,
        "--path"@ != "-h"@,
        "--path"@ != "--help"@,
        "-p"@ != "--reset"@,
        "-p"@ != "--help"@,
        "-r"@ != "--help"@,
        "--reset"@ != "-h"@,
        "--reset"@ != "--help"@,
{
    reveal_strlit("-p");
    reveal_strlit("--path");
    reveal_strlit("-r");
    reveal_strlit("--reset");
    reveal_strlit("-h");
    reveal_strlit("--help");
    assert("-p"@[1] != "-r"@[1]);
    assert("-p"@[1] != "-h"@[1]);
    assert("-r"@[1] != "-h"@[1]);
    assert("--path"@.len() != "-r"@.len());
    assert("--path"@[2] != "--reset"@[2]);
    assert("--path"@.len() != "-h"@.len());
    assert("--path"@[2] != "--help"@[2]);
    assert("-p"@.len() != "--reset"@.len());
    assert("-p"@.len() != "--help"@.len());
    assert("-r"@.len() != "--help"@.len());
    assert("--reset"@.len() != "-h"@.len());
    assert("--reset"@[2] != "--help"@[2]);
}

/// What each option does, whatever follows it (and, with no arguments left, reading ends
/// with a run on the flags so far): `-r` and `--reset` both ask to forget the
/// session token and reading goes on; `-h` and `--help` both stop with the help; `-p` and
/// `--path` both take the next argument as the manifest path, or stop as a missing path
/// when nothing follows; any other argument is set aside as ignored and reading goes on.
pub proof fn lemma_option_steps(
    a: Seq<char>,
    x: Seq<char>,
    rest: Seq<Seq<char>>,
    path: Seq<char>,
    reset: bool,
    ignored: Seq<Seq<char>>,
)
    ensures
        parse_args(Seq::empty(), path, reset, ignored) == (
            CliOutcome::Run { manifest_path: path, reset },
            ignored,
        ),
        (a == "-r"@ || a == "--reset"@) ==> parse_args(seq![a] + rest, path, reset, ignored)
            == parse_args(rest, path, true, ignored),
        (a == "-h"@ || a == "--help"@) ==> parse_args(seq![a] + rest, path, reset, ignored) == (
            CliOutcome::ShowHelp,
            ignored,
        ),
        (a == "-p"@ || a == "--path"@) ==> parse_args(seq![a, x] + rest, path, reset, ignored)
            == parse_args(rest, x, reset, ignored),
        (a == "-p"@ || a == "--path"@) ==> parse_args(seq![a], path, reset, ignored) == (
            CliOutcome::MissingPath,
            ignored,
        ),
        !is_option(a) ==> parse_args(seq![a] + rest, path, reset, ignored) == parse_args(
            rest,
            path,
            reset,
            ignored.push(a),
        ),
{
    lemma_options_distinct();
    assert((seq![a] + rest)[0] == a);
    assert((seq![a] + rest).drop_first() =~= rest);
    assert((seq![a, x] + rest)[0] == a);
    assert((seq![a, x] + rest)[1] == x);
    assert((seq![a, x] + rest).skip(2) =~= rest);
}

/// Options are never set aside as unknown: if none of the arguments ignored so far is an
/// option, none of those ignored at the end is.
pub proof fn lemma_options_never_ignored(
    args: Seq<Seq<char>>,
    path: Seq<char>,
    reset: bool,
    ignored: Seq<Seq<char>>,
)
    requires
        forall|k: int| 0 <= k < ignored.len() ==> !is_option(#[trigger] ignored[k]),
    ensures
        forall|k: int|
            0 <= k < parse_args(args, path, reset, ignored).1.len() ==> !is_option(
                #[trigger] parse_args(args, path, reset, ignored).1[k],
            ),
    decreases args.len(),
{
    lemma_options_distinct();
    let r = parse_args(args, path, reset, ignored);
    if args.len() == 0 {
        assert(r.1 == ignored);
    } else {
        let a = args[0];
        if a == "-p"@ || a == "--path"@ {
            if args.len() >= 2 {
                lemma_options_never_ignored(args.skip(2), args[1], reset, ignored);
                assert(r == parse_args(args.skip(2), args[1], reset, ignored));
            } else {
                assert(r.1 == ignored);
            }
        } else if a == "-r"@ || a == "--reset"@ {
            lemma_options_never_ignored(args.drop_first(), path, true, ignored);
            assert(r == parse_args(args.drop_first(), path, true, ignored));
        } else if a == "-h"@ || a == "--help"@ {
            assert(r.1 == ignored);
        } else {
            let ig = ignored.push(a);
            assert forall|k: int| 0 <= k < ig.len() implies !is_option(#[trigger] ig[k]) by {
                if k < ignored.len() {
                    assert(ig[k] == ignored[k]);
                }
            }
            lemma_options_never_ignored(args.drop_first(), path, reset, ig);
            assert(r == parse_args(args.drop_first(), path, reset, ig));
        }
    }
    assert forall|k: int| 0 <= k < r.1.len() implies !is_option(#[trigger] r.1[k]) by {
        if args.len() == 0 || ((args[0] == "-p"@ || args[0] == "--path"@) && args.len() < 2)
            || args[0] == "-h"@ || args[0] == "--help"@ {
            assert(r.1[k] == ignored[k]);
        }
    }
}

/// Once asked for, forgetting the session token is never undone by later arguments.
pub proof fn lemma_reset_sticks(args: Seq<Seq<char>>, path: Seq<char>, ignored: Seq<Seq<char>>)
    ensures
        parse_args(args, path, true, ignored).0 matches CliOutcome::Run { reset, .. } ==> reset,
    decreases args.len(),
{
    lemma_options_distinct();
    if args.len() > 0 {
        let a = args[0];
        if a == "-p"@ || a == "--path"@ {
            if args.len() >= 2 {
                lemma_reset_sticks(args.skip(2), args[1], ignored);
            }
        } else if a == "-r"@ || a == "--reset"@ {
            lemma_reset_sticks(args.drop_first(), path, ignored);
        } else if a == "-h"@ || a == "--help"@ {
        } else {
            lemma_reset_sticks(args.drop_first(), path, ignored.push(a));
        }
    }
}

} // verus!
