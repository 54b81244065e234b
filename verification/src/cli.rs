//! The command line of the tool, as the argument parser fills it in.
use vstd::prelude::*;

verus! {

/// The options given on the command line.
pub struct Cli {
    /// `-s, --search <PARTITION>`: find a partition and show its device path.
    pub search: Option<String>,
    /// `-p, --path`: when searching, show only the device path.
    pub path_only: bool,
    /// `-f, --flash <IMAGE> <PARTITION>`: the hidden alias of `--write`.
    pub flash: Option<Vec<String>>,
    /// `-w, --write <IMAGE> <PARTITION>`: write an image to a partition.
    pub write: Option<Vec<String>>,
    /// `-d, --dump <PARTITION> <IMAGE>`: dump a partition to an image file.
    pub dump: Option<Vec<String>>,
    /// `-h, --help`: show the help text.
    pub help: bool,
}

/// One operation that the command line asks for, in the order the tool
/// runs them.
pub enum Action {
    /// Show the help text.
    ShowHelp,
    /// Find a partition; with `path_only`, print only its device path.
    Search { partition: String, path_only: bool },
    /// Write an image to a partition (`--flash` or `--write`).
    Flash { image: String, partition: String },
    /// A flash request with fewer than two arguments.
    FlashUsageError,
    /// Dump a partition to an image file.
    Dump { partition: String, image: String },
    /// A dump request with fewer than two arguments.
    DumpUsageError,
}

/// An action with its texts as character sequences.
pub ghost enum ActionSpec {
    ShowHelp,
    Search { partition: Seq<char>, path_only: bool },
    Flash { image: Seq<char>, partition: Seq<char> },
    FlashUsageError,
    Dump { partition: Seq<char>, image: Seq<char> },
    DumpUsageError,
}

impl View for Action {
    type V = ActionSpec;

    open spec fn view(&self) -> ActionSpec {
        match self {
            Action::ShowHelp => ActionSpec::ShowHelp,
            Action::Search { partition, path_only } => ActionSpec::Search {
                partition: partition@,
                path_only: *path_only,
            },
            Action::Flash { image, partition } => ActionSpec::Flash {
                image: image@,
                partition: partition@,
            },
            Action::FlashUsageError => ActionSpec::FlashUsageError,
            Action::Dump { partition, image } => ActionSpec::Dump {
                partition: partition@,
                image: image@,
            },
            Action::DumpUsageError => ActionSpec::DumpUsageError,
        }
    }
}

/// The action of a flash request: a flash of the first argument onto the
/// second when there are two, else a usage error.
pub open spec fn flash_actions(args: Option<Vec<String>>) -> Seq<ActionSpec> {
    match args {
        Some(v) => if v@.len() >= 2 {
            seq![ActionSpec::Flash { image: v@[0]@, partition: v@[1]@ }]
        } else {
            seq![ActionSpec::FlashUsageError]
        },
        None => Seq::empty(),
    }
}

/// The action of a dump request: a dump of the first argument into the
/// second when there are two, else a usage error.
pub open spec fn dump_actions(args: Option<Vec<String>>) -> Seq<ActionSpec> {
    match args {
        Some(v) => if v@.len() >= 2 {
            seq![ActionSpec::Dump { partition: v@[0]@, image: v@[1]@ }]
        } else {
            seq![ActionSpec::DumpUsageError]
        },
        None => Seq::empty(),
    }
}

/// The actions the command line asks for: the help text alone when it is to
/// be shown; otherwise the search, then the flashes (`--flash`, then
/// `--write`), then the dump, each where it was given.
pub open spec fn planned_actions(cli: Cli) -> Seq<ActionSpec> {
    if cli.help || (cli.search is None && cli.flash is None && cli.write is None && cli.dump is None) {
        seq![ActionSpec::ShowHelp]
    } else {
        (match cli.search {
            Some(p) => seq![ActionSpec::Search { partition: p@, path_only: cli.path_only }],
            None => Seq::empty(),
        }) + flash_actions(cli.flash) + flash_actions(cli.write) + dump_actions(cli.dump)
    }
}

fn push_pair_action(out: &mut Vec<Action>, args: &Option<Vec<String>>, flash: bool)
    ensures
        final(out)@.map_values(|a: Action| a@) == old(out)@.map_values(|a: Action| a@) + if flash {
            flash_actions(*args)
        } else {
            dump_actions(*args)
        },
{
    let ghost before = out@.map_values(|a: Action| a@);
    match args {
        Some(v) => {
            if v.len() >= 2 {
                if flash {
                    out.push(Action::Flash { image: v[0].clone(), partition: v[1].clone() });
                } else {
                    out.push(Action::Dump { partition: v[0].clone(), image: v[1].clone() });
                }
            } else if flash {
                out.push(Action::FlashUsageError);
            } else {
                out.push(Action::DumpUsageError);
            }
        },
        None => {},
    }
    assert(out@.map_values(|a: Action| a@) =~= before + if flash {
        flash_actions(*args)
    } else {
        dump_actions(*args)
    });
}

impl Cli {
    /// The actions the command line asks for, in the order the tool runs
    /// them.
    pub fn actions(&self) -> (r: Vec<Action>)
        ensures
            r@.map_values(|a: Action| a@) == planned_actions(*self),
    {
        let mut out: Vec<Action> = Vec::new();
        if self.should_show_help() {
            out.push(Action::ShowHelp);
            assert(out@.map_values(|a: Action| a@) =~= planned_actions(*self));
            return out;
        }
        match &self.search {
            Some(p) => {
                out.push(Action::Search { partition: p.clone(), path_only: self.path_only });
            },
            None => {},
        }
        push_pair_action(&mut out, &self.flash, true);
        push_pair_action(&mut out, &self.write, true);
        push_pair_action(&mut out, &self.dump, false);
        assert(out@.map_values(|a: Action| a@) =~= planned_actions(*self));
        out
    }

    /// The help text is shown when it was asked for, or when no operation
    /// was given.
    pub fn should_show_help(&self) -> (r: bool)
        ensures
            r == (self.help || (self.search is None && self.flash is None && self.write is None
                && self.dump is None)),
    {
        self.help || (self.search.is_none() && self.flash.is_none() && self.write.is_none()
            && self.dump.is_none())
    }
}

/// No planned action of a request is the help text.
proof fn lemma_request_actions_not_help(args: Option<Vec<String>>)
    ensures
        forall|i: int|
            0 <= i < flash_actions(args).len() ==> !(#[trigger] flash_actions(args)[i] is ShowHelp),
        forall|i: int|
            0 <= i < dump_actions(args).len() ==> !(#[trigger] dump_actions(args)[i] is ShowHelp),
        args is Some ==> flash_actions(args).len() == 1 && dump_actions(args).len() == 1,
{
}

/// The help text is the one action exactly when it was asked for or when no
/// search, flash, write or dump was given; otherwise it is not shown at all.
pub proof fn lemma_help_exactly_when_asked_or_idle(cli: Cli)
    ensures
        (planned_actions(cli) == seq![ActionSpec::ShowHelp]) <==> (cli.help || (cli.search is None
            && cli.flash is None && cli.write is None && cli.dump is None)),
        !(cli.help || (cli.search is None && cli.flash is None && cli.write is None && cli.dump
            is None)) ==> forall|i: int|
            0 <= i < planned_actions(cli).len() ==> !(#[trigger] planned_actions(cli)[i] is ShowHelp),
{
    lemma_request_actions_not_help(cli.flash);
    lemma_request_actions_not_help(cli.write);
    lemma_request_actions_not_help(cli.dump);
    let idle = cli.help || (cli.search is None && cli.flash is None && cli.write is None && cli.dump
        is None);
    if !idle {
        let a: Seq<ActionSpec> = match cli.search {
            Some(p) => seq![ActionSpec::Search { partition: p@, path_only: cli.path_only }],
            None => Seq::empty(),
        };
        let all = a + flash_actions(cli.flash) + flash_actions(cli.write) + dump_actions(cli.dump);
        assert(planned_actions(cli) == all);
        assert(all.len() > 0);
        assert forall|i: int| 0 <= i < all.len() implies !(#[trigger] all[i] is ShowHelp) by {
            let n1 = a.len() as int;
            let n2 = n1 + flash_actions(cli.flash).len();
            let n3 = n2 + flash_actions(cli.write).len();
            if i < n1 {
                assert(all[i] == a[i]);
            } else if i < n2 {
                assert(all[i] == flash_actions(cli.flash)[i - n1]);
            } else if i < n3 {
                assert(all[i] == flash_actions(cli.write)[i - n2]);
            } else {
                assert(all[i] == dump_actions(cli.dump)[i - n3]);
            }
        }
        assert(!(all[0] is ShowHelp));
    }
}

/// Without help, a search comes first: a search for its partition, with its
/// path-only setting.
pub proof fn lemma_search_comes_first(cli: Cli)
    requires
        !cli.help,
        cli.search is Some,
    ensures
        planned_actions(cli).len() > 0,
        planned_actions(cli)[0] == (ActionSpec::Search {
            partition: cli.search->0@,
            path_only: cli.path_only,
        }),
{
}

/// Without help, a dump with two arguments is the last action: a dump of
/// the first argument, the partition, into the second, the image.
pub proof fn lemma_dump_comes_last(cli: Cli)
    requires
        !cli.help,
        cli.dump is Some,
        cli.dump->0@.len() >= 2,
    ensures
        planned_actions(cli).len() > 0,
        planned_actions(cli).last() == (ActionSpec::Dump {
            partition: cli.dump->0@[0]@,
            image: cli.dump->0@[1]@,
        }),
{
}

} // verus!
