//! What the command line asks for.
use vstd::prelude::*;

use crate::notice::joined2;
use crate::text::{after_prefix, optional_view, same, starts, views};

verus! {

/// Options the app was started with.
#[derive(Debug, PartialEq, Eq)]
pub struct Options {
    /// A provider list to use instead of the hosted registry.
    pub providers_file: Option<String>,
    /// Whether to open the inspection endpoint.
    pub inspect: bool,
}

/// What the command line asked for.
#[derive(Debug, PartialEq, Eq)]
pub enum Startup {
    Run(Options),
    /// A request that was understood and answered, not a failure.
    ShowUsage,
    Invalid(String),
}

/// What the command line asked for, by its texts.
pub enum StartupView {
    Run { providers_file: Option<Seq<char>>, inspect: bool },
    ShowUsage,
    Invalid(Seq<char>),
}

impl View for Startup {
    type V = StartupView;

    open spec fn view(&self) -> StartupView {
        match *self {
            Startup::Run(options) => StartupView::Run {
                providers_file: optional_view(options.providers_file),
                inspect: options.inspect,
            },
            Startup::ShowUsage => StartupView::ShowUsage,
            Startup::Invalid(message) => StartupView::Invalid(message@),
        }
    }
}

pub const USAGE: &'static str = "auru-pm-ui — Auru project management

    --providers-file <path>   Load the provider list from a JSON file instead
                              of the hosted registry. See
                              providers.example.json for the format.
    --inspect                 Enable the authenticated gpui-mcp inspection
                              endpoint on an ephemeral loopback port.
    -h, --help                Show this message.";

/// What arguments ask for, after others that set these options: they are read
/// from the first on, until one asks for help or is not understood.
pub open spec fn asks(args: Seq<Seq<char>>, providers_file: Option<Seq<char>>, inspect: bool) -> StartupView
    decreases args.len(),
{
    if args.len() == 0 {
        StartupView::Run { providers_file, inspect }
    } else if args[0] == "--help"@ || args[0] == "-h"@ {
        StartupView::ShowUsage
    } else if args[0] == "--inspect"@ {
        asks(args.skip(1), providers_file, true)
    } else if args[0] == "--providers-file"@ {
        if args.len() == 1 {
            StartupView::Invalid(
                "--providers-file needs a path, eg --providers-file providers.json"@,
            )
        } else {
            asks(args.skip(2), Some(args[1]), inspect)
        }
    } else if starts(args[0], "--providers-file="@) {
        asks(args.skip(1), Some(args[0].skip("--providers-file="@.len() as int)), inspect)
    } else {
        StartupView::Invalid("unknown option "@ + args[0])
    }
}

impl Options {
    /// Read the command line.
    pub fn from_args(args: &Vec<String>) -> (r: Startup)
        ensures
            r@ == asks(views(args@), None, false),
    {
        let mut options = Options { providers_file: None, inspect: false };
        let ghost all = views(args@);
        let mut i: usize = 0;
        assert(all.skip(0) =~= all);
        assert(all.len() == args@.len());
        while i < args.len()
            invariant
                i <= args@.len(),
                all == views(args@),
                all.len() == args@.len(),
                asks(all, None, false) == asks(
                    all.skip(i as int),
                    optional_view(options.providers_file),
                    options.inspect,
                ),
            decreases args@.len() - i,
        {
            let arg = args[i].as_str();
            let ghost rest = all.skip(i as int);
            assert(rest[0] == all[i as int]);
            assert(rest.skip(1) =~= all.skip(i + 1));
            if same(arg, "--help") || same(arg, "-h") {
                return Startup::ShowUsage;
            }
            if same(arg, "--inspect") {
                options.inspect = true;
            } else if same(arg, "--providers-file") {
                if i + 1 >= args.len() {
                    return Startup::Invalid(
                        "--providers-file needs a path, eg --providers-file providers.json".to_owned(),
                    );
                }
                i = i + 1;
                options.providers_file = Some(args[i].clone());
                assert(rest[1] == all[i as int]);
                assert(rest.skip(2) =~= all.skip(i + 1));
            } else {
                match after_prefix(arg, "--providers-file=") {
                    Some(value) => {
                        options.providers_file = Some(value);
                    },
                    None => {
                        return Startup::Invalid(joined2("unknown option ", arg));
                    },
                }
            }
            i = i + 1;
        }
        assert(all.skip(i as int).len() == 0);
        Startup::Run(options)
    }
}

} // verus!
