//! The command line of the counter.

use vstd::prelude::*;
use crate::config::Config;
use crate::langs::lang_def::texts;
use crate::parser::args_parser::{configured, is_standard, ArgParser};
use crate::parser::matches::MatchesView;

verus! {

/// The command line of the counter: the reader of its arguments.
pub struct Cli {
    arg_parser: ArgParser,
}

impl Cli {
    /// The reader of the arguments.
    pub closed spec fn parser(&self) -> ArgParser {
        self.arg_parser
    }

    /// The command line with the standard arguments.
    pub fn new() -> (cli: Self)
        ensures
            is_standard(&cli.parser()),
    {
        Cli { arg_parser: ArgParser::default() }
    }

    /// The reader of the arguments.
    pub fn arg_parser(&self) -> (r: &ArgParser)
        ensures
            *r == self.parser(),
    {
        &self.arg_parser
    }

    /// The settings that the words `args` of a command line ask for, or the
    /// message of the failure to read them.
    pub fn configure(&mut self, args: Vec<&str>) -> (r: Result<Config, String>)
        requires
            old(self).parser().wf(),
            old(self).parser().ready(),
        ensures
            final(self).parser() == old(self).parser(),
            match r {
                Ok(config) => old(self).parser().run(
                    texts(args@),
                    MatchesView::empty(),
                    None,
                ) matches Ok(m) && config@ == configured(m),
                Err(msg) => old(self).parser().run(texts(args@), MatchesView::empty(), None)
                    matches Err(f) && msg@ == f.message(),
            },
    {
        let matches = match self.arg_parser.build_matches(args) {
            Ok(matches) => matches,
            Err(e) => {
                return Err(e.to_string());
            },
        };
        match self.arg_parser.parse_matches(&matches) {
            Ok(config) => Ok(config),
            Err(e) => Err(e.to_string()),
        }
    }
}

} // verus!
