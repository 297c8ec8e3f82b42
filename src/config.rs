use vstd::prelude::*;

use crate::search::{search, search_case_insensitive, search_folded_result, search_result};
use crate::text::views_of;

verus! {

/// What one run of the program searches for, where, and how.
pub struct Config {
    pub query: String,
    pub filename: String,
    pub case_insensitive: bool,
}

/// The lines that `config` selects from `contents`: matched case-insensitively
/// when `config.case_insensitive` holds, exactly otherwise.
pub open spec fn selected_lines(config: &Config, contents: Seq<char>) -> Seq<Seq<char>> {
    if config.case_insensitive {
        search_folded_result(config.query@, contents)
    } else {
        search_result(config.query@, contents)
    }
}

impl Config {
    /// Builds a configuration from the command line `args` (the program's name
    /// first, then the query, then the file name; further arguments are ignored)
    /// and from whether case-insensitive matching was asked for.
    pub fn new(args: &[String], case_insensitive: bool) -> (r: Result<Config, &'static str>)
        ensures
            args@.len() < 2 ==> r == Err::<Config, &'static str>("No query supplied"),
            args@.len() == 2 ==> r == Err::<Config, &'static str>("No filename supplied"),
            args@.len() >= 3 ==> (r matches Ok(c) && c.query@ == args@[1]@ && c.filename@
                == args@[2]@ && c.case_insensitive == case_insensitive),
    {
        if args.len() < 2 {
            return Err("No query supplied");
        }
        let query = args[1].clone();
        if args.len() < 3 {
            return Err("No filename supplied");
        }
        let filename = args[2].clone();
        Ok(Config { query, filename, case_insensitive })
    }
}

/// The lines of `contents` that `config` asks for, in their order in `contents`.
pub fn run_search<'a>(config: &Config, contents: &'a str) -> (r: Vec<&'a str>)
    ensures
        views_of(r@) == selected_lines(config, contents@),
{
    if config.case_insensitive {
        search_case_insensitive(config.query.as_str(), contents)
    } else {
        search(config.query.as_str(), contents)
    }
}

} // verus!
