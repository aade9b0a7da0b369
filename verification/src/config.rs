//! Configuration parsed from command-line arguments.
//!
//! The caller reads the process environment and standard input; the
//! parsing of the argument list itself is verified against a recursive
//! specification of the scan.

use vstd::prelude::*;

use crate::lines::str_eq;

verus! {

/// What one invocation searches for, where, and how.
#[derive(Debug)]
pub struct Config {
    pub pattern: String,
    pub filenames: Vec<String>,
    pub case_sensitive: bool,
    pub regex: bool,
    pub piped: bool,
    pub piped_text: String,
    pub count: bool,
}

/// The outcome of scanning an argument list.
pub enum ParseOutcome {
    /// Too few arguments to name a pattern and an input.
    TooFewArgs,
    /// `-e` stood last, with no pattern after it.
    MissingRegexPattern,
    /// `-e` and its pattern were given, but no filename followed.
    MissingFilenames,
    /// A complete configuration.
    Parsed {
        pattern: Seq<char>,
        filenames: Seq<Seq<char>>,
        case_sensitive: bool,
        regex: bool,
        count: bool,
    },
}

/// One step of the file-mode scan: from position `i` on, with the
/// flags gathered so far, what the scan ends with.  The first argument
/// that is no known flag is the pattern and everything after it the
/// filenames; `-e` takes the next argument as a regex pattern and the
/// rest as filenames.
pub open spec fn scan_cli(
    args: Seq<Seq<char>>,
    i: int,
    cs: bool,
    rx: bool,
    ct: bool,
    pat: Seq<char>,
) -> ParseOutcome
    decreases args.len() - i,
{
    if i < 0 || i >= args.len() {
        ParseOutcome::Parsed { pattern: pat, filenames: Seq::empty(), case_sensitive: cs, regex: rx, count: ct }
    } else if args[i] == "--no-ignore-case"@ {
        scan_cli(args, i + 1, true, rx, ct, pat)
    } else if args[i] == "-e"@ {
        if args.len() == i + 1 {
            ParseOutcome::MissingRegexPattern
        } else if args.len() <= i + 2 {
            ParseOutcome::MissingFilenames
        } else {
            ParseOutcome::Parsed {
                pattern: args[i + 1],
                filenames: args.subrange(i + 2, args.len() as int),
                case_sensitive: cs,
                regex: true,
                count: ct,
            }
        }
    } else if args[i] == "--ignore-case"@ || args[i] == "-i"@ {
        scan_cli(args, i + 1, false, rx, ct, pat)
    } else if args[i] == "-c"@ || args[i] == "--count"@ {
        scan_cli(args, i + 1, cs, rx, true, pat)
    } else {
        ParseOutcome::Parsed {
            pattern: args[i],
            filenames: args.subrange(i + 1, args.len() as int),
            case_sensitive: cs,
            regex: rx,
            count: ct,
        }
    }
}

/// The file-mode scan over a whole argument list: the second-to-last
/// argument is the default pattern, and the scan starts after the
/// program name.
pub open spec fn parse_cli(args: Seq<Seq<char>>, env_case_insensitive: bool) -> ParseOutcome {
    if args.len() < 3 {
        ParseOutcome::TooFewArgs
    } else {
        scan_cli(args, 1, !env_case_insensitive, false, false, args[args.len() - 2])
    }
}

/// One step of the pipe-mode scan: every argument is looked at, no
/// argument ends the scan, and nothing is taken for a filename.
pub open spec fn scan_pipe(
    args: Seq<Seq<char>>,
    i: int,
    cs: bool,
    rx: bool,
    ct: bool,
    pat: Seq<char>,
) -> ParseOutcome
    decreases args.len() - i,
{
    if i < 0 || i >= args.len() {
        ParseOutcome::Parsed { pattern: pat, filenames: Seq::empty(), case_sensitive: cs, regex: rx, count: ct }
    } else if args[i] == "--no-ignore-case"@ {
        scan_pipe(args, i + 1, true, rx, ct, pat)
    } else if args[i] == "-e"@ {
        if args.len() == i + 1 {
            ParseOutcome::MissingRegexPattern
        } else {
            scan_pipe(args, i + 1, cs, true, ct, args[i + 1])
        }
    } else if args[i] == "--ignore-case"@ || args[i] == "-i"@ {
        scan_pipe(args, i + 1, false, rx, ct, pat)
    } else if args[i] == "-c"@ || args[i] == "--count"@ {
        scan_pipe(args, i + 1, cs, rx, true, pat)
    } else {
        scan_pipe(args, i + 1, cs, rx, ct, pat)
    }
}

/// The pipe-mode scan over a whole argument list: the last argument is
/// the default pattern, and every argument is scanned.
pub open spec fn parse_pipe(args: Seq<Seq<char>>, env_case_insensitive: bool) -> ParseOutcome {
    if args.len() < 2 {
        ParseOutcome::TooFewArgs
    } else {
        scan_pipe(args, 0, !env_case_insensitive, false, false, args[args.len() - 1])
    }
}

/// Clones the arguments from position `from` on.
fn clone_tail(args: &Vec<String>, from: usize) -> (r: Vec<String>)
    requires
        from <= args@.len(),
    ensures
        r.deep_view() == args.deep_view().subrange(from as int, args.deep_view().len() as int),
{
    let mut r: Vec<String> = Vec::new();
    let mut j: usize = from;
    proof {
        assert(r.deep_view() =~= args.deep_view().subrange(from as int, from as int));
    }
    while j < args.len()
        invariant
            from <= j <= args@.len(),
            args.deep_view().len() == args@.len(),
            r.deep_view() == args.deep_view().subrange(from as int, j as int),
        decreases args@.len() - j,
    {
        let ghost prev = r.deep_view();
        r.push(args[j].clone());
        proof {
            assert(r.deep_view() =~= prev.push(args.deep_view()[j as int]));
            assert(prev.push(args.deep_view()[j as int]) =~= args.deep_view().subrange(
                from as int,
                j + 1 as int,
            ));
        }
        j = j + 1;
    }
    r
}

impl Config {
    /// Parses file-mode arguments.  `env_case_insensitive` carries
    /// whether the environment asked for case-insensitive search; the
    /// flags can override it either way.
    pub fn new(args: &Vec<String>, env_case_insensitive: bool) -> (r: Result<Config, &'static str>)
        ensures
            parse_cli(args.deep_view(), env_case_insensitive) matches ParseOutcome::TooFewArgs
                ==> (r matches Err(m) && m@ == "not enough arguments"@),
            parse_cli(args.deep_view(), env_case_insensitive)
                matches ParseOutcome::MissingRegexPattern ==> (r matches Err(m) && m@
                == "Please provide the regex pattern after the -e flag."@),
            parse_cli(args.deep_view(), env_case_insensitive)
                matches ParseOutcome::MissingFilenames ==> (r matches Err(m) && m@
                == "Couldn't parse file name(s). Should be present after flags and pattern."@),
            parse_cli(args.deep_view(), env_case_insensitive) matches ParseOutcome::Parsed {
                pattern,
                filenames,
                case_sensitive,
                regex,
                count,
            } ==> (r matches Ok(c) && c.pattern@ == pattern && c.filenames.deep_view() == filenames
                && c.case_sensitive == case_sensitive && c.regex == regex && c.count == count
                && !c.piped && c.piped_text@.len() == 0),
    {
        let n = args.len();
        if n < 3 {
            return Err("not enough arguments");
        }
        let mut pattern: String = args[n - 2].clone();
        let mut cs: bool = !env_case_insensitive;
        let mut rx: bool = false;
        let mut ct: bool = false;
        let mut i: usize = 1;
        while i < n
            invariant
                1 <= i <= n,
                n == args@.len(),
                args.deep_view().len() == n,
                n >= 3,
                parse_cli(args.deep_view(), env_case_insensitive) == scan_cli(
                    args.deep_view(),
                    i as int,
                    cs,
                    rx,
                    ct,
                    pattern@,
                ),
            decreases n - i,
        {
            proof {
                assert(args.deep_view()[i as int] == args@[i as int]@);
            }
            let arg = &args[i];
            if str_eq(arg.as_str(), "--no-ignore-case") {
                cs = true;
            } else if str_eq(arg.as_str(), "-e") {
                rx = true;
                if n == i + 1 {
                    return Err("Please provide the regex pattern after the -e flag.");
                }
                pattern = args[i + 1].clone();
                if n <= i + 2 {
                    return Err(
                        "Couldn't parse file name(s). Should be present after flags and pattern.",
                    );
                }
                let filenames = clone_tail(args, i + 2);
                return Ok(
                    Config {
                        pattern,
                        filenames,
                        case_sensitive: cs,
                        regex: rx,
                        piped: false,
                        piped_text: String::new(),
                        count: ct,
                    },
                );
            } else if str_eq(arg.as_str(), "--ignore-case") || str_eq(arg.as_str(), "-i") {
                cs = false;
            } else if str_eq(arg.as_str(), "-c") || str_eq(arg.as_str(), "--count") {
                ct = true;
            } else {
                pattern = args[i].clone();
                let filenames = clone_tail(args, i + 1);
                return Ok(
                    Config {
                        pattern,
                        filenames,
                        case_sensitive: cs,
                        regex: rx,
                        piped: false,
                        piped_text: String::new(),
                        count: ct,
                    },
                );
            }
            i = i + 1;
        }
        let filenames: Vec<String> = Vec::new();
        proof {
            assert(filenames.deep_view() =~= Seq::<Seq<char>>::empty());
        }
        Ok(
            Config {
                pattern,
                filenames,
                case_sensitive: cs,
                regex: rx,
                piped: false,
                piped_text: String::new(),
                count: ct,
            },
        )
    }

    /// Parses pipe-mode arguments; `input` is the piped corpus.
    pub fn new_from_pipe(args: &Vec<String>, input: &str, env_case_insensitive: bool) -> (r: Result<
        Config,
        &'static str,
    >)
        ensures
            parse_pipe(args.deep_view(), env_case_insensitive) matches ParseOutcome::TooFewArgs
                ==> (r matches Err(m) && m@ == "not enough arguments"@),
            parse_pipe(args.deep_view(), env_case_insensitive)
                matches ParseOutcome::MissingRegexPattern ==> (r matches Err(m) && m@
                == "a regex pattern should directly follow the -e flag"@),
            parse_pipe(args.deep_view(), env_case_insensitive) matches ParseOutcome::Parsed {
                pattern,
                filenames,
                case_sensitive,
                regex,
                count,
            } ==> (r matches Ok(c) && c.pattern@ == pattern && c.filenames.deep_view() == filenames
                && c.case_sensitive == case_sensitive && c.regex == regex && c.count == count
                && c.piped && c.piped_text@ == input@),
    {
        let n = args.len();
        if n < 2 {
            return Err("not enough arguments");
        }
        let mut pattern: String = args[n - 1].clone();
        let mut cs: bool = !env_case_insensitive;
        let mut rx: bool = false;
        let mut ct: bool = false;
        let mut i: usize = 0;
        while i < n
            invariant
                0 <= i <= n,
                n == args@.len(),
                args.deep_view().len() == n,
                n >= 2,
                parse_pipe(args.deep_view(), env_case_insensitive) == scan_pipe(
                    args.deep_view(),
                    i as int,
                    cs,
                    rx,
                    ct,
                    pattern@,
                ),
            decreases n - i,
        {
            proof {
                assert(args.deep_view()[i as int] == args@[i as int]@);
            }
            let arg = &args[i];
            if str_eq(arg.as_str(), "--no-ignore-case") {
                cs = true;
            } else if str_eq(arg.as_str(), "-e") {
                rx = true;
                if n == i + 1 {
                    return Err("a regex pattern should directly follow the -e flag");
                }
                pattern = args[i + 1].clone();
                proof {
                    assert(args.deep_view()[i + 1 as int] == args@[i + 1 as int]@);
                }
            } else if str_eq(arg.as_str(), "--ignore-case") || str_eq(arg.as_str(), "-i") {
                cs = false;
            } else if str_eq(arg.as_str(), "-c") || str_eq(arg.as_str(), "--count") {
                ct = true;
            }
            i = i + 1;
        }
        let filenames: Vec<String> = Vec::new();
        proof {
            assert(filenames.deep_view() =~= Seq::<Seq<char>>::empty());
        }
        Ok(
            Config {
                pattern,
                filenames,
                case_sensitive: cs,
                regex: rx,
                piped: true,
                piped_text: input.to_owned(),
                count: ct,
            },
        )
    }
}

} // verus!
