//! Hints shown with an error to the user.
use vstd::prelude::*;

use crate::util::text::texts;

verus! {

/// The error hint configuration.
#[derive(Debug, Clone)]
pub struct ErrorHints {
    /// A list of info messages to print along with the error.
    pub info: Vec<String>,
    /// Show about the config flag.
    pub config: bool,
    /// Show about the config generate command.
    pub config_generate: bool,
    /// Show about the config test command.
    pub config_test: bool,
    /// Show about the verbose flag.
    pub verbose: bool,
    /// Show about the help flag.
    pub help: bool,
}

/// A line if the condition holds, else nothing.
pub open spec fn line_if(cond: bool, line: Seq<char>) -> Seq<Seq<char>> {
    if cond {
        seq![line]
    } else {
        seq![]
    }
}

impl ErrorHints {
    /// Whether any hint is shown.
    pub open spec fn spec_any(&self) -> bool {
        self.config || self.config_generate || self.config_test || self.verbose || self.help
    }

    /// The lines shown for these hints, for the binary `bin`: the info messages, then, if any
    /// hint is shown, an empty line and each hint, and a last empty line if `end_newline`.
    pub open spec fn spec_lines(&self, bin: Seq<char>, end_newline: bool) -> Seq<Seq<char>> {
        let info = texts(self.info@).map_values(|m: Seq<char>| "info: "@ + m);
        if !self.spec_any() {
            info
        } else {
            info + seq![Seq::<char>::empty()] + line_if(
                self.config_generate,
                "Use '"@ + bin + " config generate' to generate a new config file"@,
            ) + line_if(self.config, "Use '--config FILE' to select a config file"@) + line_if(
                self.config_test,
                "Use '"@ + bin + " config test -c FILE' to test a config file"@,
            ) + line_if(self.verbose, "For a detailed log add '--verbose'"@) + line_if(
                self.help,
                "For more information add '--help'"@,
            ) + line_if(end_newline, Seq::<char>::empty())
        }
    }

    /// Check whether any hint should be printed.
    pub fn any(&self) -> (res: bool)
        ensures
            res == self.spec_any(),
    {
        self.config || self.config_generate || self.config_test || self.verbose || self.help
    }

    /// The lines to print for the error hints, for the binary named `bin`.
    pub fn lines(&self, bin: &str, end_newline: bool) -> (res: Vec<String>)
        ensures
            texts(res@) == self.spec_lines(bin@, end_newline),
    {
        let ghost info = texts(self.info@).map_values(|m: Seq<char>| "info: "@ + m);
        let mut out: Vec<String> = Vec::new();
        let mut i: usize = 0;
        while i < self.info.len()
            invariant
                i <= self.info@.len(),
                info == texts(self.info@).map_values(|m: Seq<char>| "info: "@ + m),
                texts(out@) == info.subrange(0, i as int),
            decreases self.info.len() - i,
        {
            let mut line = String::from_str("info: ");
            line.append(self.info[i].as_str());
            let ghost before = out@;
            out.push(line);
            proof {
                assert(texts(out@) =~= texts(before).push(line@));
                assert(info.subrange(0, i + 1) =~= info.subrange(0, i as int).push(info[i as int]));
            }
            i = i + 1;
        }
        proof {
            assert(info.subrange(0, i as int) =~= info);
        }
        if !self.any() {
            return out;
        }
        let ghost mut expect = info + seq![Seq::<char>::empty()];
        push_line(&mut out, String::new());
        if self.config_generate {
            let mut line = String::from_str("Use '");
            line.append(bin);
            line.append(" config generate' to generate a new config file");
            push_line(&mut out, line);
        }
        proof {
            expect = expect + line_if(
                self.config_generate,
                "Use '"@ + bin@ + " config generate' to generate a new config file"@,
            );
        }
        if self.config {
            push_line(&mut out, String::from_str("Use '--config FILE' to select a config file"));
        }
        proof {
            expect = expect + line_if(self.config, "Use '--config FILE' to select a config file"@);
        }
        if self.config_test {
            let mut line = String::from_str("Use '");
            line.append(bin);
            line.append(" config test -c FILE' to test a config file");
            push_line(&mut out, line);
        }
        proof {
            expect = expect + line_if(
                self.config_test,
                "Use '"@ + bin@ + " config test -c FILE' to test a config file"@,
            );
        }
        if self.verbose {
            push_line(&mut out, String::from_str("For a detailed log add '--verbose'"));
        }
        proof {
            expect = expect + line_if(self.verbose, "For a detailed log add '--verbose'"@);
        }
        if self.help {
            push_line(&mut out, String::from_str("For more information add '--help'"));
        }
        proof {
            expect = expect + line_if(self.help, "For more information add '--help'"@);
        }
        if end_newline {
            push_line(&mut out, String::new());
        }
        proof {
            expect = expect + line_if(end_newline, Seq::<char>::empty());
            assert(texts(out@) =~= expect);
        }
        out
    }
}

/// Append a line.
fn push_line(out: &mut Vec<String>, line: String)
    ensures
        texts(final(out)@) == texts(old(out)@).push(line@),
{
    out.push(line);
    proof {
        assert(texts(final(out)@) =~= texts(old(out)@).push(line@));
    }
}

impl Default for ErrorHints {
    fn default() -> (res: Self)
        ensures
            res.info@.len() == 0,
            !res.config,
            !res.config_generate,
            !res.config_test,
            res.verbose,
            res.help,
    {
        ErrorHints {
            info: Vec::new(),
            config: false,
            config_generate: false,
            config_test: false,
            verbose: true,
            help: true,
        }
    }
}

/// Builder for `ErrorHints`; every field not set takes its value from `ErrorHints::default()`.
#[derive(Debug, Clone)]
pub struct ErrorHintsBuilder {
    /// Info messages, if set.
    pub info: Option<Vec<String>>,
    /// Config flag hint, if set.
    pub config: Option<bool>,
    /// Config generate command hint, if set.
    pub config_generate: Option<bool>,
    /// Config test command hint, if set.
    pub config_test: Option<bool>,
    /// Verbose flag hint, if set.
    pub verbose: Option<bool>,
    /// Help flag hint, if set.
    pub help: Option<bool>,
}

impl Default for ErrorHintsBuilder {
    fn default() -> (res: Self)
        ensures
            res.info is None,
            res.config is None,
            res.config_generate is None,
            res.config_test is None,
            res.verbose is None,
            res.help is None,
    {
        ErrorHintsBuilder {
            info: None,
            config: None,
            config_generate: None,
            config_test: None,
            verbose: None,
            help: None,
        }
    }
}

impl ErrorHintsBuilder {
    /// Add a single info entry.
    pub fn add_info(self, info: String) -> (res: Self)
        ensures
            res.info matches Some(list) && texts(list@) == match self.info {
                Some(old) => texts(old@),
                None => Seq::<Seq<char>>::empty(),
            }.push(info@),
            res.config == self.config,
            res.config_generate == self.config_generate,
            res.config_test == self.config_test,
            res.verbose == self.verbose,
            res.help == self.help,
    {
        let mut builder = self;
        let mut list = match builder.info {
            Some(list) => list,
            None => Vec::new(),
        };
        push_line(&mut list, info);
        builder.info = Some(list);
        builder
    }

    /// Set the info messages.
    pub fn info(self, value: Vec<String>) -> (res: Self)
        ensures
            res.info == Some(value),
            res.config == self.config,
            res.config_generate == self.config_generate,
            res.config_test == self.config_test,
            res.verbose == self.verbose,
            res.help == self.help,
    {
        ErrorHintsBuilder { info: Some(value), ..self }
    }

    /// Set whether to show about the config flag.
    pub fn config(self, value: bool) -> (res: Self)
        ensures
            res.config == Some(value),
            res.info == self.info,
            res.config_generate == self.config_generate,
            res.config_test == self.config_test,
            res.verbose == self.verbose,
            res.help == self.help,
    {
        ErrorHintsBuilder { config: Some(value), ..self }
    }

    /// Set whether to show about the config generate command.
    pub fn config_generate(self, value: bool) -> (res: Self)
        ensures
            res.config_generate == Some(value),
            res.info == self.info,
            res.config == self.config,
            res.config_test == self.config_test,
            res.verbose == self.verbose,
            res.help == self.help,
    {
        ErrorHintsBuilder { config_generate: Some(value), ..self }
    }

    /// Set whether to show about the config test command.
    pub fn config_test(self, value: bool) -> (res: Self)
        ensures
            res.config_test == Some(value),
            res.info == self.info,
            res.config == self.config,
            res.config_generate == self.config_generate,
            res.verbose == self.verbose,
            res.help == self.help,
    {
        ErrorHintsBuilder { config_test: Some(value), ..self }
    }

    /// Set whether to show about the verbose flag.
    pub fn verbose(self, value: bool) -> (res: Self)
        ensures
            res.verbose == Some(value),
            res.info == self.info,
            res.config == self.config,
            res.config_generate == self.config_generate,
            res.config_test == self.config_test,
            res.help == self.help,
    {
        ErrorHintsBuilder { verbose: Some(value), ..self }
    }

    /// Set whether to show about the help flag.
    pub fn help(self, value: bool) -> (res: Self)
        ensures
            res.help == Some(value),
            res.info == self.info,
            res.config == self.config,
            res.config_generate == self.config_generate,
            res.config_test == self.config_test,
            res.verbose == self.verbose,
    {
        ErrorHintsBuilder { help: Some(value), ..self }
    }

    /// Build the hints: each field set takes its value, the others the default's.
    pub fn build(self) -> (res: ErrorHints)
        ensures
            self.info matches Some(v) ==> res.info == v,
            self.info is None ==> res.info@.len() == 0,
            res.config == match self.config {
                Some(v) => v,
                None => false,
            },
            res.config_generate == match self.config_generate {
                Some(v) => v,
                None => false,
            },
            res.config_test == match self.config_test {
                Some(v) => v,
                None => false,
            },
            res.verbose == match self.verbose {
                Some(v) => v,
                None => true,
            },
            res.help == match self.help {
                Some(v) => v,
                None => true,
            },
    {
        let default = ErrorHints::default();
        ErrorHints {
            info: match self.info {
                Some(v) => v,
                None => default.info,
            },
            config: match self.config {
                Some(v) => v,
                None => default.config,
            },
            config_generate: match self.config_generate {
                Some(v) => v,
                None => default.config_generate,
            },
            config_test: match self.config_test {
                Some(v) => v,
                None => default.config_test,
            },
            verbose: match self.verbose {
                Some(v) => v,
                None => default.verbose,
            },
            help: match self.help {
                Some(v) => v,
                None => default.help,
            },
        }
    }
}

} // verus!
