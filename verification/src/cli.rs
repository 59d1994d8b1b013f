use vstd::prelude::*;

verus! {

/// The daemon's usage line.
pub const USAGE: &'static str = "Usage: rsvc [-c|--config=CONFIG]";

/// One command-line argument, as the argument parser splits them.
#[derive(Debug, Clone, PartialEq, Eq)]
pub enum CliArg {
    /// A short option such as `-c`.
    Short(char),
    /// A long option such as `--config`, without the dashes.
    Long(String),
    /// A free-standing value.
    Value(String),
}

/// What the daemon does with one command-line argument.
#[derive(Debug, Clone, Copy, PartialEq, Eq, Structural)]
pub enum ArgAction {
    /// Take the option's value as the configuration file.
    ReadConfig,
    /// Print the usage line and exit successfully.
    ShowHelp,
    /// Set the verbosity.
    SetVerbosity(u8),
    /// Refuse the argument.
    Unexpected,
}

/// How each argument is understood: `-c`/`--config` names the
/// configuration, `--help` asks for help, `-q`/`--quiet` lowers the
/// verbosity to warnings, `-v`/`--verbose` raises it to debugging, and
/// anything else is refused.
pub open spec fn arg_action_spec(arg: CliArg) -> ArgAction {
    match arg {
        CliArg::Short(c) => if c == 'c' {
            ArgAction::ReadConfig
        } else if c == 'q' {
            ArgAction::SetVerbosity(1)
        } else if c == 'v' {
            ArgAction::SetVerbosity(3)
        } else {
            ArgAction::Unexpected
        },
        CliArg::Long(name) => if name@ == "config"@ {
            ArgAction::ReadConfig
        } else if name@ == "help"@ {
            ArgAction::ShowHelp
        } else if name@ == "quiet"@ {
            ArgAction::SetVerbosity(1)
        } else if name@ == "verbose"@ {
            ArgAction::SetVerbosity(3)
        } else {
            ArgAction::Unexpected
        },
        CliArg::Value(_) => ArgAction::Unexpected,
    }
}

/// What the daemon does with one command-line argument.
pub fn classify_arg(arg: &CliArg) -> (a: ArgAction)
    ensures
        a == arg_action_spec(*arg),
{
    match arg {
        CliArg::Short(c) => {
            if *c == 'c' {
                ArgAction::ReadConfig
            } else if *c == 'q' {
                ArgAction::SetVerbosity(1)
            } else if *c == 'v' {
                ArgAction::SetVerbosity(3)
            } else {
                ArgAction::Unexpected
            }
        },
        CliArg::Long(name) => {
            if *name == "config".to_owned() {
                ArgAction::ReadConfig
            } else if *name == "help".to_owned() {
                ArgAction::ShowHelp
            } else if *name == "quiet".to_owned() {
                ArgAction::SetVerbosity(1)
            } else if *name == "verbose".to_owned() {
                ArgAction::SetVerbosity(3)
            } else {
                ArgAction::Unexpected
            }
        },
        CliArg::Value(_) => ArgAction::Unexpected,
    }
}

/// The daemon's command-line arguments.
#[derive(Debug, Clone)]
pub struct Args {
    pub config: Option<String>,
    /// 0 errors, 1 warnings, 2 information, 3 debugging.
    pub verbosity: u8,
}

/// The arguments before any is read: no configuration file, and
/// information messages.
pub open spec fn initial_args() -> Args {
    Args { config: None, verbosity: 2 }
}

/// What one classified argument does to the arguments read so far: a
/// configuration option sets the configuration to its value, a verbosity
/// option sets the verbosity, and nothing else changes them.
pub open spec fn apply_spec(args: Args, action: ArgAction, value: Option<String>) -> Args {
    match action {
        ArgAction::ReadConfig => Args { config: value, verbosity: args.verbosity },
        ArgAction::SetVerbosity(v) => Args { config: args.config, verbosity: v },
        _ => args,
    }
}

/// The arguments that a sequence of classified arguments, each with the
/// value it took, adds up to, starting from `args`.
pub open spec fn apply_seq(args: Args, items: Seq<(ArgAction, Option<String>)>) -> Args
    decreases items.len(),
{
    if items.len() == 0 {
        args
    } else {
        apply_spec(apply_seq(args, items.drop_last()), items.last().0, items.last().1)
    }
}

impl Args {
    /// The arguments before any is read: no configuration file, and
    /// information messages.
    pub fn new() -> (a: Args)
        ensures
            a == initial_args(),
    {
        Args { config: None, verbosity: 2 }
    }

    /// The arguments once one more classified argument, with the value it
    /// took, has been read.
    pub fn apply(self, action: ArgAction, value: Option<String>) -> (a: Args)
        ensures
            a == apply_spec(self, action, value),
    {
        match action {
            ArgAction::ReadConfig => Args { config: value, verbosity: self.verbosity },
            ArgAction::SetVerbosity(v) => Args { config: self.config, verbosity: v },
            _ => self,
        }
    }
}

/// What reading the daemon's arguments came to.
#[derive(Debug, Clone)]
pub enum ParseOutcome {
    /// The arguments, all read.
    Parsed(Args),
    /// Help was asked for: print the usage line and exit successfully.
    Help,
    /// The arguments are wrong; the message says why.
    Failed(String),
}

/// Only options that set something are taken into the arguments, and a
/// configuration option always comes with its value.
pub open spec fn settings_only(items: Seq<(ArgAction, Option<String>)>) -> bool {
    forall|i: int|
        0 <= i < items.len() ==> match #[trigger] items[i].0 {
            ArgAction::ReadConfig => items[i].1 is Some,
            ArgAction::SetVerbosity(v) => v == 1 || v == 3,
            _ => false,
        }
}

/// Adding up a sequence of arguments in two parts, the second from where
/// the first left off, gives what adding it up at once gives.
pub proof fn lemma_apply_seq_split(
    args: Args,
    s: Seq<(ArgAction, Option<String>)>,
    t: Seq<(ArgAction, Option<String>)>,
)
    ensures
        apply_seq(args, s + t) == apply_seq(apply_seq(args, s), t),
    decreases t.len(),
{
    if t.len() == 0 {
        assert(s + t =~= s);
    } else {
        assert((s + t).drop_last() =~= s + t.drop_last());
        lemma_apply_seq_split(args, s, t.drop_last());
    }
}

proof fn lemma_untouched_verbosity(args: Args, t: Seq<(ArgAction, Option<String>)>)
    requires
        forall|i: int| 0 <= i < t.len() ==> !(#[trigger] t[i].0 is SetVerbosity),
    ensures
        apply_seq(args, t).verbosity == args.verbosity,
    decreases t.len(),
{
    if t.len() > 0 {
        lemma_untouched_verbosity(args, t.drop_last());
        assert(!(t[t.len() - 1].0 is SetVerbosity));
    }
}

proof fn lemma_untouched_config(args: Args, t: Seq<(ArgAction, Option<String>)>)
    requires
        forall|i: int| 0 <= i < t.len() ==> !(#[trigger] t[i].0 is ReadConfig),
    ensures
        apply_seq(args, t).config == args.config,
    decreases t.len(),
{
    if t.len() > 0 {
        lemma_untouched_config(args, t.drop_last());
        assert(!(t[t.len() - 1].0 is ReadConfig));
    }
}

/// Of several verbosity options, the last one wins.
pub proof fn lemma_last_verbosity_wins(
    s: Seq<(ArgAction, Option<String>)>,
    v: u8,
    value: Option<String>,
    t: Seq<(ArgAction, Option<String>)>,
)
    requires
        forall|i: int| 0 <= i < t.len() ==> !(#[trigger] t[i].0 is SetVerbosity),
    ensures
        apply_seq(initial_args(), s.push((ArgAction::SetVerbosity(v), value)) + t).verbosity == v,
{
    lemma_apply_seq_split(initial_args(), s.push((ArgAction::SetVerbosity(v), value)), t);
    lemma_untouched_verbosity(apply_seq(initial_args(), s.push((ArgAction::SetVerbosity(v), value))), t);
    assert(s.push((ArgAction::SetVerbosity(v), value)).drop_last() =~= s);
}

/// Of several configuration options, the value of the last one is the
/// configuration.
pub proof fn lemma_last_config_wins(
    s: Seq<(ArgAction, Option<String>)>,
    value: Option<String>,
    t: Seq<(ArgAction, Option<String>)>,
)
    requires
        forall|i: int| 0 <= i < t.len() ==> !(#[trigger] t[i].0 is ReadConfig),
    ensures
        apply_seq(initial_args(), s.push((ArgAction::ReadConfig, value)) + t).config == value,
{
    lemma_apply_seq_split(initial_args(), s.push((ArgAction::ReadConfig, value)), t);
    lemma_untouched_config(apply_seq(initial_args(), s.push((ArgAction::ReadConfig, value))), t);
    assert(s.push((ArgAction::ReadConfig, value)).drop_last() =~= s);
}

proof fn lemma_settings_verbosity(items: Seq<(ArgAction, Option<String>)>)
    requires
        settings_only(items),
    ensures
        apply_seq(initial_args(), items).verbosity == 1 || apply_seq(initial_args(), items).verbosity
            == 2 || apply_seq(initial_args(), items).verbosity == 3,
    decreases items.len(),
{
    if items.len() > 0 {
        let init = items.drop_last();
        assert forall|i: int| 0 <= i < init.len() implies match #[trigger] init[i].0 {
            ArgAction::ReadConfig => init[i].1 is Some,
            ArgAction::SetVerbosity(v) => v == 1 || v == 3,
            _ => false,
        } by {
            assert(init[i] == items[i]);
        }
        lemma_settings_verbosity(init);
        let last = items[items.len() - 1];
        assert(match last.0 {
            ArgAction::ReadConfig => last.1 is Some,
            ArgAction::SetVerbosity(v) => v == 1 || v == 3,
            _ => false,
        });
    }
}

/// The message of `lexopt` for an unexpected free-standing argument.
pub uninterp spec fn lex_unexpected_argument_text(value: Seq<char>) -> Seq<char>;

/// `lexopt::Parser` holds the arguments still to be read.
#[verifier::external_type_specification]
#[verifier::external_body]
pub struct ExLexParser(lexopt::Parser);

/// A `lexopt` parser over `args` (which do not include the program's name),
/// from `lexopt::Parser::from_args`.
#[verifier::external_body]
fn lex_parser(args: Vec<String>) -> lexopt::Parser {
    lexopt::Parser::from_args(args)
}

/// The next argument, from `lexopt::Parser::next`: `Ok(None)` once all are
/// read, `Err` with the message of `lexopt`'s error. What comes depends on
/// the parser's state, which is not visible here, so nothing is claimed.
#[verifier::external_body]
fn lex_next(parser: &mut lexopt::Parser) -> Result<Option<CliArg>, String> {
    match parser.next() {
        Ok(Some(lexopt::Arg::Short(c))) => Ok(Some(CliArg::Short(c))),
        Ok(Some(lexopt::Arg::Long(name))) => Ok(Some(CliArg::Long(name.to_string()))),
        Ok(Some(lexopt::Arg::Value(v))) => Ok(Some(CliArg::Value(v.to_string_lossy().into_owned()))),
        Ok(None) => Ok(None),
        Err(err) => Err(err.to_string()),
    }
}

/// The value of the option just read, from `lexopt::Parser::value`; `Err`
/// with the message of `lexopt`'s error when there is none. Nothing is
/// claimed of it, as for `lex_next`.
#[verifier::external_body]
fn lex_value(parser: &mut lexopt::Parser) -> Result<String, String> {
    match parser.value() {
        Ok(v) => Ok(v.to_string_lossy().into_owned()),
        Err(err) => Err(err.to_string()),
    }
}

/// The message for an argument that is not expected, from
/// `lexopt::Arg::unexpected` and the `Display` of its error: an option is
/// reported as `invalid option '-c'` or `invalid option '--name'`; a value
/// by `lexopt`'s own text for it.
#[verifier::external_body]
fn lex_unexpected(arg: &CliArg) -> (s: String)
    ensures
        match *arg {
            CliArg::Short(c) => s@ == "invalid option '-"@ + seq![c] + "'"@,
            CliArg::Long(name) => s@ == "invalid option '--"@ + name@ + "'"@,
            CliArg::Value(v) => s@ == lex_unexpected_argument_text(v@),
        },
{
    match arg {
        CliArg::Short(c) => lexopt::Arg::Short(*c).unexpected().to_string(),
        CliArg::Long(name) => lexopt::Arg::Long(name).unexpected().to_string(),
        CliArg::Value(v) => lexopt::Arg::Value(v.into()).unexpected().to_string(),
    }
}

/// Reads the daemon's arguments (without the program's name). Each argument
/// is classified by `classify_arg`; the value that follows a configuration
/// option is taken as the configuration; the settings add up in order, so
/// that the last configuration and the last verbosity win. Help ends the
/// reading at once; an argument that is not expected, or an error of the
/// parser, ends it with that error's message.
pub fn parse_args(args: Vec<String>) -> (r: ParseOutcome)
    ensures
        r matches ParseOutcome::Parsed(a) ==> exists|items: Seq<(ArgAction, Option<String>)>|
            settings_only(items) && a == #[trigger] apply_seq(initial_args(), items),
        r matches ParseOutcome::Parsed(a) ==> a.verbosity == 1 || a.verbosity == 2 || a.verbosity == 3,
{
    // The parser yields at most one argument per byte and one per argument
    // given, so this bound is never reached.
    let mut budget: usize = 1;
    let mut k: usize = 0;
    while k < args.len()
        invariant
            k <= args.len(),
        decreases args.len() - k,
    {
        budget = budget.saturating_add(args[k].as_str().len());
        budget = budget.saturating_add(1);
        k += 1;
    }
    let mut parser = lex_parser(args);
    let mut parsed = Args::new();
    let ghost mut items: Seq<(ArgAction, Option<String>)> = Seq::empty();
    while budget > 0
        invariant
            settings_only(items),
            parsed == apply_seq(initial_args(), items),
        decreases budget,
    {
        budget = budget - 1;
        match lex_next(&mut parser) {
            Err(message) => {
                return ParseOutcome::Failed(message);
            },
            Ok(None) => {
                proof {
                    lemma_settings_verbosity(items);
                }
                return ParseOutcome::Parsed(parsed);
            },
            Ok(Some(arg)) => {
                let action = classify_arg(&arg);
                match action {
                    ArgAction::ReadConfig => {
                        match lex_value(&mut parser) {
                            Ok(value) => {
                                let v = Some(value);
                                proof {
                                    let old_items = items;
                                    items = items.push((action, v));
                                    assert(items.drop_last() =~= old_items);
                                    assert forall|i: int| 0 <= i < items.len() implies match #[trigger] items[i].0 {
                                        ArgAction::ReadConfig => items[i].1 is Some,
                                        ArgAction::SetVerbosity(w) => w == 1 || w == 3,
                                        _ => false,
                                    } by {
                                        if i < old_items.len() {
                                            assert(items[i] == old_items[i]);
                                        }
                                    }
                                }
                                parsed = parsed.apply(action, v);
                            },
                            Err(message) => {
                                return ParseOutcome::Failed(message);
                            },
                        }
                    },
                    ArgAction::ShowHelp => {
                        return ParseOutcome::Help;
                    },
                    ArgAction::SetVerbosity(_) => {
                        proof {
                            let old_items = items;
                            items = items.push((action, None));
                            assert(items.drop_last() =~= old_items);
                            assert forall|i: int| 0 <= i < items.len() implies match #[trigger] items[i].0 {
                                ArgAction::ReadConfig => items[i].1 is Some,
                                ArgAction::SetVerbosity(w) => w == 1 || w == 3,
                                _ => false,
                            } by {
                                if i < old_items.len() {
                                    assert(items[i] == old_items[i]);
                                }
                            }
                        }
                        parsed = parsed.apply(action, None);
                    },
                    ArgAction::Unexpected => {
                        return ParseOutcome::Failed(lex_unexpected(&arg));
                    },
                }
            },
        }
    }
    ParseOutcome::Failed("argument list too long".to_owned())
}

/// The most detailed kind of message that is logged.
#[derive(Debug, Clone, Copy, PartialEq, Eq, Structural)]
pub enum LogLevel {
    Error,
    Warn,
    Info,
    Debug,
}

/// The log level for a verbosity: 0 errors, 1 warnings, 2 information,
/// and 3 or more debugging.
pub open spec fn log_level_spec(verbosity: u8) -> LogLevel {
    if verbosity == 0 {
        LogLevel::Error
    } else if verbosity == 1 {
        LogLevel::Warn
    } else if verbosity == 2 {
        LogLevel::Info
    } else {
        LogLevel::Debug
    }
}

/// The log level for a verbosity.
pub fn log_level(verbosity: u8) -> (l: LogLevel)
    ensures
        l == log_level_spec(verbosity),
{
    match verbosity {
        0 => LogLevel::Error,
        1 => LogLevel::Warn,
        2 => LogLevel::Info,
        _ => LogLevel::Debug,
    }
}

} // verus!
