//! Reading the arguments of the command line: options, and one command.

use crate::cli::EscEscapeStyle;
use crate::text::{str_eq, tokens};
use vstd::prelude::*;
use vstd::string::*;

verus! {

/// All parameters that can affect how a sequence is written.
#[derive(Debug, PartialEq, Eq, Structural)]
pub struct Parameters {
    /// Add a trailing new-line character (`\n`) to the output (default: false).
    new_line: bool,
    /// Write the `ESC` character itself instead of a spelling of it (default: false).
    no_esc_escape: bool,
    /// How `ESC` is spelled where it is not written itself.
    escape_style: EscEscapeStyle,
}

/// What a [`Parameters`] value holds.
pub struct ParametersView {
    /// Whether a line break follows the sequence.
    pub new_line: bool,
    /// Whether the `ESC` character is written itself, not spelled.
    pub no_esc_escape: bool,
    /// How `ESC` is spelled.
    pub escape_style: EscEscapeStyle,
}

impl View for Parameters {
    type V = ParametersView;

    closed spec fn view(&self) -> ParametersView {
        ParametersView {
            new_line: self.new_line,
            no_esc_escape: self.no_esc_escape,
            escape_style: self.escape_style,
        }
    }
}

impl ParametersView {
    /// The parameters of a command line without options.
    pub open spec fn initial() -> ParametersView {
        ParametersView {
            new_line: false,
            no_esc_escape: false,
            escape_style: EscEscapeStyle::Bash,
        }
    }
}

impl Parameters {
    /// Whether a line break follows the sequence.
    pub fn new_line(&self) -> (flag: bool)
        ensures
            flag == self@.new_line,
    {
        self.new_line
    }

    /// Whether the `ESC` character is written itself, not spelled.
    pub fn no_esc_escape(&self) -> (flag: bool)
        ensures
            flag == self@.no_esc_escape,
    {
        self.no_esc_escape
    }

    /// How `ESC` is spelled.
    pub fn escape_style(&self) -> (style: EscEscapeStyle)
        ensures
            style == self@.escape_style,
    {
        self.escape_style
    }

    /// Parameters that hold the same are the same.
    pub proof fn lemma_view_injective(a: Parameters, b: Parameters)
        requires
            a@ == b@,
        ensures
            a == b,
    {
    }
}

impl Default for Parameters {
    /// No line break, `ESC` spelled, in Bash style.
    fn default() -> (params: Parameters)
        ensures
            params@ == ParametersView::initial(),
    {
        Parameters {
            new_line: false,
            no_esc_escape: false,
            escape_style: EscEscapeStyle::default(),
        }
    }
}

/// Why a command line is turned down. An index is that of the argument at
/// fault, counted from the program's name at 0.
#[derive(Clone, Copy, Debug, PartialEq, Eq, Structural)]
pub enum ArgsError {
    /// There is neither a command nor a request for help.
    MissingInput,
    /// The option at this index takes a value, and none follows it.
    MissingOptionArgument(usize),
    /// The argument at this index is no name of an escape style.
    UnrecognizedEscapeStyle(usize),
    /// The argument at this index starts with `-` and is no option.
    UnrecognizedOption(usize),
    /// The argument at this index is a command, and one was given before.
    TooManyCommands(usize),
}

/// Whether an argument is read as an option: it starts with `-`.
pub open spec fn is_option(arg: Seq<char>) -> bool {
    arg.len() > 0 && arg[0] == '-'
}

/// What is read from the arguments at index `i` and after it, when `params`
/// and `cmd` were read from those before.
pub open spec fn parse_from(
    args: Seq<Seq<char>>,
    i: int,
    params: ParametersView,
    cmd: Option<Seq<char>>,
) -> Result<(ParametersView, Seq<char>), ArgsError>
    decreases args.len() - i,
{
    if i >= args.len() {
        match cmd {
            Some(command) => Ok((params, command)),
            None => Err(ArgsError::MissingInput),
        }
    } else if is_option(args[i]) {
        if args[i] == "-n"@ || args[i] == "--new-line"@ {
            parse_from(args, i + 1, ParametersView { new_line: true, ..params }, cmd)
        } else if args[i] == "-e"@ || args[i] == "--no-escape"@ {
            parse_from(args, i + 1, ParametersView { no_esc_escape: true, ..params }, cmd)
        } else if args[i] == "-s"@ || args[i] == "--escape-style"@ {
            if i + 1 >= args.len() {
                Err(ArgsError::MissingOptionArgument(i as usize))
            } else {
                match EscEscapeStyle::named(args[i + 1]) {
                    Some(style) => parse_from(
                        args,
                        i + 2,
                        ParametersView { escape_style: style, ..params },
                        cmd,
                    ),
                    None => Err(ArgsError::UnrecognizedEscapeStyle((i + 1) as usize)),
                }
            }
        } else if args[i] == "-h"@ || args[i] == "--help"@ {
            parse_from(args, i + 1, params, Some("help"@))
        } else {
            Err(ArgsError::UnrecognizedOption(i as usize))
        }
    } else if cmd is None {
        parse_from(args, i + 1, params, Some(args[i]))
    } else {
        Err(ArgsError::TooManyCommands(i as usize))
    }
}

/// What a command line says. The first argument is the program's name and is
/// passed over. Options may stand before and after the command; a request
/// for help takes the command's place.
pub open spec fn parse(args: Seq<Seq<char>>) -> Result<(ParametersView, Seq<char>), ArgsError> {
    parse_from(args, 1, ParametersView::initial(), None)
}

/// A command line that holds the program's name at most has no input.
pub proof fn lemma_parse_without_arguments(args: Seq<Seq<char>>)
    requires
        args.len() <= 1,
    ensures
        parse(args) == Err::<(ParametersView, Seq<char>), _>(ArgsError::MissingInput),
{
}

/// A command alone is read with the parameters left as they are at the start.
pub proof fn lemma_parse_command_alone(program: Seq<char>, command: Seq<char>)
    requires
        !is_option(command),
    ensures
        parse(seq![program, command]) == Ok::<_, ArgsError>(
            (ParametersView::initial(), command),
        ),
{
    reveal_with_fuel(parse_from, 3);
}

/// The command that is read stands among the arguments and is no option,
/// unless help was asked for.
pub proof fn lemma_parse_command_origin(args: Seq<Seq<char>>)
    requires
        parse(args) is Ok,
    ensures
        parse(args)->Ok_0.1 == "help"@ || exists|j: int|
            1 <= j < args.len() && !is_option(args[j]) && args[j] == parse(args)->Ok_0.1,
{
    lemma_parse_from_command_origin(args, 1, ParametersView::initial(), None);
}

proof fn lemma_parse_from_command_origin(
    args: Seq<Seq<char>>,
    i: int,
    params: ParametersView,
    cmd: Option<Seq<char>>,
)
    requires
        1 <= i,
        parse_from(args, i, params, cmd) is Ok,
        cmd matches Some(command) ==> command == "help"@ || exists|j: int|
            1 <= j < args.len() && !is_option(args[j]) && args[j] == command,
    ensures
        parse_from(args, i, params, cmd)->Ok_0.1 == "help"@ || exists|j: int|
            1 <= j < args.len() && !is_option(args[j]) && args[j] == parse_from(
                args,
                i,
                params,
                cmd,
            )->Ok_0.1,
    decreases args.len() - i,
{
    if i >= args.len() {
    } else if is_option(args[i]) {
        if args[i] == "-n"@ || args[i] == "--new-line"@ {
            lemma_parse_from_command_origin(
                args,
                i + 1,
                ParametersView { new_line: true, ..params },
                cmd,
            );
        } else if args[i] == "-e"@ || args[i] == "--no-escape"@ {
            lemma_parse_from_command_origin(
                args,
                i + 1,
                ParametersView { no_esc_escape: true, ..params },
                cmd,
            );
        } else if args[i] == "-s"@ || args[i] == "--escape-style"@ {
            let style = EscEscapeStyle::named(args[i + 1])->Some_0;
            lemma_parse_from_command_origin(
                args,
                i + 2,
                ParametersView { escape_style: style, ..params },
                cmd,
            );
        } else {
            lemma_parse_from_command_origin(args, i + 1, params, Some("help"@));
        }
    } else {
        lemma_parse_from_command_origin(args, i + 1, params, Some(args[i]));
    }
}

/// Reads the arguments, and says what is wrong with them where they are
/// turned down.
pub fn parse_args(args: &[&str]) -> (parsed: Result<(Parameters, String), ArgsError>)
    ensures
        match parsed {
            Ok((params, cmd)) => parse(tokens(args)) == Ok::<_, ArgsError>((params@, cmd@)),
            Err(error) => parse(tokens(args)) == Err::<(ParametersView, Seq<char>), _>(error),
        },
{
    let mut params = Parameters::default();
    let mut cmd: Option<&str> = None;

    // the first argument is the name of the program
    let mut i: usize = 1;
    while i < args.len()
        invariant
            1 <= i,
            i <= args.len() || args.len() == 0,
            parse_from(
                tokens(args),
                i as int,
                params@,
                match cmd {
                    Some(command) => Some(command@),
                    None => None,
                },
            ) == parse(tokens(args)),
        decreases args.len() - i,
    {
        let arg = args[i];
        assert(tokens(args)[i as int] == arg@);
        if !arg.is_empty() && arg.get_char(0) == '-' {
            if str_eq(arg, "-n") || str_eq(arg, "--new-line") {
                params.new_line = true;
            } else if str_eq(arg, "-e") || str_eq(arg, "--no-escape") {
                params.no_esc_escape = true;
            } else if str_eq(arg, "-s") || str_eq(arg, "--escape-style") {
                if i + 1 >= args.len() {
                    return Err(ArgsError::MissingOptionArgument(i));
                }
                assert(tokens(args)[i + 1] == args[i + 1]@);
                match EscEscapeStyle::from_name(args[i + 1]) {
                    Some(style) => {
                        params.escape_style = style;
                    },
                    None => {
                        return Err(ArgsError::UnrecognizedEscapeStyle(i + 1));
                    },
                }
                i += 1;
            } else if str_eq(arg, "-h") || str_eq(arg, "--help") {
                cmd = Some("help");
            } else {
                return Err(ArgsError::UnrecognizedOption(i));
            }
        } else if cmd.is_none() {
            cmd = Some(arg);
        } else {
            return Err(ArgsError::TooManyCommands(i));
        }
        i += 1;
    }
    match cmd {
        Some(command) => Ok((params, String::from_str(command))),
        None => Err(ArgsError::MissingInput),
    }
}

/// Analyzes the provided args and returns a tuple of
/// * the parameters,
/// * the command to execute.
///
/// If help was requested by an option (`-h` or `--help`), then `help` is
/// returned as command. Arguments that are turned down give `None`.
pub fn analyze_args(args: &[&str]) -> (parsed: Option<(Parameters, String)>)
    ensures
        match parsed {
            Some((params, cmd)) => parse(tokens(args)) == Ok::<_, ArgsError>((params@, cmd@)),
            None => parse(tokens(args)) is Err,
        },
{
    match parse_args(args) {
        Ok(parsed) => Some(parsed),
        Err(_) => None,
    }
}

} // verus!
