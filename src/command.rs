use vstd::prelude::*;

use crate::text::{split, split_on, split_words, views, words};

verus! {

/// Command to run: the name of an exported function and its arguments.
#[derive(Debug)]
pub struct Command {
    /// Name of the function to execute
    pub function: String,
    /// Arguments passed to the executed function
    pub args: Vec<String>,
}

/// Exec query options. The stdio and tty flags are reserved: they are
/// accepted for compatibility and have no effect yet.
#[derive(Debug)]
pub struct CommandOptions {
    /// The command to execute
    pub command: Command,
    /// Determines whether stdin is supported
    pub stdin: bool,
    /// Determines whether stderr is supported
    pub stderr: bool,
    /// Determines whether stdout is supported
    pub stdout: bool,
    /// Determines whether tty is supported
    pub tty: bool,
}

/// Why a command line or an exec query string could not be parsed.
#[derive(Clone, Copy, Debug, PartialEq, Eq, Structural)]
pub enum ParseError {
    /// The command line holds no word.
    Empty,
    /// A `key=value` pair of the query lacks its `=`.
    MissingValue,
    /// The query holds no `command` key.
    MissingCommand,
}

impl ParseError {
    /// A human-readable description of the error.
    pub fn message(&self) -> (r: String)
        ensures
            *self == ParseError::Empty ==> r@ == "empty command"@,
            *self == ParseError::MissingValue ==> r@ == "Cannot get the query value"@,
            *self == ParseError::MissingCommand ==> r@
                == "Error while parsing the exec query string"@,
    {
        match self {
            ParseError::Empty => String::from_str("empty command"),
            ParseError::MissingValue => String::from_str("Cannot get the query value"),
            ParseError::MissingCommand => String::from_str(
                "Error while parsing the exec query string",
            ),
        }
    }
}

/// The word `command`, the query key that carries the function and its arguments.
pub open spec fn command_key() -> Seq<char> {
    seq!['c', 'o', 'm', 'm', 'a', 'n', 'd']
}

/// A query pair is well formed when it holds at least one `=`.
pub open spec fn pair_valid(p: Seq<char>) -> bool {
    split(p, '=').len() >= 2
}

/// The text before the first `=` of a pair.
pub open spec fn pair_key(p: Seq<char>) -> Seq<char> {
    split(p, '=')[0]
}

/// The text between the first and the second `=` of a pair.
pub open spec fn pair_value(p: Seq<char>) -> Seq<char> {
    split(p, '=')[1]
}

/// The values of the pairs whose key is `command`, in order.
pub open spec fn command_values(pairs: Seq<Seq<char>>) -> Seq<Seq<char>>
    decreases pairs.len(),
{
    if pairs.len() == 0 {
        Seq::empty()
    } else {
        let r = command_values(pairs.drop_last());
        if pair_key(pairs.last()) == command_key() {
            r.push(pair_value(pairs.last()))
        } else {
            r
        }
    }
}

/// The pairs of a query string, separated by `&`.
pub open spec fn query_pairs(q: Seq<char>) -> Seq<Seq<char>> {
    split(q, '&')
}

/// Every pair of the query is well formed.
pub open spec fn query_well_formed(q: Seq<char>) -> bool {
    forall|i: int| 0 <= i < query_pairs(q).len() ==> pair_valid(#[trigger] query_pairs(q)[i])
}

/// What an exec query string means: the first `command` value names the
/// function, the later ones are its arguments in order.
pub open spec fn query_command(q: Seq<char>) -> Result<(Seq<char>, Seq<Seq<char>>), ParseError> {
    if !query_well_formed(q) {
        Err(ParseError::MissingValue)
    } else if command_values(query_pairs(q)).len() == 0 {
        Err(ParseError::MissingCommand)
    } else {
        let v = command_values(query_pairs(q));
        Ok((v[0], v.drop_first()))
    }
}

/// What a command line means: its first word names the function, the
/// others are its arguments in order.
pub open spec fn line_command(s: Seq<char>) -> Result<(Seq<char>, Seq<Seq<char>>), ParseError> {
    let w = words(s);
    if w.len() == 0 {
        Err(ParseError::Empty)
    } else {
        Ok((w[0], w.drop_first()))
    }
}

impl Command {
    /// The command's function name and arguments as character sequences.
    pub open spec fn parts(&self) -> (Seq<char>, Seq<Seq<char>>) {
        (self.function@, views(self.args@))
    }

    /// Parses a command line such as `add 1 2`: the first whitespace-separated
    /// word is the function, the remaining words are its arguments.
    pub fn parse(s: &str) -> (r: Result<Command, ParseError>)
        ensures
            match (r, line_command(s@)) {
                (Ok(c), Ok(p)) => c.parts() == p,
                (Err(e), Err(f)) => e == f,
                _ => false,
            },
    {
        let mut w = split_words(s);
        if w.len() == 0 {
            return Err(ParseError::Empty);
        }
        let ghost all = views(w@);
        let function = w.remove(0);
        assert(views(w@) =~= all.drop_first());
        Ok(Command { function, args: w })
    }
}

impl CommandOptions {
    /// Wraps a command with every stdio and tty flag at its default, `false`.
    pub fn new(command: Command) -> (r: CommandOptions)
        ensures
            r.command == command,
            !r.stdin && !r.stderr && !r.stdout && !r.tty,
    {
        CommandOptions { command, stdin: false, stderr: false, stdout: false, tty: false }
    }
}

fn is_command_key(key: &String) -> (r: bool)
    ensures
        r == (key@ == command_key()),
{
    let word = String::from_str("command");
    proof {
        reveal_strlit("command");
        assert("command"@ =~= command_key());
    }
    *key == word
}

/// Parses the raw query string of an exec request, such as
/// `command=add&command=1&command=2`. Pairs are split at `&`, keys from
/// values at `=`; duplicate keys are kept. Keys other than `command` are
/// ignored. A pair without `=` gives `MissingValue`; a query without a
/// `command` key gives `MissingCommand`.
pub fn parse_exec_query(query: &String) -> (r: Result<CommandOptions, ParseError>)
    ensures
        match (r, query_command(query@)) {
            (Ok(o), Ok(p)) => o.command.parts() == p && !o.stdin && !o.stderr && !o.stdout
                && !o.tty,
            (Err(e), Err(f)) => e == f,
            _ => false,
        },
{
    let pairs = split_on(query.as_str(), '&');
    let ghost ps = query_pairs(query@);
    let mut function: Option<String> = None;
    let mut args: Vec<String> = Vec::new();
    let mut i: usize = 0;
    while i < pairs.len()
        invariant
            views(pairs@) == ps,
            ps == query_pairs(query@),
            i <= pairs@.len(),
            forall|j: int| 0 <= j < i ==> pair_valid(#[trigger] ps[j]),
            match function {
                None => command_values(ps.subrange(0, i as int)).len() == 0 && args@.len() == 0,
                Some(f) => command_values(ps.subrange(0, i as int)) == seq![f@] + views(args@),
            },
        decreases pairs@.len() - i,
    {
        let ghost prefix = ps.subrange(0, i as int);
        let ghost next = ps.subrange(0, i + 1);
        assert(next.drop_last() =~= prefix);
        assert(next.last() == pairs@[i as int]@);
        let kv = split_on(pairs[i].as_str(), '=');
        if kv.len() < 2 {
            proof {
                assert(!pair_valid(ps[i as int]));
                assert(!query_well_formed(query@));
            }
            return Err(ParseError::MissingValue);
        }
        assert(kv@[0]@ == pair_key(ps[i as int]));
        assert(kv@[1]@ == pair_value(ps[i as int]));
        if is_command_key(&kv[0]) {
            let value = kv[1].clone();
            match function {
                None => {
                    assert(seq![value@] + views(args@) =~= seq![value@]);
                    function = Some(value);
                },
                Some(f) => {
                    let ghost old_args = views(args@);
                    args.push(value);
                    assert(views(args@) =~= old_args.push(value@));
                    assert(seq![f@] + views(args@) =~= (seq![f@] + old_args).push(value@));
                    function = Some(f);
                },
            }
        }
        i = i + 1;
    }
    assert(ps.subrange(0, pairs@.len() as int) =~= ps);
    assert(query_well_formed(query@));
    match function {
        None => Err(ParseError::MissingCommand),
        Some(f) => {
            let ghost v = command_values(ps);
            assert(v.drop_first() =~= views(args@));
            Ok(CommandOptions::new(Command { function: f, args }))
        },
    }
}

} // verus!
