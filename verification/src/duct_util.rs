//! Commands that can be run and logged.
//!
//! A [`Cmd`] keeps a command as plain text, so that it can be written to a log
//! the way a shell would show it, and turns into a duct [`duct::Expression`]
//! for execution.

use vstd::prelude::*;

use crate::text;

verus! {

/// duct's tree of a command and what was set on it.
#[verifier::external_type_specification]
#[verifier::external_body]
pub struct ExExpression(duct::Expression);

/// One thing that an expression says about how to run a command.
pub enum Layer {
    /// The program and its arguments.
    Command { program: Seq<char>, args: Seq<Seq<char>> },
    /// A variable is set.
    Env { key: Seq<char>, value: Seq<char> },
    /// It runs in a directory.
    Dir(Seq<char>),
    /// Standard input comes from the null device.
    StdinNull,
    /// Standard error is joined to the output.
    StderrToStdout,
    /// Standard error is dropped.
    StderrNull,
    /// The output is captured.
    StdoutCapture,
    /// Any exit status is accepted.
    Unchecked,
}

/// What an expression holds, from the command outwards.
pub uninterp spec fn duct_layers(expr: duct::Expression) -> Seq<Layer>;

/// Calls `duct::cmd`, which puts the program and its arguments into a new
/// expression and runs nothing. Claimed: the expression holds them and nothing
/// else.
#[verifier::external_body]
fn new_expression(program: &String, args: &Vec<String>) -> (res: duct::Expression)
    ensures
        duct_layers(res) == seq![
            Layer::Command { program: program@, args: text::texts(args@) },
        ],
{
    duct::cmd(program, args)
}

/// Calls `duct::Expression::env`, which wraps the expression with a variable.
/// Claimed: the result holds what the expression does, and the variable.
#[verifier::external_body]
fn expression_env(expr: &duct::Expression, key: &String, value: &String) -> (res: duct::Expression)
    ensures
        duct_layers(res) == duct_layers(*expr).push(Layer::Env { key: key@, value: value@ }),
{
    expr.env(key, value)
}

/// Calls `duct::Expression::dir`, which wraps the expression with a directory.
/// Claimed: the result holds what the expression does, and the directory.
#[verifier::external_body]
fn expression_dir(expr: &duct::Expression, path: &String) -> (res: duct::Expression)
    ensures
        duct_layers(res) == duct_layers(*expr).push(Layer::Dir(path@)),
{
    expr.dir(path)
}

/// A command: a program, its arguments, variables set for it, and the
/// directory it runs in.
#[derive(Debug)]
pub struct Cmd {
    program: String,
    args: Vec<String>,
    env_vars: Vec<(String, String)>,
    dir: Option<String>,
}

/// What a [`Cmd`] holds.
pub struct CmdView {
    pub program: Seq<char>,
    pub args: Seq<Seq<char>>,
    pub env_vars: Seq<(Seq<char>, Seq<char>)>,
    pub dir: Option<Seq<char>>,
}

impl View for Cmd {
    type V = CmdView;

    closed spec fn view(&self) -> CmdView {
        CmdView {
            program: self.program@,
            args: text::texts(self.args@),
            env_vars: pairs(self.env_vars@),
            dir: self.dir.deep_view(),
        }
    }
}

impl DeepView for Cmd {
    type V = CmdView;

    open spec fn deep_view(&self) -> CmdView {
        self@
    }
}

/// The texts of pairs of strings.
pub open spec fn pairs(vars: Seq<(String, String)>) -> Seq<(Seq<char>, Seq<char>)> {
    vars.map_values(|v: (String, String)| (v.0@, v.1@))
}

/// The program alone, with no arguments, variables or directory.
pub open spec fn bare_command(program: Seq<char>) -> CmdView {
    CmdView { program, args: seq![], env_vars: seq![], dir: None }
}

/// The command whose program is the first word and whose arguments are the others.
pub open spec fn command_of_words(words: Seq<Seq<char>>) -> CmdView {
    CmdView { args: words.skip(1), ..bare_command(words[0]) }
}

impl CmdView {
    /// The command with one argument more.
    pub open spec fn arg(self, arg: Seq<char>) -> CmdView {
        CmdView { args: self.args.push(arg), ..self }
    }

    /// The command with one variable more.
    pub open spec fn env(self, key: Seq<char>, value: Seq<char>) -> CmdView {
        CmdView { env_vars: self.env_vars.push((key, value)), ..self }
    }

    /// The command in the given directory.
    pub open spec fn dir(self, path: Seq<char>) -> CmdView {
        CmdView { dir: Some(path), ..self }
    }
}

/// The value that a command finds for a variable. In an expression what was set
/// first, and so lies closest to the command, counts.
pub open spec fn variable(vars: Seq<(Seq<char>, Seq<char>)>, key: Seq<char>) -> Option<Seq<char>>
    decreases vars.len(),
{
    if vars.len() == 0 {
        None
    } else if variable(vars.drop_last(), key) is Some {
        variable(vars.drop_last(), key)
    } else if vars.last().0 == key {
        Some(vars.last().1)
    } else {
        None
    }
}

/// The first of two texts, where there are any.
pub open spec fn first_part(pair: Option<(Seq<char>, Seq<char>)>) -> Option<Seq<char>> {
    match pair {
        Some((first, _)) => Some(first),
        None => None,
    }
}

/// The second of two texts, where there are any.
pub open spec fn second_part(pair: Option<(Seq<char>, Seq<char>)>) -> Option<Seq<char>> {
    match pair {
        Some((_, second)) => Some(second),
        None => None,
    }
}

/// What setting a variable does to the variables.
pub broadcast proof fn lemma_variable_set(
    cmd: CmdView,
    set_key: Seq<char>,
    value: Seq<char>,
    key: Seq<char>,
)
    ensures
        #[trigger] variable(cmd.env(set_key, value).env_vars, key) == (if variable(
            cmd.env_vars,
            key,
        ) is None && set_key == key {
            Some(value)
        } else {
            variable(cmd.env_vars, key)
        }),
{
    assert(cmd.env_vars.push((set_key, value)).drop_last() =~= cmd.env_vars);
}

/// Whether a shell gives the character a meaning of its own.
pub open spec fn is_special(c: char) -> bool {
    ||| text::is_white(c)
    ||| c == '"' || c == '\'' || c == '\\' || c == '$' || c == '`' || c == '!' || c == '*'
    ||| c == '?' || c == '[' || c == ']' || c == '{' || c == '}' || c == '(' || c == ')'
    ||| c == '<' || c == '>' || c == '|' || c == '&' || c == ';' || c == '#' || c == '~'
}

/// Whether the character keeps a meaning inside double quotes.
pub open spec fn is_special_in_quotes(c: char) -> bool {
    c == '"' || c == '\\' || c == '$' || c == '`'
}

/// The text with a backslash before each character that needs one inside
/// double quotes.
pub open spec fn backslashed(s: Seq<char>) -> Seq<char>
    decreases s.len(),
{
    if s.len() == 0 {
        seq![]
    } else if is_special_in_quotes(s.last()) {
        backslashed(s.drop_last()).push('\\').push(s.last())
    } else {
        backslashed(s.drop_last()).push(s.last())
    }
}

/// One word of a shell command line that stands for `s`: as it is where that
/// is safe, else in single quotes, else (where it holds a single quote) in
/// double quotes.
pub open spec fn shell_word(s: Seq<char>) -> Seq<char> {
    if s.len() == 0 {
        seq!['\'', '\'']
    } else if forall|i: int| 0 <= i < s.len() ==> !is_special(#[trigger] s[i]) {
        s
    } else if !s.contains('\'') {
        seq!['\''] + s + seq!['\'']
    } else {
        seq!['"'] + backslashed(s) + seq!['"']
    }
}

/// `KEY=value ` for each variable.
pub open spec fn env_text(vars: Seq<(Seq<char>, Seq<char>)>) -> Seq<char>
    decreases vars.len(),
{
    if vars.len() == 0 {
        seq![]
    } else {
        env_text(vars.drop_last()) + shell_word(vars.last().0) + seq!['='] + shell_word(
            vars.last().1,
        ) + seq![' ']
    }
}

/// A space and the word, for each argument.
pub open spec fn args_text(args: Seq<Seq<char>>) -> Seq<char>
    decreases args.len(),
{
    if args.len() == 0 {
        seq![]
    } else {
        args_text(args.drop_last()) + seq![' '] + shell_word(args.last())
    }
}

/// The command as a shell would show it, and the directory as a comment.
pub open spec fn shell_text(c: CmdView) -> Seq<char> {
    env_text(c.env_vars) + shell_word(c.program) + args_text(c.args) + match c.dir {
        Some(dir) => "  # in "@ + dir,
        None => seq![],
    }
}

/// The command as a line of a log.
pub open spec fn log_text(c: CmdView) -> Seq<char> {
    "> "@ + shell_text(c) + "\n"@
}

/// What the expression of a command holds: its program and arguments, its
/// variables in order, and its directory.
pub open spec fn command_layers(c: CmdView) -> Seq<Layer> {
    let layers = seq![Layer::Command { program: c.program, args: c.args }] + env_layers(c.env_vars);
    match c.dir {
        Some(dir) => layers.push(Layer::Dir(dir)),
        None => layers,
    }
}

/// What an expression holds for variables.
pub open spec fn env_layers(vars: Seq<(Seq<char>, Seq<char>)>) -> Seq<Layer> {
    vars.map_values(|v: (Seq<char>, Seq<char>)| Layer::Env { key: v.0, value: v.1 })
}

impl Clone for Cmd {
    fn clone(&self) -> (res: Self)
        ensures
            res@ == self@,
    {
        let mut res = Cmd::new(self.program.as_str());
        let mut i: usize = 0;
        proof {
            assert(self@.args.take(0) =~= seq![]);
            assert(self@.env_vars.take(0) =~= seq![]);
        }
        while i < self.args.len()
            invariant
                i <= self.args.len(),
                res@ == (CmdView { args: self@.args.take(i as int), ..bare_command(self@.program) }),
            decreases self.args.len() - i,
        {
            res = res.arg(self.args[i].as_str());
            proof {
                assert(self@.args.take(i + 1) =~= self@.args.take(i as int).push(self.args@[i as int]@));
            }
            i = i + 1;
        }
        proof {
            assert(self@.args.take(i as int) =~= self@.args);
        }
        i = 0;
        while i < self.env_vars.len()
            invariant
                i <= self.env_vars.len(),
                res@ == (CmdView {
                    args: self@.args,
                    env_vars: self@.env_vars.take(i as int),
                    ..bare_command(self@.program)
                }),
            decreases self.env_vars.len() - i,
        {
            res = res.env(self.env_vars[i].0.as_str(), self.env_vars[i].1.as_str());
            proof {
                assert(self@.env_vars.take(i + 1) =~= self@.env_vars.take(i as int).push(
                    (self.env_vars@[i as int].0@, self.env_vars@[i as int].1@),
                ));
            }
            i = i + 1;
        }
        proof {
            assert(self@.env_vars.take(i as int) =~= self@.env_vars);
        }
        match &self.dir {
            Some(dir) => res.dir(dir.as_str()),
            None => res,
        }
    }
}

impl Cmd {
    /// A command with the given program name.
    pub fn new(program: &str) -> (res: Self)
        ensures
            res@ == bare_command(program@),
    {
        let res = Cmd {
            program: program.to_owned(),
            args: Vec::new(),
            env_vars: Vec::new(),
            dir: None,
        };
        assert(res@ == bare_command(program@)) by {
            assert(text::texts(res.args@) =~= seq![]);
            assert(pairs(res.env_vars@) =~= seq![]);
        }
        res
    }

    /// Adds one argument.
    pub fn arg(self, arg: &str) -> (res: Self)
        ensures
            res@ == self@.arg(arg@),
    {
        let mut cmd = self;
        cmd.args.push(arg.to_owned());
        assert(text::texts(cmd.args@) =~= self@.args.push(arg@));
        cmd
    }

    /// The command whose program is the first word and whose arguments are the others.
    pub fn from_words(words: &Vec<String>) -> (res: Self)
        requires
            words.len() > 0,
        ensures
            res@ == command_of_words(text::texts(words@)),
    {
        let ghost all = text::texts(words@);
        let mut cmd = Cmd::new(words[0].as_str());
        let mut i: usize = 1;
        proof {
            assert(all.subrange(1, 1) =~= seq![]);
        }
        while i < words.len()
            invariant
                1 <= i <= words.len(),
                all == text::texts(words@),
                cmd@ == (CmdView { args: all.subrange(1, i as int), ..bare_command(all[0]) }),
            decreases words.len() - i,
        {
            cmd = cmd.arg(words[i].as_str());
            proof {
                assert(all.subrange(1, i + 1) =~= all.subrange(1, i as int).push(
                    words@[i as int]@,
                ));
            }
            i = i + 1;
        }
        assert(all.subrange(1, i as int) =~= all.skip(1));
        cmd
    }

    /// Adds several arguments.
    pub fn args(self, args: &[&str]) -> (res: Self)
        ensures
            res@ == (CmdView { args: self@.args + args@.map_values(|a: &str| a@), ..self@ }),
    {
        let mut cmd = self;
        let mut i: usize = 0;
        proof {
            assert(args@.map_values(|a: &str| a@).take(0) =~= seq![]);
            assert(cmd@.args =~= self@.args + seq![]);
        }
        while i < args.len()
            invariant
                i <= args.len(),
                cmd@ == (CmdView {
                    args: self@.args + args@.map_values(|a: &str| a@).take(i as int),
                    ..self@
                }),
            decreases args.len() - i,
        {
            cmd = cmd.arg(args[i]);
            proof {
                assert(self@.args + args@.map_values(|a: &str| a@).take(i + 1) =~= (self@.args
                    + args@.map_values(|a: &str| a@).take(i as int)).push(args@[i as int]@));
            }
            i = i + 1;
        }
        proof {
            assert(args@.map_values(|a: &str| a@).take(i as int) =~= args@.map_values(
                |a: &str| a@,
            ));
        }
        cmd
    }

    /// Sets a variable for the command.
    pub fn env(self, key: &str, value: &str) -> (res: Self)
        ensures
            res@ == self@.env(key@, value@),
    {
        let mut cmd = self;
        cmd.env_vars.push((key.to_owned(), value.to_owned()));
        assert(pairs(cmd.env_vars@) =~= self@.env_vars.push((key@, value@)));
        cmd
    }

    /// Sets the directory that the command runs in.
    pub fn dir(self, path: &str) -> (res: Self)
        ensures
            res@ == self@.dir(path@),
    {
        let mut cmd = self;
        cmd.dir = Some(path.to_owned());
        cmd
    }

    /// The duct expression for the command: its program and arguments, its
    /// variables and its directory, and nothing else.
    pub fn to_expression(&self) -> (res: duct::Expression)
        ensures
            duct_layers(res) == command_layers(self@),
    {
        let mut expr = new_expression(&self.program, &self.args);
        let ghost first = duct_layers(expr);
        let mut i: usize = 0;
        assert(env_layers(self@.env_vars.take(0)) =~= seq![]);
        while i < self.env_vars.len()
            invariant
                i <= self.env_vars.len(),
                duct_layers(expr) == first + env_layers(self@.env_vars.take(i as int)),
            decreases self.env_vars.len() - i,
        {
            proof {
                let v = self@.env_vars[i as int];
                assert(v == (self.env_vars@[i as int].0@, self.env_vars@[i as int].1@));
                assert(env_layers(self@.env_vars.take(i + 1)) =~= env_layers(
                    self@.env_vars.take(i as int),
                ).push(Layer::Env { key: v.0, value: v.1 }));
            }
            expr = expression_env(&expr, &self.env_vars[i].0, &self.env_vars[i].1);
            i = i + 1;
        }
        assert(self@.env_vars.take(i as int) =~= self@.env_vars);
        match &self.dir {
            Some(dir) => expression_dir(&expr, dir),
            None => expr,
        }
    }

    /// The command as a line of a log.
    pub fn log_line(&self) -> (res: LogLine<'_>)
        ensures
            res.cmd() == *self,
    {
        LogLine(self)
    }

    /// The command as a shell would show it.
    pub fn display(&self) -> (res: String)
        ensures
            res@ == shell_text(self@),
    {
        let mut out = String::new();
        self.fmt_shell(&mut out);
        assert(out@ =~= shell_text(self@));
        out
    }

    /// Writes the command as a shell would show it.
    pub fn fmt_shell(&self, out: &mut String)
        ensures
            final(out)@ == old(out)@ + shell_text(self@),
    {
        let ghost before = out@;
        let mut i: usize = 0;
        proof {
            assert(self@.env_vars.take(0) =~= seq![]);
            assert(before + env_text(seq![]) =~= before);
        }
        while i < self.env_vars.len()
            invariant
                i <= self.env_vars.len(),
                out@ == before + env_text(self@.env_vars.take(i as int)),
            decreases self.env_vars.len() - i,
        {
            write_shell_escaped(out, self.env_vars[i].0.as_str());
            out.push('=');
            write_shell_escaped(out, self.env_vars[i].1.as_str());
            out.push(' ');
            proof {
                let t = self@.env_vars.take(i + 1);
                assert(t.drop_last() =~= self@.env_vars.take(i as int));
                assert(t.last() == (self.env_vars@[i as int].0@, self.env_vars@[i as int].1@));
                assert(out@ =~= before + env_text(t));
            }
            i = i + 1;
        }
        proof {
            assert(self@.env_vars.take(i as int) =~= self@.env_vars);
        }
        write_shell_escaped(out, self.program.as_str());
        let ghost head = out@;
        i = 0;
        proof {
            assert(self@.args.take(0) =~= seq![]);
            assert(head + args_text(seq![]) =~= head);
        }
        while i < self.args.len()
            invariant
                i <= self.args.len(),
                out@ == head + args_text(self@.args.take(i as int)),
            decreases self.args.len() - i,
        {
            out.push(' ');
            write_shell_escaped(out, self.args[i].as_str());
            proof {
                let t = self@.args.take(i + 1);
                assert(t.drop_last() =~= self@.args.take(i as int));
                assert(t.last() == self.args@[i as int]@);
                assert(out@ =~= head + args_text(t));
            }
            i = i + 1;
        }
        proof {
            assert(self@.args.take(i as int) =~= self@.args);
        }
        match &self.dir {
            Some(dir) => {
                out.append("  # in ");
                out.append(dir.as_str());
            },
            None => {},
        }
        proof {
            assert(out@ =~= before + shell_text(self@));
        }
    }
}

/// A command that is written as a line of a log.
pub struct LogLine<'a>(&'a Cmd);

impl<'a> LogLine<'a> {
    /// The command.
    pub closed spec fn cmd(&self) -> Cmd {
        *self.0
    }

    /// The line: `> `, the command, and a line feed.
    pub fn display(&self) -> (res: String)
        ensures
            res@ == log_text(self.cmd()@),
    {
        let mut out = String::from_str("> ");
        self.0.fmt_shell(&mut out);
        out.append("\n");
        out
    }
}

/// Writes `s` as one word of a shell command line.
pub fn write_shell_escaped(out: &mut String, s: &str)
    ensures
        final(out)@ == old(out)@ + shell_word(s@),
{
    let ghost before = out@;
    let chars = text::chars_of(s);
    if chars.len() == 0 {
        out.push('\'');
        out.push('\'');
        assert(out@ =~= before + shell_word(s@));
        return;
    }
    let mut special = false;
    let mut quote = false;
    let mut i: usize = 0;
    while i < chars.len()
        invariant
            i <= chars.len(),
            chars@ == s@,
            special == exists|j: int| 0 <= j < i && is_special(#[trigger] s@[j]),
            quote == exists|j: int| 0 <= j < i && #[trigger] s@[j] == '\'',
        decreases chars.len() - i,
    {
        let c: char = chars[i];
        if text::char_is_white(c) || c == '"' || c == '\'' || c == '\\' || c == '$' || c == '`' || c
            == '!' || c == '*' || c == '?' || c == '[' || c == ']' || c == '{' || c == '}' || c == '('
            || c == ')' || c == '<' || c == '>' || c == '|' || c == '&' || c == ';' || c == '#' || c
            == '~' {
            assert(is_special(s@[i as int]));
            special = true;
        }
        if c == '\'' {
            assert(s@[i as int] == '\'');
            quote = true;
        }
        i = i + 1;
    }
    if !special {
        out.append(s);
        return;
    }
    if !quote {
        out.push('\'');
        out.append(s);
        out.push('\'');
        assert(!s@.contains('\''));
        assert(out@ =~= before + shell_word(s@));
        return;
    }
    assert(s@.contains('\''));
    out.push('"');
    i = 0;
    proof {
        assert(s@.take(0) =~= seq![]);
        assert(out@ =~= before + seq!['"'] + backslashed(seq![]));
    }
    while i < chars.len()
        invariant
            i <= chars.len(),
            chars@ == s@,
            out@ == before + seq!['"'] + backslashed(s@.take(i as int)),
        decreases chars.len() - i,
    {
        let c: char = chars[i];
        if c == '"' || c == '\\' || c == '$' || c == '`' {
            out.push('\\');
        }
        out.push(c);
        proof {
            let t = s@.take(i + 1);
            assert(t.drop_last() =~= s@.take(i as int));
            assert(t.last() == c);
            assert(out@ =~= before + seq!['"'] + backslashed(t));
        }
        i = i + 1;
    }
    out.push('"');
    proof {
        assert(s@.take(i as int) =~= s@);
        assert(out@ =~= before + shell_word(s@));
    }
}

/// What a shell reads back from text inside double quotes: a backslash gives
/// way to the character after it.
pub open spec fn unbackslashed(s: Seq<char>) -> Seq<char>
    decreases s.len(),
{
    if s.len() == 0 {
        seq![]
    } else if s[0] == '\\' && s.len() > 1 {
        seq![s[1]] + unbackslashed(s.skip(2))
    } else {
        seq![s[0]] + unbackslashed(s.skip(1))
    }
}

/// What a shell reads back from one word: quotes around it are taken off.
pub open spec fn word_value(w: Seq<char>) -> Seq<char> {
    if w.len() >= 2 && w[0] == '\'' {
        w.subrange(1, w.len() - 1)
    } else if w.len() >= 2 && w[0] == '"' {
        unbackslashed(w.subrange(1, w.len() - 1))
    } else {
        w
    }
}

/// How a character is written inside double quotes.
spec fn escaped(c: char) -> Seq<char> {
    if is_special_in_quotes(c) {
        seq!['\\'].push(c)
    } else {
        seq![c]
    }
}

proof fn lemma_escaped_reads_back(c: char, tail: Seq<char>)
    ensures
        unbackslashed(escaped(c) + tail) == seq![c] + unbackslashed(tail),
{
    let t = escaped(c) + tail;
    assert(t.skip(escaped(c).len() as int) =~= tail);
}

/// Escaped text is read back, whatever follows it.
proof fn lemma_backslashed_reads_back(s: Seq<char>, tail: Seq<char>)
    ensures
        unbackslashed(backslashed(s) + tail) == s + unbackslashed(tail),
    decreases s.len(),
{
    if s.len() == 0 {
        assert(backslashed(s) + tail =~= tail);
        assert(s + unbackslashed(tail) =~= unbackslashed(tail));
    } else {
        let front = s.drop_last();
        let c = s.last();
        assert(backslashed(s) + tail =~= backslashed(front) + (escaped(c) + tail));
        lemma_backslashed_reads_back(front, escaped(c) + tail);
        lemma_escaped_reads_back(c, tail);
        assert(front + (seq![c] + unbackslashed(tail)) =~= s + unbackslashed(tail));
    }
}

/// Quoting loses nothing: a shell reads every word back as the text that was
/// written, so a logged command line names the command that ran.
pub proof fn law_shell_word_reads_back(s: Seq<char>)
    ensures
        word_value(shell_word(s)) == s,
        shell_word(s).len() > 0,
{
    let w = shell_word(s);
    if s.len() == 0 {
        assert(w.subrange(1, 1) =~= s);
    } else if forall|i: int| 0 <= i < s.len() ==> !is_special(#[trigger] s[i]) {
        assert(!is_special(s[0]));
    } else if !s.contains('\'') {
        assert(w.subrange(1, w.len() - 1) =~= s);
    } else {
        let none = Seq::<char>::empty();
        lemma_backslashed_reads_back(s, none);
        assert(w.subrange(1, w.len() - 1) =~= backslashed(s) + none);
        assert(s + unbackslashed(none) =~= s);
    }
}

/// Whether a command is exactly the given program with these arguments, run in a
/// directory and with no variables of its own.
pub open spec fn is_command(
    cmd: CmdView,
    program: Seq<char>,
    args: Seq<Seq<char>>,
    dir: Seq<char>,
) -> bool {
    &&& cmd.program == program
    &&& cmd.args =~= args
    &&& cmd.env_vars =~= Seq::<(Seq<char>, Seq<char>)>::empty()
    &&& cmd.dir == Some(dir)
}

/// The expression of a command holds its program with all of its arguments first,
/// then each variable in the order in which they were set, and its directory last.
pub proof fn law_expressions_hold_the_command(c: CmdView)
    ensures
        ({
            let layers = command_layers(c);
            let n = c.env_vars.len() as int;
            &&& layers.len() == 1 + n + (if c.dir is Some {
                1int
            } else {
                0
            })
            &&& layers[0] == (Layer::Command { program: c.program, args: c.args })
            &&& forall|i: int|
                0 <= i < n ==> #[trigger] layers[i + 1] == (Layer::Env {
                    key: c.env_vars[i].0,
                    value: c.env_vars[i].1,
                })
            &&& c.dir matches Some(dir) ==> layers[n + 1] == Layer::Dir(dir)
        }),
{
}

/// What is logged of a command is its variables, the program, the arguments in
/// their order and the directory, each word as a shell reads it back.
pub proof fn law_commands_are_shown_in_order(
    c: CmdView,
    arg: Seq<char>,
    key: Seq<char>,
    dir: Seq<char>,
)
    ensures
        shell_text(bare_command(c.program)) == shell_word(c.program),
        c.dir is None ==> shell_text(c.arg(arg)) == shell_text(c) + seq![' '] + shell_word(arg),
        c.dir is None ==> shell_text(c.dir(dir)) == shell_text(c) + "  # in "@ + dir,
        c.env_vars.len() == 0 ==> shell_text(c.env(key, arg)) == shell_word(key) + seq!['=']
            + shell_word(arg) + seq![' '] + shell_text(c),
        log_text(c) == "> "@ + shell_text(c) + "\n"@,
{
    assert(c.args.push(arg).drop_last() =~= c.args);
    assert(c.env_vars.push((key, arg)).drop_last() =~= c.env_vars);
    assert(shell_text(bare_command(c.program)) =~= shell_word(c.program));
    if c.dir is None {
        assert(shell_text(c.arg(arg)) =~= shell_text(c) + seq![' '] + shell_word(arg));
        assert(shell_text(c.dir(dir)) =~= shell_text(c) + "  # in "@ + dir);
    }
    if c.env_vars.len() == 0 {
        assert(shell_text(c.env(key, arg)) =~= shell_word(key) + seq!['='] + shell_word(arg) + seq![
            ' ',
        ] + shell_text(c));
    }
}

/// The first word is the program and every other word is one argument, in order,
/// as it was written. What is added to a command goes to the end of what is
/// there and changes nothing else.
pub proof fn law_words_are_program_and_arguments(
    words: Seq<Seq<char>>,
    c: CmdView,
    arg: Seq<char>,
    key: Seq<char>,
    value: Seq<char>,
    dir: Seq<char>,
    i: int,
)
    requires
        words.len() > 0,
    ensures
        command_of_words(words).program == words[0],
        command_of_words(words).args.len() == words.len() - 1,
        1 <= i < words.len() ==> command_of_words(words).args[i - 1] == words[i],
        command_of_words(words).env_vars.len() == 0,
        command_of_words(words).dir is None,
        c.arg(arg).args.last() == arg && c.arg(arg).args.drop_last() =~= c.args,
        c.arg(arg).program == c.program && c.arg(arg).env_vars == c.env_vars && c.arg(arg).dir
            == c.dir,
        c.env(key, value).env_vars.last() == (key, value) && c.env(
            key,
            value,
        ).env_vars.drop_last() =~= c.env_vars,
        c.env(key, value).program == c.program && c.env(key, value).args == c.args && c.env(
            key,
            value,
        ).dir == c.dir,
        c.dir(dir).dir == Some(dir),
        c.dir(dir).program == c.program && c.dir(dir).args == c.args && c.dir(dir).env_vars
            == c.env_vars,
{
}

/// A command finds for a variable what was set under its name first, and nothing
/// where nothing was.
pub proof fn law_first_setting_counts(vars: Seq<(Seq<char>, Seq<char>)>, key: Seq<char>, i: int)
    requires
        0 <= i <= vars.len(),
        forall|j: int| 0 <= j < i ==> (#[trigger] vars[j]).0 != key,
    ensures
        i == vars.len() ==> variable(vars, key) is None,
        i < vars.len() && vars[i].0 == key ==> variable(vars, key) == Some(vars[i].1),
    decreases vars.len(),
{
    if vars.len() > 0 {
        let rest = vars.drop_last();
        if i < vars.len() {
            law_first_setting_counts(rest, key, i);
        } else {
            law_first_setting_counts(rest, key, i - 1);
        }
    }
}

/// A shell gives a meaning of its own to white space, to quotes and backslashes,
/// and to what it expands, groups, redirects or ends commands with. A word with
/// any of them is quoted, and any other word stands as it is.
pub proof fn law_special_characters_are_quoted(s: Seq<char>, i: int)
    requires
        0 <= i < s.len(),
    ensures
        is_special(s[i]) <==> text::is_white(s[i]) || "\"'\\$`!*?[]{}()<>|&;#~"@.contains(s[i]),
        is_special(s[i]) ==> shell_word(s).len() >= s.len() + 2,
        is_special(s[i]) && !s.contains('\'') ==> shell_word(s) =~= "'"@ + s + "'"@,
        s.contains('\'') ==> shell_word(s)[0] == '"' && shell_word(s).last() == '"',
        (forall|j: int| 0 <= j < s.len() ==> !is_special(#[trigger] s[j])) ==> shell_word(s) == s,
        shell_word(Seq::<char>::empty()) =~= "''"@,
        is_special_in_quotes(s[i]) <==> "\"\\$`"@.contains(s[i]),
{
    reveal_strlit("\"'\\$`!*?[]{}()<>|&;#~");
    reveal_strlit("\"\\$`");
    reveal_strlit("'");
    reveal_strlit("''");
    let c = s[i];
    let all = "\"'\\$`!*?[]{}()<>|&;#~"@;
    assert(all[0] == '"' && all[1] == '\'' && all[2] == '\\' && all[3] == '$' && all[4] == '`'
        && all[5] == '!' && all[6] == '*' && all[7] == '?' && all[8] == '[' && all[9] == ']'
        && all[10] == '{' && all[11] == '}' && all[12] == '(' && all[13] == ')' && all[14] == '<'
        && all[15] == '>' && all[16] == '|' && all[17] == '&' && all[18] == ';' && all[19] == '#'
        && all[20] == '~' && all.len() == 21);
    let quoted = "\"\\$`"@;
    assert(quoted[0] == '"' && quoted[1] == '\\' && quoted[2] == '$' && quoted[3] == '`'
        && quoted.len() == 4);
    lemma_backslashed_grows(s);
    if s.contains('\'') {
        let j = choose|j: int| 0 <= j < s.len() && s[j] == '\'';
        assert(is_special(s[j]));
    }
}

proof fn lemma_backslashed_grows(s: Seq<char>)
    ensures
        backslashed(s).len() >= s.len(),
    decreases s.len(),
{
    if s.len() > 0 {
        lemma_backslashed_grows(s.drop_last());
    }
}

} // verus!
