//! The interactive shell: a state machine that is fed one line at a time
//! and routes it down the same tree as a one-shot invocation.

use vstd::prelude::*;
use vstd::string::StringExecFns;
use crate::command::Command;
use crate::failure::{outcome_view, Failure, FailureView};
use crate::text::{texts, with_head};
use crate::tree::{executed, route, Call, Node, Resolution};
use crate::words::{tokenize, tokens_of};

verus! {

/// What the shell shows when it waits for a line.
pub const PROMPT: &'static str = "> ";

/// Whether `word` is one of the three exit directives. The comparison is
/// exact and case-sensitive.
pub open spec fn is_exit_word(word: Seq<char>) -> bool {
    word == "exit"@ || word == "quit"@ || word == "q"@
}

/// Whether the tokens of a line ask the shell to end: exactly one token,
/// and that token an exit directive.
pub open spec fn asks_to_exit(tokens: Seq<Seq<char>>) -> bool {
    tokens.len() == 1 && is_exit_word(tokens[0])
}

/// Tells whether a tokenized line is a request to leave the shell.
pub fn is_asking_to_exit(args: &Vec<String>) -> (r: bool)
    ensures
        r == asks_to_exit(texts(args@)),
{
    if args.len() != 1 {
        return false;
    }
    let exit = String::from_str("exit");
    let quit = String::from_str("quit");
    let q = String::from_str("q");
    args[0] == exit || args[0] == quit || args[0] == q
}

/// Where a shell stands between two calls.
#[derive(Debug, PartialEq, Eq)]
pub enum Phase<K> {
    /// Waiting for a line.
    Prompting,
    /// A line resolved to this command, which has not run yet.
    Executing(Call<K>),
    /// An exit directive or a failed read ended the shell.
    Terminated,
}

/// A phase with the pending command's values as plain text.
pub ghost enum PhaseView<K> {
    Prompting,
    Executing { target: K, args: Seq<Seq<char>> },
    Terminated,
}

impl<K> View for Phase<K> {
    type V = PhaseView<K>;

    open spec fn view(&self) -> PhaseView<K> {
        match *self {
            Phase::Prompting => PhaseView::Prompting,
            Phase::Executing(call) => PhaseView::Executing {
                target: call.target,
                args: texts(call.args@),
            },
            Phase::Terminated => PhaseView::Terminated,
        }
    }
}

/// What a shell answers to a line, for its caller to show.
#[derive(Debug, PartialEq, Eq)]
pub enum Reply {
    /// The quotes of the line do not match. Nothing was executed.
    Unbalanced,
    /// The line was an exit directive. The shell has ended.
    Exit,
    /// The line led to a dispatcher's help or was refused by the argument
    /// parser. Nothing was executed.
    Refused(Failure),
    /// The line resolved to a command.
    Resolved,
    /// The shell was not waiting for a line and ignored this one.
    Ignored,
}

/// A reply with its failure, if any, left out.
pub ghost enum ReplyKind {
    Unbalanced,
    Exit,
    Help,
    Malformed,
    Resolved,
    Ignored,
}

impl Reply {
    /// Which of the answers this is; a refusal is told apart by its failure.
    pub open spec fn kind(self) -> ReplyKind {
        match self {
            Reply::Unbalanced => ReplyKind::Unbalanced,
            Reply::Exit => ReplyKind::Exit,
            Reply::Refused(Failure::Help(_)) => ReplyKind::Help,
            Reply::Refused(_) => ReplyKind::Malformed,
            Reply::Resolved => ReplyKind::Resolved,
            Reply::Ignored => ReplyKind::Ignored,
        }
    }
}

/// The tokens a prompting shell called `name` routes for a line: the
/// line's own tokens behind `name`, which stands for the program's name.
/// `None` where the line is not routed at all: its quotes do not match, or
/// it is an exit directive.
pub open spec fn routed_tokens(name: Seq<char>, line: Seq<char>) -> Option<Seq<Seq<char>>> {
    match tokens_of(line) {
        Some(tokens) if !asks_to_exit(tokens) => Some(seq![name] + tokens),
        _ => None,
    }
}

/// The phase a prompting shell called `name` enters on a line.
pub open spec fn received<K>(tree: Node<K>, name: Seq<char>, line: Seq<char>) -> PhaseView<K> {
    match tokens_of(line) {
        None => PhaseView::Prompting,
        Some(tokens) => if asks_to_exit(tokens) {
            PhaseView::Terminated
        } else {
            match route(tree, seq![name] + tokens) {
                Resolution::Call { target, args } => PhaseView::Executing { target, args },
                _ => PhaseView::Prompting,
            }
        },
    }
}

/// The phase a shell called `name` is in once it has taken a line: a shell
/// that is not prompting ignores the line.
pub open spec fn pending<K>(
    tree: Node<K>,
    name: Seq<char>,
    phase: PhaseView<K>,
    line: Seq<char>,
) -> PhaseView<K> {
    if phase is Prompting {
        received(tree, name, line)
    } else {
        phase
    }
}

/// What a prompting shell called `name` answers to a line.
pub open spec fn answered<K>(tree: Node<K>, name: Seq<char>, line: Seq<char>) -> ReplyKind {
    match tokens_of(line) {
        None => ReplyKind::Unbalanced,
        Some(tokens) => if asks_to_exit(tokens) {
            ReplyKind::Exit
        } else {
            match route(tree, seq![name] + tokens) {
                Resolution::Call { .. } => ReplyKind::Resolved,
                Resolution::Help(_) => ReplyKind::Help,
                Resolution::Malformed => ReplyKind::Malformed,
            }
        },
    }
}

/// A prompting shell keeps a command for execution only where the line's
/// quotes match, its tokens are no exit directive and routing them reaches a
/// command whose tokens the parser accepts. On a line whose quotes do not
/// match it stays prompting.
pub proof fn law_only_parsed_lines_execute<K>(tree: Node<K>, name: Seq<char>, line: Seq<char>)
    ensures
        received(tree, name, line) is Executing <==> (routed_tokens(name, line) matches Some(
            tokens,
        ) && route(tree, tokens) is Call),
        tokens_of(line) is None ==> received(tree, name, line) is Prompting && answered(
            tree,
            name,
            line,
        ) == ReplyKind::Unbalanced,
{
}

/// A prompting shell ends on a line exactly where the line's tokens are a
/// single exit directive. A directive with another token before or behind
/// it is routed like any other input.
pub proof fn law_exit_takes_the_whole_line<K>(tree: Node<K>, name: Seq<char>, line: Seq<char>)
    ensures
        received(tree, name, line) is Terminated <==> (tokens_of(line) matches Some(tokens)
            && tokens.len() == 1 && is_exit_word(tokens[0])),
        tokens_of(line) matches Some(tokens) ==> (tokens.len() != 1 ==> routed_tokens(name, line)
            == Some(seq![name] + tokens)),
{
}

/// Whether `shell` and `left` are what the run of a pending command leaves
/// of a shell and of the state `ctx`: the shell prompts again, and its last
/// result is the command's value or its own failure. Where the command
/// declares its effect, the state and the last result are the declared ones.
pub open spec fn ran<K: Command<C, R>, C, R>(
    target: K,
    args: Seq<Seq<char>>,
    ctx: C,
    shell: Shell<K, R>,
    left: C,
) -> bool {
    &&& shell.phase is Prompting
    &&& (shell.last is Ok || shell.last matches Err(Failure::Domain(_)))
    &&& (target.effect(args, ctx) matches Some(declared) ==> (left, outcome_view(shell.last))
        == executed(declared))
}

/// An interactive session over one tree. It remembers the outcome of the
/// last command that ran, and gives it up as its own result when it ends.
#[derive(Debug)]
pub struct Shell<K, R> {
    /// The token put in front of every line, in the place of the program's
    /// name.
    pub name: String,
    pub phase: Phase<K>,
    /// The outcome of the most recent command that ran.
    pub last: Result<R, Failure>,
}

impl<K: Copy, R> Shell<K, R> {
    /// A shell that waits for its first line. No command has run.
    pub fn new(name: String) -> (shell: Self)
        ensures
            shell.name == name,
            shell.phase is Prompting,
            outcome_view(shell.last) == Err::<R, FailureView>(FailureView::NoResult),
    {
        Shell { name, phase: Phase::Prompting, last: Err(Failure::NoResult) }
    }

    /// Takes one line. A shell that is not prompting ignores it.
    ///
    /// A prompting shell splits the line into tokens. Where the quotes do
    /// not match it stays prompting. Where the tokens are exactly one exit
    /// directive it ends. Otherwise it routes the tokens, with its name in
    /// front, down the tree: a command reached is kept for execution, a
    /// help or a refusal by the parser is handed back and the shell goes
    /// on prompting. The last result is never touched.
    pub fn receive(&mut self, tree: &Node<K>, line: &str) -> (reply: Reply)
        ensures
            final(self).name == old(self).name,
            final(self).last == old(self).last,
            old(self).phase is Prompting ==> final(self).phase@ == received(
                *tree,
                old(self).name@,
                line@,
            ) && reply.kind() == answered(*tree, old(self).name@, line@),
            !(old(self).phase is Prompting) ==> final(self).phase == old(self).phase
                && reply is Ignored,
            reply matches Reply::Refused(failure) ==> (routed_tokens(old(self).name@, line@)
                matches Some(tokens) && (route(*tree, tokens) matches Resolution::Help(usage)
                ==> failure@ == FailureView::Help(usage))),
    {
        match self.phase {
            Phase::Prompting => {},
            _ => {
                return Reply::Ignored;
            },
        }
        let tokens = match tokenize(line) {
            None => {
                return Reply::Unbalanced;
            },
            Some(tokens) => tokens,
        };
        if is_asking_to_exit(&tokens) {
            self.phase = Phase::Terminated;
            return Reply::Exit;
        }
        let routed = with_head(&self.name, &tokens);
        match tree.resolve(&routed) {
            Ok(call) => {
                self.phase = Phase::Executing(call);
                Reply::Resolved
            },
            Err(failure) => Reply::Refused(failure),
        }
    }

    /// Runs the command that the last line resolved to, makes its outcome
    /// the last result, and goes back to prompting. A shell with no command
    /// pending does nothing.
    pub fn execute<C>(&mut self, ctx: &mut C)
        where K: Command<C, R>
        ensures
            final(self).name == old(self).name,
            old(self).phase@ matches PhaseView::Executing { target, args } ==> ran(
                target,
                args,
                *old(ctx),
                *final(self),
                *final(ctx),
            ),
            !(old(self).phase is Executing) ==> final(self).phase == old(self).phase
                && final(self).last == old(self).last && *final(ctx) == *old(ctx),
    {
        let mut phase = Phase::Prompting;
        std::mem::swap(&mut self.phase, &mut phase);
        match phase {
            Phase::Executing(call) => {
                self.last = call.execute(ctx);
            },
            other => {
                self.phase = other;
            },
        }
    }

    /// Takes one line and runs the command it resolves to, if any. A
    /// command still pending from an earlier `receive` runs first, and the
    /// line is then ignored.
    ///
    /// The last result and the state change only where a command runs: a
    /// line whose quotes do not match, an exit directive, a displayed help
    /// and a refusal by the argument parser leave both as they were.
    pub fn feed<C>(&mut self, tree: &Node<K>, ctx: &mut C, line: &str) -> (reply: Reply)
        where K: Command<C, R>
        ensures
            final(self).name == old(self).name,
            old(self).phase is Prompting ==> reply.kind() == answered(
                *tree,
                old(self).name@,
                line@,
            ),
            !(old(self).phase is Prompting) ==> reply is Ignored,
            reply matches Reply::Refused(failure) ==> (routed_tokens(old(self).name@, line@)
                matches Some(tokens) && (route(*tree, tokens) matches Resolution::Help(usage)
                ==> failure@ == FailureView::Help(usage))),
            match pending(*tree, old(self).name@, old(self).phase@, line@) {
                PhaseView::Executing { target, args } => ran(
                    target,
                    args,
                    *old(ctx),
                    *final(self),
                    *final(ctx),
                ),
                after => final(self).phase@ == after && final(self).last == old(self).last
                    && *final(ctx) == *old(ctx),
            },
    {
        let reply = self.receive(tree, line);
        self.execute(ctx);
        reply
    }

    /// Ends the shell on a failure of the line editor or of an output
    /// stream. The failure becomes the shell's result.
    pub fn abort(&mut self, message: String)
        ensures
            final(self).name == old(self).name,
            final(self).phase is Terminated,
            outcome_view(final(self).last) == Err::<R, FailureView>(FailureView::Io(message@)),
    {
        self.phase = Phase::Terminated;
        self.last = Err(Failure::Io(message));
    }

    /// Whether the shell has ended.
    pub fn is_terminated(&self) -> (r: bool)
        ensures
            r == (self.phase is Terminated),
    {
        match self.phase {
            Phase::Terminated => true,
            _ => false,
        }
    }

    /// The shell's result: the outcome of the last command that ran.
    pub fn finish(self) -> (r: Result<R, Failure>)
        ensures
            r == self.last,
    {
        self.last
    }
}

} // verus!
