//! What an execution yields when it does not yield a value.

use vstd::prelude::*;
use vstd::string::StringExecFns;
use crate::text::texts;

verus! {

/// What a dispatcher shows when it cannot route: the name it was reached
/// under and the names of its children, in registration order.
#[derive(Debug, PartialEq, Eq)]
pub struct Usage {
    pub node: String,
    pub children: Vec<String>,
}

/// A usage notice as plain text.
pub ghost struct UsageView {
    pub node: Seq<char>,
    pub children: Seq<Seq<char>>,
}

impl View for Usage {
    type V = UsageView;

    open spec fn view(&self) -> UsageView {
        UsageView { node: self.node@, children: texts(self.children@) }
    }
}

/// Why an execution gave no value. The categories are disjoint: a caller
/// tells a displayed help from a fatal error by the variant alone.
#[derive(Debug, PartialEq, Eq)]
pub enum Failure {
    /// A dispatcher was given no token, or one that names no child, and
    /// showed its usage instead of executing anything.
    Help(Usage),
    /// The argument parser refused the tokens handed to a command; the text
    /// is the parser's own message.
    Malformed(String),
    /// The command ran and reported the failure itself.
    Domain(String),
    /// The line editor or an output stream failed.
    Io(String),
    /// A shell ended before any command ran.
    NoResult,
}

/// A failure as plain text.
pub ghost enum FailureView {
    Help(UsageView),
    Malformed(Seq<char>),
    Domain(Seq<char>),
    Io(Seq<char>),
    NoResult,
}

impl View for Failure {
    type V = FailureView;

    open spec fn view(&self) -> FailureView {
        match *self {
            Failure::Help(usage) => FailureView::Help(usage@),
            Failure::Malformed(message) => FailureView::Malformed(message@),
            Failure::Domain(message) => FailureView::Domain(message@),
            Failure::Io(message) => FailureView::Io(message@),
            Failure::NoResult => FailureView::NoResult,
        }
    }
}

/// An outcome with its failure, if any, as plain text.
pub open spec fn outcome_view<R>(outcome: Result<R, Failure>) -> Result<R, FailureView> {
    match outcome {
        Ok(value) => Ok(value),
        Err(failure) => Err(failure@),
    }
}

/// One indented line for each name, in order.
pub open spec fn listing(names: Seq<Seq<char>>) -> Seq<char>
    decreases names.len(),
{
    if names.len() == 0 {
        Seq::empty()
    } else {
        listing(names.drop_last()) + "    "@ + names.last() + "\n"@
    }
}

/// The text of a usage notice: a line that names the dispatcher, and the
/// list of its children.
pub open spec fn usage_text(usage: UsageView) -> Seq<char> {
    "usage: "@ + usage.node + " <subcommand>\n\nsubcommands:\n"@ + listing(usage.children)
}

/// The message of a failure, for the user to read.
pub open spec fn message_text(failure: FailureView) -> Seq<char> {
    match failure {
        FailureView::Help(usage) => usage_text(usage),
        FailureView::Malformed(message) => message,
        FailureView::Domain(message) => message,
        FailureView::Io(message) => message,
        FailureView::NoResult => "no result available (no command ran)"@,
    }
}

/// The exit status of a process that ends on `outcome`: zero on a value and
/// on a displayed help, one on every other failure.
pub open spec fn status_of<R>(outcome: Result<R, FailureView>) -> u8 {
    match outcome {
        Ok(_) => 0,
        Err(FailureView::Help(_)) => 0,
        Err(_) => 1,
    }
}

impl Usage {
    /// The notice as text.
    pub fn text(&self) -> (r: String)
        ensures
            r@ == usage_text(self@),
    {
        let mut text = String::from_str("usage: ");
        text.append(self.node.as_str());
        text.append(" <subcommand>\n\nsubcommands:\n");
        let ghost head = text@;
        let mut i: usize = 0;
        assert(texts(self.children@.subrange(0, 0)) =~= Seq::<Seq<char>>::empty());
        assert(text@ =~= head + listing(texts(self.children@.subrange(0, 0))));
        while i < self.children.len()
            invariant
                i <= self.children.len(),
                head == "usage: "@ + self.node@ + " <subcommand>\n\nsubcommands:\n"@,
                text@ == head + listing(texts(self.children@.subrange(0, i as int))),
            decreases self.children.len() - i,
        {
            let ghost before = texts(self.children@.subrange(0, i as int));
            text.append("    ");
            text.append(self.children[i].as_str());
            text.append("\n");
            i += 1;
            proof {
                let now = texts(self.children@.subrange(0, i as int));
                assert(now.drop_last() =~= before);
                assert(now.last() == self.children@[i - 1]@);
                assert(text@ =~= head + listing(now));
            }
        }
        assert(self.children@.subrange(0, i as int) =~= self.children@);
        text
    }
}

/// The exit status of a process that ends on `outcome`.
pub fn exit_status<R>(outcome: &Result<R, Failure>) -> (r: u8)
    ensures
        r == status_of(outcome_view(*outcome)),
{
    match outcome {
        Ok(_) => 0,
        Err(Failure::Help(_)) => 0,
        Err(_) => 1,
    }
}

impl Failure {
    /// The message of the failure, for the user to read.
    pub fn message(&self) -> (r: String)
        ensures
            r@ == message_text(self@),
    {
        match self {
            Failure::Help(usage) => usage.text(),
            Failure::Malformed(message) => message.clone(),
            Failure::Domain(message) => message.clone(),
            Failure::Io(message) => message.clone(),
            Failure::NoResult => String::from_str("no result available (no command ran)"),
        }
    }

    /// Whether this is a displayed help rather than an error.
    pub fn is_help(&self) -> (r: bool)
        ensures
            r == (self@ is Help),
    {
        match self {
            Failure::Help(_) => true,
            _ => false,
        }
    }
}

} // verus!
