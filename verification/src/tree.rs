//! The tree of dispatchers and commands, and the routing of tokens down it.

use vstd::prelude::*;
use crate::arguments::{parse_arguments, values_for, Arity};
use crate::command::{settle, settled, Command};
use crate::failure::{outcome_view, Failure, FailureView, Usage, UsageView};
use crate::text::{from_index, texts};

verus! {

/// A child of a dispatcher under the name it is reached by.
#[derive(Debug)]
pub struct Entry<K> {
    pub name: String,
    pub node: Node<K>,
}

/// A node of the tree. The tree is built once and then only read.
#[derive(Debug)]
pub enum Node<K> {
    /// A leaf: the command `target`, which takes values as `arity` says.
    Command { target: K, arity: Arity },
    /// A node that routes to its children by name and does nothing else.
    /// The order of the children is that of their registration.
    Dispatcher { children: Vec<Entry<K>> },
}

/// A command found by routing, with the values parsed for it.
#[derive(Debug, PartialEq, Eq)]
pub struct Call<K> {
    pub target: K,
    pub args: Vec<String>,
}

/// Where routing ends.
pub ghost enum Resolution<K> {
    /// A dispatcher could not route and shows this usage.
    Help(UsageView),
    /// A command was reached and the parser refused its tokens.
    Malformed,
    /// A command was reached and received these values.
    Call { target: K, args: Seq<Seq<char>> },
}

/// The names of the children, in order.
pub open spec fn names<K>(children: Seq<Entry<K>>) -> Seq<Seq<char>> {
    children.map_values(|entry: Entry<K>| entry.name@)
}

/// The index of the first child called exactly `word`.
pub open spec fn position<K>(children: Seq<Entry<K>>, word: Seq<char>) -> Option<int>
    decreases children.len(),
{
    if children.len() == 0 {
        None
    } else {
        match position(children.drop_last(), word) {
            Some(i) => Some(i),
            None => if children.last().name@ == word {
                Some(children.len() - 1)
            } else {
                None
            },
        }
    }
}

/// Where the tokens `rest` lead from `node`, reached under `name`.
///
/// A dispatcher with no token left, or whose next token names none of its
/// children, shows its usage. Otherwise it consumes that one token and the
/// child it names goes on with the others. A command hands all that is left
/// to the argument parser.
pub open spec fn resolve<K>(node: Node<K>, name: Seq<char>, rest: Seq<Seq<char>>) -> Resolution<K>
    decreases node,
{
    match node {
        Node::Command { target, arity } => match values_for(name, arity, rest) {
            Some(args) => Resolution::Call { target, args },
            None => Resolution::Malformed,
        },
        Node::Dispatcher { children } => {
            // The bound on the index holds of every position; it stands here
            // so that the recursion is seen to descend.
            if rest.len() > 0 && position(children@, rest[0]) is Some && 0 <= position(
                children@,
                rest[0],
            ).unwrap() < children@.len() {
                let i = position(children@, rest[0]).unwrap();
                resolve(children@[i].node, rest[0], rest.skip(1))
            } else {
                Resolution::Help(UsageView { node: name, children: names(children@) })
            }
        },
    }
}

/// Where a whole token vector leads from the root of a tree. The first
/// token stands for the program's name and is the name of the root.
pub open spec fn route<K>(tree: Node<K>, tokens: Seq<Seq<char>>) -> Resolution<K> {
    if tokens.len() == 0 {
        resolve(tree, Seq::empty(), Seq::empty())
    } else {
        resolve(tree, tokens[0], tokens.skip(1))
    }
}

/// Whether no two children share a name.
pub open spec fn distinct_names<K>(children: Seq<Entry<K>>) -> bool {
    forall|i: int, j: int|
        0 <= i < j < children.len() ==> (#[trigger] children[i]).name@ != (
        #[trigger] children[j]).name@
}

/// Whether a tree is built as it should be: within every dispatcher no two
/// children share a name, and no command asks for more values than it
/// accepts.
pub open spec fn well_formed<K>(node: Node<K>) -> bool
    decreases node,
{
    match node {
        Node::Command { target, arity } => arity.least <= arity.most,
        Node::Dispatcher { children } => distinct_names(children@) && forall|i: int|
            0 <= i < children@.len() ==> well_formed((#[trigger] children@[i]).node),
    }
}

/// A position is an index of a child with that name, and no child before it
/// has the name.
pub proof fn lemma_position<K>(children: Seq<Entry<K>>, word: Seq<char>)
    ensures
        match position(children, word) {
            Some(i) => 0 <= i < children.len() && children[i].name@ == word && forall|j: int|
                0 <= j < i ==> (#[trigger] children[j]).name@ != word,
            None => forall|j: int|
                0 <= j < children.len() ==> (#[trigger] children[j]).name@ != word,
        },
    decreases children.len(),
{
    if children.len() > 0 {
        lemma_position(children.drop_last(), word);
        assert(forall|j: int|
            0 <= j < children.len() - 1 ==> children.drop_last()[j] == #[trigger] children[j]);
    }
}

/// The outcome of an execution whose command did what `declared` says: the
/// state it left and its result, a failure of the command being a domain
/// failure with the same message.
pub open spec fn executed<C, R>(declared: (C, Result<R, Seq<char>>)) -> (C, Result<R, FailureView>) {
    (declared.0, settled(declared.1))
}

/// What running a command yields, where the command declares its effect,
/// is a function of the command, its values and the state it starts from:
/// two executions that agree on the three agree on the state they leave and
/// on the result.
pub proof fn law_declared_effect_repeats<K: Command<C, R>, C, R>(
    first: (K, Seq<Seq<char>>, C),
    second: (K, Seq<Seq<char>>, C),
)
    requires
        first == second,
        first.0.effect(first.1, first.2) is Some,
    ensures
        second.0.effect(second.1, second.2) is Some,
        executed(first.0.effect(first.1, first.2)->0) == executed(
            second.0.effect(second.1, second.2)->0,
        ),
{
}

/// A dispatcher that is given no token, or a token that names none of its
/// children, shows its own usage, whatever its children are.
pub proof fn law_unmatched_head_shows_help<K>(
    node: Node<K>,
    name: Seq<char>,
    rest: Seq<Seq<char>>,
)
    requires
        node is Dispatcher,
        rest.len() == 0 || position(node->children@, rest[0]) is None,
    ensures
        resolve(node, name, rest) == Resolution::<K>::Help(
            UsageView { node: name, children: names(node->children@) },
        ),
{
}

/// Routing descends one level per token: a dispatcher whose child `i` is
/// called `head` routes `head` and then `rest` exactly as that child, reached
/// under `head`, routes `rest`. The same holds from the root, where one more
/// token stands for the program's name.
pub proof fn law_routing_descends<K>(
    node: Node<K>,
    name: Seq<char>,
    head: Seq<char>,
    rest: Seq<Seq<char>>,
    i: int,
)
    requires
        node is Dispatcher,
        position(node->children@, head) == Some(i),
    ensures
        0 <= i < node->children@.len(),
        resolve(node, name, seq![head] + rest) == resolve(node->children@[i].node, head, rest),
        route(node, seq![name, head] + rest) == route(node->children@[i].node, seq![head] + rest),
{
    lemma_position(node->children@, head);
    assert((seq![head] + rest).skip(1) =~= rest);
    assert((seq![name, head] + rest).skip(1) =~= seq![head] + rest);
}

/// In a well-formed dispatcher a name is held by one child at most, so the
/// child a token leads to is the child that has the token as its name.
pub proof fn law_distinct_names_route_by_name<K>(children: Seq<Entry<K>>, word: Seq<char>, i: int)
    requires
        distinct_names(children),
        0 <= i < children.len(),
        children[i].name@ == word,
    ensures
        position(children, word) == Some(i),
{
    lemma_position(children, word);
}

fn find_child<K>(children: &Vec<Entry<K>>, word: &String) -> (r: Option<usize>)
    ensures
        match r {
            Some(i) => position(children@, word@) == Some(i as int),
            None => position(children@, word@) is None,
        },
{
    let mut i: usize = 0;
    while i < children.len()
        invariant
            i <= children.len(),
            position(children@.subrange(0, i as int), word@) is None,
        decreases children.len() - i,
    {
        assert(children@.subrange(0, i + 1).drop_last() =~= children@.subrange(0, i as int));
        if children[i].name == *word {
            proof {
                lemma_found(children@, word@, i as int);
            }
            return Some(i);
        }
        i += 1;
    }
    assert(children@.subrange(0, i as int) =~= children@);
    None
}

/// A child with the name, before which the name does not occur, is the
/// position of the name.
proof fn lemma_found<K>(children: Seq<Entry<K>>, word: Seq<char>, i: int)
    requires
        0 <= i < children.len(),
        children[i].name@ == word,
        position(children.subrange(0, i), word) is None,
    ensures
        position(children, word) == Some(i),
    decreases children.len(),
{
    if i == children.len() - 1 {
        assert(children.drop_last() =~= children.subrange(0, i));
    } else {
        assert(children.drop_last().subrange(0, i) =~= children.subrange(0, i));
        lemma_found(children.drop_last(), word, i);
    }
}

fn child_names<K>(children: &Vec<Entry<K>>) -> (r: Vec<String>)
    ensures
        texts(r@) == names(children@),
{
    let mut found: Vec<String> = Vec::new();
    let mut i: usize = 0;
    while i < children.len()
        invariant
            i <= children.len(),
            found@.len() == i,
            forall|j: int| 0 <= j < i ==> (#[trigger] found@[j])@ == children@[j].name@,
        decreases children.len() - i,
    {
        found.push(children[i].name.clone());
        i += 1;
    }
    assert(texts(found@) =~= names(children@));
    found
}

fn has_distinct_names<K>(children: &Vec<Entry<K>>) -> (r: bool)
    ensures
        r == distinct_names(children@),
{
    let mut j: usize = 0;
    while j < children.len()
        invariant
            j <= children.len(),
            distinct_names(children@.subrange(0, j as int)),
        decreases children.len() - j,
    {
        proof {
            lemma_position(children@, children@[j as int].name@);
        }
        match find_child(children, &children[j].name) {
            Some(i) => {
                if i != j {
                    return false;
                }
            },
            None => {},
        }
        j += 1;
    }
    assert(children@.subrange(0, j as int) =~= children@);
    true
}

impl<K> Node<K> {
    /// A leaf for `target`, which takes `least` to `most` values.
    pub fn command(target: K, least: usize, most: usize) -> (node: Self)
        ensures
            node == (Node::Command { target, arity: Arity { least, most } }),
            well_formed(node) <==> least <= most,
    {
        Node::Command { target, arity: Arity { least, most } }
    }

    /// A dispatcher without children.
    pub fn dispatcher() -> (node: Self)
        ensures
            node matches Node::Dispatcher { children } && children@.len() == 0,
            well_formed(node),
    {
        Node::Dispatcher { children: Vec::new() }
    }

    /// Tells whether the tree is well formed.
    pub fn is_well_formed(&self) -> (r: bool)
        ensures
            r == well_formed(*self),
        decreases *self,
    {
        match self {
            Node::Command { target, arity } => arity.least <= arity.most,
            Node::Dispatcher { children } => {
                if !has_distinct_names(children) {
                    return false;
                }
                let mut i: usize = 0;
                while i < children.len()
                    invariant
                        i <= children.len(),
                        *self == (Node::Dispatcher { children: *children }),
                        forall|j: int| 0 <= j < i ==> well_formed((#[trigger] children@[j]).node),
                    decreases children.len() - i,
                {
                    assert(decreases_to!(*self => self->children));
                    if !children[i].node.is_well_formed() {
                        return false;
                    }
                    i += 1;
                }
                true
            },
        }
    }

    /// Registers `child` under `name`, behind the children registered so
    /// far. Only a dispatcher takes children, and only under a name that
    /// none of its children has: otherwise the tree is handed back as it
    /// was, as `Err`.
    pub fn with(self, name: String, child: Node<K>) -> (r: Result<Self, Self>)
        ensures
            match self {
                Node::Dispatcher { children } if position(children@, name@) is None => r
                    matches Ok(Node::Dispatcher { children: grown }) && grown@ == children@.push(
                    Entry { name, node: child },
                ),
                _ => r == Err::<Self, Self>(self),
            },
            well_formed(self) && well_formed(child) && r is Ok ==> well_formed(r->Ok_0),
    {
        match self {
            Node::Dispatcher { children } => {
                let mut children = children;
                match find_child(&children, &name) {
                    None => {
                        proof {
                            lemma_position(children@, name@);
                        }
                        children.push(Entry { name, node: child });
                        Ok(Node::Dispatcher { children })
                    },
                    Some(_) => Err(Node::Dispatcher { children }),
                }
            },
            Node::Command { target, arity } => Err(Node::Command { target, arity }),
        }
    }
}

impl<K: Copy> Node<K> {
    /// Routes a token vector down the tree. The first token stands for the
    /// program's name. Gives the command reached with its parsed values, the
    /// usage of the dispatcher that could not route, or the parser's refusal
    /// of the command's tokens.
    pub fn resolve(&self, tokens: &Vec<String>) -> (r: Result<Call<K>, Failure>)
        ensures
            match route(*self, texts(tokens@)) {
                Resolution::Help(usage) => r matches Err(failure) && failure@
                    == FailureView::Help(usage),
                Resolution::Malformed => r matches Err(Failure::Malformed(_)),
                Resolution::Call { target, args } => r matches Ok(call) && call.target == target
                    && texts(call.args@) == args,
            },
    {
        let unnamed = String::new();
        let mut node: &Node<K> = self;
        let mut name: &String = &unnamed;
        let mut at: usize = 0;
        if tokens.len() > 0 {
            name = &tokens[0];
            at = 1;
        }
        assert(texts(tokens@).skip(0) =~= texts(tokens@));
        assert(tokens.len() == 0 ==> texts(tokens@) =~= Seq::<Seq<char>>::empty());
        loop
            invariant
                at <= tokens.len(),
                resolve(*node, name@, texts(tokens@).skip(at as int)) == route(
                    *self,
                    texts(tokens@),
                ),
            decreases tokens.len() - at,
        {
            match node {
                Node::Command { target, arity } => {
                    let rest = from_index(tokens, at);
                    return match parse_arguments(name, *arity, &rest) {
                        Ok(args) => Ok(Call { target: *target, args }),
                        Err(message) => Err(Failure::Malformed(message)),
                    };
                },
                Node::Dispatcher { children } => {
                    let found = if at < tokens.len() {
                        find_child(children, &tokens[at])
                    } else {
                        None
                    };
                    match found {
                        Some(i) => {
                            proof {
                                lemma_position(children@, tokens@[at as int]@);
                                assert(texts(tokens@).skip(at as int).skip(1) =~= texts(
                                    tokens@,
                                ).skip(at + 1));
                            }
                            node = &children[i].node;
                            name = &tokens[at];
                            at += 1;
                        },
                        None => {
                            let usage = Usage {
                                node: name.clone(),
                                children: child_names(children),
                            };
                            return Err(Failure::Help(usage));
                        },
                    }
                },
            }
        }
    }

    /// Routes a token vector down the tree and runs the command it reaches.
    ///
    /// Where routing ends at a dispatcher, the outcome is that dispatcher's
    /// help and the state is untouched. Where the parser refuses the
    /// command's tokens, the outcome is a malformed-input failure and the
    /// state is untouched. Otherwise the command runs on the state, and the
    /// outcome is its value or its own failure.
    pub fn run<C, R>(&self, ctx: &mut C, tokens: &Vec<String>) -> (res: Result<R, Failure>)
        where K: Command<C, R>
        ensures
            match route(*self, texts(tokens@)) {
                Resolution::Help(usage) => *final(ctx) == *old(ctx) && outcome_view(res) == Err::<
                    R,
                    FailureView,
                >(FailureView::Help(usage)),
                Resolution::Malformed => *final(ctx) == *old(ctx) && res matches Err(
                    Failure::Malformed(_),
                ),
                Resolution::Call { target, args } => (res is Ok || res matches Err(
                    Failure::Domain(_),
                )) && (target.effect(args, *old(ctx)) matches Some(declared) ==> (
                    *final(ctx),
                    outcome_view(res),
                ) == executed(declared)),
            },
            self matches Node::Dispatcher { children } && (tokens.len() <= 1 || position(
                children@,
                tokens@[1]@,
            ) is None) ==> *final(ctx) == *old(ctx) && res matches Err(Failure::Help(_)),
    {
        match self.resolve(tokens) {
            Ok(call) => call.execute(ctx),
            Err(failure) => Err(failure),
        }
    }
}

impl<K> Call<K> {
    /// Runs the command on the state, with the values parsed for it. The
    /// outcome is the command's value, or a domain failure that carries the
    /// command's own message. Where the command declares its effect, the
    /// state and the outcome are the declared ones.
    pub fn execute<C, R>(self, ctx: &mut C) -> (res: Result<R, Failure>)
        where K: Command<C, R>
        ensures
            res is Ok || res matches Err(Failure::Domain(_)),
            self.target.effect(texts(self.args@), *old(ctx)) matches Some(declared) ==> (
                *final(ctx),
                outcome_view(res),
            ) == executed(declared),
    {
        settle(self.target.run(self.args, ctx))
    }
}

} // verus!
