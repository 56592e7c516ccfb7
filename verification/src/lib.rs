//! A command-hierarchy engine: a tree of dispatchers and commands, the routing
//! of a token vector down that tree, and the interactive shell that replays
//! the routing on every line it is fed.

pub mod arguments;
pub mod command;
pub mod failure;
pub mod shell;
pub mod text;
pub mod tree;
pub mod words;

pub use arguments::Arity;
pub use command::{settle, Command};
pub use failure::{exit_status, Failure, Usage};
pub use shell::{is_asking_to_exit, Phase, Reply, Shell, PROMPT};
pub use tree::{Call, Entry, Node};
pub use words::tokenize;
