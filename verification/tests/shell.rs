use clishe::{Call, Command, Failure, Node, Phase, Reply, Shell, Usage};

#[derive(Clone, Copy, Debug, PartialEq)]
enum Order {
    Lettuce,
    Beef,
    Spoiled,
}

impl Command<String, String> for Order {
    fn run(self, args: Vec<String>, ctx: &mut String) -> Result<String, String> {
        match self {
            Order::Lettuce => {
                *ctx = match args.first() {
                    Some(name) => format!("Hello, {}!", name),
                    None => "Hello, world!".to_owned(),
                };
                Ok(ctx.clone())
            }
            Order::Beef => {
                *ctx = format!("Hello, {}!", args[0]);
                Ok(ctx.clone())
            }
            Order::Spoiled => {
                *ctx = "spoiled".to_owned();
                Err("the meat is spoiled".to_owned())
            }
        }
    }
}

fn planted(tree: Node<Order>, name: &str, child: Node<Order>) -> Node<Order> {
    match tree.with(name.to_owned(), child) {
        Ok(tree) => tree,
        Err(_) => panic!("the name {} is taken", name),
    }
}

fn market() -> Node<Order> {
    let veggies = planted(Node::dispatcher(), "lettuce", Node::command(Order::Lettuce, 0, 1));
    let meat = planted(Node::dispatcher(), "beef", Node::command(Order::Beef, 1, 1));
    let meat = planted(meat, "spoiled", Node::command(Order::Spoiled, 0, 0));
    let market = planted(Node::dispatcher(), "veggies", veggies);
    planted(market, "meat", meat)
}

fn fresh() -> Shell<Order, String> {
    Shell::new("shell".to_owned())
}

fn list(items: &[&str]) -> Vec<String> {
    items.iter().map(|item| item.to_string()).collect()
}

#[test]
fn a_greeting_then_q() {
    let tree = market();
    let mut ctx = String::new();
    let mut shell = fresh();
    assert_eq!(shell.feed(&tree, &mut ctx, "veggies lettuce friend"), Reply::Resolved);
    assert_eq!(ctx, "Hello, friend!");
    assert!(!shell.is_terminated());
    assert_eq!(shell.feed(&tree, &mut ctx, "q"), Reply::Exit);
    assert!(shell.is_terminated());
    assert_eq!(shell.finish(), Ok("Hello, friend!".to_owned()));
}

#[test]
fn a_new_shell_prompts_and_has_no_result() {
    let shell = fresh();
    assert_eq!(shell.name, "shell");
    assert_eq!(shell.phase, Phase::Prompting);
    assert!(!shell.is_terminated());
    assert_eq!(shell.finish(), Err(Failure::NoResult));
}

#[test]
fn leaving_at_once_gives_no_result() {
    let tree = market();
    let mut ctx = "before".to_owned();
    for word in ["exit", "quit", "q"] {
        let mut shell = fresh();
        assert_eq!(shell.feed(&tree, &mut ctx, word), Reply::Exit);
        assert!(shell.is_terminated());
        assert_eq!(shell.finish(), Err(Failure::NoResult));
    }
    assert_eq!(ctx, "before");
}

#[test]
fn exit_with_company_is_ordinary_input() {
    let tree = market();
    let mut ctx = "before".to_owned();
    let mut shell = fresh();
    let reply = shell.feed(&tree, &mut ctx, "exit now");
    let usage = Usage { node: "shell".to_owned(), children: list(&["veggies", "meat"]) };
    assert_eq!(reply, Reply::Refused(Failure::Help(usage)));
    assert!(!shell.is_terminated());
    assert_eq!(shell.phase, Phase::Prompting);
    assert_eq!(ctx, "before");
    assert!(matches!(shell.feed(&tree, &mut ctx, "now q"), Reply::Refused(Failure::Help(_))));
    assert!(matches!(shell.feed(&tree, &mut ctx, "Exit"), Reply::Refused(Failure::Help(_))));
    assert!(!shell.is_terminated());
    assert_eq!(shell.feed(&tree, &mut ctx, " exit  "), Reply::Exit);
    assert!(shell.is_terminated());
}

#[test]
fn a_quoted_exit_is_still_an_exit() {
    let tree = market();
    let mut ctx = String::new();
    let mut shell = fresh();
    assert_eq!(shell.feed(&tree, &mut ctx, "'quit'"), Reply::Exit);
    assert!(shell.is_terminated());
}

#[test]
fn mismatched_quotes_leave_the_last_result() {
    let tree = market();
    let mut ctx = String::new();
    let mut shell = fresh();
    assert_eq!(shell.feed(&tree, &mut ctx, "meat beef Sam"), Reply::Resolved);
    assert_eq!(shell.feed(&tree, &mut ctx, "meat beef \"Ann"), Reply::Unbalanced);
    assert_eq!(shell.phase, Phase::Prompting);
    assert_eq!(ctx, "Hello, Sam!");
    assert_eq!(shell.last, Ok("Hello, Sam!".to_owned()));
    assert_eq!(shell.feed(&tree, &mut ctx, "quit"), Reply::Exit);
    assert_eq!(shell.finish(), Ok("Hello, Sam!".to_owned()));
}

#[test]
fn a_refused_line_leaves_the_last_result() {
    let tree = market();
    let mut ctx = String::new();
    let mut shell = fresh();
    assert_eq!(shell.feed(&tree, &mut ctx, "veggies lettuce"), Reply::Resolved);
    assert_eq!(shell.last, Ok("Hello, world!".to_owned()));

    assert!(matches!(shell.feed(&tree, &mut ctx, "meat beef"), Reply::Refused(Failure::Malformed(_))));
    assert_eq!(shell.last, Ok("Hello, world!".to_owned()));
    let usage = Usage { node: "meat".to_owned(), children: list(&["beef", "spoiled"]) };
    assert_eq!(shell.feed(&tree, &mut ctx, "meat pork"), Reply::Refused(Failure::Help(usage)));
    assert_eq!(shell.last, Ok("Hello, world!".to_owned()));
    assert!(matches!(shell.feed(&tree, &mut ctx, ""), Reply::Refused(Failure::Help(_))));
    assert_eq!(shell.last, Ok("Hello, world!".to_owned()));
    assert_eq!(ctx, "Hello, world!");
    assert_eq!(shell.phase, Phase::Prompting);
}

#[test]
fn a_failed_command_becomes_the_last_result() {
    let tree = market();
    let mut ctx = String::new();
    let mut shell = fresh();
    assert_eq!(shell.feed(&tree, &mut ctx, "meat beef Sam"), Reply::Resolved);
    assert_eq!(shell.feed(&tree, &mut ctx, "meat spoiled"), Reply::Resolved);
    assert_eq!(ctx, "spoiled");
    assert_eq!(shell.last, Err(Failure::Domain("the meat is spoiled".to_owned())));
    assert!(!shell.is_terminated());
    assert_eq!(shell.feed(&tree, &mut ctx, "q"), Reply::Exit);
    assert_eq!(shell.finish(), Err(Failure::Domain("the meat is spoiled".to_owned())));
}

#[test]
fn the_state_lasts_for_the_session() {
    let tree = market();
    let mut ctx = String::new();
    let mut shell = fresh();
    shell.feed(&tree, &mut ctx, "meat beef Sam");
    shell.feed(&tree, &mut ctx, "veggies lettuce 'Ann Lee'");
    assert_eq!(ctx, "Hello, Ann Lee!");
    shell.feed(&tree, &mut ctx, "exit");
    assert_eq!(shell.finish(), Ok("Hello, Ann Lee!".to_owned()));
}

#[test]
fn a_shell_that_ended_ignores_lines() {
    let tree = market();
    let mut ctx = String::new();
    let mut shell = fresh();
    shell.feed(&tree, &mut ctx, "meat beef Sam");
    shell.feed(&tree, &mut ctx, "q");
    assert_eq!(shell.feed(&tree, &mut ctx, "meat beef Ann"), Reply::Ignored);
    assert_eq!(shell.receive(&tree, "meat beef Ann"), Reply::Ignored);
    assert!(shell.is_terminated());
    assert_eq!(ctx, "Hello, Sam!");
    assert_eq!(shell.finish(), Ok("Hello, Sam!".to_owned()));
}

#[test]
fn a_failed_read_ends_the_shell() {
    let tree = market();
    let mut ctx = String::new();
    let mut shell = fresh();
    shell.feed(&tree, &mut ctx, "meat beef Sam");
    shell.abort("end of input".to_owned());
    assert!(shell.is_terminated());
    assert_eq!(shell.name, "shell");
    assert_eq!(shell.finish(), Err(Failure::Io("end of input".to_owned())));
}

#[test]
fn receiving_and_executing_are_two_steps() {
    let tree = market();
    let mut ctx = "before".to_owned();
    let mut shell = fresh();
    assert_eq!(shell.receive(&tree, "meat beef Sam"), Reply::Resolved);
    assert_eq!(shell.phase, Phase::Executing(Call { target: Order::Beef, args: list(&["Sam"]) }));
    assert_eq!(shell.last, Err(Failure::NoResult));
    assert_eq!(ctx, "before");

    assert_eq!(shell.receive(&tree, "q"), Reply::Ignored);
    assert_eq!(shell.phase, Phase::Executing(Call { target: Order::Beef, args: list(&["Sam"]) }));

    shell.execute(&mut ctx);
    assert_eq!(shell.phase, Phase::Prompting);
    assert_eq!(shell.last, Ok("Hello, Sam!".to_owned()));
    assert_eq!(ctx, "Hello, Sam!");

    shell.execute(&mut ctx);
    assert_eq!(shell.phase, Phase::Prompting);
    assert_eq!(shell.last, Ok("Hello, Sam!".to_owned()));
}

#[test]
fn a_pending_command_runs_before_the_next_line() {
    let tree = market();
    let mut ctx = String::new();
    let mut shell = fresh();
    assert_eq!(shell.receive(&tree, "meat beef Sam"), Reply::Resolved);
    assert_eq!(shell.feed(&tree, &mut ctx, "veggies lettuce"), Reply::Ignored);
    assert_eq!(ctx, "Hello, Sam!");
    assert_eq!(shell.phase, Phase::Prompting);
    assert_eq!(shell.last, Ok("Hello, Sam!".to_owned()));
}

#[test]
fn the_name_of_the_shell_heads_the_tokens() {
    let tree = market();
    let mut ctx = String::new();
    let mut shell: Shell<Order, String> = Shell::new("market".to_owned());
    let usage = Usage { node: "market".to_owned(), children: list(&["veggies", "meat"]) };
    assert_eq!(shell.feed(&tree, &mut ctx, "fish"), Reply::Refused(Failure::Help(usage)));
    assert_eq!(shell.feed(&tree, &mut ctx, "market veggies lettuce"), Reply::Refused(Failure::Help(
        Usage { node: "market".to_owned(), children: list(&["veggies", "meat"]) }
    )));
    assert_eq!(shell.feed(&tree, &mut ctx, "veggies lettuce"), Reply::Resolved);
    assert_eq!(ctx, "Hello, world!");
}
