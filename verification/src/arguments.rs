//! Handing a command's tokens to the argument parser.

use vstd::prelude::*;
use crate::text::{texts, with_head};

verus! {

/// How many values a command takes: at least `least`, at most `most`.
#[derive(Clone, Copy, Debug, PartialEq, Eq, Structural)]
pub struct Arity {
    pub least: usize,
    pub most: usize,
}

/// What the argument parser makes of `tokens`, the first of which stands for
/// the program's name, for a command called `name` that takes one positional
/// argument of `least` to `most` values, mandatory where `required` holds.
/// `None`: the parser refuses the tokens. `Some(None)`: it accepts them and
/// found no value. `Some(Some(values))`: it accepts them with these values.
pub uninterp spec fn parsed_values(
    name: Seq<char>,
    required: bool,
    least: nat,
    most: nat,
    tokens: Seq<Seq<char>>,
) -> Option<Option<Seq<Seq<char>>>>;

/// The values a command of arity `arity` called `name` receives from the
/// tokens that follow its name, or `None` where the parser refuses them.
pub open spec fn values_for(name: Seq<char>, arity: Arity, rest: Seq<Seq<char>>) -> Option<
    Seq<Seq<char>>,
> {
    match parsed_values(
        name,
        arity.least > 0,
        arity.least as nat,
        arity.most as nat,
        seq![name] + rest,
    ) {
        None => None,
        Some(None) => Some(Seq::empty()),
        Some(Some(values)) => Some(values),
    }
}

#[verifier::external_type_specification]
#[verifier::external_body]
pub struct ExParserError(clap::Error);

/// `clap::Command::try_get_matches_from` on a command that holds a single
/// positional argument with `min_values(least)`, `max_values(most)` and
/// `required(required)`, read back with `ArgMatches::values_of`. The outcome
/// is claimed to depend on the five arguments alone. Nothing is claimed of
/// which tokens the parser accepts, nor of the error it gives.
#[verifier::external_body]
fn parse(name: &str, required: bool, least: usize, most: usize, tokens: &Vec<String>) -> (r: Result<
    Option<Vec<String>>,
    clap::Error,
>)
    ensures
        r is Ok <==> parsed_values(name@, required, least as nat, most as nat, texts(tokens@))
            is Some,
        r matches Ok(found) ==> (match found {
            Some(values) => Some(texts(values@)),
            None => None,
        }) == parsed_values(name@, required, least as nat, most as nat, texts(tokens@)).unwrap(),
{
    let values = clap::Arg::new("values").min_values(least).max_values(most).required(required);
    let command = clap::Command::new(name).arg(values);
    let matches = command.try_get_matches_from(tokens)?;
    Ok(matches.values_of("values").map(|found| found.map(|value| value.to_owned()).collect()))
}

/// `clap::Error`'s `Display`: the parser's message for the user. Nothing is
/// claimed of the text.
#[verifier::external_body]
fn message_of(error: &clap::Error) -> (r: String) {
    error.to_string()
}

/// Parses the tokens that follow a command's name against its arity. The
/// parser sees `name` in the place of the program's name. Gives the values
/// where it accepts the tokens and its message where it refuses them.
pub fn parse_arguments(name: &String, arity: Arity, rest: &Vec<String>) -> (r: Result<
    Vec<String>,
    String,
>)
    ensures
        r is Ok <==> values_for(name@, arity, texts(rest@)) is Some,
        r matches Ok(values) ==> texts(values@) == values_for(name@, arity, texts(rest@)).unwrap(),
{
    let tokens = with_head(name, rest);
    match parse(name.as_str(), arity.least > 0, arity.least, arity.most, &tokens) {
        Ok(Some(values)) => Ok(values),
        Ok(None) => {
            let none: Vec<String> = Vec::new();
            assert(texts(none@) =~= Seq::<Seq<char>>::empty());
            Ok(none)
        },
        Err(error) => Err(message_of(&error)),
    }
}

} // verus!
