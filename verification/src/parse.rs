//! The command model's parser: maps the raw argument list to an
//! (operator, operation) pair, or rejects it.

use vstd::prelude::*;
use crate::model::{Error, Operation, Operator};
use crate::strutil::str_eq;

verus! {

/// The pair a second fan token parses to, or the error.
pub open spec fn parse_fan_spec(arg: Seq<char>) -> Result<(Operator, Operation), Error> {
    if arg == "silent"@ || arg == "s"@ {
        Ok((Operator::Fan, Operation::Silent))
    } else if arg == "balanced"@ || arg == "b"@ {
        Ok((Operator::Fan, Operation::Balanced))
    } else if arg == "turbo"@ || arg == "t"@ {
        Ok((Operator::Fan, Operation::Turbo))
    } else if arg == "get"@ || arg == "g"@ {
        Ok((Operator::Fan, Operation::Get))
    } else {
        Err(Error::InvalidArgv)
    }
}

/// The pair a second thermal token parses to, or the error.
pub open spec fn parse_thermal_spec(arg: Seq<char>) -> Result<(Operator, Operation), Error> {
    if arg == "silent"@ || arg == "s"@ {
        Ok((Operator::Thermal, Operation::Silent))
    } else if arg == "default"@ || arg == "df"@ {
        Ok((Operator::Thermal, Operation::Default))
    } else if arg == "overboost"@ || arg == "ob"@ {
        Ok((Operator::Thermal, Operation::Overboost))
    } else if arg == "get"@ || arg == "g"@ {
        Ok((Operator::Thermal, Operation::Get))
    } else {
        Err(Error::InvalidArgv)
    }
}

/// The pair a second backlight token parses to, or the error.
pub open spec fn parse_led_spec(arg: Seq<char>) -> Result<(Operator, Operation), Error> {
    if arg == "off"@ {
        Ok((Operator::Led, Operation::Off))
    } else if arg == "min"@ {
        Ok((Operator::Led, Operation::Min))
    } else if arg == "med"@ {
        Ok((Operator::Led, Operation::Med))
    } else if arg == "max"@ {
        Ok((Operator::Led, Operation::Max))
    } else if arg == "get"@ || arg == "g"@ {
        Ok((Operator::Led, Operation::Get))
    } else {
        Err(Error::InvalidArgv)
    }
}

/// What the whole argument list (program name first) parses to. Zero or one
/// argument after the program name is an implicit help request; a subsystem
/// flag without its second token is rejected as invalid arguments.
pub open spec fn parse_spec(args: Seq<Seq<char>>) -> Result<(Operator, Operation), Error> {
    if args.len() < 2 {
        Ok((Operator::Help, Operation::Get))
    } else if args[1] == "-help"@ || args[1] == "-h"@ {
        Ok((Operator::Help, Operation::Get))
    } else if args[1] == "-fan"@ || args[1] == "-f"@ {
        if args.len() < 3 {
            Err(Error::InvalidArgv)
        } else {
            parse_fan_spec(args[2])
        }
    } else if args[1] == "-thermal"@ || args[1] == "-t"@ {
        if args.len() < 3 {
            Err(Error::InvalidArgv)
        } else {
            parse_thermal_spec(args[2])
        }
    } else if args[1] == "-led"@ || args[1] == "-l"@ {
        if args.len() < 3 {
            Err(Error::InvalidArgv)
        } else {
            parse_led_spec(args[2])
        }
    } else {
        Err(Error::InvalidArgv)
    }
}

/// Parse the second token of a fan command.
pub fn parse_fan_args(arg: &str) -> (r: Result<(Operator, Operation), Error>)
    ensures
        r == parse_fan_spec(arg@),
{
    if str_eq(arg, "silent") || str_eq(arg, "s") {
        Ok((Operator::Fan, Operation::Silent))
    } else if str_eq(arg, "balanced") || str_eq(arg, "b") {
        Ok((Operator::Fan, Operation::Balanced))
    } else if str_eq(arg, "turbo") || str_eq(arg, "t") {
        Ok((Operator::Fan, Operation::Turbo))
    } else if str_eq(arg, "get") || str_eq(arg, "g") {
        Ok((Operator::Fan, Operation::Get))
    } else {
        Err(Error::InvalidArgv)
    }
}

/// Parse the second token of a thermal command.
pub fn parse_thermal_args(arg: &str) -> (r: Result<(Operator, Operation), Error>)
    ensures
        r == parse_thermal_spec(arg@),
{
    if str_eq(arg, "silent") || str_eq(arg, "s") {
        Ok((Operator::Thermal, Operation::Silent))
    } else if str_eq(arg, "default") || str_eq(arg, "df") {
        Ok((Operator::Thermal, Operation::Default))
    } else if str_eq(arg, "overboost") || str_eq(arg, "ob") {
        Ok((Operator::Thermal, Operation::Overboost))
    } else if str_eq(arg, "get") || str_eq(arg, "g") {
        Ok((Operator::Thermal, Operation::Get))
    } else {
        Err(Error::InvalidArgv)
    }
}

/// Parse the second token of a backlight command.
pub fn parse_led_args(arg: &str) -> (r: Result<(Operator, Operation), Error>)
    ensures
        r == parse_led_spec(arg@),
{
    if str_eq(arg, "off") {
        Ok((Operator::Led, Operation::Off))
    } else if str_eq(arg, "min") {
        Ok((Operator::Led, Operation::Min))
    } else if str_eq(arg, "med") {
        Ok((Operator::Led, Operation::Med))
    } else if str_eq(arg, "max") {
        Ok((Operator::Led, Operation::Max))
    } else if str_eq(arg, "get") || str_eq(arg, "g") {
        Ok((Operator::Led, Operation::Get))
    } else {
        Err(Error::InvalidArgv)
    }
}

/// Parse the raw argument list, program name first.
pub fn parse_args(args: &Vec<String>) -> (r: Result<(Operator, Operation), Error>)
    ensures
        r == parse_spec(args.deep_view()),
{
    if args.len() < 2 {
        return Ok((Operator::Help, Operation::Get));
    }
    let first: &str = args[1].as_str();
    if str_eq(first, "-help") || str_eq(first, "-h") {
        Ok((Operator::Help, Operation::Get))
    } else if str_eq(first, "-fan") || str_eq(first, "-f") {
        if args.len() < 3 {
            Err(Error::InvalidArgv)
        } else {
            parse_fan_args(args[2].as_str())
        }
    } else if str_eq(first, "-thermal") || str_eq(first, "-t") {
        if args.len() < 3 {
            Err(Error::InvalidArgv)
        } else {
            parse_thermal_args(args[2].as_str())
        }
    } else if str_eq(first, "-led") || str_eq(first, "-l") {
        if args.len() < 3 {
            Err(Error::InvalidArgv)
        } else {
            parse_led_args(args[2].as_str())
        }
    } else {
        Err(Error::InvalidArgv)
    }
}

/// Law: an argument list with nothing after the program name parses exactly
/// as an explicit help request does.
pub proof fn lemma_no_args_is_help(args: Seq<Seq<char>>, help_args: Seq<Seq<char>>)
    requires
        args.len() < 2,
        help_args.len() >= 2,
        help_args[1] == "-help"@ || help_args[1] == "-h"@,
    ensures
        parse_spec(args) == parse_spec(help_args),
        parse_spec(args) == Ok::<(Operator, Operation), Error>((Operator::Help, Operation::Get)),
{
}

} // verus!
