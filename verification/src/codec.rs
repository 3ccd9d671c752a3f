//! The value codec: the bidirectional mapping between symbolic operations
//! and the single-character values persisted in a control file, and the
//! planner that turns a resolved request into the one filesystem action to
//! perform.

use vstd::prelude::*;
use crate::model::{operation_label_spec, Error, Operation, Operator};
use crate::resolve::FileList;
use crate::strutil::{str_eq, trim, trim_spec};

verus! {

/// The character written for a write-intent (operator, operation) pair,
/// `None` when the pair is not a supported write.
pub open spec fn encode_spec(operator: Operator, operation: Operation) -> Option<char> {
    match (operator, operation) {
        (Operator::Led, Operation::Off) => Some('0'),
        (Operator::Led, Operation::Min) => Some('1'),
        (Operator::Led, Operation::Med) => Some('2'),
        (Operator::Led, Operation::Max) => Some('3'),
        (Operator::Fan, Operation::Silent) => Some('2'),
        (Operator::Thermal, Operation::Silent) => Some('2'),
        (Operator::Fan, Operation::Balanced) => Some('0'),
        (Operator::Thermal, Operation::Default) => Some('0'),
        (Operator::Fan, Operation::Turbo) => Some('1'),
        (Operator::Thermal, Operation::Overboost) => Some('1'),
        _ => None,
    }
}

/// The symbolic name reported for a control file's trimmed contents,
/// scoped per operator; `None` when the contents match no known encoding
/// (the help pseudo-subsystem never decodes).
pub open spec fn decode_label(operator: Operator, value: Seq<char>) -> Option<Seq<char>> {
    match operator {
        Operator::Led => if value == "0"@ {
            Some("off"@)
        } else if value == "1"@ {
            Some("min"@)
        } else if value == "2"@ {
            Some("med"@)
        } else if value == "3"@ {
            Some("max"@)
        } else {
            None
        },
        Operator::Fan => if value == "0"@ {
            Some("balanced"@)
        } else if value == "1"@ {
            Some("turbo"@)
        } else if value == "2"@ {
            Some("silent"@)
        } else {
            None
        },
        Operator::Thermal => if value == "0"@ {
            Some("default"@)
        } else if value == "1"@ {
            Some("overboost"@)
        } else if value == "2"@ {
            Some("silent"@)
        } else {
            None
        },
        Operator::Help => None,
    }
}

/// Decode a control file's raw contents under `operator`: trim surrounding
/// whitespace, then report the symbolic name of the value. Contents that
/// match no known encoding fail with `Unknown`; decoding for the help
/// pseudo-subsystem is a contract violation and fails with
/// `InvalidArgFun`.
pub fn decode_value(operator: &Operator, contents: &str) -> (r: Result<&'static str, Error>)
    ensures
        (match r {
            Ok(name) => decode_label(*operator, trim_spec(contents@)) == Some(name@),
            Err(e) => decode_label(*operator, trim_spec(contents@)) is None && e == (
            if *operator is Help {
                Error::InvalidArgFun
            } else {
                Error::Unknown
            }),
        }),
{
    let value = trim(contents);
    match operator {
        Operator::Led => {
            if str_eq(value, "0") {
                Ok("off")
            } else if str_eq(value, "1") {
                Ok("min")
            } else if str_eq(value, "2") {
                Ok("med")
            } else if str_eq(value, "3") {
                Ok("max")
            } else {
                Err(Error::Unknown)
            }
        },
        Operator::Fan => {
            if str_eq(value, "0") {
                Ok("balanced")
            } else if str_eq(value, "1") {
                Ok("turbo")
            } else if str_eq(value, "2") {
                Ok("silent")
            } else {
                Err(Error::Unknown)
            }
        },
        Operator::Thermal => {
            if str_eq(value, "0") {
                Ok("default")
            } else if str_eq(value, "1") {
                Ok("overboost")
            } else if str_eq(value, "2") {
                Ok("silent")
            } else {
                Err(Error::Unknown)
            }
        },
        Operator::Help => Err(Error::InvalidArgFun),
    }
}

/// The single filesystem action an invocation performs against the
/// resolved control file.
#[derive(Clone, Copy, Debug, PartialEq, Eq, Structural)]
pub enum Action {
    /// Read the file's contents and decode them.
    Read(FileList),
    /// Write exactly this one character's byte to the file.
    Write(FileList, char),
}

/// The action planned for a resolved request: a Get reads the file, any
/// other operation writes its encoded value, and a pair the codec does not
/// support is a contract violation.
pub open spec fn plan_spec(file_list: FileList, operator: Operator, operation: Operation) -> Result<
    Action,
    Error,
> {
    if operation is Get {
        Ok(Action::Read(file_list))
    } else {
        match encode_spec(operator, operation) {
            Some(value) => Ok(Action::Write(file_list, value)),
            None => Err(Error::InvalidArgFun),
        }
    }
}

/// Decide the one filesystem action for the resolved file: the caller
/// executes it and, for a read, feeds the contents to `decode_value`.
pub fn perform_operation(file_list: FileList, operator: &Operator, operation: &Operation) -> (r:
    Result<Action, Error>)
    ensures
        r == plan_spec(file_list, *operator, *operation),
{
    match operation {
        Operation::Get => Ok(Action::Read(file_list)),
        _ => {
            let value: char = match (operator, operation) {
                (Operator::Led, Operation::Off) => '0',
                (Operator::Led, Operation::Min) => '1',
                (Operator::Led, Operation::Med) => '2',
                (Operator::Led, Operation::Max) => '3',
                (Operator::Fan | Operator::Thermal, Operation::Silent) => '2',
                (Operator::Fan, Operation::Balanced) | (Operator::Thermal, Operation::Default) => (
                '0'),
                (Operator::Fan, Operation::Turbo) | (Operator::Thermal, Operation::Overboost) => (
                '1'),
                _ => {
                    return Err(Error::InvalidArgFun);
                },
            };
            Ok(Action::Write(file_list, value))
        },
    }
}

/// Law: encoding a supported write pair and then decoding the written
/// character under the same operator reports that operation's own name.
pub proof fn lemma_encode_decode_round_trip(operator: Operator, operation: Operation)
    requires
        encode_spec(operator, operation) is Some,
    ensures
        encode_spec(operator, operation) matches Some(value) && decode_label(
            operator,
            seq![value],
        ) == Some(operation_label_spec(operation)),
{
    reveal_strlit("0");
    reveal_strlit("1");
    reveal_strlit("2");
    reveal_strlit("3");
    assert(seq!['0'] =~= "0"@);
    assert(seq!['1'] =~= "1"@);
    assert(seq!['2'] =~= "2"@);
    assert(seq!['3'] =~= "3"@);
    assert("0"@[0] == '0' && "1"@[0] == '1' && "2"@[0] == '2' && "3"@[0] == '3');
    match (operator, operation) {
        (Operator::Led, Operation::Off) => {
            assert(decode_label(operator, seq!['0']) == Some("off"@));
        },
        (Operator::Led, Operation::Min) => {
            assert(decode_label(operator, seq!['1']) == Some("min"@));
        },
        (Operator::Led, Operation::Med) => {
            assert(decode_label(operator, seq!['2']) == Some("med"@));
        },
        (Operator::Led, Operation::Max) => {
            assert(decode_label(operator, seq!['3']) == Some("max"@));
        },
        (Operator::Fan, Operation::Silent) => {
            assert(decode_label(operator, seq!['2']) == Some("silent"@));
        },
        (Operator::Thermal, Operation::Silent) => {
            assert(decode_label(operator, seq!['2']) == Some("silent"@));
        },
        (Operator::Fan, Operation::Balanced) => {
            assert(decode_label(operator, seq!['0']) == Some("balanced"@));
        },
        (Operator::Thermal, Operation::Default) => {
            assert(decode_label(operator, seq!['0']) == Some("default"@));
        },
        (Operator::Fan, Operation::Turbo) => {
            assert(decode_label(operator, seq!['1']) == Some("turbo"@));
        },
        (Operator::Thermal, Operation::Overboost) => {
            assert(decode_label(operator, seq!['1']) == Some("overboost"@));
        },
        _ => {},
    }
}

} // verus!
