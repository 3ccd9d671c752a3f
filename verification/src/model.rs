//! The command model: which subsystem a command targets, which state or
//! query it requests, and the flat error taxonomy of the tool.

use vstd::prelude::*;

verus! {

/// Which hardware subsystem a command targets.
#[derive(Clone, Copy, Debug, PartialEq, Eq, Structural)]
pub enum Operator {
    Led,
    Fan,
    Thermal,
    Help,
}

/// The requested state or query within a subsystem. Not every operation is
/// valid for every operator; validity is enforced at the codec stage.
#[derive(Clone, Copy, Debug, PartialEq, Eq, Structural)]
pub enum Operation {
    Off,
    Min,
    Med,
    Max,
    Silent,
    Balanced,
    Turbo,
    Overboost,
    Default,
    Get,
}

/// Every error is terminal for the invocation: it is surfaced as a one-line
/// message and the process exits nonzero.
#[derive(Clone, Copy, Debug, PartialEq, Eq, Structural)]
pub enum Error {
    /// Bad or missing command-line tokens.
    InvalidArgv,
    /// A control file could not be opened or read.
    BadFp,
    /// No accessible control file was found for the request.
    NoPermission,
    /// Internal contract violation: the operator/operation combination is
    /// not valid for the requested action.
    InvalidArgFun,
    /// The write to the control file failed.
    FileWriteError,
    /// The control file's contents match no known encoding.
    Unknown,
}

impl Error {
    /// The one-line text shown to the user for this error.
    pub open spec fn message_spec(self) -> Seq<char> {
        match self {
            Error::InvalidArgv => "Invalid arguments\nView help with: perfmode -help"@,
            Error::BadFp => "Bad file pointer"@,
            Error::NoPermission => "No permission"@,
            Error::InvalidArgFun => "Invalid Argument to function"@,
            Error::FileWriteError => "Unable to write to file"@,
            Error::Unknown => "Invalid Error Reported!"@,
        }
    }

    /// The one-line text shown to the user for this error.
    pub fn message(&self) -> (r: &'static str)
        ensures
            r@ == self.message_spec(),
    {
        match self {
            Error::InvalidArgv => "Invalid arguments\nView help with: perfmode -help",
            Error::BadFp => "Bad file pointer",
            Error::NoPermission => "No permission",
            Error::InvalidArgFun => "Invalid Argument to function",
            Error::FileWriteError => "Unable to write to file",
            Error::Unknown => "Invalid Error Reported!",
        }
    }
}

/// The short name of the subsystem, as used in the success message.
pub open spec fn operator_name_spec(operator: Operator) -> Seq<char> {
    match operator {
        Operator::Led => "led"@,
        Operator::Fan => "fan"@,
        Operator::Thermal => "thermal"@,
        Operator::Help => "help"@,
    }
}

/// The short name of the subsystem, as used in the success message.
pub fn operator_name(operator: &Operator) -> (r: &'static str)
    ensures
        r@ == operator_name_spec(*operator),
{
    match operator {
        Operator::Led => "led",
        Operator::Fan => "fan",
        Operator::Thermal => "thermal",
        Operator::Help => "help",
    }
}

/// The capitalized name of the operation, as used in the success message.
pub open spec fn operation_name_spec(operation: Operation) -> Seq<char> {
    match operation {
        Operation::Off => "Off"@,
        Operation::Min => "Min"@,
        Operation::Med => "Med"@,
        Operation::Max => "Max"@,
        Operation::Silent => "Silent"@,
        Operation::Balanced => "Balanced"@,
        Operation::Turbo => "Turbo"@,
        Operation::Overboost => "Overboost"@,
        Operation::Default => "Default"@,
        Operation::Get => "Get"@,
    }
}

/// The capitalized name of the operation, as used in the success message.
pub fn operation_name(operation: &Operation) -> (r: &'static str)
    ensures
        r@ == operation_name_spec(*operation),
{
    match operation {
        Operation::Off => "Off",
        Operation::Min => "Min",
        Operation::Med => "Med",
        Operation::Max => "Max",
        Operation::Silent => "Silent",
        Operation::Balanced => "Balanced",
        Operation::Turbo => "Turbo",
        Operation::Overboost => "Overboost",
        Operation::Default => "Default",
        Operation::Get => "Get",
    }
}

/// The lowercase name of the operation: what a Get query reports when the
/// control file holds the value that sets this operation.
pub open spec fn operation_label_spec(operation: Operation) -> Seq<char> {
    match operation {
        Operation::Off => "off"@,
        Operation::Min => "min"@,
        Operation::Med => "med"@,
        Operation::Max => "max"@,
        Operation::Silent => "silent"@,
        Operation::Balanced => "balanced"@,
        Operation::Turbo => "turbo"@,
        Operation::Overboost => "overboost"@,
        Operation::Default => "default"@,
        Operation::Get => "get"@,
    }
}

} // verus!
