//! The bench console of the product build: the one-letter commands read from the backchannel
//! UART, and the model names of the boot banner.
use vstd::prelude::*;
use crate::prod::model::Model;

verus! {

/// A console command.
#[derive(Clone, Copy, PartialEq, Eq, Debug, Structural)]
pub enum Command {
    /// `s`: rescan the sensor bus (Sensing only).
    Scan,
    /// `r`: print the last scan.
    Report,
    /// `d`: dump the debug registers.
    Debug,
    /// `m`: switch to the other built-in mode.
    SwitchMode,
    /// CR / LF: ignored.
    Ignore,
    /// Anything else: print the command help.
    Help,
}

/// Decode a received byte (either case).
pub fn command_of(b: u8) -> (c: Command)
    ensures
        c == (if b == 115 || b == 83 { Command::Scan }
            else if b == 114 || b == 82 { Command::Report }
            else if b == 100 || b == 68 { Command::Debug }
            else if b == 109 || b == 77 { Command::SwitchMode }
            else if b == 13 || b == 10 { Command::Ignore }
            else { Command::Help }),
{
    if b == 115 || b == 83 { Command::Scan }
    else if b == 114 || b == 82 { Command::Report }
    else if b == 100 || b == 68 { Command::Debug }
    else if b == 109 || b == 77 { Command::SwitchMode }
    else if b == 13 || b == 10 { Command::Ignore }
    else { Command::Help }
}

/// Model name for the banner.
pub fn model_name(m: Model) -> (s: &'static str)
    ensures
        s@ == (match m {
            Model::Fr2476 => "FR2476"@,
            Model::Fr2475 => "FR2475"@,
            Model::Fr2155 => "FR2155"@,
            Model::Fr2355 => "FR2355"@,
            Model::Fr2433 => "FR2433"@,
            Model::Unknown(_) => "UNKNOWN"@,
        }),
{
    match m {
        Model::Fr2476 => "FR2476",
        Model::Fr2475 => "FR2475",
        Model::Fr2155 => "FR2155",
        Model::Fr2355 => "FR2355",
        Model::Fr2433 => "FR2433",
        Model::Unknown(_) => "UNKNOWN",
    }
}

} // verus!
