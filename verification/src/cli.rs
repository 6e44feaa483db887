//! The commands of the command line tool, and how each is announced.

use vstd::prelude::*;

verus! {

/// What to generate.
#[derive(Debug, Clone, Copy, PartialEq, Eq, Structural)]
pub enum GenerateSubcommand {
    Route,
    R,
    Middleware,
    MW,
}

/// What to do with migrations.
#[derive(Debug, Clone, Copy, PartialEq, Eq, Structural)]
pub enum MigrationSubcommand {
    Gen,
    Run,
    Rev,
    Redo,
}

/// A command, with its short forms.
#[derive(Debug, Clone, Copy, PartialEq, Eq, Structural)]
pub enum Command {
    Generate(GenerateSubcommand),
    Gen(GenerateSubcommand),
    G(GenerateSubcommand),
    Envex,
    Migration(MigrationSubcommand),
    Mig(MigrationSubcommand),
    M(MigrationSubcommand),
    Crypto,
    C,
    Interactive,
    I,
}

/// The parsed command line.
#[derive(Debug, Clone, Copy, PartialEq, Eq, Structural)]
pub struct Xtc {
    pub command: Command,
}

impl GenerateSubcommand {
    pub open spec fn announcement(self) -> Seq<char> {
        match self {
            GenerateSubcommand::Route | GenerateSubcommand::R => "Generating route"@,
            GenerateSubcommand::Middleware | GenerateSubcommand::MW => "Generating middleware"@,
        }
    }
}

impl MigrationSubcommand {
    pub open spec fn announcement(self) -> Seq<char> {
        match self {
            MigrationSubcommand::Gen => "Generating migration"@,
            MigrationSubcommand::Run => "Running migrations"@,
            MigrationSubcommand::Rev => "Reversing migration"@,
            MigrationSubcommand::Redo => "Restarting migration"@,
        }
    }
}

impl Command {
    /// The line that announces the command. A short form is announced as
    /// the command it stands for.
    pub open spec fn announcement(self) -> Seq<char> {
        match self {
            Command::Generate(s) | Command::Gen(s) | Command::G(s) => s.announcement(),
            Command::Envex => "Generating .env.example"@,
            Command::Migration(c) | Command::Mig(c) | Command::M(c) => c.announcement(),
            Command::C | Command::Crypto => "Cryptographying"@,
            Command::Interactive | Command::I => "Initiating interactive session"@,
        }
    }

    /// The line that announces the command.
    pub fn describe(&self) -> (line: &'static str)
        ensures
            line@ == self.announcement(),
    {
        match self {
            Command::Generate(s) | Command::Gen(s) | Command::G(s) => match s {
                GenerateSubcommand::Route | GenerateSubcommand::R => "Generating route",
                GenerateSubcommand::Middleware | GenerateSubcommand::MW => "Generating middleware",
            },
            Command::Envex => "Generating .env.example",
            Command::Migration(c) | Command::Mig(c) | Command::M(c) => match c {
                MigrationSubcommand::Gen => "Generating migration",
                MigrationSubcommand::Run => "Running migrations",
                MigrationSubcommand::Rev => "Reversing migration",
                MigrationSubcommand::Redo => "Restarting migration",
            },
            Command::C | Command::Crypto => "Cryptographying",
            Command::Interactive | Command::I => "Initiating interactive session",
        }
    }
}

} // verus!
