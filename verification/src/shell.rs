//! The command interpreter that will run a proposed command.

use vstd::prelude::*;

verus! {

/// The family of the user's command interpreter.
#[derive(Clone, Copy, Debug, PartialEq, Eq, Structural)]
pub enum Shell {
    Powershell,
    BornAgainShell,
    Zsh,
    Fish,
    DebianAlmquistShell,
    KornShell,
    CShell,
    Unknown,
}

impl Shell {
    /// The name by which the shell is described to the model.
    pub open spec fn label_text(self) -> Seq<char> {
        match self {
            Shell::Powershell => "Windows PowerShell"@,
            Shell::BornAgainShell => "Bourne Again Shell (bash / sh)"@,
            Shell::Zsh => "Z Shell (zsh)"@,
            Shell::Fish => "Friendly Interactive Shell (fish)"@,
            Shell::DebianAlmquistShell => "Debian Almquist Shell (dash)"@,
            Shell::KornShell => "Korn Shell (ksh)"@,
            Shell::CShell => "C Shell (csh)"@,
            Shell::Unknown => ""@,
        }
    }

    /// The program that starts the shell.
    pub open spec fn program_text(self) -> Seq<char> {
        match self {
            Shell::Powershell => "powershell"@,
            Shell::BornAgainShell => "bash"@,
            Shell::Zsh => "zsh"@,
            Shell::Fish => "fish"@,
            Shell::DebianAlmquistShell => "dash"@,
            Shell::KornShell => "ksh"@,
            Shell::CShell => "csh"@,
            Shell::Unknown => "sh"@,
        }
    }

    /// The flag after which the shell expects the command text.
    pub open spec fn flag_text(self) -> Seq<char> {
        match self {
            Shell::Powershell => "-Command"@,
            _ => "-c"@,
        }
    }

    /// Returns the name by which the shell is described to the model; it is
    /// empty for a shell that was not recognised.
    pub fn label(&self) -> (name: &'static str)
        ensures
            name@ == self.label_text(),
    {
        match self {
            Shell::Powershell => "Windows PowerShell",
            Shell::BornAgainShell => "Bourne Again Shell (bash / sh)",
            Shell::Zsh => "Z Shell (zsh)",
            Shell::Fish => "Friendly Interactive Shell (fish)",
            Shell::DebianAlmquistShell => "Debian Almquist Shell (dash)",
            Shell::KornShell => "Korn Shell (ksh)",
            Shell::CShell => "C Shell (csh)",
            Shell::Unknown => "",
        }
    }

    /// Returns the program and the flag with which a command string is run
    /// through this shell.
    pub fn to_shell_command_and_command_arg(&self) -> (pair: (&'static str, &'static str))
        ensures
            pair.0@ == self.program_text(),
            pair.1@ == self.flag_text(),
    {
        match self {
            Shell::Powershell => ("powershell", "-Command"),
            Shell::BornAgainShell => ("bash", "-c"),
            Shell::Zsh => ("zsh", "-c"),
            Shell::Fish => ("fish", "-c"),
            Shell::DebianAlmquistShell => ("dash", "-c"),
            Shell::KornShell => ("ksh", "-c"),
            Shell::CShell => ("csh", "-c"),
            Shell::Unknown => ("sh", "-c"),
        }
    }
}

} // verus!
