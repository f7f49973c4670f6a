//! The full-screen scare: the script that shows a message for a while.
//!
//! The host writes the script to a temporary file, runs it and removes it.

use crate::text::{decimal, decimal_digits};
use vstd::prelude::*;
use vstd::string::*;

verus! {

/// The interpreter that runs the script.
#[derive(Clone, Copy, Debug, PartialEq, Eq, Structural)]
pub enum Shell {
    /// PowerShell, on Windows.
    PowerShell,
    /// Bash, elsewhere.
    Bash,
}

impl Shell {
    /// The file name under which the script is written.
    pub open spec fn spec_script_name(self) -> Seq<char> {
        match self {
            Shell::PowerShell => "jumpscare.ps1"@,
            Shell::Bash => "jumpscare.sh"@,
        }
    }

    pub fn script_name(self) -> (name: &'static str)
        ensures
            name@ == self.spec_script_name(),
    {
        match self {
            Shell::PowerShell => "jumpscare.ps1",
            Shell::Bash => "jumpscare.sh",
        }
    }
}

/// What the host does with the script, step by step.
#[derive(Clone, Copy, Debug, PartialEq, Eq, Structural)]
pub enum ScareStep {
    /// Writing the script to a temporary file.
    Write,
    /// Marking the file as executable.
    MakeExecutable,
    /// Running it.
    Execute,
    /// Removing it.
    Remove,
}

/// The Bash script for a message and a duration in seconds.
pub open spec fn shell_script_of(message: Seq<char>, seconds: Seq<char>) -> Seq<char> {
    "#!/bin/bash\nxterm -maximized -fa 'Arial' -fs 72 -fg red -T '' -e 'echo \""@ + message
        + "\"; sleep "@ + seconds + "'\n"@
}

/// The PowerShell script for a message and a duration in milliseconds.
pub open spec fn powershell_script_of(message: Seq<char>, duration_ms: nat) -> Seq<char> {
    "Add-Type -AssemblyName System.Windows.Forms\n\
     $form = New-Object System.Windows.Forms.Form\n\
     $form.TopMost = $true\n\
     $form.FormBorderStyle = 'None'\n\
     $form.WindowState = 'Maximized'\n\
     $label = New-Object System.Windows.Forms.Label\n\
     $label.Text = '"@
        + message
        + "'\n\
     $label.AutoSize = $true\n\
     $label.Font = New-Object System.Drawing.Font('Arial', 72)\n\
     $label.ForeColor = 'Red'\n\
     $form.Controls.Add($label)\n\
     $form.Show()\n\
     Start-Sleep -Milliseconds "@
        + decimal_digits(duration_ms) + "\n$form.Close()"@
}

/// The Bash script that shows `message` in a maximised terminal for
/// `seconds`. Both are put into the script as they are.
pub fn shell_script(message: &str, seconds: &str) -> (script: String)
    ensures
        script@ == shell_script_of(message@, seconds@),
{
    String::from_str(
        "#!/bin/bash\nxterm -maximized -fa 'Arial' -fs 72 -fg red -T '' -e 'echo \"",
    ).concat(message).concat("\"; sleep ").concat(seconds).concat("'\n")
}

/// The PowerShell script that shows `message` on a topmost, maximised form
/// for `duration_ms` milliseconds. The message is put into the script as it is.
pub fn powershell_script(message: &str, duration_ms: u32) -> (script: String)
    ensures
        script@ == powershell_script_of(message@, duration_ms as nat),
{
    let duration = decimal(duration_ms);
    String::from_str(
        "Add-Type -AssemblyName System.Windows.Forms\n\
         $form = New-Object System.Windows.Forms.Form\n\
         $form.TopMost = $true\n\
         $form.FormBorderStyle = 'None'\n\
         $form.WindowState = 'Maximized'\n\
         $label = New-Object System.Windows.Forms.Label\n\
         $label.Text = '",
    ).concat(message).concat(
        "'\n\
         $label.AutoSize = $true\n\
         $label.Font = New-Object System.Drawing.Font('Arial', 72)\n\
         $label.ForeColor = 'Red'\n\
         $form.Controls.Add($label)\n\
         $form.Show()\n\
         Start-Sleep -Milliseconds ",
    ).concat(duration.as_str()).concat("\n$form.Close()")
}

impl ScareStep {
    /// What stands before the cause in the report of this step's failure.
    pub open spec fn spec_failure_prefix(self, shell: Shell) -> Seq<char> {
        match self {
            ScareStep::Write => "Failed to write temporary script: "@,
            ScareStep::MakeExecutable => "Failed to make script executable: "@,
            ScareStep::Execute => match shell {
                Shell::PowerShell => "Failed to execute PowerShell script: "@,
                Shell::Bash => "Failed to execute shell script: "@,
            },
            ScareStep::Remove => "Failed to remove temporary script: "@,
        }
    }

    /// The step after this one, if any. Only a Bash script has to be marked
    /// as executable.
    pub open spec fn spec_next(self, shell: Shell) -> Option<ScareStep> {
        match self {
            ScareStep::Write => match shell {
                Shell::PowerShell => Some(ScareStep::Execute),
                Shell::Bash => Some(ScareStep::MakeExecutable),
            },
            ScareStep::MakeExecutable => Some(ScareStep::Execute),
            ScareStep::Execute => Some(ScareStep::Remove),
            ScareStep::Remove => None,
        }
    }

    /// What follows this step: the failure to report where it failed, else
    /// the next step or the end.
    pub fn after(self, shell: Shell, failure: Option<&str>) -> (next: Result<
        Option<ScareStep>,
        String,
    >)
        ensures
            match failure {
                Some(cause) => next is Err && next->Err_0@ == self.spec_failure_prefix(shell)
                    + cause@,
                None => next == Ok::<Option<ScareStep>, String>(self.spec_next(shell)),
            },
    {
        match failure {
            Some(cause) => {
                let prefix = match self {
                    ScareStep::Write => "Failed to write temporary script: ",
                    ScareStep::MakeExecutable => "Failed to make script executable: ",
                    ScareStep::Execute => match shell {
                        Shell::PowerShell => "Failed to execute PowerShell script: ",
                        Shell::Bash => "Failed to execute shell script: ",
                    },
                    ScareStep::Remove => "Failed to remove temporary script: ",
                };
                Err(String::from_str(prefix).concat(cause))
            },
            None => Ok(
                match self {
                    ScareStep::Write => match shell {
                        Shell::PowerShell => Some(ScareStep::Execute),
                        Shell::Bash => Some(ScareStep::MakeExecutable),
                    },
                    ScareStep::MakeExecutable => Some(ScareStep::Execute),
                    ScareStep::Execute => Some(ScareStep::Remove),
                    ScareStep::Remove => None,
                },
            ),
        }
    }
}

} // verus!
