use orbit::jumpscare::{powershell_script, shell_script, ScareStep, Shell};

#[test]
fn the_shell_script_shows_the_message_and_sleeps() {
    assert_eq!(
        shell_script("Boo", "1.500"),
        "#!/bin/bash\nxterm -maximized -fa 'Arial' -fs 72 -fg red -T '' -e 'echo \"Boo\"; sleep 1.500'\n"
    );
}

#[test]
fn the_shell_script_takes_its_arguments_as_they_are() {
    assert_eq!(
        shell_script("", ""),
        "#!/bin/bash\nxterm -maximized -fa 'Arial' -fs 72 -fg red -T '' -e 'echo \"\"; sleep '\n"
    );
    assert!(shell_script("a'b", "0.000").contains("echo \"a'b\"; sleep 0.000'"));
}

#[test]
fn the_powershell_script_shows_the_message_and_sleeps() {
    assert_eq!(
        powershell_script("Boo", 1500),
        "Add-Type -AssemblyName System.Windows.Forms\n\
         $form = New-Object System.Windows.Forms.Form\n\
         $form.TopMost = $true\n\
         $form.FormBorderStyle = 'None'\n\
         $form.WindowState = 'Maximized'\n\
         $label = New-Object System.Windows.Forms.Label\n\
         $label.Text = 'Boo'\n\
         $label.AutoSize = $true\n\
         $label.Font = New-Object System.Drawing.Font('Arial', 72)\n\
         $label.ForeColor = 'Red'\n\
         $form.Controls.Add($label)\n\
         $form.Show()\n\
         Start-Sleep -Milliseconds 1500\n\
         $form.Close()"
    );
}

#[test]
fn the_powershell_script_writes_the_duration_in_decimal() {
    assert!(powershell_script("x", 0).ends_with("Start-Sleep -Milliseconds 0\n$form.Close()"));
    assert!(powershell_script("x", 4294967295)
        .ends_with("Start-Sleep -Milliseconds 4294967295\n$form.Close()"));
}

#[test]
fn a_bash_script_is_written_marked_run_and_removed() {
    assert_eq!(ScareStep::Write.after(Shell::Bash, None), Ok(Some(ScareStep::MakeExecutable)));
    assert_eq!(ScareStep::MakeExecutable.after(Shell::Bash, None), Ok(Some(ScareStep::Execute)));
    assert_eq!(ScareStep::Execute.after(Shell::Bash, None), Ok(Some(ScareStep::Remove)));
    assert_eq!(ScareStep::Remove.after(Shell::Bash, None), Ok(None));
}

#[test]
fn a_powershell_script_is_written_run_and_removed() {
    assert_eq!(ScareStep::Write.after(Shell::PowerShell, None), Ok(Some(ScareStep::Execute)));
    assert_eq!(ScareStep::Execute.after(Shell::PowerShell, None), Ok(Some(ScareStep::Remove)));
    assert_eq!(ScareStep::Remove.after(Shell::PowerShell, None), Ok(None));
}

#[test]
fn each_scare_step_reports_its_own_failure() {
    assert_eq!(
        ScareStep::Write.after(Shell::Bash, Some("disk full")),
        Err("Failed to write temporary script: disk full".to_string())
    );
    assert_eq!(
        ScareStep::MakeExecutable.after(Shell::Bash, Some("no chmod")),
        Err("Failed to make script executable: no chmod".to_string())
    );
    assert_eq!(
        ScareStep::Execute.after(Shell::Bash, Some("no xterm")),
        Err("Failed to execute shell script: no xterm".to_string())
    );
    assert_eq!(
        ScareStep::Execute.after(Shell::PowerShell, Some("blocked")),
        Err("Failed to execute PowerShell script: blocked".to_string())
    );
    assert_eq!(
        ScareStep::Remove.after(Shell::PowerShell, Some("busy")),
        Err("Failed to remove temporary script: busy".to_string())
    );
}

#[test]
fn each_shell_has_its_script_name() {
    assert_eq!(Shell::PowerShell.script_name(), "jumpscare.ps1");
    assert_eq!(Shell::Bash.script_name(), "jumpscare.sh");
}
