use dual_webview::{
    install_after_prompt, install_after_spawn, install_begin, install_outcome_success,
    InstallOutcome, InstallStep,
};

#[test]
fn present_runtime_is_done_at_once() {
    // With the runtime already present the attempt ends successfully with
    // no prompt and no installer process, prompt or not.
    let step = install_begin(true, &None);
    assert_eq!(step, InstallStep::Done(InstallOutcome::AlreadyPresent));
    let step = install_begin(true, &Some("install it?".to_string()));
    assert_eq!(step, InstallStep::Done(InstallOutcome::AlreadyPresent));
    assert!(install_outcome_success(InstallOutcome::AlreadyPresent));
}

#[test]
fn absent_runtime_with_prompt_asks_first() {
    let step = install_begin(false, &Some("install it?".to_string()));
    assert_eq!(step, InstallStep::ShowPrompt);
}

#[test]
fn absent_runtime_without_prompt_installs_directly() {
    let step = install_begin(false, &None);
    assert_eq!(step, InstallStep::RunInstaller);
}

#[test]
fn cancelled_prompt_declines_without_spawn() {
    // Cancelling ends the attempt; no installer process is ever asked for.
    let step = install_after_prompt(false);
    assert_eq!(step, InstallStep::Done(InstallOutcome::Declined));
    assert!(!install_outcome_success(InstallOutcome::Declined));
}

#[test]
fn accepted_prompt_spawns_installer() {
    let step = install_after_prompt(true);
    assert_eq!(step, InstallStep::RunInstaller);
}

#[test]
fn installer_exit_status_decides_outcome() {
    assert_eq!(
        install_after_spawn(true),
        InstallStep::Done(InstallOutcome::Installed)
    );
    assert_eq!(
        install_after_spawn(false),
        InstallStep::Done(InstallOutcome::ProcessFailed)
    );
    assert!(install_outcome_success(InstallOutcome::Installed));
    assert!(!install_outcome_success(InstallOutcome::ProcessFailed));
}
