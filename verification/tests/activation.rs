use mise_pwsh::ActivateOptions;
use mise_pwsh::Pwsh;

fn opts(no_hook_env: bool) -> ActivateOptions {
    ActivateOptions {
        exe: "/some/dir/mise".to_string(),
        flags: " --status".to_string(),
        no_hook_env,
    }
}

#[test]
fn activate_exe_in_every_delegation() {
    let out = Pwsh::default().activate(opts(false));
    // Five delegations in the wrapper plus one in the hook function.
    assert_eq!(out.matches("& /some/dir/mise").count(), 6);
    // The hook invocation line carries the extra flags.
    assert!(out.contains("& /some/dir/mise hook-env --status -s pwsh"));
    assert!(out.contains("--status"));
}

#[test]
fn activate_without_auto_hook() {
    let out = Pwsh::default().activate(opts(true));
    assert!(!out.contains("function _mise_hook"));
    assert!(!out.contains("hook-env"));
    assert!(out.contains("function mise {"));
    assert!(out.ends_with("}\n"));
}

#[test]
fn activate_guards_hook_registration() {
    let out = Pwsh::default().activate(opts(false));
    // Each trigger registration sits behind its guard variable, and the
    // guarded block sets the guard, so re-evaluation registers nothing new.
    assert!(out.contains("if (-not $Global:__mise_pwsh_chpwd_hooked){"));
    assert!(out.contains("$Global:__mise_pwsh_chpwd_hooked = $true"));
    assert!(out.contains("if (-not $Global:__mise_pwsh_prompt_hooked){"));
    assert!(out.contains("$Global:__mise_pwsh_prompt_hooked = $true"));
    // An already-installed handler is chained after, not replaced.
    assert!(out.contains("[Delegate]::Combine($__mise_pwsh_previous_chpwd_function, $_mise_chpwd_hook)"));
    assert!(out.contains("& $__mise_pwsh_previous_prompt_function"));
}

#[test]
fn activate_preserves_exit_status() {
    let out = Pwsh::default().activate(opts(false));
    assert!(out.contains("$status = $LASTEXITCODE"));
    assert!(out.contains("pwsh -NoProfile -Command exit $status"));
}

#[test]
fn deactivate_is_best_effort() {
    let out = Pwsh::default().deactivate();
    // Every unconditional removal is silenced, so the script is safe to
    // evaluate in a session that was never activated.
    for line in out.lines() {
        if line.starts_with("Remove-Item") {
            assert!(line.ends_with("-ErrorAction SilentlyContinue"));
        }
    }
    // Hook restoration only runs when the matching guard is set.
    assert!(out.contains("if ($Global:__mise_pwsh_chpwd_hooked) {"));
    assert!(out.contains("if ($Global:__mise_pwsh_prompt_hooked) {"));
}

#[test]
fn dialect_name() {
    assert_eq!(Pwsh::default().name(), "pwsh");
}
