use mise_pwsh::ActivateOptions;
use mise_pwsh::Pwsh;

#[test]
fn test_activate() {
    let pwsh = Pwsh::default();
    let opts = ActivateOptions {
        exe: "/some/dir/mise".to_string(),
        flags: " --status".to_string(),
        no_hook_env: false,
    };
    let expected = r#"$env:MISE_SHELL = 'pwsh'
$env:__MISE_ORIG_PATH = $env:PATH

function mise {

    $code = [System.Management.Automation.Language.Parser]::ParseInput($MyInvocation.Statement.Substring($MyInvocation.OffsetInLine - 1), [ref]$null, [ref]$null)
    $myLine = $code.Find({ $args[0].CommandElements }, $true).CommandElements | ForEach-Object { $_.ToString() } | Join-String -Separator ' '
    $command, [array]$arguments = Invoke-Expression ('Write-Output -- ' + $myLine)

    if ($null -eq $arguments) {
        & /some/dir/mise
        return
    }

    $command = $arguments[0]
    $arguments = $arguments[1..$arguments.Length]

    if ($arguments -contains '--help') {
        return & /some/dir/mise $command $arguments
    }

    switch ($command) {
        { $_ -in 'deactivate', 'shell', 'sh' } {
            if ($arguments -contains '-h' -or $arguments -contains '--help') {
                & /some/dir/mise $command $arguments
            }
            else {
                & /some/dir/mise $command $arguments | Out-String | Invoke-Expression -ErrorAction SilentlyContinue
            }
        }
        default {
            & /some/dir/mise $command $arguments
            $status = $LASTEXITCODE
            if ($(Test-Path -Path Function:\_mise_hook)){
                _mise_hook
            }
            pwsh -NoProfile -Command exit $status #Pass down exit code from mise after _mise_hook
        }
    }
}

function _mise_hook {
    if ($env:MISE_SHELL -eq "pwsh"){
        & /some/dir/mise hook-env --status -s pwsh | Out-String | Invoke-Expression -ErrorAction SilentlyContinue
    }
}

if (-not $Global:__mise_pwsh_chpwd_hooked){
    $Global:__mise_pwsh_chpwd_hooked = $true
    $_mise_chpwd_hook = [EventHandler[System.Management.Automation.LocationChangedEventArgs]] {
        param([object] $source, [System.Management.Automation.LocationChangedEventArgs] $eventArgs)
        end {
            _mise_hook
        }
    };
    $Global:__mise_pwsh_previous_chpwd_function=$ExecutionContext.SessionState.InvokeCommand.LocationChangedAction;

    if ($__mise_pwsh_previous_chpwd_function) {
        $ExecutionContext.SessionState.InvokeCommand.LocationChangedAction = [Delegate]::Combine($__mise_pwsh_previous_chpwd_function, $_mise_chpwd_hook)
    }
    else {
        $ExecutionContext.SessionState.InvokeCommand.LocationChangedAction = $_mise_chpwd_hook
    }
}

if (-not $Global:__mise_pwsh_prompt_hooked){
    $Global:__mise_pwsh_prompt_hooked = $true
    $global:__mise_pwsh_previous_prompt_function=$function:prompt
    function global:prompt {
        if (Test-Path -Path Function:\_mise_hook){
            _mise_hook
        }
        & $__mise_pwsh_previous_prompt_function
    }
}

_mise_hook
"#;
    assert_eq!(pwsh.activate(opts), expected);
}

#[test]
fn test_set_env() {
    assert_eq!(Pwsh::default().set_env("FOO", "1"), "$Env:FOO='1'\n");
}

#[test]
fn test_prepend_env() {
    let pwsh = Pwsh::default();
    assert_eq!(
        pwsh.prepend_env("PATH", "/some/dir:/2/dir"),
        "$Env:PATH='/some/dir:/2/dir'+[IO.Path]::PathSeparator+$env:PATH\n"
    );
}

#[test]
fn test_unset_env() {
    assert_eq!(
        Pwsh::default().unset_env("FOO"),
        "Remove-Item -Path Env:/FOO\n"
    );
}

#[test]
fn test_deactivate() {
    let deactivate = Pwsh::default().deactivate();
    let expected = r#"Remove-Item function:mise -ErrorAction SilentlyContinue
Remove-Item function:_mise_hook -ErrorAction SilentlyContinue
if ($Global:__mise_pwsh_chpwd_hooked) {
    $ExecutionContext.SessionState.InvokeCommand.LocationChangedAction = $__mise_pwsh_previous_chpwd_function
    $Global:__mise_pwsh_chpwd_hooked = $false
}
if ($Global:__mise_pwsh_prompt_hooked) {
    $function:prompt = $__mise_pwsh_previous_prompt_function
    $Global:__mise_pwsh_prompt_hooked = $false
}
Remove-Item -Path Env:/MISE_SHELL -ErrorAction SilentlyContinue
Remove-Item -Path Env:/__MISE_WATCH -ErrorAction SilentlyContinue
Remove-Item -Path Env:/__MISE_DIFF -ErrorAction SilentlyContinue
"#;
    assert_eq!(deactivate, expected);
}
