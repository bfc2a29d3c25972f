//! The PowerShell dialect backend: activation, deactivation and environment
//! mutation scripts.
//!
//! Every public operation returns a `String` whose view is pinned exactly by a
//! spec function over the input views, so callers know the emitted text to the
//! character. The activation script installs a wrapper function named after
//! the tool, a hook function that re-applies environment state, and two hook
//! registrations (directory change and prompt), each behind a guard variable
//! so that re-evaluating the script never registers a hook twice. The
//! deactivation script reverses each of those installations best-effort, so it
//! is safe to evaluate even when activation never ran. How an evaluating
//! session is affected by these scripts is modelled in `crate::session`.

use vstd::prelude::*;
use vstd::string::StringExecFns;

use crate::escape::escape_seq;
use crate::escape::powershell_escape;

verus! {

/// The PowerShell dialect. Carries no state: every operation is a pure
/// function from its arguments to generated text.
pub struct Pwsh {}

/// Options for one activation request: the path of the tool's own binary as
/// it should appear in the generated wrapper and hook calls, extra flags for
/// the hook's environment query, and a switch that suppresses automatic hook
/// installation so that only the wrapper is emitted.
pub struct ActivateOptions {
    pub exe: String,
    pub flags: String,
    pub no_hook_env: bool,
}

/// One line assigning `key` the escaped `value` inside single quotes.
pub open spec fn set_env_text(k: Seq<char>, v: Seq<char>) -> Seq<char> {
    "$Env:"@ + escape_seq(k) + "='"@ + escape_seq(v) + "'\n"@
}

/// One line setting `key` to the escaped `value`, the platform path
/// separator, then the value `key` has when the line is evaluated — so the
/// newest entry stands first and the shell, not this crate, reads the current
/// value.
pub open spec fn prepend_env_text(k: Seq<char>, v: Seq<char>) -> Seq<char> {
    "$Env:"@ + escape_seq(k) + "='"@ + escape_seq(v) + "'+[IO.Path]::PathSeparator+$env:"@
        + escape_seq(k) + "\n"@
}

/// One line removing `key` from the environment entirely.
pub open spec fn unset_env_text(k: Seq<char>) -> Seq<char> {
    "Remove-Item -Path Env:/"@ + escape_seq(k) + "\n"@
}

/// A set line is one line: it ends with its newline and holds no other,
/// whatever the key and value contain — the escaping keeps line breaks out,
/// so no value can smuggle a second command into the script.
pub proof fn lemma_set_env_single_line(k: Seq<char>, v: Seq<char>)
    ensures
        ({
            let t = set_env_text(k, v);
            &&& t.len() > 0
            &&& t[t.len() - 1] == '\n'
            &&& forall|i: int| 0 <= i < t.len() - 1 ==> #[trigger] t[i] != '\n'
        }),
{
    reveal_strlit("$Env:");
    reveal_strlit("='");
    reveal_strlit("'\n");
    crate::escape::lemma_escape_no_newline(k);
    crate::escape::lemma_escape_no_newline(v);
    let a = "$Env:"@;
    let b = escape_seq(k);
    let c = "='"@;
    let d = escape_seq(v);
    let e = "'\n"@;
    let t = set_env_text(k, v);
    assert forall|i: int| 0 <= i < t.len() - 1 implies #[trigger] t[i] != '\n' by {
        if i < a.len() {
            assert(t[i] == a[i]);
        } else if i < a.len() + b.len() {
            assert(t[i] == b[i - a.len()]);
        } else if i < a.len() + b.len() + c.len() {
            assert(t[i] == c[i - a.len() - b.len()]);
        } else if i < a.len() + b.len() + c.len() + d.len() {
            assert(t[i] == d[i - a.len() - b.len() - c.len()]);
        } else {
            assert(t[i] == e[i - a.len() - b.len() - c.len() - d.len()]);
        }
    }
}

/// A prepend line is one line, as the set line is.
pub proof fn lemma_prepend_env_single_line(k: Seq<char>, v: Seq<char>)
    ensures
        ({
            let t = prepend_env_text(k, v);
            &&& t.len() > 0
            &&& t[t.len() - 1] == '\n'
            &&& forall|i: int| 0 <= i < t.len() - 1 ==> #[trigger] t[i] != '\n'
        }),
{
    reveal_strlit("$Env:");
    reveal_strlit("='");
    reveal_strlit("'+[IO.Path]::PathSeparator+$env:");
    reveal_strlit("\n");
    crate::escape::lemma_escape_no_newline(k);
    crate::escape::lemma_escape_no_newline(v);
    let a = "$Env:"@;
    let b = escape_seq(k);
    let c = "='"@;
    let d = escape_seq(v);
    let e = "'+[IO.Path]::PathSeparator+$env:"@;
    let f = "\n"@;
    let t = prepend_env_text(k, v);
    assert forall|i: int| 0 <= i < t.len() - 1 implies #[trigger] t[i] != '\n' by {
        if i < a.len() {
            assert(t[i] == a[i]);
        } else if i < a.len() + b.len() {
            assert(t[i] == b[i - a.len()]);
        } else if i < a.len() + b.len() + c.len() {
            assert(t[i] == c[i - a.len() - b.len()]);
        } else if i < a.len() + b.len() + c.len() + d.len() {
            assert(t[i] == d[i - a.len() - b.len() - c.len()]);
        } else if i < a.len() + b.len() + c.len() + d.len() + e.len() {
            assert(t[i] == e[i - a.len() - b.len() - c.len() - d.len()]);
        } else {
            assert(t[i] == b[i - a.len() - b.len() - c.len() - d.len() - e.len()]);
        }
    }
}

/// An unset line is one line, as the set line is.
pub proof fn lemma_unset_env_single_line(k: Seq<char>)
    ensures
        ({
            let t = unset_env_text(k);
            &&& t.len() > 0
            &&& t[t.len() - 1] == '\n'
            &&& forall|i: int| 0 <= i < t.len() - 1 ==> #[trigger] t[i] != '\n'
        }),
{
    reveal_strlit("Remove-Item -Path Env:/");
    reveal_strlit("\n");
    crate::escape::lemma_escape_no_newline(k);
    let a = "Remove-Item -Path Env:/"@;
    let b = escape_seq(k);
    let c = "\n"@;
    let t = unset_env_text(k);
    assert forall|i: int| 0 <= i < t.len() - 1 implies #[trigger] t[i] != '\n' by {
        if i < a.len() {
            assert(t[i] == a[i]);
        } else if i < a.len() + b.len() {
            assert(t[i] == b[i - a.len()]);
        } else {
            assert(t[i] == c[i - a.len() - b.len()]);
        }
    }
}

/// The wrapper part of the activation script: marks the session, snapshots
/// the original `PATH`, and defines a `mise` function that re-parses the
/// typed command line (PowerShell pre-splits arguments, losing quoting),
/// delegates to the executable, evaluates the output of the deactivation
/// family of subcommands, runs the hook when it is still defined, and exits
/// with the wrapped command's own status so the hook cannot change it.
pub open spec fn wrapper_script(exe: Seq<char>) -> Seq<char> {
    r#"$env:MISE_SHELL = 'pwsh'
$env:__MISE_ORIG_PATH = $env:PATH

function mise {

    $code = [System.Management.Automation.Language.Parser]::ParseInput($MyInvocation.Statement.Substring($MyInvocation.OffsetInLine - 1), [ref]$null, [ref]$null)
    $myLine = $code.Find({ $args[0].CommandElements }, $true).CommandElements | ForEach-Object { $_.ToString() } | Join-String -Separator ' '
    $command, [array]$arguments = Invoke-Expression ('Write-Output -- ' + $myLine)

    if ($null -eq $arguments) {
        & "#@ + exe + r#"
        return
    }

    $command = $arguments[0]
    $arguments = $arguments[1..$arguments.Length]

    if ($arguments -contains '--help') {
        return & "#@ + exe + r#" $command $arguments
    }

    switch ($command) {
        { $_ -in 'deactivate', 'shell', 'sh' } {
            if ($arguments -contains '-h' -or $arguments -contains '--help') {
                & "#@ + exe + r#" $command $arguments
            }
            else {
                & "#@ + exe + r#" $command $arguments | Out-String | Invoke-Expression -ErrorAction SilentlyContinue
            }
        }
        default {
            & "#@ + exe + r#" $command $arguments
            $status = $LASTEXITCODE
            if ($(Test-Path -Path Function:\_mise_hook)){
                _mise_hook
            }
            pwsh -NoProfile -Command exit $status #Pass down exit code from mise after _mise_hook
        }
    }
}
"#@
}

/// The hook part of the activation script: defines the hook function, which
/// evaluates the executable's environment query, registers it for directory
/// change and prompt events — each behind its own guard variable, chaining
/// after any previously installed handler rather than replacing it — and runs
/// the hook once so the session is current before the first prompt.
pub open spec fn hook_script(exe: Seq<char>, flags: Seq<char>) -> Seq<char> {
    r#"
function _mise_hook {
    if ($env:MISE_SHELL -eq "pwsh"){
        & "#@ + exe + " hook-env"@ + flags
        + r#" -s pwsh | Out-String | Invoke-Expression -ErrorAction SilentlyContinue
    }
}

if (-not $Global:__mise_pwsh_chpwd_hooked){
    $Global:__mise_pwsh_chpwd_hooked = $true
    $_mise_chpwd_hook = [EventHandler[System.Management.Automation.LocationChangedEventArgs]] {
        param([object] $source, [System.Management.Automation.LocationChangedEventArgs] $eventArgs)
        end {
            _mise_hook
        }
    };
    $Global:__mise_pwsh_previous_chpwd_function=$ExecutionContext.SessionState.InvokeCommand.LocationChangedAction;

    if ($__mise_pwsh_previous_chpwd_function) {
        $ExecutionContext.SessionState.InvokeCommand.LocationChangedAction = [Delegate]::Combine($__mise_pwsh_previous_chpwd_function, $_mise_chpwd_hook)
    }
    else {
        $ExecutionContext.SessionState.InvokeCommand.LocationChangedAction = $_mise_chpwd_hook
    }
}

if (-not $Global:__mise_pwsh_prompt_hooked){
    $Global:__mise_pwsh_prompt_hooked = $true
    $global:__mise_pwsh_previous_prompt_function=$function:prompt
    function global:prompt {
        if (Test-Path -Path Function:\_mise_hook){
            _mise_hook
        }
        & $__mise_pwsh_previous_prompt_function
    }
}

_mise_hook
"#@
}

/// The whole activation script: the wrapper, then — unless automatic hook
/// installation is suppressed — the hook definition and registrations.
pub open spec fn activate_script(exe: Seq<char>, flags: Seq<char>, no_hook_env: bool) -> Seq<
    char,
> {
    wrapper_script(exe) + if no_hook_env {
        Seq::<char>::empty()
    } else {
        hook_script(exe, flags)
    }
}

/// The deactivation script: removes the wrapper and hook functions, restores
/// any previously chained directory-change and prompt handlers, and clears
/// the tool-owned session variables. Every step is conditional or silenced,
/// so the text is safe to evaluate in a session where activation never ran.
pub open spec fn deactivate_text() -> Seq<char> {
    r#"Remove-Item function:mise -ErrorAction SilentlyContinue
Remove-Item function:_mise_hook -ErrorAction SilentlyContinue
if ($Global:__mise_pwsh_chpwd_hooked) {
    $ExecutionContext.SessionState.InvokeCommand.LocationChangedAction = $__mise_pwsh_previous_chpwd_function
    $Global:__mise_pwsh_chpwd_hooked = $false
}
if ($Global:__mise_pwsh_prompt_hooked) {
    $function:prompt = $__mise_pwsh_previous_prompt_function
    $Global:__mise_pwsh_prompt_hooked = $false
}
Remove-Item -Path Env:/MISE_SHELL -ErrorAction SilentlyContinue
Remove-Item -Path Env:/__MISE_WATCH -ErrorAction SilentlyContinue
Remove-Item -Path Env:/__MISE_DIFF -ErrorAction SilentlyContinue
"#@
}

fn emit_wrapper(exe: &str) -> (r: String)
    ensures
        r@ == wrapper_script(exe@),
{
    let mut out = String::new();
    out.append(
        r#"$env:MISE_SHELL = 'pwsh'
$env:__MISE_ORIG_PATH = $env:PATH

function mise {

    $code = [System.Management.Automation.Language.Parser]::ParseInput($MyInvocation.Statement.Substring($MyInvocation.OffsetInLine - 1), [ref]$null, [ref]$null)
    $myLine = $code.Find({ $args[0].CommandElements }, $true).CommandElements | ForEach-Object { $_.ToString() } | Join-String -Separator ' '
    $command, [array]$arguments = Invoke-Expression ('Write-Output -- ' + $myLine)

    if ($null -eq $arguments) {
        & "#,
    );
    out.append(exe);
    out.append(
        r#"
        return
    }

    $command = $arguments[0]
    $arguments = $arguments[1..$arguments.Length]

    if ($arguments -contains '--help') {
        return & "#,
    );
    out.append(exe);
    out.append(
        r#" $command $arguments
    }

    switch ($command) {
        { $_ -in 'deactivate', 'shell', 'sh' } {
            if ($arguments -contains '-h' -or $arguments -contains '--help') {
                & "#,
    );
    out.append(exe);
    out.append(
        r#" $command $arguments
            }
            else {
                & "#,
    );
    out.append(exe);
    out.append(
        r#" $command $arguments | Out-String | Invoke-Expression -ErrorAction SilentlyContinue
            }
        }
        default {
            & "#,
    );
    out.append(exe);
    out.append(
        r#" $command $arguments
            $status = $LASTEXITCODE
            if ($(Test-Path -Path Function:\_mise_hook)){
                _mise_hook
            }
            pwsh -NoProfile -Command exit $status #Pass down exit code from mise after _mise_hook
        }
    }
}
"#,
    );
    proof {
        assert(out@ =~= wrapper_script(exe@));
    }
    out
}

fn emit_hook(exe: &str, flags: &str) -> (r: String)
    ensures
        r@ == hook_script(exe@, flags@),
{
    let mut out = String::new();
    out.append(
        r#"
function _mise_hook {
    if ($env:MISE_SHELL -eq "pwsh"){
        & "#,
    );
    out.append(exe);
    out.append(" hook-env");
    out.append(flags);
    out.append(
        r#" -s pwsh | Out-String | Invoke-Expression -ErrorAction SilentlyContinue
    }
}

if (-not $Global:__mise_pwsh_chpwd_hooked){
    $Global:__mise_pwsh_chpwd_hooked = $true
    $_mise_chpwd_hook = [EventHandler[System.Management.Automation.LocationChangedEventArgs]] {
        param([object] $source, [System.Management.Automation.LocationChangedEventArgs] $eventArgs)
        end {
            _mise_hook
        }
    };
    $Global:__mise_pwsh_previous_chpwd_function=$ExecutionContext.SessionState.InvokeCommand.LocationChangedAction;

    if ($__mise_pwsh_previous_chpwd_function) {
        $ExecutionContext.SessionState.InvokeCommand.LocationChangedAction = [Delegate]::Combine($__mise_pwsh_previous_chpwd_function, $_mise_chpwd_hook)
    }
    else {
        $ExecutionContext.SessionState.InvokeCommand.LocationChangedAction = $_mise_chpwd_hook
    }
}

if (-not $Global:__mise_pwsh_prompt_hooked){
    $Global:__mise_pwsh_prompt_hooked = $true
    $global:__mise_pwsh_previous_prompt_function=$function:prompt
    function global:prompt {
        if (Test-Path -Path Function:\_mise_hook){
            _mise_hook
        }
        & $__mise_pwsh_previous_prompt_function
    }
}

_mise_hook
"#,
    );
    proof {
        assert(out@ =~= hook_script(exe@, flags@));
    }
    out
}

impl Pwsh {
    /// The dialect's registry name.
    pub fn name(&self) -> (r: String)
        ensures
            r@ == "pwsh"@,
    {
        "pwsh".to_owned()
    }

    /// Emits the full activation script for this dialect.
    pub fn activate(&self, opts: ActivateOptions) -> (r: String)
        ensures
            r@ == activate_script(opts.exe@, opts.flags@, opts.no_hook_env),
    {
        let mut out = emit_wrapper(opts.exe.as_str());
        if !opts.no_hook_env {
            let hook = emit_hook(opts.exe.as_str(), opts.flags.as_str());
            out.append(hook.as_str());
        }
        proof {
            assert(out@ =~= activate_script(opts.exe@, opts.flags@, opts.no_hook_env));
        }
        out
    }

    /// Emits the deactivation script for this dialect.
    pub fn deactivate(&self) -> (r: String)
        ensures
            r@ == deactivate_text(),
    {
        let out =
            r#"Remove-Item function:mise -ErrorAction SilentlyContinue
Remove-Item function:_mise_hook -ErrorAction SilentlyContinue
if ($Global:__mise_pwsh_chpwd_hooked) {
    $ExecutionContext.SessionState.InvokeCommand.LocationChangedAction = $__mise_pwsh_previous_chpwd_function
    $Global:__mise_pwsh_chpwd_hooked = $false
}
if ($Global:__mise_pwsh_prompt_hooked) {
    $function:prompt = $__mise_pwsh_previous_prompt_function
    $Global:__mise_pwsh_prompt_hooked = $false
}
Remove-Item -Path Env:/MISE_SHELL -ErrorAction SilentlyContinue
Remove-Item -Path Env:/__MISE_WATCH -ErrorAction SilentlyContinue
Remove-Item -Path Env:/__MISE_DIFF -ErrorAction SilentlyContinue
"#.to_owned();
        out
    }

    /// Emits one line that sets `k` to `v` in the evaluating session.
    pub fn set_env(&self, k: &str, v: &str) -> (r: String)
        ensures
            r@ == set_env_text(k@, v@),
    {
        let ke = powershell_escape(k);
        let ve = powershell_escape(v);
        let mut out = String::new();
        out.append("$Env:");
        out.append(ke.as_str());
        out.append("='");
        out.append(ve.as_str());
        out.append("'\n");
        proof {
            assert(out@ =~= set_env_text(k@, v@));
        }
        out
    }

    /// Emits one line that prepends `v` and the platform path separator to
    /// the current value of `k` in the evaluating session.
    pub fn prepend_env(&self, k: &str, v: &str) -> (r: String)
        ensures
            r@ == prepend_env_text(k@, v@),
    {
        let ke = powershell_escape(k);
        let ve = powershell_escape(v);
        let mut out = String::new();
        out.append("$Env:");
        out.append(ke.as_str());
        out.append("='");
        out.append(ve.as_str());
        out.append("'+[IO.Path]::PathSeparator+$env:");
        out.append(ke.as_str());
        out.append("\n");
        proof {
            assert(out@ =~= prepend_env_text(k@, v@));
        }
        out
    }

    /// Emits one line that removes `k` from the evaluating session's
    /// environment.
    pub fn unset_env(&self, k: &str) -> (r: String)
        ensures
            r@ == unset_env_text(k@),
    {
        let ke = powershell_escape(k);
        let mut out = String::new();
        out.append("Remove-Item -Path Env:/");
        out.append(ke.as_str());
        out.append("\n");
        proof {
            assert(out@ =~= unset_env_text(k@));
        }
        out
    }
}

impl Default for Pwsh {
    fn default() -> (r: Pwsh)
        ensures
            r == (Pwsh {  }),
    {
        Pwsh {  }
    }
}

} // verus!
