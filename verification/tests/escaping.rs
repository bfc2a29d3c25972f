use mise_pwsh::powershell_escape;
use mise_pwsh::Pwsh;

#[test]
fn escape_plain_text_unchanged() {
    assert_eq!(powershell_escape("abc"), "abc");
    assert_eq!(powershell_escape("/some/dir:/2/dir"), "/some/dir:/2/dir");
    assert_eq!(powershell_escape("a b c"), "a b c");
}

#[test]
fn escape_empty_string() {
    assert_eq!(powershell_escape(""), "");
}

#[test]
fn escape_control_characters() {
    assert_eq!(powershell_escape("a\tb"), "a`tb");
    assert_eq!(powershell_escape("a\nb"), "a`nb");
    assert_eq!(powershell_escape("a\rb"), "a`rb");
    assert_eq!(powershell_escape("\t\n\r"), "`t`n`r");
}

#[test]
fn escape_quote_character() {
    assert_eq!(powershell_escape("it's"), "it`'s");
    assert_eq!(powershell_escape("''"), "`'`'");
}

#[test]
fn escape_backtick_doubled() {
    assert_eq!(powershell_escape("a`b"), "a``b");
    assert_eq!(powershell_escape("`"), "``");
}

#[test]
fn escape_mixed_specials() {
    assert_eq!(
        powershell_escape("x'\ty`\nz\r"),
        "x`'`ty```nz`r"
    );
}

#[test]
fn set_env_escapes_value() {
    let line = Pwsh::default().set_env("FOO", "a'b\nc");
    assert_eq!(line, "$Env:FOO='a`'b`nc'\n");
    // A value holding a newline still yields exactly one line.
    assert_eq!(line.matches('\n').count(), 1);
}

#[test]
fn prepend_env_escapes_value() {
    let line = Pwsh::default().prepend_env("PATH", "C:\\a dir'd");
    assert_eq!(
        line,
        "$Env:PATH='C:\\a dir`'d'+[IO.Path]::PathSeparator+$env:PATH\n"
    );
}
