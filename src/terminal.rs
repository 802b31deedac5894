use vstd::prelude::*;
use crate::paths::joined;
use crate::text::{chars_of, decimal, push_decimal, string_from};

verus! {

/// A character that a POSIX shell reads literally in a bare word.
pub open spec fn shell_safe(c: char) -> bool {
    let u = c as u32;
    (97 <= u && u <= 122) || (65 <= u && u <= 90) || (48 <= u && u <= 57) || c == '-' || c == '_'
        || c == '=' || c == '/' || c == ',' || c == '.' || c == '+'
}

/// One character inside single quotes: `'` and `!` leave the quotes for a
/// backslash escape.
pub open spec fn quote_char(c: char) -> Seq<char> {
    if c == '\'' || c == '!' {
        seq!['\'', '\\', c, '\'']
    } else {
        seq![c]
    }
}

/// The characters of `s`, each quoted.
pub open spec fn quoted_body(s: Seq<char>) -> Seq<char>
    decreases s.len(),
{
    if s.len() == 0 {
        seq![]
    } else {
        quoted_body(s.drop_last()) + quote_char(s.last())
    }
}

/// `s` as one shell word: unchanged where it is non-empty and all its
/// characters are safe, else in single quotes.
pub open spec fn shell_quoted(s: Seq<char>) -> Seq<char> {
    if s.len() > 0 && (forall|i: int| 0 <= i < s.len() ==> shell_safe(#[trigger] s[i])) {
        s
    } else {
        seq!['\''] + quoted_body(s) + seq!['\'']
    }
}

/// Relies on `shell_escape::unix::escape`: returns its input where it is
/// non-empty and made of `a-z A-Z 0-9 - _ = / , . +` only; else wraps it in
/// single quotes, writing each `'` or `!` as `'\` + the character + `'`.
#[verifier::external_body]
fn shell_escape(s: &str) -> (r: String)
    ensures
        r@ == shell_quoted(s@),
{
    shell_escape::unix::escape(std::borrow::Cow::Borrowed(s)).into_owned()
}

/// `s` with a backslash before each double quote.
pub open spec fn escape_double_quotes(s: Seq<char>) -> Seq<char>
    decreases s.len(),
{
    if s.len() == 0 {
        seq![]
    } else {
        escape_double_quotes(s.drop_last()) + if s.last() == '"' {
            seq!['\\', '"']
        } else {
            seq![s.last()]
        }
    }
}

/// The marker file that exists while an update terminal is open.
pub open spec fn marker_path(runtime_dir: Seq<char>, pid: nat) -> Seq<char> {
    joined(runtime_dir, "cosmic-package-updater-terminal-"@ + decimal(pid) + ".marker"@)
}

/// The shell script run in the terminal: the update command, a prompt to
/// close, and the removal of the marker file.
pub open spec fn update_script(command: Seq<char>, marker: Seq<char>) -> Seq<char> {
    escape_double_quotes(command) + " && echo 'Update completed. Press Enter to exit...' && read; rm -f "@
        + shell_quoted(marker)
}

/// The marker file for the terminal of process `pid`.
pub fn terminal_marker_path(runtime_dir: &str, pid: u32) -> (r: String)
    ensures
        r@ == marker_path(runtime_dir@, pid as nat),
{
    let mut name = string_from("cosmic-package-updater-terminal-");
    push_decimal(&mut name, pid as u64);
    name.append(".marker");
    crate::paths::join_path(runtime_dir, name.as_str())
}

/// The script that runs `command` in a terminal and then removes `marker_file`.
pub fn terminal_update_script(command: &str, marker_file: &str) -> (r: String)
    ensures
        r@ == update_script(command@, marker_file@),
{
    let cs = chars_of(command);
    let mut out = String::new();
    let mut i: usize = 0;
    while i < cs.len()
        invariant
            i <= cs@.len(),
            out@ == escape_double_quotes(cs@.subrange(0, i as int)),
        decreases cs.len() - i,
    {
        let c = cs[i];
        let ghost before = out@;
        assert(cs@.subrange(0, i + 1).drop_last() =~= cs@.subrange(0, i as int));
        if c == '"' {
            out.push('\\');
        }
        out.push(c);
        i = i + 1;
        assert(out@ =~= escape_double_quotes(cs@.subrange(0, i as int)));
    }
    assert(cs@.subrange(0, i as int) =~= cs@);
    out.append(" && echo 'Update completed. Press Enter to exit...' && read; rm -f ");
    let quoted = shell_escape(marker_file);
    out.append(quoted.as_str());
    out
}

} // verus!
