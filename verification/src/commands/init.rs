//! Shell integration: the shell function that lets `wt` change the
//! directory of the shell that called it.

use crate::git::GitError;
use crate::text::same_text;
use vstd::prelude::*;

verus! {

/// The function for bash.
pub const BASH_FUNCTION: &'static str = r#"wt() {
  local output
  output=$(command wt "$@")
  local exit_code=$?
  if [[ $exit_code -eq 0 && ("$1" == "switch" || "$1" == "sw" || "$*" == *"--switch"* || " $* " == *" -s "* || "$*" == "-s" || "$*" == *" -s") ]]; then
    cd "$output"
  else
    echo "$output"
    return $exit_code
  fi
}
"#;

/// The function for zsh.
pub const ZSH_FUNCTION: &'static str = r#"wt() {
  local output
  output=$(command wt "$@")
  local exit_code=$?
  if [[ $exit_code -eq 0 && ("$1" == "switch" || "$1" == "sw" || "$*" == *"--switch"* || " $* " == *" -s "* || "$*" == "-s" || "$*" == *" -s") ]]; then
    cd "$output"
  else
    echo "$output"
    return $exit_code
  fi
}
"#;

/// The lower-case form of `text`, as `str::to_lowercase` gives it.
pub uninterp spec fn lowercase_of(text: Seq<char>) -> Seq<char>;

/// Calls `str::to_lowercase`. The result is the lower-case form of the
/// text, which depends on the text alone. What that form is, Unicode's
/// tables say; nothing is claimed of it here.
#[verifier::external_body]
fn to_lowercase(text: &str) -> (lowered: String)
    ensures
        lowered@ == lowercase_of(text@),
{
    text.to_lowercase()
}

/// The message for a shell that has no function.
pub open spec fn unsupported_shell(shell: Seq<char>) -> Seq<char> {
    "Unsupported shell: "@ + shell + ". Supported shells: bash, zsh"@
}

/// The shell function for the shell whose name, in lower case, is
/// `lowered`, or the message that says that there is none for it; `shell`
/// is the name as the user wrote it.
pub open spec fn shell_function(lowered: Seq<char>, shell: Seq<char>) -> Result<
    Seq<char>,
    Seq<char>,
> {
    if lowered == "bash"@ {
        Ok(BASH_FUNCTION@)
    } else if lowered == "zsh"@ {
        Ok(ZSH_FUNCTION@)
    } else {
        Err(unsupported_shell(shell))
    }
}

/// The shell function for the shell whose name, in lower case, is
/// `lowered`; `shell` is the name as the user wrote it.
pub fn shell_function_for(lowered: &str, shell: &str) -> (result: Result<&'static str, GitError>)
    ensures
        match result {
            Ok(function) => shell_function(lowered@, shell@) == Ok::<Seq<char>, Seq<char>>(
                function@,
            ),
            Err(error) => shell_function(lowered@, shell@) == Err::<Seq<char>, Seq<char>>(
                error.message@,
            ),
        },
{
    if same_text(lowered, "bash") {
        Ok(BASH_FUNCTION)
    } else if same_text(lowered, "zsh") {
        Ok(ZSH_FUNCTION)
    } else {
        let mut message = "Unsupported shell: ".to_owned();
        message.append(shell);
        message.append(". Supported shells: bash, zsh");
        Err(GitError { message })
    }
}

/// The shell function for `shell`, whose name may be written in any case.
pub fn get_shell_function(shell: &str) -> (result: Result<&'static str, GitError>)
    ensures
        match result {
            Ok(function) => shell_function(lowercase_of(shell@), shell@) == Ok::<
                Seq<char>,
                Seq<char>,
            >(function@),
            Err(error) => shell_function(lowercase_of(shell@), shell@) == Err::<
                Seq<char>,
                Seq<char>,
            >(error.message@),
        },
{
    let lowered = to_lowercase(shell);
    shell_function_for(lowered.as_str(), shell)
}

} // verus!
