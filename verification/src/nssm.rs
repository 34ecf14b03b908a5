//! The registrar for Windows: a batch script that has `nssm` install,
//! configure and start the service.

use vstd::prelude::*;
use vstd::string::*;
use crate::credentials::CredentialSet;
use crate::service::{is_windows_absolute, windows_absolute, RegistrationError, RegistrationStage};
use crate::text::{chars_of, is_line_break, line_break, slice_of};

verus! {

/// A character that would change how the command interpreter reads a line,
/// outside quotes or inside them.
pub open spec fn is_batch_special(c: char) -> bool {
    c == '"' || c == '%' || c == '&' || c == '|' || c == '<' || c == '>' || c == '^'
        || is_line_break(c)
}

/// A text that the script can hold as it is: not empty, and free of special
/// characters.
pub open spec fn batch_field(s: Seq<char>) -> bool {
    s.len() > 0 && forall|i: int| 0 <= i < s.len() ==> !is_batch_special(#[trigger] s[i])
}

/// `s` as it stands between quotes in the script: each `%` doubled, so that
/// the interpreter does not take it for the start of a variable.
pub open spec fn batch_escaped(s: Seq<char>) -> Seq<char>
    decreases s.len(),
{
    if s.len() == 0 {
        Seq::empty()
    } else if s.last() == '%' {
        batch_escaped(s.drop_last()) + "%%"@
    } else {
        batch_escaped(s.drop_last()).push(s.last())
    }
}

/// One quoted `KEY=VALUE` argument for each entry, each after a space.
pub open spec fn environment_arguments(entries: Seq<(Seq<char>, Seq<char>)>) -> Seq<char>
    decreases entries.len(),
{
    if entries.len() == 0 {
        Seq::empty()
    } else {
        environment_arguments(entries.drop_last()) + " \""@ + batch_escaped(entries.last().0)
            + "="@ + batch_escaped(entries.last().1) + "\""@
    }
}

/// Whether a script can be written for these names and paths.
pub open spec fn script_inputs_ok(
    service_name: Seq<char>,
    working_dir: Seq<char>,
    env_file: Seq<char>,
) -> bool {
    &&& batch_field(service_name)
    &&& batch_field(working_dir) && windows_absolute(working_dir)
    &&& batch_field(env_file) && windows_absolute(env_file)
}

/// The script: it looks `npm` up on the search path, installs the service
/// on it with the argument `start`, sets the working directory, puts the
/// credentials into the environment of the service, asks for a delayed
/// automatic start, and starts the service.
pub open spec fn script_text(
    service_name: Seq<char>,
    working_dir: Seq<char>,
    env_file: Seq<char>,
    entries: Seq<(Seq<char>, Seq<char>)>,
) -> Seq<char> {
    "@echo off\nset SERVICE_NAME="@ + service_name + "\nset NODE_PATH="@ + working_dir
        + "\\node_modules\nset ENV_PATH="@ + env_file
        + "\n\nREM Use where to find npm (Windows equivalent of which)\nfor /f \"delims=\" %%i in ('where npm') do set NPM_PATH=%%i\n\nnssm install %SERVICE_NAME% \"%NPM_PATH%\" \"start\"\nnssm set %SERVICE_NAME% AppDirectory \""@
        + working_dir + "\"\nnssm set %SERVICE_NAME% AppEnvironmentExtra"@
        + environment_arguments(entries) + "\nnssm set %SERVICE_NAME% Description \""@
        + service_name
        + " Service\"\nnssm set %SERVICE_NAME% Start SERVICE_DELAYED_AUTO_START\nnssm start %SERVICE_NAME%"@
}

/// Whether `c` would change how the command interpreter reads a line.
pub fn batch_special(c: char) -> (b: bool)
    ensures
        b == is_batch_special(c),
{
    c == '"' || c == '%' || c == '&' || c == '|' || c == '<' || c == '>' || c == '^'
        || line_break(c)
}

/// Whether the script can hold `s` as it is.
pub fn is_batch_field(s: &str) -> (b: bool)
    ensures
        b == batch_field(s@),
{
    let chars = chars_of(s);
    if chars.len() == 0 {
        return false;
    }
    let mut i: usize = 0;
    while i < chars.len()
        invariant
            chars@ == s@,
            i <= chars.len(),
            forall|j: int| 0 <= j < i ==> !is_batch_special(#[trigger] s@[j]),
        decreases chars.len() - i,
    {
        if batch_special(chars[i]) {
            return false;
        }
        i += 1;
    }
    true
}

/// `s` with each `%` doubled.
pub fn escape_batch(s: &str) -> (out: String)
    ensures
        out@ == batch_escaped(s@),
{
    let chars = chars_of(s);
    let mut out = String::new();
    let mut i: usize = 0;
    while i < chars.len()
        invariant
            chars@ == s@,
            i <= chars.len(),
            out@ == batch_escaped(s@.take(i as int)),
        decreases chars.len() - i,
    {
        proof {
            let head = s@.take(i as int + 1);
            assert(head.drop_last() =~= s@.take(i as int));
            assert(head.last() == s@[i as int]);
        }
        if chars[i] == '%' {
            out.append("%%");
        } else {
            let one = slice_of(s, i, i + 1);
            assert(one@ =~= seq![s@[i as int]]);
            out.append(one.as_str());
            assert(out@ =~= batch_escaped(s@.take(i as int)).push(s@[i as int]));
        }
        i += 1;
    }
    assert(s@.take(i as int) =~= s@);
    out
}

/// The quoted arguments that hand the credentials to the service.
pub fn environment_extra(credentials: &CredentialSet) -> (out: String)
    ensures
        out@ == environment_arguments(credentials@),
{
    let n: usize = credentials.len();
    let mut out = String::new();
    let mut i: usize = 0;
    while i < n
        invariant
            n == credentials@.len(),
            i <= n,
            out@ == environment_arguments(credentials@.take(i as int)),
        decreases n - i,
    {
        proof {
            let head = credentials@.take(i as int + 1);
            assert(head.drop_last() =~= credentials@.take(i as int));
            assert(head.last() == credentials@[i as int]);
        }
        let key = escape_batch(credentials.key(i).as_str());
        let value = escape_batch(credentials.value(i).as_str());
        out.append(" \"");
        out.append(key.as_str());
        out.append("=");
        out.append(value.as_str());
        out.append("\"");
        i += 1;
    }
    assert(credentials@.take(i as int) =~= credentials@);
    out
}

/// Renders the script, or refuses names and paths that the command
/// interpreter would not read as they are written.
pub fn nssm_script(
    service_name: &str,
    working_dir: &str,
    env_file: &str,
    credentials: &CredentialSet,
) -> (script: Result<String, RegistrationError>)
    ensures
        match script {
            Ok(text) => script_inputs_ok(service_name@, working_dir@, env_file@) && text@
                == script_text(service_name@, working_dir@, env_file@, credentials@),
            Err(e) => !script_inputs_ok(service_name@, working_dir@, env_file@) && e.stage
                == RegistrationStage::Inputs,
        },
{
    if !(is_batch_field(service_name) && is_batch_field(working_dir) && is_windows_absolute(
        working_dir,
    ) && is_batch_field(env_file) && is_windows_absolute(env_file)) {
        return Err(RegistrationError { stage: RegistrationStage::Inputs });
    }
    let extra = environment_extra(credentials);
    let mut text = String::from_str("@echo off\nset SERVICE_NAME=");
    text.append(service_name);
    text.append("\nset NODE_PATH=");
    text.append(working_dir);
    text.append("\\node_modules\nset ENV_PATH=");
    text.append(env_file);
    text.append(
        "\n\nREM Use where to find npm (Windows equivalent of which)\nfor /f \"delims=\" %%i in ('where npm') do set NPM_PATH=%%i\n\nnssm install %SERVICE_NAME% \"%NPM_PATH%\" \"start\"\nnssm set %SERVICE_NAME% AppDirectory \"",
    );
    text.append(working_dir);
    text.append("\"\nnssm set %SERVICE_NAME% AppEnvironmentExtra");
    text.append(extra.as_str());
    text.append("\nnssm set %SERVICE_NAME% Description \"");
    text.append(service_name);
    text.append(
        " Service\"\nnssm set %SERVICE_NAME% Start SERVICE_DELAYED_AUTO_START\nnssm start %SERVICE_NAME%",
    );
    Ok(text)
}

} // verus!
