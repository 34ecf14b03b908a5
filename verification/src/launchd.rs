//! The registrar for macOS: the property list of a launch agent. Writing
//! it is the whole registration; loading the agent is left to the
//! operator.

use vstd::prelude::*;
use vstd::string::*;
use crate::credentials::CredentialSet;
use crate::service::{is_unix_absolute, unix_absolute, RegistrationError, RegistrationStage};
use crate::text::{chars_of, slice_of};

verus! {

/// What stands for `c` in the text of an XML element.
pub open spec fn xml_char(c: char) -> Seq<char> {
    if c == '&' {
        "&amp;"@
    } else if c == '<' {
        "&lt;"@
    } else if c == '>' {
        "&gt;"@
    } else {
        seq![c]
    }
}

/// `s` as the text of an XML element.
pub open spec fn xml_escaped(s: Seq<char>) -> Seq<char>
    decreases s.len(),
{
    if s.len() == 0 {
        Seq::empty()
    } else {
        xml_escaped(s.drop_last()) + xml_char(s.last())
    }
}

/// One key and one string for each entry of the environment dictionary.
pub open spec fn environment_dictionary(entries: Seq<(Seq<char>, Seq<char>)>) -> Seq<char>
    decreases entries.len(),
{
    if entries.len() == 0 {
        Seq::empty()
    } else {
        environment_dictionary(entries.drop_last()) + "        <key>"@ + xml_escaped(
            entries.last().0,
        ) + "</key>\n        <string>"@ + xml_escaped(entries.last().1) + "</string>\n"@
    }
}

/// Whether a launch agent can be written for this name and directory.
pub open spec fn agent_inputs_ok(service_name: Seq<char>, working_dir: Seq<char>) -> bool {
    service_name.len() > 0 && unix_absolute(working_dir)
}

/// The property list: the agent runs `npm start` in `working_dir` with the
/// credentials in its environment, is started when it is loaded, is kept
/// alive, and logs into two files in `working_dir`.
pub open spec fn agent_text(
    service_name: Seq<char>,
    working_dir: Seq<char>,
    entries: Seq<(Seq<char>, Seq<char>)>,
) -> Seq<char> {
    "<?xml version=\"1.0\" encoding=\"UTF-8\"?>\n<!DOCTYPE plist PUBLIC \"-//Apple//DTD PLIST 1.0//EN\" \"http://www.apple.com/DTDs/PropertyList-1.0.dtd\">\n<plist version=\"1.0\">\n<dict>\n    <key>Label</key>\n    <string>"@
        + xml_escaped(service_name)
        + "</string>\n    <key>ProgramArguments</key>\n    <array>\n        <string>/usr/local/bin/npm</string>\n        <string>start</string>\n    </array>\n    <key>WorkingDirectory</key>\n    <string>"@
        + xml_escaped(working_dir)
        + "</string>\n    <key>EnvironmentVariables</key>\n    <dict>\n"@
        + environment_dictionary(entries)
        + "    </dict>\n    <key>RunAtLoad</key>\n    <true/>\n    <key>KeepAlive</key>\n    <true/>\n    <key>StandardOutPath</key>\n    <string>"@
        + xml_escaped(working_dir)
        + "/service.out.log</string>\n    <key>StandardErrorPath</key>\n    <string>"@
        + xml_escaped(working_dir) + "/service.err.log</string>\n</dict>\n</plist>\n"@
}

/// `s` with `&`, `<` and `>` replaced by their entities.
pub fn escape_xml(s: &str) -> (out: String)
    ensures
        out@ == xml_escaped(s@),
{
    let chars = chars_of(s);
    let mut out = String::new();
    let mut i: usize = 0;
    while i < chars.len()
        invariant
            chars@ == s@,
            i <= chars.len(),
            out@ == xml_escaped(s@.take(i as int)),
        decreases chars.len() - i,
    {
        proof {
            let head = s@.take(i as int + 1);
            assert(head.drop_last() =~= s@.take(i as int));
            assert(head.last() == s@[i as int]);
        }
        let c = chars[i];
        if c == '&' {
            out.append("&amp;");
        } else if c == '<' {
            out.append("&lt;");
        } else if c == '>' {
            out.append("&gt;");
        } else {
            let one = slice_of(s, i, i + 1);
            assert(one@ =~= seq![s@[i as int]]);
            out.append(one.as_str());
        }
        i += 1;
    }
    assert(s@.take(i as int) =~= s@);
    out
}

/// The entries of the environment dictionary.
pub fn environment_entries(credentials: &CredentialSet) -> (out: String)
    ensures
        out@ == environment_dictionary(credentials@),
{
    let n: usize = credentials.len();
    let mut out = String::new();
    let mut i: usize = 0;
    while i < n
        invariant
            n == credentials@.len(),
            i <= n,
            out@ == environment_dictionary(credentials@.take(i as int)),
        decreases n - i,
    {
        proof {
            let head = credentials@.take(i as int + 1);
            assert(head.drop_last() =~= credentials@.take(i as int));
            assert(head.last() == credentials@[i as int]);
        }
        let key = escape_xml(credentials.key(i).as_str());
        let value = escape_xml(credentials.value(i).as_str());
        out.append("        <key>");
        out.append(key.as_str());
        out.append("</key>\n        <string>");
        out.append(value.as_str());
        out.append("</string>\n");
        i += 1;
    }
    assert(credentials@.take(i as int) =~= credentials@);
    out
}

/// Renders the property list, or refuses an empty name and a directory
/// that is not absolute.
pub fn launchd_plist(service_name: &str, working_dir: &str, credentials: &CredentialSet) -> (agent:
    Result<String, RegistrationError>)
    ensures
        match agent {
            Ok(text) => agent_inputs_ok(service_name@, working_dir@) && text@ == agent_text(
                service_name@,
                working_dir@,
                credentials@,
            ),
            Err(e) => !agent_inputs_ok(service_name@, working_dir@) && e.stage
                == RegistrationStage::Inputs,
        },
{
    if service_name.unicode_len() == 0 || !is_unix_absolute(working_dir) {
        return Err(RegistrationError { stage: RegistrationStage::Inputs });
    }
    let name = escape_xml(service_name);
    let dir = escape_xml(working_dir);
    let entries = environment_entries(credentials);
    let mut text = String::from_str(
        "<?xml version=\"1.0\" encoding=\"UTF-8\"?>\n<!DOCTYPE plist PUBLIC \"-//Apple//DTD PLIST 1.0//EN\" \"http://www.apple.com/DTDs/PropertyList-1.0.dtd\">\n<plist version=\"1.0\">\n<dict>\n    <key>Label</key>\n    <string>",
    );
    text.append(name.as_str());
    text.append(
        "</string>\n    <key>ProgramArguments</key>\n    <array>\n        <string>/usr/local/bin/npm</string>\n        <string>start</string>\n    </array>\n    <key>WorkingDirectory</key>\n    <string>",
    );
    text.append(dir.as_str());
    text.append("</string>\n    <key>EnvironmentVariables</key>\n    <dict>\n");
    text.append(entries.as_str());
    text.append(
        "    </dict>\n    <key>RunAtLoad</key>\n    <true/>\n    <key>KeepAlive</key>\n    <true/>\n    <key>StandardOutPath</key>\n    <string>",
    );
    text.append(dir.as_str());
    text.append("/service.out.log</string>\n    <key>StandardErrorPath</key>\n    <string>");
    text.append(dir.as_str());
    text.append("/service.err.log</string>\n</dict>\n</plist>\n");
    Ok(text)
}

/// Escaped text cannot open or close an element: whatever `s` holds,
/// neither `<` nor `>` occurs in it once it is escaped.
pub proof fn lemma_escaped_holds_no_markup(s: Seq<char>)
    ensures
        forall|i: int|
            0 <= i < xml_escaped(s).len() ==> (#[trigger] xml_escaped(s)[i]) != '<' && xml_escaped(
                s,
            )[i] != '>',
    decreases s.len(),
{
    if s.len() > 0 {
        lemma_escaped_holds_no_markup(s.drop_last());
        reveal_strlit("&amp;");
        reveal_strlit("&lt;");
        reveal_strlit("&gt;");
        let head = xml_escaped(s.drop_last());
        let tail = xml_char(s.last());
        assert forall|i: int| 0 <= i < xml_escaped(s).len() implies (#[trigger] xml_escaped(s)[i])
            != '<' && xml_escaped(s)[i] != '>' by {
            if i < head.len() {
                assert(xml_escaped(s)[i] == head[i]);
            } else {
                assert(xml_escaped(s)[i] == tail[i - head.len()]);
            }
        }
    }
}

} // verus!
