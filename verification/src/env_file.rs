//! The environment file, rendered from its template and the key form.
//!
//! The template holds placeholders for a few defaults and a line for the
//! OpenAI key. Providers that bring a key of their own get a line for it
//! after the comment that heads the vendor keys, and the line for the OpenAI
//! key stays only where the provider's embedding model needs it.

use vstd::prelude::*;
use vstd::string::*;
use crate::form_data::{env_key_name, uses_openai_embedding, FormData};
use crate::updates::opt_text;
use crate::text::{
    contains, from_chars, has_prefix, join2, join3, line_end, occurs_in, replace, replaced,
    same_text, scan_line, starts_with, texts, to_chars, trim, trimmed, without_cr,
};

verus! {

/// The lines of a text from offset `from` on. A line ends at a line feed; the
/// carriage return before a line feed is not part of the line. A line feed at
/// the very end of the text starts no further line.
pub open spec fn lines_from(s: Seq<char>, from: int) -> Seq<Seq<char>>
    decreases s.len() - from,
{
    let end = line_end(s, from);
    if from < 0 || from >= s.len() || end < from || end > s.len() {
        Seq::empty()
    } else if end >= s.len() {
        seq![s.subrange(from, end)]
    } else {
        seq![without_cr(s.subrange(from, end))] + lines_from(s, end + 1)
    }
}

/// The lines of a text.
pub open spec fn lines_of(s: Seq<char>) -> Seq<Seq<char>> {
    lines_from(s, 0)
}

/// The lines in a row, with a line feed between each two.
pub open spec fn joined(lines: Seq<Seq<char>>) -> Seq<char>
    decreases lines.len(),
{
    if lines.len() == 0 {
        Seq::empty()
    } else if lines.len() == 1 {
        lines[0]
    } else {
        joined(lines.drop_last()) + "\n"@ + lines.last()
    }
}

/// Splits a text into its lines.
pub fn split_lines(text: &str) -> (lines: Vec<String>)
    ensures
        texts(lines@) == lines_of(text@),
{
    let chars = to_chars(text);
    let mut lines: Vec<String> = Vec::new();
    let mut from: usize = 0;
    while from < chars.len()
        invariant
            from <= chars.len(),
            chars@ == text@,
            lines_of(text@) == texts(lines@) + lines_from(chars@, from as int),
        decreases chars.len() - from,
    {
        let end = scan_line(&chars, from);
        if end >= chars.len() {
            let line = from_chars(&chars, from, end);
            lines.push(line);
            from = chars.len();
        } else {
            let stop: usize = if end > from && chars[end - 1] == '\r' {
                end - 1
            } else {
                end
            };
            let line = from_chars(&chars, from, stop);
            assert(line@ =~= without_cr(chars@.subrange(from as int, end as int)));
            lines.push(line);
            from = end + 1;
        }
    }
    lines
}

/// Puts lines in a row, with a line feed between each two.
pub fn join_lines(lines: &Vec<String>) -> (text: String)
    ensures
        text@ == joined(texts(lines@)),
{
    let mut text = String::new();
    let mut i: usize = 0;
    while i < lines.len()
        invariant
            i <= lines.len(),
            text@ == joined(texts(lines@).take(i as int)),
        decreases lines.len() - i,
    {
        let ghost all = texts(lines@);
        proof {
            assert(all.take(i + 1).drop_last() =~= all.take(i as int));
        }
        if i > 0 {
            text.append("\n");
        }
        text.append(lines[i].as_str());
        i += 1;
    }
    assert(texts(lines@).take(i as int) =~= texts(lines@));
    text
}

/// The name shown for the demo user: `demo-user-` and the part of the
/// identifier before its first hyphen.
pub open spec fn user_name(identifier: Seq<char>) -> Seq<char> {
    "demo-user-"@ + identifier.take(hyphen_at(identifier, 0))
}

/// Where the first hyphen at or after `from` stands, or the length of the text.
pub open spec fn hyphen_at(s: Seq<char>, from: int) -> int
    decreases s.len() - from,
{
    if 0 <= from < s.len() && s[from] != '-' {
        hyphen_at(s, from + 1)
    } else {
        from
    }
}

/// The name shown for the demo user.
pub fn demo_user(identifier: &str) -> (name: String)
    ensures
        name@ == user_name(identifier@),
{
    let chars = to_chars(identifier);
    let mut i: usize = 0;
    while i < chars.len() && chars[i] != '-'
        invariant
            i <= chars.len(),
            hyphen_at(chars@, 0) == hyphen_at(chars@, i as int),
        decreases chars.len() - i,
    {
        i += 1;
    }
    let head = from_chars(&chars, 0, i);
    join2("demo-user-", head.as_str())
}

/// `uuid::Uuid::new_v4` written out by `to_string`. The identifier is drawn
/// at random, so nothing is said of it. The draw needs the operating system's
/// source of randomness and stops the program where that fails.
#[verifier::external_body]
fn random_identifier() -> (text: String) {
    uuid::Uuid::new_v4().to_string()
}

/// The template with its defaults filled in.
pub open spec fn defaults_filled(template: Seq<char>, identifier: Seq<char>) -> Seq<char> {
    replaced(
        replaced(
            replaced(
                replaced(
                    replaced(template, "{{ANALYTICS_AI_SERVICE_PORT}}"@, "5555"@),
                    "{{USER_UUID}}"@,
                    user_name(identifier),
                ),
                "{{GENERATION_MODEL}}"@,
                "default"@,
            ),
            "{{HOST_PORT}}"@,
            "3000"@,
        ),
        "{{AI_SERVICE_FORWARD_PORT}}"@,
        "5555"@,
    )
}

/// The two key lines that a provider with a key of its own brings.
pub struct KeyLines {
    /// The name of the provider's variable, followed by `=`.
    pub prefix: Seq<char>,
    /// The line that sets the provider's key.
    pub provider: Seq<char>,
    /// The line that sets the OpenAI key, where the embedding model needs one.
    pub openai: Option<Seq<char>>,
}

/// The key lines for what the form holds.
pub open spec fn key_lines(form: FormData) -> KeyLines {
    let name = env_key_name(form.selected_provider@);
    let openai = trimmed(form.openai_api_key@);
    KeyLines {
        prefix: name + "="@,
        provider: name + "="@ + trimmed(form.api_key@),
        openai: if uses_openai_embedding(form.selected_provider@) && openai.len() > 0 {
            Some("OPENAI_API_KEY="@ + openai)
        } else {
            None
        },
    }
}

/// What becomes of one line of the template, given whether the two key lines
/// were written before it: the lines to write for it, and whether the two
/// key lines are written after it.
pub open spec fn line_out(line: Seq<char>, provider_done: bool, openai_done: bool, keys: KeyLines) -> (
    Seq<Seq<char>>,
    bool,
    bool,
) {
    let t = trimmed(line);
    if t == "OPENAI_API_KEY={{OPENAI_API_KEY}}"@ || t == "OPENAI_API_KEY="@ {
        (Seq::empty(), provider_done, openai_done)
    } else if has_prefix(t, keys.prefix) {
        (seq![keys.provider], true, openai_done)
    } else if has_prefix(t, "OPENAI_API_KEY="@) {
        match keys.openai {
            Some(openai) => (seq![openai], provider_done, true),
            None => (Seq::empty(), provider_done, openai_done),
        }
    } else if occurs_in(line, "# vendor keys"@) {
        let with_provider = if provider_done {
            seq![line]
        } else {
            seq![line, keys.provider]
        };
        match keys.openai {
            Some(openai) => if openai_done {
                (with_provider, true, true)
            } else {
                (with_provider.push(openai), true, true)
            },
            None => (with_provider, true, openai_done),
        }
    } else {
        (seq![line], provider_done, openai_done)
    }
}

/// The key lines that are still owed after the last line of the template.
pub open spec fn lines_owed(provider_done: bool, openai_done: bool, keys: KeyLines) -> Seq<Seq<char>> {
    let provider = if provider_done {
        Seq::<Seq<char>>::empty()
    } else {
        seq![keys.provider]
    };
    match keys.openai {
        Some(openai) => if openai_done {
            provider
        } else {
            provider.push(openai)
        },
        None => provider,
    }
}

/// The lines written for the lines of the template from index `i` on.
pub open spec fn lines_out(
    lines: Seq<Seq<char>>,
    i: int,
    provider_done: bool,
    openai_done: bool,
    keys: KeyLines,
) -> Seq<Seq<char>>
    decreases lines.len() - i,
{
    if i < 0 || i >= lines.len() {
        lines_owed(provider_done, openai_done, keys)
    } else {
        let step = line_out(lines[i], provider_done, openai_done, keys);
        step.0 + lines_out(lines, i + 1, step.1, step.2, keys)
    }
}

/// The environment file for what the form holds. `identifier` is the
/// identifier from which the demo user gets its name.
///
/// A provider that needs no key leaves the OpenAI line empty. OpenAI itself
/// fills its key into the OpenAI line. Every other provider gets a line of
/// its own: in place of a line that sets its variable already, else after
/// the comment that heads the vendor keys, else at the end.
pub open spec fn env_rendered(template: Seq<char>, identifier: Seq<char>, form: FormData) -> Seq<
    char,
> {
    let base = defaults_filled(template, identifier);
    let name = env_key_name(form.selected_provider@);
    if name.len() == 0 {
        replaced(base, "{{OPENAI_API_KEY}}"@, ""@)
    } else if name == "OPENAI_API_KEY"@ {
        replaced(base, "{{OPENAI_API_KEY}}"@, trimmed(form.api_key@))
    } else {
        joined(lines_out(lines_of(base), 0, false, false, key_lines(form)))
    }
}

/// Writes out the lines for a provider with a key of its own.
fn rewrite_lines(lines: &Vec<String>, prefix: &str, provider: &str, openai: &Option<String>) -> (out:
    Vec<String>)
    ensures
        texts(out@) == lines_out(
            texts(lines@),
            0,
            false,
            false,
            KeyLines {
                prefix: prefix@,
                provider: provider@,
                openai: opt_text(*openai),
            },
        ),
{
    let ghost keys = KeyLines {
        prefix: prefix@,
        provider: provider@,
        openai: opt_text(*openai),
    };
    let ghost all = texts(lines@);
    let mut out: Vec<String> = Vec::new();
    let mut provider_done = false;
    let mut openai_done = false;
    let mut i: usize = 0;
    while i < lines.len()
        invariant
            i <= lines.len(),
            all == texts(lines@),
            keys.prefix == prefix@,
            keys.provider == provider@,
            keys.openai == opt_text(*openai),
            lines_out(all, 0, false, false, keys) == texts(out@) + lines_out(
                all,
                i as int,
                provider_done,
                openai_done,
                keys,
            ),
        decreases lines.len() - i,
    {
        let ghost step = line_out(all[i as int], provider_done, openai_done, keys);
        let line = &lines[i];
        let t = trim(line.as_str());
        if same_text(t.as_str(), "OPENAI_API_KEY={{OPENAI_API_KEY}}") || same_text(
            t.as_str(),
            "OPENAI_API_KEY=",
        ) {
        } else if starts_with(t.as_str(), prefix) {
            out.push(String::from_str(provider));
            provider_done = true;
        } else if starts_with(t.as_str(), "OPENAI_API_KEY=") {
            match openai {
                Some(openai_line) => {
                    out.push(openai_line.clone());
                    openai_done = true;
                },
                None => {},
            }
        } else {
            out.push(line.clone());
            if contains(line.as_str(), "# vendor keys") {
                if !provider_done {
                    out.push(String::from_str(provider));
                    provider_done = true;
                }
                match openai {
                    Some(openai_line) => {
                        if !openai_done {
                            out.push(openai_line.clone());
                            openai_done = true;
                        }
                    },
                    None => {},
                }
            }
        }
        i += 1;
    }
    if !provider_done {
        out.push(String::from_str(provider));
    }
    match openai {
        Some(openai_line) => {
            if !openai_done {
                out.push(openai_line.clone());
            }
        },
        None => {},
    }
    out
}

/// Renders the environment file from its template, an identifier for the
/// demo user and what the form holds.
pub fn render_env(template: &str, identifier: &str, form: &FormData) -> (content: String)
    ensures
        content@ == env_rendered(template@, identifier@, *form),
{
    let user = demo_user(identifier);
    let a = replace(template, "{{ANALYTICS_AI_SERVICE_PORT}}", "5555");
    let b = replace(a.as_str(), "{{USER_UUID}}", user.as_str());
    let c = replace(b.as_str(), "{{GENERATION_MODEL}}", "default");
    let d = replace(c.as_str(), "{{HOST_PORT}}", "3000");
    let base = replace(d.as_str(), "{{AI_SERVICE_FORWARD_PORT}}", "5555");
    let name = form.get_env_key_name();
    let api_key = trim(form.api_key.as_str());
    if name.is_empty() {
        replace(base.as_str(), "{{OPENAI_API_KEY}}", "")
    } else if same_text(name, "OPENAI_API_KEY") {
        replace(base.as_str(), "{{OPENAI_API_KEY}}", api_key.as_str())
    } else {
        let openai_key = trim(form.openai_api_key.as_str());
        let prefix = join2(name, "=");
        let provider = join3(name, "=", api_key.as_str());
        let openai = if form.needs_openai_embedding() && !openai_key.as_str().is_empty() {
            Some(join2("OPENAI_API_KEY=", openai_key.as_str()))
        } else {
            None
        };
        let lines = split_lines(base.as_str());
        let out = rewrite_lines(&lines, prefix.as_str(), provider.as_str(), &openai);
        join_lines(&out)
    }
}

/// Renders the environment file with a fresh identifier for the demo user.
/// The result is what [`render_env`] gives for some identifier.
pub fn generate_env_file(template: &str, form: &FormData) -> (content: String)
    ensures
        exists|identifier: Seq<char>| content@ == env_rendered(template@, identifier, *form),
{
    let identifier = random_identifier();
    let content = render_env(template, identifier.as_str(), form);
    content
}

} // verus!
