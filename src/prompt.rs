use vstd::prelude::*;

use vstd::string::StringExecFns;

verus! {

/// The fixed text of the prompt before the context slot.
pub const PROMPT_HEAD: &'static str = r#"You are a code suggestion engine
designed to provide immediate, code-only suggestions based on the current line in a developer's code editor.
Your purpose is to generate code that logically follows from, or is needed by, the provided line of code,
without offering explanations or annotations.

- Use the information in the 'Current line' to understand what code should come next or what modifications are necessary.
- Consider the 'Code context section' and 'Surrounding block of code' for additional clues about what the correct code suggestion should be. These sections provide insight into how the current line fits into the larger codebase or function.
- Generate a code suggestion that directly modifies or adds to the 'Current line' where applicable. If the suggestion does not directly modify the current line, provide the next logical line(s) of code.
- Your suggestion must be code only. Do not include comments, explanations, or any non-code elements.

Follow this format precisely:

---

Code context section:
"#;

/// The fixed text between the context slot and the current-line slot.
pub const PROMPT_AFTER_CONTEXT: &'static str = r#"

Current line:
"#;

/// The fixed text between the current-line slot and the surrounding-lines slot.
pub const PROMPT_AFTER_CURRENT_LINE: &'static str = r#"

Surrounding block of code:
"#;

/// The fixed text of the prompt after the surrounding-lines slot.
pub const PROMPT_TAIL: &'static str = r#"

Suggested code:
Your suggestion here, adhering strictly to the instruction for code-only output.
"#;

/// The prompt template: the fixed pieces with the tags `{context}`, `{current_line}` and
/// `{surrounding_lines}` between them. The pieces hold no brace and no backslash.
pub open spec fn prompt_template_text() -> Seq<char> {
    PROMPT_HEAD@ + "{context}"@ + PROMPT_AFTER_CONTEXT@ + "{current_line}"@
        + PROMPT_AFTER_CURRENT_LINE@ + "{surrounding_lines}"@ + PROMPT_TAIL@
}

/// The prompt with the three slots filled verbatim.
pub open spec fn filled_prompt(context: Seq<char>, current_line: Seq<char>, surrounding_lines: Seq<char>) -> Seq<char> {
    PROMPT_HEAD@ + context + PROMPT_AFTER_CONTEXT@ + current_line + PROMPT_AFTER_CURRENT_LINE@
        + surrounding_lines + PROMPT_TAIL@
}

/// The prompt template, built from its pieces.
pub fn default_prompt_template() -> (r: String)
    ensures
        r@ == prompt_template_text(),
{
    let mut t = String::from_str(PROMPT_HEAD);
    t.append("{context}");
    t.append(PROMPT_AFTER_CONTEXT);
    t.append("{current_line}");
    t.append(PROMPT_AFTER_CURRENT_LINE);
    t.append("{surrounding_lines}");
    t.append(PROMPT_TAIL);
    t
}

#[verifier::external_type_specification]
#[verifier::external_body]
pub struct ExTemplateError(tinytemplate::error::Error);

/// Relies on tinytemplate's `TinyTemplate::add_template` and `TinyTemplate::render`, with
/// `format_unescaped` set as the default formatter: a template of plain text and `{name}`
/// tags compiles, and each tag is replaced by the string bound to its name, unchanged.
#[verifier::external_body]
fn render_template(
    template: &str,
    context: &str,
    current_line: &str,
    surrounding_lines: &str,
) -> (r: Result<String, tinytemplate::error::Error>)
    requires
        template@ == prompt_template_text(),
    ensures
        r is Ok,
        r matches Ok(s) ==> s@ == filled_prompt(context@, current_line@, surrounding_lines@),
{
    let mut tt = tinytemplate::TinyTemplate::new();
    tt.set_default_formatter(&tinytemplate::format_unescaped);
    tt.add_template("prompt", template)?;
    let mut values = serde_json::Map::new();
    values.insert("context".to_string(), serde_json::Value::String(context.to_string()));
    values.insert("current_line".to_string(), serde_json::Value::String(current_line.to_string()));
    values.insert("surrounding_lines".to_string(), serde_json::Value::String(surrounding_lines.to_string()));
    tt.render("prompt", &serde_json::Value::Object(values))
}

/// What a completion request is built from.
pub struct Prompt {
    pub context: String,
    pub current_line: String,
    pub surrounding_lines: String,
}

impl Prompt {
    /// The prompt template with the three slots filled verbatim from this prompt.
    pub fn render(&self) -> (r: String)
        ensures
            r@ == filled_prompt(self.context@, self.current_line@, self.surrounding_lines@),
    {
        let template = default_prompt_template();
        match render_template(
            template.as_str(),
            self.context.as_str(),
            self.current_line.as_str(),
            self.surrounding_lines.as_str(),
        ) {
            Ok(s) => s,
            Err(_) => String::new(),
        }
    }
}

} // verus!
