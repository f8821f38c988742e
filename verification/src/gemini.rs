//! The plan provider: builds the request sent to the reasoning service
//! (the fixed operating manual as a leading turn, the conversation, and a
//! generation configuration constraining the reply to a fixed JSON schema),
//! pulls the reply's text out, strips an optional fenced code block, parses
//! the text into a plan, and validates it.

use vstd::prelude::*;
use vstd::string::*;
use crate::errors::AgentError;
use crate::outside::{
    json_array_of, json_get, json_is_null, json_str_of, json_value_of, parse_json,
    value_as_array, value_as_str, value_get, value_is_null,
};
use crate::text::{extract_json_spec, extract_json_text, str_eq};
use crate::types::{
    BrowserCommand, BrowserPlan, GeminiContent, GeminiGenerationConfig, GeminiPart,
    GeminiRequest, GeminiResponse, text_part_matches,
};

verus! {

/// The fixed operating manual sent as the leading turn of every request.
pub const SYSTEM_PROMPT: &'static str = r#"
    You are an expert qutebrowser automation agent. Your goal is to complete the user's task by interacting with a web browser.

    **About qutebrowser:**
    qutebrowser is a keyboard-focused web browser with a minimalist GUI. You interact with it not by clicking, but by issuing commands, much like a command-line interface. Your primary tools are commands to navigate, get 'hints' to identify clickable elements, and then 'follow' those hints. **Hints will always be numerical.**

    **Your Operating Loop:**
    1.  **Analyze the current state** (based on the user's request and the latest screenshot).
    2.  **Formulate a plan** which consists of a 'thought' and a sequence of 'steps' (commands).
    3.  **Output the plan** as a single JSON object.

    Your plan will be executed, a new screenshot will be taken, and then you will start the loop again.

    **JSON Output Format:**
    You MUST respond with a JSON object with the following structure.
    ```json
    {
      "action": "ACTION_NAME",
      "thought": "Your detailed reasoning for the sequence of steps you are about to take. If finishing, this is your final summary.",
      "wittyMessage": "A short, funny, and cryptic message that will be displayed to the user to obscure what you are actually doing. Be creative and humorous but keep it brief. Use emojis.",
      "steps": [
        { "command": ":command_1" },
        { "command": ":command_2" },
        ...
      ]
    }
    ```
    - `action`: (Required) Must be one of `execute` or `finish`.
    - `thought`: (Required) Your reasoning. For the `finish` action, this will be your final summary.
    - `wittyMessage`: (Required) A brief, funny message shown to the user that hides your actual actions. Examples: "🔮 Consulting the digital oracle...", "🎭 Performing internet magic tricks...", "🕵️ Sneaking through the web like a digital ninja..."
    - `steps`: (Conditional) **Required** when `action` is `execute`. It's an array of command objects.

    **Command Chaining Strategy:**
    You should chain commands when you can confidently predict the outcome. For example, after activating an input field, you know you can immediately type into it and press enter.

    **Advanced Hinting for Cluttered Screens:**
    When a page is very cluttered (e.g., a calendar), hint numbers can obscure the text. In these cases, you can use a powerful filtering technique:
    1.  First, issue the `:hint` command to display all hints.
    2.  Instead of following with `:hint-follow`, use the `:xdotool-type` command to type the first few letters of the text on the element you want to click.
    3.  qutebrowser will filter the hints in real-time. If your text uniquely identifies an element, qutebrowser will "click" it automatically. If not, the hints will be filtered, and you can then use `:hint-follow` on the smaller set of visible hints in the next step.


    **EXAMPLE of a single turn for "Search Google for 'AI SDK' and click the first result":**
    *(This example demonstrates the basic hint-based workflow.)*

    *Initial State: Blank page.*
    1.  **Your JSON output:**
        ```json
        {
          "action": "execute",
          "thought": "First, I need to open Google and then get the hint labels to find the search bar.",
          "wittyMessage": "🌐 Summoning the mighty Google spirits...",
          "steps": [
            { "command": ":open https://google.com" },
            { "command": ":hint" }
          ]
        }
        ```
    *(State after execution: Screenshot shows Google with hint '15' on the search bar.)*
    2.  **Your JSON output:**
        ```json
        {
          "action": "execute",
          "thought": "The search bar has the hint '15'. I will follow that hint, type my search query, and press Enter to submit.",
          "wittyMessage": "🎯 Whispering secrets to the search box...",
          "steps": [
            { "command": ":hint-follow 15" },
            { "command": ":insert-text AI SDK" },
            { "command": ":fake-key <Return>" }
          ]
        }
        ```
    *(...and so on, until the task is finished.)*


    **Available Commands (for the 'command' field):**

    **Navigation:**
    - `:open URL`: Navigate to a specific webpage.
    - `:back`, `:forward`, `:reload`

    **Page Interaction:**
    - `:hint`: Display **numerical** labels on all clickable elements. ALWAYS take a screenshot after to see the labels.
    - `:hint links`: Display **numerical** hints only for links.
    - `:hint-follow NUMBER`: Click element with the specified numerical label.
    - `:insert-text TEXT`: Insert text at the cursor.
    - `:fake-key <Return|Escape|Tab>`: Press Enter, Escape, or Tab.
    - `:xdotool-type TEXT`: (External tool) Type characters. Primarily used after `:hint` to filter elements by their text.

    **Scrolling & Search:**
    - `:scroll-to-perc PERCENT`: Scroll to a percentage of the page (0-100).
    - `:scroll-page 0 1`: Scroll one page down.
    - `:search TEXT`: Search for text on the current page.


    **CRITICAL RULES:**
    1.  All commands MUST start with a colon `:`.
    2.  After a plan involving `:hint` is executed, the next screenshot will show the **numerical hint labels**. Use these numbers in your next plan.
    3.  You can only see the screen via the screenshots provided. You are blind otherwise.
    4.  Your final output MUST be an `action: "finish"` object. Your `thought` for this action is the final summary.

    Also ignore the browser error at the bottom that shows up in red, wait for 2 seconds for it to disappear and check if the cursor is already in the correct position
    Now, begin the task.
"#;

/// The JSON schema the service's reply is constrained to: a required
/// `action` (one of `execute`, `finish`), required `thought` and
/// `wittyMessage` strings, and an optional `steps` array of objects each
/// holding a required `command` string.
pub const RESPONSE_SCHEMA_JSON: &'static str = r#"{
    "type": "object",
    "properties": {
        "action": {
            "type": "string",
            "enum": ["execute", "finish"],
            "description": "'execute' to run the steps and continue, 'finish' to end the task."
        },
        "thought": {
            "type": "string",
            "description": "Your reasoning for the plan. For the 'finish' action, this will be used as the final summary."
        },
        "wittyMessage": {
            "type": "string",
            "description": "A short, funny, and cryptic message to display to the user that obscures what you are actually doing. Be creative and humorous but keep it brief. Use emojis."
        },
        "steps": {
            "type": "array",
            "items": {
                "type": "object",
                "properties": {
                    "command": {
                        "type": "string",
                        "description": "A single qutebrowser command. MUST start with a colon ':'."
                    }
                },
                "required": ["command"]
            },
            "description": "A sequence of qutebrowser commands to execute in order. Include this array when action is 'execute', omit when action is 'finish'."
        }
    },
    "required": ["action", "thought", "wittyMessage"]
}"#;

/// The versioned endpoint the request is posted to.
pub const GEMINI_BASE_URL: &'static str =
    "https://generativelanguage.googleapis.com/v1beta/models";

/// The URL of one generate-content call: the base, the model's path, and
/// the credential as a query parameter.
pub fn generate_content_url(base_url: &str, api_key: &str) -> (r: String)
    ensures
        r@ == base_url@ + "/gemini-2.5-flash:generateContent?key="@ + api_key@,
{
    let mut r = base_url.to_owned();
    r.append("/gemini-2.5-flash:generateContent?key=");
    r.append(api_key);
    r
}

/// The full request body: the fixed manual as a leading user turn, then the
/// supplied conversation unchanged, with the JSON-constraining generation
/// configuration carrying exactly the tree the fixed schema text parses to.
pub fn build_plan_request(conversation: Vec<GeminiContent>) -> (r: GeminiRequest)
    ensures
        r.contents@.len() == 1 + conversation@.len(),
        r.contents@[0].role@ == "user"@,
        r.contents@[0].parts@.len() == 1,
        text_part_matches(r.contents@[0].parts@[0], SYSTEM_PROMPT@),
        r.contents@.subrange(1, r.contents@.len() as int) == conversation@,
        r.generation_config.response_mime_type@ == "application/json"@,
        match r.generation_config.response_schema {
            Some(v) => json_value_of(RESPONSE_SCHEMA_JSON@) == Some(v),
            None => json_value_of(RESPONSE_SCHEMA_JSON@) is None,
        },
{
    let mut contents: Vec<GeminiContent> = Vec::new();
    let mut sys_parts: Vec<GeminiPart> = Vec::new();
    sys_parts.push(GeminiPart {
        text: Some(String::from_str(SYSTEM_PROMPT)),
        inline_data: None,
    });
    contents.push(GeminiContent { role: String::from_str("user"), parts: sys_parts });
    let mut conv = conversation;
    contents.append(&mut conv);
    proof {
        assert(contents@.subrange(1, contents@.len() as int) =~= conversation@);
    }
    GeminiRequest {
        contents,
        generation_config: GeminiGenerationConfig {
            response_mime_type: String::from_str("application/json"),
            response_schema: parse_json(RESPONSE_SCHEMA_JSON),
        },
    }
}

/// The reply's payload: the first candidate's first text part. Each way the
/// reply can be empty is rejected with its own detail.
pub fn extract_candidate_text(resp: &GeminiResponse) -> (r: Result<String, AgentError>)
    ensures
        match r {
            Ok(t) => {
                &&& resp.candidates@.len() > 0
                &&& resp.candidates@[0].content.parts@.len() > 0
                &&& resp.candidates@[0].content.parts@[0].text matches Some(s) && t@ == s@
            },
            Err(e) => {
                ||| ({
                    &&& resp.candidates@.len() == 0
                    &&& e matches AgentError::EmptyResponse { detail } && detail@
                        == "No candidates in Gemini response"@
                })
                ||| ({
                    &&& resp.candidates@.len() > 0
                    &&& resp.candidates@[0].content.parts@.len() == 0
                    &&& e matches AgentError::EmptyResponse { detail } && detail@
                        == "No parts in Gemini response"@
                })
                ||| ({
                    &&& resp.candidates@.len() > 0
                    &&& resp.candidates@[0].content.parts@.len() > 0
                    &&& resp.candidates@[0].content.parts@[0].text is None
                    &&& e matches AgentError::EmptyResponse { detail } && detail@
                        == "No text in Gemini response"@
                })
            },
        },
{
    if resp.candidates.len() == 0 {
        return Err(AgentError::EmptyResponse {
            detail: String::from_str("No candidates in Gemini response"),
        });
    }
    let content = &resp.candidates[0].content;
    if content.parts.len() == 0 {
        return Err(AgentError::EmptyResponse {
            detail: String::from_str("No parts in Gemini response"),
        });
    }
    match &content.parts[0].text {
        Some(t) => Ok(t.clone()),
        None => Err(AgentError::EmptyResponse {
            detail: String::from_str("No text in Gemini response"),
        }),
    }
}

/// A plan that asks to execute but lists no steps; such a plan is rejected.
pub open spec fn plan_requires_steps(p: BrowserPlan) -> bool {
    p.action@ == "execute"@ && match p.steps {
        None => true,
        Some(s) => s@.len() == 0,
    }
}

/// Rejects exactly the plans whose `action` is `execute` with a missing or
/// empty step list, whatever their other fields hold.
pub fn validate_plan(plan: &BrowserPlan) -> (r: Result<(), AgentError>)
    ensures
        r is Ok <==> !plan_requires_steps(*plan),
        r matches Err(e) ==> e is InvalidPlan,
{
    let missing = match &plan.steps {
        None => true,
        Some(s) => s.len() == 0,
    };
    if str_eq(plan.action.as_str(), "execute") && missing {
        Err(AgentError::InvalidPlan)
    } else {
        Ok(())
    }
}

/// Validation reads the action and the steps alone: two plans that agree on
/// those are accepted or rejected together, whatever their `thought` and
/// `wittyMessage` hold.
pub proof fn lemma_validation_ignores_decoration(p1: BrowserPlan, p2: BrowserPlan)
    requires
        p1.action == p2.action,
        p1.steps == p2.steps,
    ensures
        plan_requires_steps(p1) == plan_requires_steps(p2),
{
}

/// The string content a JSON value holds under a key: `Some` only for an
/// object entry that is a JSON string.
pub open spec fn string_field(v: serde_json::Value, key: Seq<char>) -> Option<Seq<char>> {
    match json_get(v, key) {
        Some(f) => json_str_of(f),
        None => None,
    }
}

/// A JSON tree that reads as a plan, mirroring the schema: `action`,
/// `thought` and `wittyMessage` are string entries; `steps` is absent,
/// `null`, or an array of objects each holding a string `command`.
pub open spec fn value_reads_as_plan(v: serde_json::Value) -> bool {
    &&& string_field(v, "action"@) is Some
    &&& string_field(v, "thought"@) is Some
    &&& string_field(v, "wittyMessage"@) is Some
    &&& match json_get(v, "steps"@) {
        None => true,
        Some(sv) => json_is_null(sv) || match json_array_of(sv) {
            Some(arr) => forall|k: int|
                0 <= k < arr.len() ==> string_field(#[trigger] arr[k], "command"@) is Some,
            None => false,
        },
    }
}

/// The plan that a JSON tree reads as: each field of `p` equals the
/// corresponding entry of `v`, with absent or `null` `steps` as no steps.
pub open spec fn plan_matches_value(p: BrowserPlan, v: serde_json::Value) -> bool {
    &&& string_field(v, "action"@) == Some(p.action@)
    &&& string_field(v, "thought"@) == Some(p.thought@)
    &&& string_field(v, "wittyMessage"@) == Some(p.witty_message@)
    &&& match json_get(v, "steps"@) {
        None => p.steps is None,
        Some(sv) => if json_is_null(sv) {
            p.steps is None
        } else {
            match (json_array_of(sv), p.steps) {
                (Some(arr), Some(cmds)) => cmds@.len() == arr.len() && forall|k: int|
                    0 <= k < arr.len() ==> string_field(#[trigger] arr[k], "command"@) == Some(
                        cmds@[k].command@,
                    ),
                _ => false,
            }
        },
    }
}

/// A JSON tree whose plan asks to execute but lists no steps; the tree
/// counterpart of `plan_requires_steps`, for trees that read as a plan.
pub open spec fn value_plan_requires_steps(v: serde_json::Value) -> bool {
    &&& string_field(v, "action"@) == Some("execute"@)
    &&& match json_get(v, "steps"@) {
        None => true,
        Some(sv) => json_is_null(sv) || match json_array_of(sv) {
            Some(arr) => arr.len() == 0,
            None => true,
        },
    }
}

/// For a tree and the plan it reads as, asking-to-execute-without-steps
/// agrees on both sides.
pub proof fn lemma_requires_steps_agree(p: BrowserPlan, v: serde_json::Value)
    requires
        value_reads_as_plan(v),
        plan_matches_value(p, v),
    ensures
        plan_requires_steps(p) == value_plan_requires_steps(v),
{
    match json_get(v, "steps"@) {
        None => {
            assert(p.steps is None);
        },
        Some(sv) => {
            if json_is_null(sv) {
                assert(p.steps is None);
            } else {
                match (json_array_of(sv), p.steps) {
                    (Some(arr), Some(cmds)) => {
                        assert(cmds@.len() == arr.len());
                    },
                    _ => {
                        assert(false);
                    },
                }
            }
        },
    }
}

/// Reads one string entry of a JSON object into an owned string.
fn read_string_field(v: &serde_json::Value, key: &str) -> (r: Option<String>)
    ensures
        match r {
            Some(s) => string_field(*v, key@) == Some(s@),
            None => string_field(*v, key@) is None,
        },
{
    match value_get(v, key) {
        Some(f) => match value_as_str(f) {
            Some(s) => Some(s.to_owned()),
            None => None,
        },
        None => None,
    }
}

/// The plan a parsed JSON tree reads as, mirroring the schema: required
/// string fields `action`, `thought` and `wittyMessage`; `steps` absent or
/// `null` maps to no steps, anything else must be an array of objects each
/// holding a string `command`.
fn plan_from_value(v: &serde_json::Value) -> (r: Option<BrowserPlan>)
    ensures
        r is Some <==> value_reads_as_plan(*v),
        r matches Some(p) ==> plan_matches_value(p, *v),
{
    let action = match read_string_field(v, "action") {
        Some(s) => s,
        None => {
            return None;
        },
    };
    let thought = match read_string_field(v, "thought") {
        Some(s) => s,
        None => {
            return None;
        },
    };
    let witty_message = match read_string_field(v, "wittyMessage") {
        Some(s) => s,
        None => {
            return None;
        },
    };
    let steps = match value_get(v, "steps") {
        None => None,
        Some(sv) => {
            if value_is_null(sv) {
                None
            } else {
                match value_as_array(sv) {
                    None => {
                        return None;
                    },
                    Some(arr) => {
                        let mut cmds: Vec<BrowserCommand> = Vec::new();
                        let n = arr.len();
                        let mut k: usize = 0;
                        while k < n
                            invariant
                                n == arr@.len(),
                                k <= n,
                                cmds@.len() == k,
                                json_get(*v, "steps"@) == Some(*sv),
                                !json_is_null(*sv),
                                json_array_of(*sv) == Some(arr@),
                                forall|t: int|
                                    0 <= t < k ==> string_field(#[trigger] arr@[t], "command"@)
                                        == Some(cmds@[t].command@),
                            decreases n - k,
                        {
                            match read_string_field(&arr[k], "command") {
                                Some(cs) => {
                                    cmds.push(BrowserCommand { command: cs });
                                },
                                None => {
                                    return None;
                                },
                            }
                            k += 1;
                        }
                        Some(cmds)
                    },
                }
            }
        },
    };
    Some(BrowserPlan { action, thought, witty_message, steps })
}

/// A reply text whose error is the malformed-plan error, carrying the raw
/// text and its cleaned form.
pub open spec fn malformed_plan_err(r: Result<BrowserPlan, AgentError>, text: Seq<char>) -> bool {
    &&& r matches Err(e) && e matches AgentError::MalformedPlan { raw, cleaned } && raw@ == text
        && cleaned@ == extract_json_spec(text)
}

/// What parsing a reply text returns, case by case: the malformed-plan
/// error when the cleaned text does not parse as JSON or the tree does not
/// read as a plan; the invalid-plan error when the tree's plan asks to
/// execute without steps; otherwise exactly the plan the tree reads as.
pub open spec fn parse_plan_spec(text: Seq<char>, r: Result<BrowserPlan, AgentError>) -> bool {
    match json_value_of(extract_json_spec(text)) {
        None => malformed_plan_err(r, text),
        Some(v) => {
            if !value_reads_as_plan(v) {
                malformed_plan_err(r, text)
            } else if value_plan_requires_steps(v) {
                r matches Err(e) && e is InvalidPlan
            } else {
                r matches Ok(p) && plan_matches_value(p, v) && !plan_requires_steps(p)
            }
        },
    }
}

/// Parses the reply's text into a validated plan. A fenced code block
/// around the JSON is stripped first; a text that does not parse is
/// rejected with both the raw and the cleaned text; a parsed plan that
/// asks to execute without steps is rejected as invalid; any other parsed
/// plan is returned as the tree reads it.
pub fn parse_browser_plan(text: &str) -> (r: Result<BrowserPlan, AgentError>)
    ensures
        parse_plan_spec(text@, r),
        r matches Ok(p) ==> !plan_requires_steps(p),
{
    let cleaned = extract_json_text(text);
    let parsed = parse_json(cleaned.as_str());
    match parsed {
        None => Err(AgentError::MalformedPlan { raw: text.to_owned(), cleaned }),
        Some(v) => match plan_from_value(&v) {
            None => Err(AgentError::MalformedPlan { raw: text.to_owned(), cleaned }),
            Some(plan) => {
                proof {
                    lemma_requires_steps_agree(plan, v);
                }
                match validate_plan(&plan) {
                    Ok(()) => Ok(plan),
                    Err(e) => Err(e),
                }
            },
        },
    }
}

} // verus!
