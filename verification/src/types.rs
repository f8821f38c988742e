//! The data model: conversation sessions, the wire shapes of the planning
//! service's request and reply, and the plans it returns. The conversation
//! builder is specified exactly: one leading user turn carrying the live
//! instruction (with the newest screenshot, when one exists), followed by
//! every stored assistant message replayed as a model turn.

use vstd::prelude::*;
use vstd::string::*;
use crate::outside::{base64_std_of, base64_encode, now_timestamp_millis};
use crate::text::str_eq;

verus! {

/// One stored chat message; the timestamp is milliseconds since the Unix
/// epoch, set when the message is appended.
#[derive(Debug, Clone)]
pub struct Message {
    pub role: String,
    pub content: String,
    pub timestamp: i64,
}

/// A conversation session: an identifier, the stored messages in order, and
/// the stored screenshots (base64-encoded) in order.
#[derive(Debug, Clone)]
pub struct Session {
    pub id: String,
    pub messages: Vec<Message>,
    pub images: Vec<String>,
}

/// One role-tagged turn of the request sent to the planning service.
#[derive(Debug, Clone)]
pub struct GeminiContent {
    pub role: String,
    pub parts: Vec<GeminiPart>,
}

/// One part of a turn: text, or an inlined image, never both.
#[derive(Debug, Clone)]
pub struct GeminiPart {
    pub text: Option<String>,
    pub inline_data: Option<GeminiInlineData>,
}

/// An inlined image with its MIME type; the data is base64-encoded.
#[derive(Debug, Clone)]
pub struct GeminiInlineData {
    pub mime_type: String,
    pub data: String,
}

/// The full request body: the turns and the generation configuration.
#[derive(Debug, Clone)]
pub struct GeminiRequest {
    pub contents: Vec<GeminiContent>,
    pub generation_config: GeminiGenerationConfig,
}

/// Generation settings: the response MIME type and the JSON schema the
/// service is constrained to.
#[derive(Debug, Clone)]
pub struct GeminiGenerationConfig {
    pub response_mime_type: String,
    pub response_schema: Option<serde_json::Value>,
}

/// The service's reply: a list of candidates.
#[derive(Debug, Clone)]
pub struct GeminiResponse {
    pub candidates: Vec<GeminiCandidate>,
}

/// One candidate of the reply.
#[derive(Debug, Clone)]
pub struct GeminiCandidate {
    pub content: GeminiContent,
}

/// The model's structured plan: an action (`execute` or `finish`), the
/// reasoning behind it, a decorative message, and, for `execute`, the
/// commands to run.
#[derive(Debug, Clone)]
pub struct BrowserPlan {
    pub action: String,
    pub thought: String,
    pub witty_message: String,
    pub steps: Option<Vec<BrowserCommand>>,
}

/// A single browser command string; accepted commands start with `:`.
#[derive(Debug, Clone)]
pub struct BrowserCommand {
    pub command: String,
}

/// Reply to creating a session.
#[derive(Debug, Clone)]
pub struct CreateSessionResponse {
    pub session_id: String,
}

/// A request to run one instruction in a session.
#[derive(Debug, Clone)]
pub struct SendMessageRequest {
    pub message: String,
}

/// The agent's textual answer to an instruction.
#[derive(Debug, Clone)]
pub struct SendMessageResponse {
    pub response: String,
}

/// Reply to uploading an image.
#[derive(Debug, Clone)]
pub struct UploadImageResponse {
    pub message: String,
}

/// Reply to stopping a session.
#[derive(Debug, Clone)]
pub struct StopSessionResponse {
    pub message: String,
}

/// A plain-text error reply.
#[derive(Debug, Clone)]
pub struct ErrorResponse {
    pub error: String,
}

/// The base64 text stored for an uploaded image's bytes.
pub fn encode_image_base64(bytes: &Vec<u8>) -> (r: String)
    ensures
        r@ == base64_std_of(bytes@),
        bytes@.len() == 0 ==> r@.len() == 0,
{
    base64_encode(bytes)
}

impl ErrorResponse {
    pub fn new(error: &str) -> (r: Self)
        ensures
            r.error@ == error@,
    {
        Self { error: error.to_owned() }
    }
}

/// The texts of the assistant-authored messages, in stored order.
pub open spec fn assistant_texts(msgs: Seq<Message>) -> Seq<Seq<char>>
    decreases msgs.len(),
{
    if msgs.len() == 0 {
        Seq::<Seq<char>>::empty()
    } else {
        assistant_texts(msgs.drop_last()) + if msgs.last().role@ == "assistant"@ {
            seq![msgs.last().content@]
        } else {
            Seq::<Seq<char>>::empty()
        }
    }
}

/// A part holding exactly the given text and no image.
pub open spec fn text_part_matches(p: GeminiPart, text: Seq<char>) -> bool {
    &&& p.text matches Some(t) && t@ == text
    &&& p.inline_data is None
}

/// A part holding exactly the given PNG image data and no text.
pub open spec fn image_part_matches(p: GeminiPart, data: Seq<char>) -> bool {
    &&& p.text is None
    &&& p.inline_data matches Some(d) && d.mime_type@ == "image/png"@ && d.data@ == data
}

/// The leading user turn: the newest image when one exists, then the live
/// instruction text.
pub open spec fn user_turn_matches(parts: Seq<GeminiPart>, images: Seq<String>, instr: Seq<char>) -> bool {
    if images.len() == 0 {
        parts.len() == 1 && text_part_matches(parts[0], instr)
    } else {
        &&& parts.len() == 2
        &&& image_part_matches(parts[0], images.last()@)
        &&& text_part_matches(parts[1], instr)
    }
}

/// A model turn replaying one assistant message.
pub open spec fn model_turn_matches(c: GeminiContent, text: Seq<char>) -> bool {
    &&& c.role@ == "model"@
    &&& c.parts@.len() == 1
    &&& text_part_matches(c.parts@[0], text)
}

/// What `build_gemini_conversation` returns: the user turn first, then one
/// model turn per stored assistant message, in order.
pub open spec fn conversation_matches(
    conv: Seq<GeminiContent>,
    msgs: Seq<Message>,
    images: Seq<String>,
    instr: Seq<char>,
) -> bool {
    let ats = assistant_texts(msgs);
    &&& conv.len() == 1 + ats.len()
    &&& conv[0].role@ == "user"@
    &&& user_turn_matches(conv[0].parts@, images, instr)
    &&& forall|k: int| 1 <= k < conv.len() ==> model_turn_matches(#[trigger] conv[k], ats[k - 1])
}

/// A message append: everything else stays, one message with the given role
/// and content arrives at the end.
pub open spec fn pushed_message(s0: Session, s1: Session, role: Seq<char>, content: Seq<char>) -> bool {
    &&& s1.id == s0.id
    &&& s1.images == s0.images
    &&& s1.messages@.len() == s0.messages@.len() + 1
    &&& s1.messages@.drop_last() == s0.messages@
    &&& s1.messages@.last().role@ == role
    &&& s1.messages@.last().content@ == content
}

impl Session {
    /// A fresh session with no messages and no images.
    pub fn new(id: String) -> (s: Self)
        ensures
            s.id == id,
            s.messages@.len() == 0,
            s.images@.len() == 0,
    {
        Self { id, messages: Vec::new(), images: Vec::new() }
    }

    /// Appends a user message carrying the given text; the timestamp is read
    /// from the clock and left unspecified.
    pub fn add_user_message(&mut self, content: String)
        ensures
            pushed_message(*old(self), *final(self), "user"@, content@),
    {
        let ts = now_timestamp_millis();
        let msg = Message { role: String::from_str("user"), content, timestamp: ts };
        let ghost before = self.messages@;
        self.messages.push(msg);
        proof {
            assert(self.messages@.drop_last() =~= before);
        }
    }

    /// Appends an assistant message carrying the given text.
    pub fn add_assistant_message(&mut self, content: String)
        ensures
            pushed_message(*old(self), *final(self), "assistant"@, content@),
    {
        let ts = now_timestamp_millis();
        let msg = Message { role: String::from_str("assistant"), content, timestamp: ts };
        let ghost before = self.messages@;
        self.messages.push(msg);
        proof {
            assert(self.messages@.drop_last() =~= before);
        }
    }

    /// Appends a base64-encoded image.
    pub fn add_image(&mut self, base64_image: String)
        ensures
            final(self).id == old(self).id,
            final(self).messages == old(self).messages,
            final(self).images@ == old(self).images@.push(base64_image),
    {
        self.images.push(base64_image);
    }

    /// Builds the turns sent to the planning service: a user turn holding
    /// the newest stored image (if any) and the live instruction, then each
    /// stored assistant message as a model turn, in order. Stored user
    /// messages are not replayed.
    pub fn build_gemini_conversation(&self, instruction: &str) -> (r: Vec<GeminiContent>)
        ensures
            conversation_matches(r@, self.messages@, self.images@, instruction@),
    {
        let mut parts: Vec<GeminiPart> = Vec::new();
        if self.images.len() > 0 {
            let img = self.images[self.images.len() - 1].clone();
            parts.push(GeminiPart {
                text: None,
                inline_data: Some(GeminiInlineData {
                    mime_type: String::from_str("image/png"),
                    data: img,
                }),
            });
        }
        parts.push(GeminiPart { text: Some(instruction.to_owned()), inline_data: None });
        let mut contents: Vec<GeminiContent> = Vec::new();
        contents.push(GeminiContent { role: String::from_str("user"), parts });
        let n = self.messages.len();
        let mut k: usize = 0;
        while k < n
            invariant
                n == self.messages@.len(),
                k <= n,
                contents@.len() == 1 + assistant_texts(self.messages@.take(k as int)).len(),
                contents@[0].role@ == "user"@,
                user_turn_matches(contents@[0].parts@, self.images@, instruction@),
                forall|t: int|
                    1 <= t < contents@.len() ==> model_turn_matches(
                        #[trigger] contents@[t],
                        assistant_texts(self.messages@.take(k as int))[t - 1],
                    ),
            decreases n - k,
        {
            let ghost taken = self.messages@.take(k as int);
            let msg = &self.messages[k];
            if str_eq(msg.role.as_str(), "assistant") {
                let mut mparts: Vec<GeminiPart> = Vec::new();
                mparts.push(GeminiPart { text: Some(msg.content.clone()), inline_data: None });
                contents.push(GeminiContent { role: String::from_str("model"), parts: mparts });
            }
            proof {
                let taken1 = self.messages@.take(k as int + 1);
                assert(taken1.drop_last() =~= taken);
                assert(taken1.last() == self.messages@[k as int]);
                if self.messages@[k as int].role@ == "assistant"@ {
                    assert(assistant_texts(taken1) =~~= assistant_texts(taken) + seq![
                        self.messages@[k as int].content@,
                    ]);
                } else {
                    assert(assistant_texts(taken1) =~~= assistant_texts(taken));
                }
            }
            k += 1;
        }
        proof {
            assert(self.messages@.take(n as int) =~= self.messages@);
        }
        contents
    }
}

/// The conversation replays a session's assistant messages only, so the
/// latest stored user message never appears in it: the trailing text of the
/// single user turn is always the live instruction argument.
pub proof fn lemma_instruction_is_live(
    conv: Seq<GeminiContent>,
    msgs: Seq<Message>,
    m: Message,
    images: Seq<String>,
    instr: Seq<char>,
)
    requires
        m.role@ == "user"@,
        conversation_matches(conv, msgs.push(m), images, instr),
    ensures
        conversation_matches(conv, msgs, images, instr),
        conv[0].role@ == "user"@,
        forall|k: int| 1 <= k < conv.len() ==> (#[trigger] conv[k]).role@ != "user"@,
        conv[0].parts@.last().text matches Some(t) && t@ == instr,
{
    reveal_strlit("user");
    reveal_strlit("assistant");
    reveal_strlit("model");
    assert("user"@.len() == 4);
    assert("model"@.len() == 5);
    assert("assistant"@.len() == 9);
    assert(m.role@ != "assistant"@);
    assert(msgs.push(m).drop_last() =~= msgs);
    assert(msgs.push(m).last() == m);
    assert(assistant_texts(msgs.push(m)) =~~= assistant_texts(msgs));
    assert(forall|k: int| 1 <= k < conv.len() ==> (#[trigger] conv[k]).role@ == "model"@);
    assert("model"@ != "user"@);
    if images.len() == 0 {
        assert(conv[0].parts@.last() == conv[0].parts@[0]);
    } else {
        assert(conv[0].parts@.last() == conv[0].parts@[1]);
    }
}

/// The number of inlined images across a turn's parts.
pub open spec fn inline_count_in_parts(parts: Seq<GeminiPart>) -> int
    decreases parts.len(),
{
    if parts.len() == 0 {
        0
    } else {
        inline_count_in_parts(parts.drop_last()) + if parts.last().inline_data is Some {
            1int
        } else {
            0int
        }
    }
}

/// The number of inlined images across a whole conversation.
pub open spec fn inline_count(conv: Seq<GeminiContent>) -> int
    decreases conv.len(),
{
    if conv.len() == 0 {
        0
    } else {
        inline_count(conv.drop_last()) + inline_count_in_parts(conv.last().parts@)
    }
}

/// Model turns carry no images, so a conversation's images all sit in its
/// leading user turn.
proof fn lemma_inline_count_from_head(conv: Seq<GeminiContent>, texts: Seq<Seq<char>>)
    requires
        conv.len() >= 1,
        forall|k: int| 1 <= k < conv.len() ==> model_turn_matches(#[trigger] conv[k], texts[k - 1]),
    ensures
        inline_count(conv) == inline_count_in_parts(conv[0].parts@),
    decreases conv.len(),
{
    assert(inline_count(Seq::<GeminiContent>::empty()) == 0);
    assert(inline_count_in_parts(Seq::<GeminiPart>::empty()) == 0);
    if conv.len() == 1 {
        assert(conv.drop_last() =~~= Seq::<GeminiContent>::empty());
        assert(conv.last() == conv[0]);
    } else {
        lemma_inline_count_from_head(conv.drop_last(), texts);
        assert(conv.drop_last()[0] == conv[0]);
        let lp = conv.last().parts@;
        assert(model_turn_matches(conv.last(), texts[conv.len() - 2]));
        assert(lp.len() == 1);
        assert(lp.drop_last() =~~= Seq::<GeminiPart>::empty());
        assert(lp.last() == lp[0]);
        assert(inline_count_in_parts(lp) == inline_count_in_parts(Seq::<GeminiPart>::empty())
            + 0);
    }
}

/// A conversation holds at most one inlined image: none when the session
/// stores no image, exactly one — the newest stored image — otherwise.
pub proof fn lemma_single_inline_image(
    conv: Seq<GeminiContent>,
    msgs: Seq<Message>,
    images: Seq<String>,
    instr: Seq<char>,
)
    requires
        conversation_matches(conv, msgs, images, instr),
    ensures
        inline_count(conv) <= 1,
        images.len() == 0 ==> inline_count(conv) == 0,
        images.len() > 0 ==> inline_count(conv) == 1 && image_part_matches(
            conv[0].parts@[0],
            images.last()@,
        ),
{
    lemma_inline_count_from_head(conv, assistant_texts(msgs));
    let parts = conv[0].parts@;
    assert(inline_count_in_parts(Seq::<GeminiPart>::empty()) == 0);
    if images.len() == 0 {
        assert(parts.drop_last() =~~= Seq::<GeminiPart>::empty());
        assert(parts.last() == parts[0]);
        assert(inline_count_in_parts(parts) == inline_count_in_parts(
            Seq::<GeminiPart>::empty(),
        ) + 0);
    } else {
        assert(parts.len() == 2);
        assert(parts.drop_last().drop_last() =~~= Seq::<GeminiPart>::empty());
        assert(parts.drop_last().last() == parts[0]);
        assert(parts.last() == parts[1]);
        assert(inline_count_in_parts(parts.drop_last()) == inline_count_in_parts(
            Seq::<GeminiPart>::empty(),
        ) + 1);
        assert(inline_count_in_parts(parts) == inline_count_in_parts(parts.drop_last()) + 0);
    }
}

} // verus!
