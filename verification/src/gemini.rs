//! The Gemini side of a completion: how a conversation is laid out for the
//! request, and what the answer of the service amounts to. Sending the
//! request and reading JSON is the caller's part.

use vstd::prelude::*;
use vstd::string::StringExecFns;
use crate::record::{message_views, Message, MessageView};

verus! {

/// One piece of text of a content.
#[derive(Debug)]
pub struct GeminiPart {
    pub text: String,
}

/// One turn of a conversation as the service takes it: a role and the
/// pieces of text said in that role.
#[derive(Debug)]
pub struct GeminiContent {
    pub role: String,
    pub parts: Vec<GeminiPart>,
}

/// What a [`GeminiContent`] says, as mathematical text.
pub struct ContentView {
    pub role: Seq<char>,
    pub parts: Seq<Seq<char>>,
}

impl View for GeminiPart {
    type V = Seq<char>;

    open spec fn view(&self) -> Seq<char> {
        self.text@
    }
}

impl View for GeminiContent {
    type V = ContentView;

    open spec fn view(&self) -> ContentView {
        ContentView { role: self.role@, parts: self.parts@.map_values(|part: GeminiPart| part@) }
    }
}

/// What a list of contents says.
pub open spec fn content_views(contents: Seq<GeminiContent>) -> Seq<ContentView> {
    contents.map_values(|content: GeminiContent| content@)
}

/// What an optional content says.
pub open spec fn optional_content_view(content: Option<GeminiContent>) -> Option<ContentView> {
    match content {
        Some(content) => Some(content@),
        None => None,
    }
}

/// A content of one piece of text.
pub open spec fn single_part(role: Seq<char>, text: Seq<char>) -> ContentView {
    ContentView { role, parts: seq![text] }
}

/// Whether a message is a system message.
pub open spec fn is_system(message: MessageView) -> bool {
    message.role == "system"@
}

/// The role of the turn that a message of the given role becomes: `user`
/// stays `user`, `assistant` and `model` become `model`, and no other role
/// is the role of a turn.
pub open spec fn turn_role_of(role: Seq<char>) -> Option<Seq<char>> {
    if role == "user"@ {
        Some("user"@)
    } else if role == "assistant"@ || role == "model"@ {
        Some("model"@)
    } else {
        None
    }
}

/// The turn that a message becomes. A system message is no turn; of the
/// others, those whose role is the role of a turn become a turn of one
/// piece of text, the content of the message.
pub open spec fn turn_of(message: MessageView) -> Option<ContentView> {
    if is_system(message) {
        None
    } else {
        match turn_role_of(message.role) {
            Some(role) => Some(single_part(role, message.content)),
            None => None,
        }
    }
}

/// The turns of a conversation: the turn of each message that becomes one,
/// in the order of the messages.
pub open spec fn turns_of(messages: Seq<MessageView>) -> Seq<ContentView> {
    messages.filter_map(|message: MessageView| turn_of(message))
}

/// The system messages of a conversation, in order.
pub open spec fn system_messages(messages: Seq<MessageView>) -> Seq<MessageView> {
    messages.filter(|message: MessageView| is_system(message))
}

/// The system instruction of a conversation: its last system message, if
/// it has one.
pub open spec fn system_instruction_of(messages: Seq<MessageView>) -> Option<ContentView> {
    let given = system_messages(messages);
    if given.len() > 0 {
        Some(single_part("system"@, given.last().content))
    } else {
        None
    }
}

/// A content of one piece of text.
fn single_content(role: &str, text: &String) -> (content: GeminiContent)
    ensures
        content@ == single_part(role@, text@),
{
    let content = GeminiContent {
        role: role.to_string(),
        parts: vec![GeminiPart { text: text.clone() }],
    };
    assert(content@.parts =~= seq![text@]);
    content
}

/// The role of the turn that a message of the given role becomes, if it
/// becomes one.
pub fn turn_role(role: &str) -> (turn: Option<&'static str>)
    ensures
        match turn {
            Some(name) => turn_role_of(role@) == Some(name@),
            None => turn_role_of(role@) is None,
        },
{
    let given = role.to_string();
    if given == "user".to_string() {
        Some("user")
    } else if given == "assistant".to_string() || given == "model".to_string() {
        Some("model")
    } else {
        None
    }
}

/// Lays a conversation out for the service: the turns, and apart from them
/// the system instruction.
pub fn convert_to_gemini_contents(messages: &[Message]) -> (converted: (
    Vec<GeminiContent>,
    Option<GeminiContent>,
))
    ensures
        content_views(converted.0@) == turns_of(message_views(messages@)),
        optional_content_view(converted.1) == system_instruction_of(message_views(messages@)),
{
    let mut contents: Vec<GeminiContent> = Vec::new();
    let mut system_instruction: Option<GeminiContent> = None;
    let system = "system".to_string();
    let mut done: usize = 0;
    assert(message_views(messages@).take(0) =~= Seq::<MessageView>::empty());
    assert(content_views(contents@) =~= Seq::<ContentView>::empty());
    while done < messages.len()
        invariant
            done <= messages.len(),
            system@ == "system"@,
            content_views(contents@) == turns_of(message_views(messages@).take(done as int)),
            optional_content_view(system_instruction) == system_instruction_of(
                message_views(messages@).take(done as int),
            ),
        decreases messages.len() - done,
    {
        let message = &messages[done];
        proof {
            let all = message_views(messages@);
            assert(all.take(done + 1).drop_last() =~= all.take(done as int));
            assert(all.take(done + 1).last() == message@);
            reveal(Seq::filter);
            assert(system_messages(all.take(done + 1)) == if is_system(message@) {
                system_messages(all.take(done as int)).push(message@)
            } else {
                system_messages(all.take(done as int))
            });
        }
        if message.role == system {
            system_instruction = Some(single_content("system", &message.content));
        } else {
            match turn_role(message.role.as_str()) {
                Some(role) => {
                    let ghost before = content_views(contents@);
                    contents.push(single_content(role, &message.content));
                    assert(content_views(contents@) =~= before.push(
                        single_part(role@, message.content@),
                    ));
                },
                None => {},
            }
        }
        done += 1;
    }
    assert(message_views(messages@).take(done as int) =~= message_views(messages@));
    (contents, system_instruction)
}

/// Whether a laid-out conversation gives the service anything to answer:
/// a turn, or a system instruction.
pub open spec fn sendable(turns: Seq<ContentView>, system_instruction: Option<ContentView>) -> bool {
    turns.len() > 0 || system_instruction is Some
}

/// Lays a conversation out for the service, as
/// [`convert_to_gemini_contents`] does, and refuses one that has neither a
/// turn nor a system instruction.
pub fn prepare_request(messages: &[Message]) -> (prepared: Result<
    (Vec<GeminiContent>, Option<GeminiContent>),
    String,
>)
    ensures
        prepared is Ok <==> sendable(
            turns_of(message_views(messages@)),
            system_instruction_of(message_views(messages@)),
        ),
        prepared matches Ok(converted) ==> {
            &&& content_views(converted.0@) == turns_of(message_views(messages@))
            &&& optional_content_view(converted.1) == system_instruction_of(
                message_views(messages@),
            )
        },
        prepared matches Err(why) ==> why@ == "No valid user messages found to send to API."@,
{
    let converted = convert_to_gemini_contents(messages);
    if converted.0.len() == 0 && converted.1.is_none() {
        Err("No valid user messages found to send to API.".to_string())
    } else {
        Ok(converted)
    }
}

/// What the body of a refusal said of the error.
#[derive(Debug)]
pub enum ErrorReport {
    /// The body is no error report.
    Unreadable,
    /// The body is an error report without a message.
    Silent,
    /// The message of the error report.
    Message(String),
}

/// What came of sending a request, as the caller saw it.
#[derive(Debug)]
pub enum GeminiExchange {
    /// The request could not be sent; the text says why.
    NotSent(String),
    /// An answer came, but its body could not be read; the text says why.
    BodyLost(String),
    /// The service accepted the request. The body held these candidates, or
    /// could not be read as an answer; the text then says why.
    Accepted(Result<Vec<GeminiContent>, String>),
    /// The service refused the request with this status and this body.
    Refused { status: String, body: String, report: ErrorReport },
}

/// The reply among the candidates of an answer: the first piece of text of
/// the first candidate.
pub open spec fn first_reply_of(candidates: Seq<ContentView>) -> Option<Seq<char>> {
    if candidates.len() > 0 && candidates[0].parts.len() > 0 {
        Some(candidates[0].parts[0])
    } else {
        None
    }
}

/// What a refusal is reported as: the status in brackets, then the message
/// of the error report; `Unknown error` where the report has none; the whole
/// body where it is no report.
pub open spec fn refusal_of(status: Seq<char>, body: Seq<char>, report: ErrorReport) -> Seq<char> {
    "Gemini API Error ("@ + status + "): "@ + match report {
        ErrorReport::Unreadable => body,
        ErrorReport::Silent => "Unknown error"@,
        ErrorReport::Message(message) => message@,
    }
}

/// The reply among the candidates of an answer, if there is one.
pub fn first_reply(candidates: &Vec<GeminiContent>) -> (reply: Option<String>)
    ensures
        match reply {
            Some(text) => first_reply_of(content_views(candidates@)) == Some(text@),
            None => first_reply_of(content_views(candidates@)) is None,
        },
{
    if candidates.len() > 0 && candidates[0].parts.len() > 0 {
        Some(candidates[0].parts[0].text.clone())
    } else {
        None
    }
}

/// What an exchange with the service amounts to: the reply, or the error
/// that the caller of the completion is told.
pub fn gemini_reply(exchange: GeminiExchange) -> (reply: Result<String, String>)
    ensures
        match exchange {
            GeminiExchange::NotSent(why) => reply matches Err(told) && told@
                == "Failed to send request to Gemini API: "@ + why@,
            GeminiExchange::BodyLost(why) => reply matches Err(told) && told@
                == "Failed to read Gemini response body: "@ + why@,
            GeminiExchange::Accepted(Err(why)) => reply matches Err(told) && told@
                == "Failed to parse Gemini JSON response: "@ + why@,
            GeminiExchange::Accepted(Ok(candidates)) => match first_reply_of(
                content_views(candidates@),
            ) {
                Some(text) => reply matches Ok(given) && given@ == text,
                None => reply matches Err(told) && told@
                    == "No valid response content from Gemini (possibly blocked or empty)."@,
            },
            GeminiExchange::Refused { status, body, report } => reply matches Err(told) && told@
                == refusal_of(status@, body@, report),
        },
{
    match exchange {
        GeminiExchange::NotSent(why) => {
            let mut told = "Failed to send request to Gemini API: ".to_string();
            told.append(why.as_str());
            Err(told)
        },
        GeminiExchange::BodyLost(why) => {
            let mut told = "Failed to read Gemini response body: ".to_string();
            told.append(why.as_str());
            Err(told)
        },
        GeminiExchange::Accepted(Err(why)) => {
            let mut told = "Failed to parse Gemini JSON response: ".to_string();
            told.append(why.as_str());
            Err(told)
        },
        GeminiExchange::Accepted(Ok(candidates)) => match first_reply(&candidates) {
            Some(text) => Ok(text),
            None => Err(
                "No valid response content from Gemini (possibly blocked or empty).".to_string(),
            ),
        },
        GeminiExchange::Refused { status, body, report } => {
            let mut told = "Gemini API Error (".to_string();
            told.append(status.as_str());
            told.append("): ");
            match report {
                ErrorReport::Unreadable => told.append(body.as_str()),
                ErrorReport::Silent => told.append("Unknown error"),
                ErrorReport::Message(message) => told.append(message.as_str()),
            }
            Err(told)
        },
    }
}

} // verus!
