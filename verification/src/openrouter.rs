//! The OpenRouter side of a completion: what the answer of the service
//! amounts to. Sending the request and reading JSON is the caller's part.

use vstd::prelude::*;
use vstd::string::StringExecFns;
use crate::record::{message_views, Message, MessageView};

verus! {

/// What came of sending a request, as the caller saw it.
#[derive(Debug)]
pub enum OpenRouterExchange {
    /// The request could not be sent; the text says why.
    NotSent(String),
    /// The service accepted the request. The body held the messages of
    /// these choices, or could not be read as an answer; the text then says
    /// why.
    Accepted(Result<Vec<Message>, String>),
    /// The service refused the request with this status. The body is there
    /// unless it could not be read.
    Refused { status: String, body: Option<String> },
}

/// The reply among the choices of an answer: the text of the first.
pub open spec fn first_choice_of(choices: Seq<MessageView>) -> Option<Seq<char>> {
    if choices.len() > 0 {
        Some(choices[0].content)
    } else {
        None
    }
}

/// What a refusal is reported as: the status in brackets, then the body, or
/// a fixed text where the body could not be read.
pub open spec fn refusal_of(status: Seq<char>, body: Option<String>) -> Seq<char> {
    "OpenRouter API Error ("@ + status + "): "@ + match body {
        Some(text) => text@,
        None => "Could not read error body"@,
    }
}

/// What an exchange with the service amounts to: the reply, or the error
/// that the caller of the completion is told.
pub fn openrouter_reply(exchange: OpenRouterExchange) -> (reply: Result<String, String>)
    ensures
        match exchange {
            OpenRouterExchange::NotSent(why) => reply matches Err(told) && told@
                == "Failed to send request to OpenRouter: "@ + why@,
            OpenRouterExchange::Accepted(Err(why)) => reply matches Err(told) && told@
                == "Failed to parse OpenRouter JSON response: "@ + why@,
            OpenRouterExchange::Accepted(Ok(choices)) => match first_choice_of(
                message_views(choices@),
            ) {
                Some(text) => reply matches Ok(given) && given@ == text,
                None => reply matches Err(told) && told@
                    == "No response choices from OpenRouter."@,
            },
            OpenRouterExchange::Refused { status, body } => reply matches Err(told) && told@
                == refusal_of(status@, body),
        },
{
    match exchange {
        OpenRouterExchange::NotSent(why) => {
            let mut told = "Failed to send request to OpenRouter: ".to_string();
            told.append(why.as_str());
            Err(told)
        },
        OpenRouterExchange::Accepted(Err(why)) => {
            let mut told = "Failed to parse OpenRouter JSON response: ".to_string();
            told.append(why.as_str());
            Err(told)
        },
        OpenRouterExchange::Accepted(Ok(choices)) => {
            if choices.len() > 0 {
                Ok(choices[0].content.clone())
            } else {
                Err("No response choices from OpenRouter.".to_string())
            }
        },
        OpenRouterExchange::Refused { status, body } => {
            let mut told = "OpenRouter API Error (".to_string();
            told.append(status.as_str());
            told.append("): ");
            match body {
                Some(text) => told.append(text.as_str()),
                None => told.append("Could not read error body"),
            }
            Err(told)
        },
    }
}

} // verus!
