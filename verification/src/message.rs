//! The messages that travel over an established session.

use vstd::prelude::*;

verus! {

/// The status code and the text that a close message may carry.
#[derive(Clone, Debug, PartialEq, Eq)]
pub struct CloseReason {
    pub code: u16,
    pub text: String,
}

/// A close reason with its text as a sequence of characters.
pub struct CloseReasonView {
    pub code: u16,
    pub text: Seq<char>,
}

impl View for CloseReason {
    type V = CloseReasonView;

    open spec fn view(&self) -> CloseReasonView {
        CloseReasonView { code: self.code, text: self.text@ }
    }
}

/// One message of a session, tagged by its kind.
#[derive(Clone, Debug, PartialEq, Eq)]
pub enum Message {
    /// UTF-8 text: the only kind that is answered.
    Text(String),
    /// Binary data.
    Binary(Vec<u8>),
    /// The peer ends the session, with or without a reason.
    Close(Option<CloseReason>),
    /// Any other frame, such as a ping or a pong.
    Other,
}

/// A message with its content as a sequence of characters or bytes.
pub enum MessageView {
    Text(Seq<char>),
    Binary(Seq<u8>),
    Close(Option<CloseReasonView>),
    Other,
}

impl View for Message {
    type V = MessageView;

    open spec fn view(&self) -> MessageView {
        match self {
            Message::Text(text) => MessageView::Text(text@),
            Message::Binary(data) => MessageView::Binary(data@),
            Message::Close(Some(reason)) => MessageView::Close(Some(reason@)),
            Message::Close(None) => MessageView::Close(None),
            Message::Other => MessageView::Other,
        }
    }
}

} // verus!
