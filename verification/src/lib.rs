//! Dialogs that let a person solve a visual captcha by hand: click the icons,
//! click the characters, slide the piece, turn the picture.
//!
//! The crate holds everything such a dialog decides: which points are kept, what
//! happens on undo, confirm, cancel and close, how the pictures are cut, how the
//! slider's value becomes a whole number, and what the caller gets back. The
//! window itself is driven from outside: it hands each user action to the dialog
//! as an event and hides when the dialog says so.
use vstd::prelude::*;

pub mod live_value;
pub mod picture;
pub mod point;
pub mod slint_ui;
pub mod solvers;
pub mod utils;

use crate::picture::Picture;
use crate::point::Point;

verus! {

/// Why a dialog gave no answer.
#[derive(Debug)]
pub enum CaptchaError {
    /// The answer was handed in and turned down. No dialog reports this itself:
    /// it is there for the caller who submits the answer.
    VerifyFailed,
    /// The dialog ended without an answer; the text says how.
    Canceled(String),
}

/// What an error is: its kind and, for a cancellation, the text.
pub enum CaptchaErrorView {
    VerifyFailed,
    Canceled(Seq<char>),
}

impl View for CaptchaError {
    type V = CaptchaErrorView;

    open spec fn view(&self) -> CaptchaErrorView {
        match self {
            CaptchaError::VerifyFailed => CaptchaErrorView::VerifyFailed,
            CaptchaError::Canceled(msg) => CaptchaErrorView::Canceled(msg@),
        }
    }
}

/// What a dialog's result is: the answer as it is, or the error by its view.
pub open spec fn outcome_view<O>(result: Result<O, CaptchaError>) -> Result<O, CaptchaErrorView> {
    match result {
        Ok(answer) => Ok(answer),
        Err(error) => Err(error@),
    }
}

impl CaptchaError {
    /// The text that `message` returns.
    pub open spec fn message_text(self) -> Seq<char> {
        match self {
            CaptchaError::VerifyFailed => "验证失败。"@,
            CaptchaError::Canceled(msg) => "操作被主动取消：`"@ + msg@ + "`."@,
        }
    }

    /// The error as a sentence for the user.
    pub fn message(&self) -> (text: String)
        ensures
            text@ == self.message_text(),
    {
        match self {
            CaptchaError::VerifyFailed => "验证失败。".to_owned(),
            CaptchaError::Canceled(msg) => {
                let mut text = "操作被主动取消：`".to_owned();
                text.append(msg.as_str());
                text.append("`.");
                text
            },
        }
    }

    /// Whether this is a cancellation.
    pub fn is_canceled(&self) -> (canceled: bool)
        ensures
            canceled == (*self is Canceled),
    {
        match self {
            CaptchaError::VerifyFailed => false,
            CaptchaError::Canceled(_) => true,
        }
    }
}

/// Cuts the rectangle with corner `top_left`, width `wh.x` and height `wh.y` out
/// of `picture`.
///
/// A rectangle that reaches past the picture is cut down to the part inside it:
/// the corner is moved back onto the picture's edge, then width and height are
/// shortened to what is left from there.
pub fn cut_picture(picture: &Picture, top_left: Point, wh: Point) -> (cut: Picture)
    ensures
        cut@ == picture@.crop(top_left.x as nat, top_left.y as nat, wh.x as nat, wh.y as nat),
{
    picture.crop_imm(top_left.x, top_left.y, wh.x, wh.y)
}

} // verus!
