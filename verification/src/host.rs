//! What the terminal asks of its host while it works.

use crate::hyperlink::Hyperlink;
use crate::hyperlink::HyperlinkView;
use vstd::prelude::*;

verus! {

/// What a request to the host is.
pub enum HostRequestView {
    Write(Seq<u8>),
    SetTitle(Seq<char>),
    SetClipboard(Option<Seq<char>>),
    PasteClipboard,
    ClickLink(HyperlinkView),
}

/// Something the host is to do for the terminal. The requests of one call are handed over
/// in the order in which they arose.
#[derive(Debug)]
pub enum HostRequest {
    /// Send these bytes to the child process.
    Write(Vec<u8>),
    /// Show this title on the window.
    SetTitle(Vec<char>),
    /// Put this text on the clipboard, or clear the clipboard.
    SetClipboard(Option<Vec<char>>),
    /// Read the clipboard and paste what it holds.
    PasteClipboard,
    /// Open this link.
    ClickLink(Hyperlink),
}

impl View for HostRequest {
    type V = HostRequestView;

    open spec fn view(&self) -> HostRequestView {
        match *self {
            HostRequest::Write(bytes) => HostRequestView::Write(bytes@),
            HostRequest::SetTitle(title) => HostRequestView::SetTitle(title@),
            HostRequest::SetClipboard(text) => HostRequestView::SetClipboard(
                match text {
                    Some(t) => Some(t@),
                    None => None,
                },
            ),
            HostRequest::PasteClipboard => HostRequestView::PasteClipboard,
            HostRequest::ClickLink(link) => HostRequestView::ClickLink(link@),
        }
    }
}

/// Why the terminal could not handle an input event.
#[derive(Clone, Copy, Debug, PartialEq, Eq, Structural)]
pub enum TermError {
    /// A function key with this number has no escape sequence.
    UnhandledFunctionKey(u8),
}

} // verus!
