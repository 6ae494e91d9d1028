//! The decisions around the operating system's clipboard: which read comes
//! next and what is captured, and how a content is to be written. The reads
//! and the write themselves are the caller's to perform.

use crate::content::{ClipContent, ContentModel, ImageData, ImageModel};
use crate::error::{ClipboardError, ClipboardErrorModel};
use vstd::prelude::*;

verus! {

/// What the clipboard answered to a read.
#[derive(Debug)]
pub enum Reading {
    /// The answer to a read of text.
    Text(Result<String, ClipboardError>),
    /// The answer to a read of an image.
    Image(Result<ImageData, ClipboardError>),
}

/// The mathematical value of a [`Reading`].
pub enum ReadingModel {
    Text(Result<Seq<char>, ClipboardErrorModel>),
    Image(Result<ImageModel, ClipboardErrorModel>),
}

impl View for Reading {
    type V = ReadingModel;

    open spec fn view(&self) -> ReadingModel {
        match self {
            Reading::Text(Ok(text)) => ReadingModel::Text(Ok(text@)),
            Reading::Text(Err(failure)) => ReadingModel::Text(Err(failure@)),
            Reading::Image(Ok(image)) => ReadingModel::Image(Ok(image@)),
            Reading::Image(Err(failure)) => ReadingModel::Image(Err(failure@)),
        }
    }
}

/// What follows a reading.
#[derive(Debug, PartialEq)]
pub enum Fetch {
    /// The clipboard holds no text: read an image next.
    ReadImage,
    /// The current content of the clipboard, or the failure to read it.
    Done(Result<ClipContent, ClipboardError>),
}

/// The mathematical value of a [`Fetch`].
pub enum FetchModel {
    ReadImage,
    Done(Result<ContentModel, ClipboardErrorModel>),
}

impl View for Fetch {
    type V = FetchModel;

    open spec fn view(&self) -> FetchModel {
        match self {
            Fetch::ReadImage => FetchModel::ReadImage,
            Fetch::Done(Ok(content)) => FetchModel::Done(Ok(content@)),
            Fetch::Done(Err(failure)) => FetchModel::Done(Err(failure@)),
        }
    }
}

/// Text comes first. Where the clipboard has no text to give, an image is
/// read in its place; any other failure of the text read, and any failure of
/// the image read, is the failure of the whole.
pub open spec fn fetch(reading: ReadingModel) -> FetchModel {
    match reading {
        ReadingModel::Text(Ok(text)) => FetchModel::Done(Ok(ContentModel::Text(text))),
        ReadingModel::Text(Err(ClipboardErrorModel::ContentNotAvailable)) => FetchModel::ReadImage,
        ReadingModel::Text(Err(failure)) => FetchModel::Done(Err(failure)),
        ReadingModel::Image(Ok(image)) => FetchModel::Done(Ok(ContentModel::Image(image))),
        ReadingModel::Image(Err(failure)) => FetchModel::Done(Err(failure)),
    }
}

/// Decides, from what the clipboard answered to a read, what the current
/// content of the clipboard is or which read has to follow.
pub fn get_clipboard(reading: Reading) -> (next: Fetch)
    ensures
        next@ == fetch(reading@),
{
    match reading {
        Reading::Text(Ok(text)) => Fetch::Done(Ok(ClipContent::Text(text))),
        Reading::Text(Err(ClipboardError::ContentNotAvailable)) => Fetch::ReadImage,
        Reading::Text(Err(failure)) => Fetch::Done(Err(failure)),
        Reading::Image(Ok(image)) => Fetch::Done(Ok(ClipContent::Image(image))),
        Reading::Image(Err(failure)) => Fetch::Done(Err(failure)),
    }
}

/// The family of the system that the program runs on, as far as the
/// clipboard cares.
#[derive(Clone, Copy, Debug, PartialEq, Eq, Structural)]
pub enum Platform {
    /// The clipboard forgets a content when its owner exits.
    Linux,
    /// The clipboard keeps a content on its own.
    Other,
}

/// A write to the clipboard: the content, and whether the writer has to wait
/// until another program has taken it.
#[derive(Debug, PartialEq)]
pub struct Paste {
    pub content: ClipContent,
    pub wait: bool,
}

/// The mathematical value of a [`Paste`].
pub struct PasteModel {
    pub content: ContentModel,
    pub wait: bool,
}

impl View for Paste {
    type V = PasteModel;

    open spec fn view(&self) -> PasteModel {
        PasteModel { content: self.content@, wait: self.wait }
    }
}

/// The write that puts `content` on the clipboard of `platform`. On Linux
/// the writer waits for the content to be taken; elsewhere it does not.
pub open spec fn paste(content: ContentModel, platform: Platform) -> PasteModel {
    PasteModel { content, wait: platform == Platform::Linux }
}

/// Decides how `data` is to be written to the clipboard of `platform`.
pub fn set_clipboard(data: &ClipContent, platform: Platform) -> (write: Paste)
    ensures
        write@ == paste(data@, platform),
{
    let wait = match platform {
        Platform::Linux => true,
        Platform::Other => false,
    };
    Paste { content: data.clone(), wait }
}

} // verus!
