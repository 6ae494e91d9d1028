//! What one clipboard slot can hold: text, or the pixels of an image.

use crate::decimal::{decimal, to_decimal};
use vstd::prelude::*;

verus! {

/// The pixels of an image with its dimensions. The bytes are opaque here:
/// nothing relates their number to the dimensions.
#[derive(Debug)]
pub struct ImageData {
    pub width: usize,
    pub height: usize,
    pub data: Vec<u8>,
}

/// The mathematical value of an [`ImageData`].
pub struct ImageModel {
    pub width: nat,
    pub height: nat,
    pub data: Seq<u8>,
}

impl View for ImageData {
    type V = ImageModel;

    open spec fn view(&self) -> ImageModel {
        ImageModel { width: self.width as nat, height: self.height as nat, data: self.data@ }
    }
}

/// The content of one slot.
#[derive(Debug)]
pub enum ClipContent {
    Text(String),
    Image(ImageData),
}

/// The mathematical value of a [`ClipContent`].
pub enum ContentModel {
    Text(Seq<char>),
    Image(ImageModel),
}

impl View for ClipContent {
    type V = ContentModel;

    open spec fn view(&self) -> ContentModel {
        match self {
            ClipContent::Text(text) => ContentModel::Text(text@),
            ClipContent::Image(image) => ContentModel::Image(image@),
        }
    }
}

impl ContentModel {
    /// The line that shows the content on a terminal: text as it is, an
    /// image as its dimensions between brackets.
    pub open spec fn line(self) -> Seq<char> {
        match self {
            ContentModel::Text(text) => text,
            ContentModel::Image(image) => "["@ + decimal(image.width) + " x "@ + decimal(
                image.height,
            ) + " image]"@,
        }
    }
}

impl ClipContent {
    /// The line that shows the content on a terminal.
    pub fn line(&self) -> (line: String)
        ensures
            line@ == self@.line(),
    {
        match self {
            ClipContent::Text(text) => text.clone(),
            ClipContent::Image(image) => {
                let mut line = String::from_str("[");
                line.append(to_decimal(image.width as u64).as_str());
                line.append(" x ");
                line.append(to_decimal(image.height as u64).as_str());
                line.append(" image]");
                line
            },
        }
    }
}

impl Clone for ImageData {
    fn clone(&self) -> (copy: Self)
        ensures
            copy@ == self@,
    {
        ImageData { width: self.width, height: self.height, data: self.data.clone() }
    }
}

impl Clone for ClipContent {
    fn clone(&self) -> (copy: Self)
        ensures
            copy@ == self@,
    {
        match self {
            ClipContent::Text(text) => ClipContent::Text(text.clone()),
            ClipContent::Image(image) => ClipContent::Image(image.clone()),
        }
    }
}

impl PartialEq for ImageData {
    fn eq(&self, other: &Self) -> (same: bool) {
        let same = self.width == other.width && self.height == other.height && self.data
            == other.data;
        proof {
            if same {
                assert(self.data@ =~= other.data@);
            }
        }
        same
    }
}

impl vstd::std_specs::cmp::PartialEqSpecImpl for ImageData {
    open spec fn obeys_eq_spec() -> bool {
        true
    }

    open spec fn eq_spec(&self, other: &Self) -> bool {
        self@ == other@
    }
}

impl PartialEq for ClipContent {
    fn eq(&self, other: &Self) -> (same: bool) {
        match (self, other) {
            (ClipContent::Text(a), ClipContent::Text(b)) => *a == *b,
            (ClipContent::Image(a), ClipContent::Image(b)) => *a == *b,
            _ => false,
        }
    }
}

impl vstd::std_specs::cmp::PartialEqSpecImpl for ClipContent {
    open spec fn obeys_eq_spec() -> bool {
        true
    }

    open spec fn eq_spec(&self, other: &Self) -> bool {
        self@ == other@
    }
}

impl From<String> for ClipContent {
    fn from(value: String) -> (content: Self) {
        ClipContent::Text(value)
    }
}

impl vstd::std_specs::convert::FromSpecImpl<String> for ClipContent {
    open spec fn obeys_from_spec() -> bool {
        true
    }

    open spec fn from_spec(value: String) -> Self {
        ClipContent::Text(value)
    }
}

impl From<ImageData> for ClipContent {
    fn from(value: ImageData) -> (content: Self) {
        ClipContent::Image(value)
    }
}

impl vstd::std_specs::convert::FromSpecImpl<ImageData> for ClipContent {
    open spec fn obeys_from_spec() -> bool {
        true
    }

    open spec fn from_spec(value: ImageData) -> Self {
        ClipContent::Image(value)
    }
}

} // verus!
