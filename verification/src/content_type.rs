//! The media types that the server can announce.

use crate::text::same_text;
use vstd::prelude::*;

verus! {

/// The media type of a served file.
#[derive(Clone, Copy, Debug, PartialEq, Eq, Structural)]
pub enum ContentType {
    CSS,
    GIF,
    HTML,
    JPEG,
    PNG,
    SVG,
    TEXT,
    XML,
}

impl ContentType {
    /// The media type that goes with a file extension. The lookup is exact
    /// in case; what the table does not hold is plain text.
    pub open spec fn spec_from_file_ext(ext: Seq<char>) -> ContentType {
        if ext == "css"@ {
            ContentType::CSS
        } else if ext == "gif"@ {
            ContentType::GIF
        } else if ext == "htm"@ || ext == "html"@ {
            ContentType::HTML
        } else if ext == "jpeg"@ || ext == "jpg"@ {
            ContentType::JPEG
        } else if ext == "png"@ {
            ContentType::PNG
        } else if ext == "svg"@ {
            ContentType::SVG
        } else if ext == "txt"@ {
            ContentType::TEXT
        } else if ext == "xml"@ {
            ContentType::XML
        } else {
            ContentType::TEXT
        }
    }

    /// The string that announces this media type.
    pub open spec fn spec_value(self) -> Seq<char> {
        match self {
            ContentType::CSS => "text/css"@,
            ContentType::GIF => "image/gif"@,
            ContentType::HTML => "text/html"@,
            ContentType::JPEG => "image/jpeg"@,
            ContentType::PNG => "image/png"@,
            ContentType::SVG => "image/svg+xml"@,
            ContentType::TEXT => "text/plain"@,
            ContentType::XML => "application/xml"@,
        }
    }

    /// Looks a file extension up.
    pub fn from_file_ext(ext: &str) -> (r: ContentType)
        ensures
            r == Self::spec_from_file_ext(ext@),
    {
        if same_text(ext, "css") {
            ContentType::CSS
        } else if same_text(ext, "gif") {
            ContentType::GIF
        } else if same_text(ext, "htm") {
            ContentType::HTML
        } else if same_text(ext, "html") {
            ContentType::HTML
        } else if same_text(ext, "jpeg") {
            ContentType::JPEG
        } else if same_text(ext, "jpg") {
            ContentType::JPEG
        } else if same_text(ext, "png") {
            ContentType::PNG
        } else if same_text(ext, "svg") {
            ContentType::SVG
        } else if same_text(ext, "txt") {
            ContentType::TEXT
        } else if same_text(ext, "xml") {
            ContentType::XML
        } else {
            ContentType::TEXT
        }
    }

    /// The string that announces this media type.
    pub fn value(&self) -> (r: &'static str)
        ensures
            r@ == self.spec_value(),
    {
        match *self {
            ContentType::CSS => "text/css",
            ContentType::GIF => "image/gif",
            ContentType::HTML => "text/html",
            ContentType::JPEG => "image/jpeg",
            ContentType::PNG => "image/png",
            ContentType::SVG => "image/svg+xml",
            ContentType::TEXT => "text/plain",
            ContentType::XML => "application/xml",
        }
    }
}

} // verus!
