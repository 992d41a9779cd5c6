//! What the viewer tells about an image: its name, type, size and resolution.

use vstd::prelude::*;
use crate::config::optional_text;
use crate::text::decimal;
use crate::text::push_decimal;

verus! {

/// Width and height of an image, in pixels.
#[derive(Clone, Copy, Debug, PartialEq, Eq, Structural)]
pub struct ImageResolution {
    pub width: usize,
    pub height: usize,
}

/// A resolution as text: width, `x`, height.
pub open spec fn resolution_text(resolution: ImageResolution) -> Seq<char> {
    decimal(resolution.width as nat) + seq!['x'] + decimal(resolution.height as nat)
}

impl ImageResolution {
    /// The resolution as text, such as `1920x1080`.
    pub fn to_string(&self) -> (text: String)
        ensures
            text@ == resolution_text(*self),
    {
        let mut out = String::new();
        push_decimal(&mut out, self.width);
        out.push('x');
        push_decimal(&mut out, self.height);
        assert(out@ =~= resolution_text(*self));
        out
    }
}

/// What is known of an image file. Whatever could not be found out is `None`.
#[derive(Debug)]
pub struct ImageInfo {
    pub file_name: Option<String>,
    pub file_type: Option<String>,
    pub file_size: Option<u64>,
    pub resolution: Option<ImageResolution>,
}

/// What an `ImageInfo` holds.
pub struct ImageInfoView {
    pub file_name: Option<Seq<char>>,
    pub file_type: Option<Seq<char>>,
    pub file_size: Option<u64>,
    pub resolution: Option<ImageResolution>,
}

impl View for ImageInfo {
    type V = ImageInfoView;

    open spec fn view(&self) -> ImageInfoView {
        ImageInfoView {
            file_name: optional_text(self.file_name),
            file_type: optional_text(self.file_type),
            file_size: self.file_size,
            resolution: self.resolution,
        }
    }
}

/// One line of the overlay that describes the image.
#[derive(Debug)]
pub enum InfoLine {
    FileName(String),
    FileType(String),
    Resolution(String),
    FileSize(String),
}

/// What an `InfoLine` holds.
pub enum InfoLineView {
    FileName(Seq<char>),
    FileType(Seq<char>),
    Resolution(Seq<char>),
    FileSize(Seq<char>),
}

impl View for InfoLine {
    type V = InfoLineView;

    open spec fn view(&self) -> InfoLineView {
        match *self {
            InfoLine::FileName(text) => InfoLineView::FileName(text@),
            InfoLine::FileType(text) => InfoLineView::FileType(text@),
            InfoLine::Resolution(text) => InfoLineView::Resolution(text@),
            InfoLine::FileSize(text) => InfoLineView::FileSize(text@),
        }
    }
}

/// What a list of `InfoLine`s holds.
pub open spec fn lines_view(lines: Seq<InfoLine>) -> Seq<InfoLineView> {
    lines.map_values(|l: InfoLine| l@)
}

/// The one line, or none.
pub open spec fn line_if(line: Option<InfoLineView>) -> Seq<InfoLineView> {
    match line {
        Some(l) => seq![l],
        None => Seq::empty(),
    }
}

/// The lines of the overlay: name, type, resolution and size, in this order,
/// each one only where it is known. `size` is the size as text.
pub open spec fn overlay_lines(info: ImageInfoView, size: Option<Seq<char>>) -> Seq<InfoLineView> {
    line_if(
        match info.file_name {
            Some(name) => Some(InfoLineView::FileName(name)),
            None => None,
        },
    ) + line_if(
        match info.file_type {
            Some(kind) => Some(InfoLineView::FileType(kind)),
            None => None,
        },
    ) + line_if(
        match info.resolution {
            Some(resolution) => Some(InfoLineView::Resolution(resolution_text(resolution))),
            None => None,
        },
    ) + line_if(
        match size {
            Some(text) => Some(InfoLineView::FileSize(text)),
            None => None,
        },
    )
}

/// What `bytesize` writes for a size of `bytes` bytes, such as `1.5 KiB`.
pub uninterp spec fn byte_size_text(bytes: u64) -> Seq<char>;

/// The size of a file as text, where the size is known.
pub open spec fn size_text(file_size: Option<u64>) -> Option<Seq<char>> {
    match file_size {
        Some(bytes) => Some(byte_size_text(bytes)),
        None => None,
    }
}

/// Trusted: the text that `bytesize` writes for `ByteSize::b(bytes)`, through
/// its `Display`. The crate computes it from the number alone; the contract
/// gives it a name and claims nothing else of it.
#[verifier::external_body]
fn format_byte_size(bytes: u64) -> (text: String)
    ensures
        text@ == byte_size_text(bytes),
{
    bytesize::ByteSize::b(bytes).to_string()
}

impl ImageInfo {
    /// The lines of the overlay for this image, `size` being its size as
    /// text: name, type, resolution and size, each one only where it is known.
    pub fn lines_with_size(&self, size: Option<String>) -> (lines: Vec<InfoLine>)
        ensures
            lines_view(lines@) == overlay_lines(self@, optional_text(size)),
    {
        let mut lines: Vec<InfoLine> = Vec::new();
        assert(lines_view(lines@) =~= Seq::<InfoLineView>::empty());
        match &self.file_name {
            Some(name) => {
                let ghost before = lines_view(lines@);
                let line = InfoLine::FileName(name.clone());
                lines.push(line);
                assert(lines_view(lines@) =~= before.push(line@));
            },
            None => {},
        }
        match &self.file_type {
            Some(kind) => {
                let ghost before = lines_view(lines@);
                let line = InfoLine::FileType(kind.clone());
                lines.push(line);
                assert(lines_view(lines@) =~= before.push(line@));
            },
            None => {},
        }
        match self.resolution {
            Some(resolution) => {
                let ghost before = lines_view(lines@);
                let line = InfoLine::Resolution(resolution.to_string());
                lines.push(line);
                assert(lines_view(lines@) =~= before.push(line@));
            },
            None => {},
        }
        match size {
            Some(text) => {
                let ghost before = lines_view(lines@);
                let line = InfoLine::FileSize(text);
                lines.push(line);
                assert(lines_view(lines@) =~= before.push(line@));
            },
            None => {},
        }
        assert(lines_view(lines@) =~= overlay_lines(self@, optional_text(size)));
        lines
    }

    /// The lines of the overlay for this image: name, type, resolution and
    /// size, each one only where it is known.
    pub fn lines(&self) -> (lines: Vec<InfoLine>)
        ensures
            lines_view(lines@) == overlay_lines(self@, size_text(self.file_size)),
    {
        let size = match self.file_size {
            Some(bytes) => Some(format_byte_size(bytes)),
            None => None,
        };
        self.lines_with_size(size)
    }
}

} // verus!
