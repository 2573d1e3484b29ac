//! Classification of a job's input by its content, and the choice of the
//! decoder backend that follows from it.

use vstd::prelude::*;
use vstd::string::*;
use file_format::FileFormat;
use crate::error::ProcessorError;

verus! {

/// The formats the engine tells apart in an input.  Everything else,
/// unrecognised content included, is `Other`.
#[derive(Clone, Copy, Debug, PartialEq, Eq, Structural)]
pub enum InputFormat {
    Webp,
    Avif,
    AvifSequence,
    Gif,
    Png,
    Apng,
    Jpeg,
    Bmp,
    Other,
}

/// The decoder backends an input can be handed to.
#[derive(Clone, Copy, Debug, PartialEq, Eq, Structural)]
pub enum DecoderBackend {
    Ffmpeg,
    LibWebp,
    LibAvif,
}

/// The name of the format that content sniffing finds in `content`.
pub uninterp spec fn sniffed_name(content: Seq<u8>) -> Seq<char>;

/// Calls `file_format::FileFormat::from_bytes`, which determines a format
/// from the bytes of a file alone, and writes out the name of the variant
/// it returns.  The result is trusted to be a function of the content;
/// nothing else is claimed of it, and nothing is decided here.
#[verifier::external_body]
fn sniff(content: &[u8]) -> (name: String)
    ensures
        name@ == sniffed_name(content@),
{
    format!("{:?}", FileFormat::from_bytes(content))
}

/// The format that goes by `name`.  A name the engine does not know is
/// `Other`.
pub open spec fn format_named(name: Seq<char>) -> InputFormat {
    if name == "Webp"@ {
        InputFormat::Webp
    } else if name == "Av1ImageFileFormat"@ {
        InputFormat::Avif
    } else if name == "Av1ImageFileFormatSequence"@ {
        InputFormat::AvifSequence
    } else if name == "GraphicsInterchangeFormat"@ {
        InputFormat::Gif
    } else if name == "PortableNetworkGraphics"@ {
        InputFormat::Png
    } else if name == "AnimatedPortableNetworkGraphics"@ {
        InputFormat::Apng
    } else if name == "JointPhotographicExpertsGroup"@ {
        InputFormat::Jpeg
    } else if name == "WindowsBitmap"@ {
        InputFormat::Bmp
    } else {
        InputFormat::Other
    }
}

/// The format that content sniffing finds in `content`.
pub open spec fn sniffed_format(content: Seq<u8>) -> InputFormat {
    format_named(sniffed_name(content))
}

/// The backend that decodes a format, or the failure where there is none.
/// The mapping is total: a format without a backend is an error of its
/// own, never a fallback to some default decoder.
pub open spec fn backend_for(format: InputFormat) -> Result<DecoderBackend, ProcessorError> {
    match format {
        InputFormat::Webp => Ok(DecoderBackend::LibWebp),
        InputFormat::Avif | InputFormat::AvifSequence => Ok(DecoderBackend::LibAvif),
        InputFormat::Gif | InputFormat::Png | InputFormat::Apng | InputFormat::Jpeg
        | InputFormat::Bmp => Ok(DecoderBackend::Ffmpeg),
        InputFormat::Other => Err(ProcessorError::UnsupportedInputFormat),
    }
}

fn same_text(left: &str, right: &str) -> (same: bool)
    ensures
        same == (left@ == right@),
{
    String::from_str(left) == String::from_str(right)
}

impl InputFormat {
    /// Tells which format goes by a name.
    pub fn from_name(name: &str) -> (format: InputFormat)
        ensures
            format == format_named(name@),
    {
        if same_text(name, "Webp") {
            InputFormat::Webp
        } else if same_text(name, "Av1ImageFileFormat") {
            InputFormat::Avif
        } else if same_text(name, "Av1ImageFileFormatSequence") {
            InputFormat::AvifSequence
        } else if same_text(name, "GraphicsInterchangeFormat") {
            InputFormat::Gif
        } else if same_text(name, "PortableNetworkGraphics") {
            InputFormat::Png
        } else if same_text(name, "AnimatedPortableNetworkGraphics") {
            InputFormat::Apng
        } else if same_text(name, "JointPhotographicExpertsGroup") {
            InputFormat::Jpeg
        } else if same_text(name, "WindowsBitmap") {
            InputFormat::Bmp
        } else {
            InputFormat::Other
        }
    }
}

impl DecoderBackend {
    /// Selects the backend for a detected format.
    pub fn from_format(format: InputFormat) -> (backend: Result<DecoderBackend, ProcessorError>)
        ensures
            backend == backend_for(format),
    {
        match format {
            InputFormat::Webp => Ok(DecoderBackend::LibWebp),
            InputFormat::Avif | InputFormat::AvifSequence => Ok(DecoderBackend::LibAvif),
            InputFormat::Gif | InputFormat::Png | InputFormat::Apng | InputFormat::Jpeg
            | InputFormat::Bmp => Ok(DecoderBackend::Ffmpeg),
            InputFormat::Other => Err(ProcessorError::UnsupportedInputFormat),
        }
    }
}

/// Names the format of an input from its content, not from the name of
/// the file or from anything the task says about it.
pub fn detect_name(content: &[u8]) -> (name: String)
    ensures
        name@ == sniffed_name(content@),
{
    sniff(content)
}

/// Detects the format of an input from its content.
pub fn detect_format(content: &[u8]) -> (format: InputFormat)
    ensures
        format == sniffed_format(content@),
{
    let name = sniff(content);
    InputFormat::from_name(name.as_str())
}

/// Classifies an input by its content and selects its decoder backend.
pub fn classify(content: &[u8]) -> (backend: Result<DecoderBackend, ProcessorError>)
    ensures
        backend == backend_for(sniffed_format(content@)),
{
    DecoderBackend::from_format(detect_format(content))
}

} // verus!
