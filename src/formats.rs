//! The output formats of the assembler and how a format code selects one.
use vstd::prelude::*;

verus! {

/// One of the fourteen encodings of an assembled binary.
#[derive(Clone, Copy, Debug, PartialEq, Eq, Structural)]
pub enum OutputFormat {
    AnnotatedHex,
    AnnotatedBin,
    HexDump,
    BinDump,
    HexStr,
    BinStr,
    Mif,
    IntelHex,
    CommaDec,
    CommaHex,
    CArrayDec,
    CArrayHex,
    Logisim8,
    Logisim16,
}

/// A rendering routine of the binary output.
#[derive(Clone, Copy, Debug, PartialEq, Eq, Structural)]
pub enum Renderer {
    /// Hexadecimal annotated with the source lines.
    AnnotatedHex,
    /// Binary annotated with the source lines.
    AnnotatedBin,
    HexDump,
    BinDump,
    HexStr,
    BinStr,
    /// Memory initialization file.
    Mif,
    IntelHex,
    /// Comma separated values; the parameter is the radix.
    Comma,
    /// An array literal of source code; the parameter is the radix.
    CArray,
    /// A logic simulator memory image; the parameter is the word width.
    Logisim,
}

/// A call of one renderer over the byte range `[start, end)` of the output.
#[derive(Clone, Copy, Debug, PartialEq, Eq, Structural)]
pub struct RenderRequest {
    pub renderer: Renderer,
    pub start: usize,
    pub end: usize,
    /// The radix or word width for the renderers that take one.
    pub param: Option<u32>,
}

/// The format that `code` selects, for the codes `0` to `13`.
pub open spec fn format_of_code(code: u32) -> Option<OutputFormat> {
    if code == 0 {
        Some(OutputFormat::AnnotatedHex)
    } else if code == 1 {
        Some(OutputFormat::AnnotatedBin)
    } else if code == 2 {
        Some(OutputFormat::HexDump)
    } else if code == 3 {
        Some(OutputFormat::BinDump)
    } else if code == 4 {
        Some(OutputFormat::HexStr)
    } else if code == 5 {
        Some(OutputFormat::BinStr)
    } else if code == 6 {
        Some(OutputFormat::Mif)
    } else if code == 7 {
        Some(OutputFormat::IntelHex)
    } else if code == 8 {
        Some(OutputFormat::CommaDec)
    } else if code == 9 {
        Some(OutputFormat::CommaHex)
    } else if code == 10 {
        Some(OutputFormat::CArrayDec)
    } else if code == 11 {
        Some(OutputFormat::CArrayHex)
    } else if code == 12 {
        Some(OutputFormat::Logisim8)
    } else if code == 13 {
        Some(OutputFormat::Logisim16)
    } else {
        None
    }
}

/// The renderer behind each format.
pub open spec fn renderer_of(f: OutputFormat) -> Renderer {
    match f {
        OutputFormat::AnnotatedHex => Renderer::AnnotatedHex,
        OutputFormat::AnnotatedBin => Renderer::AnnotatedBin,
        OutputFormat::HexDump => Renderer::HexDump,
        OutputFormat::BinDump => Renderer::BinDump,
        OutputFormat::HexStr => Renderer::HexStr,
        OutputFormat::BinStr => Renderer::BinStr,
        OutputFormat::Mif => Renderer::Mif,
        OutputFormat::IntelHex => Renderer::IntelHex,
        OutputFormat::CommaDec | OutputFormat::CommaHex => Renderer::Comma,
        OutputFormat::CArrayDec | OutputFormat::CArrayHex => Renderer::CArray,
        OutputFormat::Logisim8 | OutputFormat::Logisim16 => Renderer::Logisim,
    }
}

/// The fixed radix or word width that a format passes to its renderer.
pub open spec fn param_of(f: OutputFormat) -> Option<u32> {
    match f {
        OutputFormat::CommaDec | OutputFormat::CArrayDec => Some(10),
        OutputFormat::CommaHex | OutputFormat::CArrayHex => Some(16),
        OutputFormat::Logisim8 => Some(8),
        OutputFormat::Logisim16 => Some(16),
        _ => None,
    }
}

/// The call that renders an output of `len` bytes in format `f`: its whole
/// extent.
pub open spec fn request_of(f: OutputFormat, len: usize) -> RenderRequest {
    RenderRequest { renderer: renderer_of(f), start: 0, end: len, param: param_of(f) }
}

impl OutputFormat {
    /// The format that a host's format code selects; `None` for a code past
    /// the last format.
    pub fn from_code(code: u32) -> (r: Option<OutputFormat>)
        ensures
            r == format_of_code(code),
            r is Some <==> code < 14,
    {
        match code {
            0 => Some(OutputFormat::AnnotatedHex),
            1 => Some(OutputFormat::AnnotatedBin),
            2 => Some(OutputFormat::HexDump),
            3 => Some(OutputFormat::BinDump),
            4 => Some(OutputFormat::HexStr),
            5 => Some(OutputFormat::BinStr),
            6 => Some(OutputFormat::Mif),
            7 => Some(OutputFormat::IntelHex),
            8 => Some(OutputFormat::CommaDec),
            9 => Some(OutputFormat::CommaHex),
            10 => Some(OutputFormat::CArrayDec),
            11 => Some(OutputFormat::CArrayHex),
            12 => Some(OutputFormat::Logisim8),
            13 => Some(OutputFormat::Logisim16),
            _ => None,
        }
    }

    /// The renderer call for an output of `len` bytes in this format.
    pub fn request(self, len: usize) -> (r: RenderRequest)
        ensures
            r == request_of(self, len),
    {
        let (renderer, param) = match self {
            OutputFormat::AnnotatedHex => (Renderer::AnnotatedHex, None),
            OutputFormat::AnnotatedBin => (Renderer::AnnotatedBin, None),
            OutputFormat::HexDump => (Renderer::HexDump, None),
            OutputFormat::BinDump => (Renderer::BinDump, None),
            OutputFormat::HexStr => (Renderer::HexStr, None),
            OutputFormat::BinStr => (Renderer::BinStr, None),
            OutputFormat::Mif => (Renderer::Mif, None),
            OutputFormat::IntelHex => (Renderer::IntelHex, None),
            OutputFormat::CommaDec => (Renderer::Comma, Some(10)),
            OutputFormat::CommaHex => (Renderer::Comma, Some(16)),
            OutputFormat::CArrayDec => (Renderer::CArray, Some(10)),
            OutputFormat::CArrayHex => (Renderer::CArray, Some(16)),
            OutputFormat::Logisim8 => (Renderer::Logisim, Some(8)),
            OutputFormat::Logisim16 => (Renderer::Logisim, Some(16)),
        };
        RenderRequest { renderer, start: 0, end: len, param }
    }
}

/// Every format code up to the last one selects a format, and the request
/// for an empty output is a call over the empty range.
pub proof fn lemma_every_code_renders_empty(code: u32)
    requires
        code < 14,
    ensures
        format_of_code(code) is Some,
        request_of(format_of_code(code)->0, 0).start == 0,
        request_of(format_of_code(code)->0, 0).end == 0,
{
}

/// Two distinct format codes select two distinct formats.
pub proof fn lemma_codes_distinct(a: u32, b: u32)
    requires
        a < 14,
        b < 14,
        a != b,
    ensures
        format_of_code(a) != format_of_code(b),
{
}

} // verus!
