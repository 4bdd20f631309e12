//! One call of the service, from named configuration strings and a payload
//! to a reply: the shared core that every transport front end wraps.
use vstd::prelude::*;
use vstd::utf8::encode_utf8;

use crate::help::{help_html, txt_to_html};
use crate::render::{generate_spec, GenerateError};
use crate::request::{resolve_spec, ConfigValues, FieldError, Format, Generator};

verus! {

/// The media type under which each format's output is sent.
pub open spec fn content_type_of(f: Format) -> Seq<char> {
    match f {
        Format::PlainText => "text/plain"@,
        Format::Svg => "image/svg+xml"@,
        Format::Html => "text/html"@,
        Format::Unicode => "application/octet-stream"@,
        Format::Png => "image/png"@,
        Format::Jpeg => "image/jpeg"@,
    }
}

impl Format {
    /// The media type of this format's output (see `content_type_of`).
    pub fn content_type(&self) -> (r: &'static str)
        ensures
            r@ == content_type_of(*self),
    {
        match self {
            Format::PlainText => "text/plain",
            Format::Svg => "image/svg+xml",
            Format::Html => "text/html",
            Format::Unicode => "application/octet-stream",
            Format::Png => "image/png",
            Format::Jpeg => "image/jpeg",
        }
    }
}

/// Output bytes with the media type they are sent under.
#[derive(Debug)]
pub struct RenderedArtifact {
    pub bytes: Vec<u8>,
    pub content_type: String,
}

/// What a call answers with.
#[derive(Debug)]
pub enum Reply {
    /// Bytes to send as they are.
    Artifact(RenderedArtifact),
    /// An HTML page: the page template with `content` in its content
    /// placeholder and `help` in its help placeholder.
    Page { content: Vec<u8>, help: String },
}

pub enum ReplyView {
    Artifact { bytes: Seq<u8>, content_type: Seq<char> },
    Page { content: Seq<u8>, help: Seq<char> },
}

impl View for Reply {
    type V = ReplyView;

    open spec fn view(&self) -> ReplyView {
        match self {
            Reply::Artifact(a) => ReplyView::Artifact { bytes: a.bytes@, content_type: a.content_type@ },
            Reply::Page { content, help } => ReplyView::Page { content: content@, help: help@ },
        }
    }
}

/// Why a call was refused.
#[derive(Debug, Clone, Copy, PartialEq, Eq, Structural)]
pub enum Rejection {
    /// A configuration value did not parse.
    Field(FieldError),
    /// A write-style call came with no payload.
    EmptyPayload,
    /// An image format was asked for with no payload to draw.
    NoPayloadImage,
    /// The encoder refused the payload at the chosen version and level.
    Encoding,
    /// The requested size is beyond what the renderer or the codec can draw.
    Oversized,
}

pub open spec fn rejection_of(e: GenerateError) -> Rejection {
    match e {
        GenerateError::Encoding => Rejection::Encoding,
        GenerateError::Oversized => Rejection::Oversized,
    }
}

pub open spec fn reply_view(r: Result<Reply, Rejection>) -> Result<ReplyView, Rejection> {
    match r {
        Ok(reply) => Ok(reply@),
        Err(e) => Err(e),
    }
}

/// How the outcome of generation is answered: HTML output goes into the
/// page with the help markup; other output is sent under its media type.
pub open spec fn wrap(f: Format, help: Seq<char>, out: Result<Seq<u8>, GenerateError>) -> Result<
    ReplyView,
    Rejection,
> {
    match out {
        Ok(b) => if f == Format::Html {
            Ok(ReplyView::Page { content: b, help })
        } else {
            Ok(ReplyView::Artifact { bytes: b, content_type: content_type_of(f) })
        },
        Err(e) => Err(rejection_of(e)),
    }
}

/// What a read-style call encodes: the path, then `?` and the query if
/// there is one.
pub open spec fn read_payload(path: Seq<char>, query: Option<Seq<char>>) -> Seq<u8> {
    match query {
        Some(q) => encode_utf8(path + "?"@ + q),
        None => encode_utf8(path),
    }
}

pub open spec fn opt_str_view(o: Option<&str>) -> Option<Seq<char>> {
    match o {
        Some(s) => Some(s@),
        None => None,
    }
}

/// The service, with its help text and the HTML form of it computed once.
pub struct Service {
    pub help_text: String,
    pub help_html: String,
}

impl Service {
    /// Sets up the service around its help text.
    pub fn new(help_text: String) -> (r: Service)
        ensures
            r.help_text@ == help_text@,
            r.help_html@ == help_html(help_text@),
    {
        let help_html = txt_to_html(help_text.as_str());
        Service { help_text, help_html }
    }

    /// Generates for `payload` and wraps the outcome (see `wrap`).
    fn reply(&self, gen: &Generator, payload: &[u8]) -> (r: Result<Reply, Rejection>)
        ensures
            reply_view(r) == wrap(gen.format, self.help_html@, generate_spec(gen@, payload@)),
    {
        match gen.generate(payload) {
            Ok(bytes) => {
                if let Format::Html = gen.format {
                    Ok(Reply::Page { content: bytes, help: self.help_html.clone() })
                } else {
                    let content_type = String::from_str(gen.format.content_type());
                    Ok(Reply::Artifact(RenderedArtifact { bytes, content_type }))
                }
            },
            Err(GenerateError::Encoding) => Err(Rejection::Encoding),
            Err(GenerateError::Oversized) => Err(Rejection::Oversized),
        }
    }

    /// Answers a write-style call, whose payload is the body. An empty body
    /// is refused before any configuration value is looked at.
    pub fn respond_to_write(&self, values: &ConfigValues, body: &[u8]) -> (r: Result<
        Reply,
        Rejection,
    >)
        ensures
            body@.len() == 0 ==> r == Err::<Reply, Rejection>(Rejection::EmptyPayload),
            body@.len() > 0 ==> match resolve_spec(values@) {
                Err(f) => r == Err::<Reply, Rejection>(Rejection::Field(FieldError { field: f })),
                Ok(g) => reply_view(r) == wrap(g.format, self.help_html@, generate_spec(g, body@)),
            },
    {
        if body.len() == 0 {
            return Err(Rejection::EmptyPayload);
        }
        match Generator::resolve(values) {
            Err(e) => Err(Rejection::Field(e)),
            Ok(gen) => self.reply(&gen, body),
        }
    }

    /// Answers a read-style call, whose payload is the path after the route
    /// prefix and the query. With no path there is nothing to encode: HTML
    /// gets the page with empty content and the help markup, the text
    /// formats get the help text, and the image formats are refused.
    pub fn respond_to_read(&self, values: &ConfigValues, path: &str, query: Option<&str>) -> (r:
        Result<Reply, Rejection>)
        ensures
            match resolve_spec(values@) {
                Err(f) => r == Err::<Reply, Rejection>(Rejection::Field(FieldError { field: f })),
                Ok(g) => if path@.len() == 0 {
                    reply_view(r) == match g.format {
                        Format::Html => Ok(ReplyView::Page { content: Seq::empty(), help: self.help_html@ }),
                        Format::PlainText | Format::Unicode => Ok(
                            ReplyView::Artifact {
                                bytes: encode_utf8(self.help_text@),
                                content_type: "text/plain"@,
                            },
                        ),
                        _ => Err::<ReplyView, Rejection>(Rejection::NoPayloadImage),
                    }
                } else {
                    reply_view(r) == wrap(
                        g.format,
                        self.help_html@,
                        generate_spec(g, read_payload(path@, opt_str_view(query))),
                    )
                },
            },
    {
        let gen = match Generator::resolve(values) {
            Err(e) => return Err(Rejection::Field(e)),
            Ok(gen) => gen,
        };
        if path.unicode_len() == 0 {
            return match gen.format {
                Format::Html => {
                    let content: Vec<u8> = Vec::new();
                    Ok(Reply::Page { content, help: self.help_html.clone() })
                },
                Format::PlainText | Format::Unicode => {
                    let bytes = self.help_text.as_str().as_bytes_vec();
                    Ok(Reply::Artifact(RenderedArtifact { bytes, content_type: String::from_str("text/plain") }))
                },
                _ => Err(Rejection::NoPayloadImage),
            };
        }
        let mut input = String::from_str(path);
        if let Some(q) = query {
            input.append("?");
            input.append(q);
        }
        let payload = input.as_str().as_bytes_vec();
        self.reply(&gen, payload.as_slice())
    }
}

} // verus!
