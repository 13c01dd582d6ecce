//! Attachments embedded within a document.

use vstd::prelude::*;
use crate::dbtype::base64_blob::Base64Blob;
use crate::dbtype::content_type::ContentType;
use crate::dbtype::fields::{required, FieldError, Sealed};

verus! {

/// An embedded attachment is an attachment contained within a document.
///
/// By default, an embedded attachment is a stub holding only information about
/// the attachment; it holds the attachment's content too where the document
/// was retrieved with its attachments.
#[derive(Clone, Debug, PartialEq)]
pub struct EmbeddedAttachment {
    /// The MIME type of the attachment's content.
    pub content_type: ContentType,
    /// The attachment's full content, where the attachment is not a stub.
    pub data: Option<Vec<u8>>,
    _digest: String,
    _encoded_length: Option<u64>,
    _encoding: Option<String>,
    _length: Option<u64>,
    /// The revision number of the attachment's document when the attachment
    /// was added.
    pub revpos: u64,
    _dummy: Sealed,
}

/// What an embedded attachment holds: the media type, the content, the
/// digest, the encoded length, the encoding, the length and the revision
/// position.
pub type EmbeddedAttachmentView = (
    (Seq<char>, Seq<char>, Seq<char>),
    Option<Seq<u8>>,
    Seq<char>,
    Option<u64>,
    Option<Seq<char>>,
    Option<u64>,
    u64,
);

/// The content of an optional byte vector.
pub open spec fn opt_bytes(x: Option<Vec<u8>>) -> Option<Seq<u8>> {
    match x {
        Some(v) => Some(v@),
        None => None,
    }
}

/// The text of an optional string.
pub open spec fn opt_text(x: Option<String>) -> Option<Seq<char>> {
    match x {
        Some(s) => Some(s@),
        None => None,
    }
}

impl View for EmbeddedAttachment {
    type V = EmbeddedAttachmentView;

    /// What the attachment holds.
    closed spec fn view(&self) -> EmbeddedAttachmentView {
        (
            self.content_type@,
            opt_bytes(self.data),
            self._digest@,
            self._encoded_length,
            opt_text(self._encoding),
            self._length,
            self.revpos,
        )
    }
}

/// The names of the fields of an embedded attachment, as its JSON object
/// holds them; `stub` is read and ignored.
pub const EMBEDDED_ATTACHMENT_FIELDS: [&'static str; 8] = [
    "content_type",
    "data",
    "digest",
    "encoded_length",
    "encoding",
    "length",
    "revpos",
    "stub",
];

impl EmbeddedAttachment {
    /// Assembles an embedded attachment from the fields that its JSON object
    /// held: `content_type`, `digest` and `revpos` are required, checked in
    /// that order; the others are optional.
    pub fn from_fields(
        content_type: Option<ContentType>,
        data: Option<Base64Blob>,
        digest: Option<String>,
        encoded_length: Option<u64>,
        encoding: Option<String>,
        length: Option<u64>,
        revpos: Option<u64>,
    ) -> (r: Result<Self, FieldError>)
        ensures
            content_type is None ==> r == Err::<Self, FieldError>(
                FieldError::MissingField("content_type"),
            ),
            content_type is Some && digest is None ==> r == Err::<Self, FieldError>(
                FieldError::MissingField("digest"),
            ),
            content_type is Some && digest is Some && revpos is None ==> r == Err::<
                Self,
                FieldError,
            >(FieldError::MissingField("revpos")),
            content_type is Some && digest is Some && revpos is Some ==> (r matches Ok(x) && x@ == (
                (content_type->0)@,
                match data {
                    Some(b) => Some(b.0@),
                    None => None,
                },
                (digest->0)@,
                encoded_length,
                opt_text(encoding),
                length,
                revpos->0,
            )),
    {
        let content_type = required(content_type, "content_type")?;
        let data = match data {
            Some(b) => Some(b.0),
            None => None,
        };
        let digest = required(digest, "digest")?;
        let revpos = required(revpos, "revpos")?;
        Ok(
            EmbeddedAttachment {
                content_type,
                data,
                _digest: digest,
                _encoded_length: encoded_length,
                _encoding: encoding,
                _length: length,
                revpos,
                _dummy: Sealed,
            },
        )
    }
}

/// Builder for constructing an embedded attachment.
#[derive(Debug)]
pub struct EmbeddedAttachmentBuilder {
    attachment: EmbeddedAttachment,
}

impl View for EmbeddedAttachmentBuilder {
    type V = EmbeddedAttachmentView;

    /// The attachment under construction.
    closed spec fn view(&self) -> EmbeddedAttachmentView {
        self.attachment@
    }
}

impl EmbeddedAttachmentBuilder {
    /// Constructs a builder whose attachment is a stub with the given media
    /// type, digest and revision position.
    pub fn new(content_type: ContentType, digest: String, revpos: u64) -> (r: Self)
        ensures
            r@ == (content_type@, None::<Seq<u8>>, digest@, None::<u64>, None::<Seq<char>>, None::<
                u64,
            >, revpos),
    {
        EmbeddedAttachmentBuilder {
            attachment: EmbeddedAttachment {
                content_type,
                data: None,
                _digest: digest,
                _encoded_length: None,
                _encoding: None,
                _length: None,
                revpos,
                _dummy: Sealed,
            },
        }
    }

    /// Returns the attachment contained within the builder.
    pub fn unwrap(self) -> (r: EmbeddedAttachment)
        ensures
            r@ == self@,
    {
        self.attachment
    }

    /// Gives the attachment its content, in place of any length.
    pub fn data(self, data: Vec<u8>) -> (r: Self)
        ensures
            r@ == (self@.0, Some(data@), self@.2, self@.3, self@.4, None::<u64>, self@.6),
    {
        let mut b = self;
        b.attachment.data = Some(data);
        b.attachment._length = None;
        b
    }

    /// Gives the attachment a length, in place of any content.
    pub fn length(self, length: u64) -> (r: Self)
        ensures
            r@ == (self@.0, None::<Seq<u8>>, self@.2, self@.3, self@.4, Some(length), self@.6),
    {
        let mut b = self;
        b.attachment.data = None;
        b.attachment._length = Some(length);
        b
    }

    /// Gives the attachment its encoded length and encoding.
    pub fn encoding_info(self, encoded_length: u64, encoding: String) -> (r: Self)
        ensures
            r@ == (self@.0, self@.1, self@.2, Some(encoded_length), Some(encoding@), self@.5, self@.6),
    {
        let mut b = self;
        b.attachment._encoded_length = Some(encoded_length);
        b.attachment._encoding = Some(encoding);
        b
    }
}

} // verus!
