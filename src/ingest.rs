use vstd::prelude::*;

use crate::artist::{Artist, resolution};
use crate::error::ServiceError;
use crate::paths::{plan_storage, safe_char, safe_fragment, storage_plan};
use crate::text::same_text;

verus! {

/// What the upload handler does with the chunks of a multipart field.
#[derive(Clone, Copy, Debug, PartialEq, Eq, Structural)]
pub enum FieldRole {
    /// The audio payload: its bytes are kept.
    Payload,
    /// The client's name fragment: its text is kept.
    Name,
    /// Any other field: drained and dropped.
    Ignored,
}

/// The role of a field, by its name.
pub open spec fn role_of(field: Seq<char>) -> FieldRole {
    if field == "source"@ {
        FieldRole::Payload
    } else if field == "name"@ {
        FieldRole::Name
    } else {
        FieldRole::Ignored
    }
}

/// The text that lossy UTF-8 decoding makes of some bytes.
pub uninterp spec fn lossy_text(bytes: Seq<u8>) -> Seq<char>;

/// Relies on `String::from_utf8_lossy`: the result depends on the bytes
/// alone, and bytes that are all ASCII are valid UTF-8, which comes back
/// unchanged, one character per byte; a byte of 128 or more is part of a
/// multi-byte character or of an invalid sequence, which is replaced by
/// U+FFFD, so it leaves a character of 128 or more.
#[verifier::external_body]
fn decode_lossy(bytes: &[u8]) -> (r: String)
    ensures
        r@ == lossy_text(bytes@),
        (exists|i: int| 0 <= i < bytes@.len() && #[trigger] bytes@[i] >= 128) ==> (exists|j: int|
            0 <= j < r@.len() && (#[trigger] r@[j] as u32) >= 128),
        (forall|i: int| 0 <= i < bytes@.len() ==> #[trigger] bytes@[i] < 128) ==> (r@.len()
            == bytes@.len() && forall|i: int| 0 <= i < bytes@.len() ==> r@[i] == (
        #[trigger] bytes@[i]) as char),
{
    String::from_utf8_lossy(bytes).into_owned()
}

/// The role of a multipart field, by its name.
pub fn field_role(field: &str) -> (r: FieldRole)
    ensures
        r == role_of(field@),
{
    if same_text(field, "source") {
        FieldRole::Payload
    } else if same_text(field, "name") {
        FieldRole::Name
    } else {
        FieldRole::Ignored
    }
}

/// An upload that was accepted: the artist it is for, where its payload is
/// to be stored, where the conversion writes, and the payload itself.
#[derive(Debug)]
pub struct Upload {
    pub artist: Artist,
    pub input: String,
    pub output: String,
    pub payload: Vec<u8>,
}

/// What an upload request yields: the artist, the input path and the output
/// path, or the first error in the order artist, payload, name.
pub open spec fn upload_outcome(
    key: Seq<char>,
    payload: Seq<u8>,
    fragment: Seq<char>,
    request: nat,
) -> Result<(Artist, Seq<char>, Seq<char>), ServiceError> {
    match resolution(key) {
        Err(e) => Err(e),
        Ok(a) => if payload.len() == 0 {
            Err(ServiceError::EmptyPayload)
        } else {
            match storage_plan(a, request, fragment) {
                Err(e) => Err(e),
                Ok((input, output)) => Ok((a, input, output)),
            }
        },
    }
}

/// The fields of one multipart body, collected chunk by chunk.
pub struct Ingest {
    payload: Vec<u8>,
    name: String,
}

impl Ingest {
    /// The payload bytes collected so far, in order of arrival.
    pub closed spec fn payload_seq(&self) -> Seq<u8> {
        self.payload@
    }

    /// The name text collected so far.
    pub closed spec fn name_seq(&self) -> Seq<char> {
        self.name@
    }

    /// Nothing collected yet.
    pub fn new() -> (r: Ingest)
        ensures
            r.payload_seq() == Seq::<u8>::empty(),
            r.name_seq() == Seq::<char>::empty(),
    {
        Ingest { payload: Vec::new(), name: String::new() }
    }

    /// Takes one chunk of the field named `field`: payload bytes are
    /// appended, name chunks are decoded and appended to the name, chunks
    /// of other fields are dropped.
    pub fn accept(&mut self, field: &str, chunk: &[u8])
        ensures
            role_of(field@) == FieldRole::Payload ==> final(self).payload_seq() == old(
                self,
            ).payload_seq() + chunk@ && final(self).name_seq() == old(self).name_seq(),
            role_of(field@) == FieldRole::Name ==> final(self).payload_seq() == old(
                self,
            ).payload_seq() && final(self).name_seq() == old(self).name_seq() + lossy_text(
                chunk@,
            ),
            role_of(field@) == FieldRole::Ignored ==> final(self).payload_seq() == old(
                self,
            ).payload_seq() && final(self).name_seq() == old(self).name_seq(),
            role_of(field@) == FieldRole::Name && (exists|i: int|
                0 <= i < chunk@.len() && #[trigger] chunk@[i] >= 128) ==> (exists|j: int|
                0 <= j < final(self).name_seq().len() && !safe_char(
                    #[trigger] final(self).name_seq()[j],
                )),
    {
        match field_role(field) {
            FieldRole::Payload => {
                self.payload.extend_from_slice(chunk);
            },
            FieldRole::Name => {
                let text = decode_lossy(chunk);
                let ghost before = self.name@;
                self.name.append(text.as_str());
                proof {
                    if exists|i: int| 0 <= i < chunk@.len() && #[trigger] chunk@[i] >= 128 {
                        let j = choose|j: int| 0 <= j < text@.len() && (#[trigger] text@[j] as u32) >= 128;
                        assert(self.name@[before.len() + j] == text@[j]);
                        assert(!safe_char(self.name@[before.len() + j]));
                    }
                }
            },
            FieldRole::Ignored => {},
        }
    }

    /// Number of payload bytes collected so far.
    pub fn payload_len(&self) -> (r: usize)
        ensures
            r == self.payload_seq().len(),
    {
        self.payload.len()
    }

    /// Ends the body of an upload to the artist named `key`, as request
    /// number `request`: the artist must be known, the payload non-empty
    /// and the name fragment safe.
    pub fn finish(self, key: &str, request: u64) -> (r: Result<Upload, ServiceError>)
        ensures
            match r {
                Ok(u) => upload_outcome(key@, self.payload_seq(), self.name_seq(), request as nat)
                    == Ok::<(Artist, Seq<char>, Seq<char>), ServiceError>(
                    (u.artist, u.input@, u.output@),
                ) && u.payload@ == self.payload_seq(),
                Err(e) => upload_outcome(key@, self.payload_seq(), self.name_seq(), request as nat)
                    == Err::<(Artist, Seq<char>, Seq<char>), ServiceError>(e),
            },
    {
        let artist = match Artist::resolve(key) {
            Ok(a) => a,
            Err(e) => return Err(e),
        };
        if self.payload.len() == 0 {
            return Err(ServiceError::EmptyPayload);
        }
        match plan_storage(artist, request, self.name.as_str()) {
            Ok((input, output)) => Ok(Upload { artist, input, output, payload: self.payload }),
            Err(e) => Err(e),
        }
    }
}

/// An upload whose name holds a character that may not stand in a file
/// name (a separator, a control character, anything beyond ASCII) is
/// refused with `InvalidPath` once the artist and the payload are in order.
pub proof fn lemma_unsafe_name_refused(
    key: Seq<char>,
    payload: Seq<u8>,
    name: Seq<char>,
    request: nat,
    j: int,
)
    requires
        resolution(key) is Ok,
        payload.len() > 0,
        0 <= j < name.len(),
        !safe_char(name[j]),
    ensures
        upload_outcome(key, payload, name, request) == Err::<
            (Artist, Seq<char>, Seq<char>),
            ServiceError,
        >(ServiceError::InvalidPath),
{
    assert(!safe_fragment(name));
}

/// An upload without payload bytes is refused with a 400 status, whatever
/// the artist key and the name fragment, so nothing is stored for it.
pub proof fn lemma_empty_upload_refused(key: Seq<char>, fragment: Seq<char>, request: nat)
    ensures
        upload_outcome(key, Seq::<u8>::empty(), fragment, request) is Err,
        crate::error::status_of(
            upload_outcome(key, Seq::<u8>::empty(), fragment, request)->Err_0,
        ) == 400,
        resolution(key) is Ok ==> upload_outcome(key, Seq::<u8>::empty(), fragment, request)
            == Err::<(Artist, Seq<char>, Seq<char>), ServiceError>(ServiceError::EmptyPayload),
{
}

} // verus!
