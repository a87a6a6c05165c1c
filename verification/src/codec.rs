//! Message codec: one chat line per frame, sealed with AES-256-GCM when the
//! session has a key and passed through untouched when it has none.

use crate::digest::key_of;
use crate::digest::derive_key;
use aes_gcm::aead::Aead;
use aes_gcm::aead::AeadCore;
use aes_gcm::aead::KeyInit;
use vstd::prelude::*;

verus! {

/// Length in bytes of the nonce that precedes every sealed message.
pub const NONCE_LEN: usize = 12;

/// Length in bytes of the authentication tag that ends every sealed message.
pub const TAG_LEN: usize = 16;

/// The most bytes one read of the message body may deliver. A message that
/// does not fit is neither split nor put together again.
pub const MAX_CHUNK: usize = 1024;

/// The longest plaintext, in bytes, that AES-GCM seals: 2^36.
pub const SEAL_LIMIT: u64 = 0x10_0000_0000;

/// What AES-256-GCM produces for a plaintext under a key and a nonce, with no
/// associated data: the ciphertext followed by the tag.
pub uninterp spec fn aes256_gcm_seal(key: Seq<u8>, nonce: Seq<u8>, plaintext: Seq<u8>) -> Seq<u8>;

/// What AES-256-GCM recovers from a sealed message under a key and a nonce,
/// with no associated data; `None` where the tag does not authenticate it.
pub uninterp spec fn aes256_gcm_open(key: Seq<u8>, nonce: Seq<u8>, sealed: Seq<u8>) -> Option<
    Seq<u8>,
>;

/// The error of the AEAD operations. It carries no detail on purpose.
#[verifier::external_type_specification]
#[verifier::external_body]
pub struct ExAeadError(aes_gcm::Error);

/// The mode of a session, fixed for its lifetime: without a key nothing is
/// encrypted and no handshake takes place.
#[derive(Clone, Copy, Debug, PartialEq, Eq)]
pub enum Mode {
    Unencrypted,
    Encrypted { key: [u8; 32] },
}

/// A mode as a plain value.
pub enum ModeView {
    Unencrypted,
    Encrypted { key: Seq<u8> },
}

impl View for Mode {
    type V = ModeView;

    open spec fn view(&self) -> ModeView {
        match self {
            Mode::Unencrypted => ModeView::Unencrypted,
            Mode::Encrypted { key } => ModeView::Encrypted { key: key@ },
        }
    }
}

/// The mode that a password stands for: the empty password selects the
/// unencrypted mode, any other the encrypted mode under its derived key.
pub open spec fn mode_of(password: Seq<u8>) -> ModeView {
    if password.len() == 0 {
        ModeView::Unencrypted
    } else {
        ModeView::Encrypted { key: key_of(password) }
    }
}

impl Mode {
    /// Chooses the mode for a password. The key is derived only where there is
    /// a password.
    pub fn from_password(password: &[u8]) -> (mode: Mode)
        ensures
            mode@ == mode_of(password@),
    {
        if password.len() == 0 {
            Mode::Unencrypted
        } else {
            Mode::Encrypted { key: derive_key(password) }
        }
    }

    /// Whether messages are sealed in this mode.
    pub fn is_encrypted(&self) -> (encrypted: bool)
        ensures
            encrypted == (self@ is Encrypted),
    {
        match self {
            Mode::Unencrypted => false,
            Mode::Encrypted { .. } => true,
        }
    }
}

/// The unit on the wire after the handshake: exactly one chat line.
#[derive(Debug, PartialEq, Eq)]
pub enum Frame {
    Raw(Vec<u8>),
    Sealed { nonce: [u8; 12], ciphertext: Vec<u8> },
}

/// A frame as a plain value.
pub enum FrameView {
    Raw(Seq<u8>),
    Sealed { nonce: Seq<u8>, ciphertext: Seq<u8> },
}

impl View for Frame {
    type V = FrameView;

    open spec fn view(&self) -> FrameView {
        match self {
            Frame::Raw(bytes) => FrameView::Raw(bytes@),
            Frame::Sealed { nonce, ciphertext } => FrameView::Sealed {
                nonce: nonce@,
                ciphertext: ciphertext@,
            },
        }
    }
}

/// Why a message could not be framed.
#[derive(Clone, Copy, Debug, PartialEq, Eq, Structural)]
pub enum EncodeError {
    /// The plaintext is longer than the cipher seals.
    TooLong,
}

/// Why a frame gave no message. Neither ends the session: the frame is
/// dropped and the next one awaited.
#[derive(Clone, Copy, Debug, PartialEq, Eq, Structural)]
pub enum DecodeError {
    /// Wrong key, corrupted data or a truncated chunk.
    AuthenticationFailed,
    /// A sealed frame in an unencrypted session, or a raw frame in an
    /// encrypted one.
    ModeMismatch,
}

/// The frame that carries `plaintext` in `mode`, sealed under `nonce` where
/// the mode has a key.
pub open spec fn encoded(plaintext: Seq<u8>, mode: ModeView, nonce: Seq<u8>) -> Result<
    FrameView,
    EncodeError,
> {
    match mode {
        ModeView::Unencrypted => Ok(FrameView::Raw(plaintext)),
        ModeView::Encrypted { key } => if plaintext.len() <= SEAL_LIMIT {
            Ok(FrameView::Sealed { nonce, ciphertext: aes256_gcm_seal(key, nonce, plaintext) })
        } else {
            Err(EncodeError::TooLong)
        },
    }
}

/// The message that `frame` carries in `mode`.
pub open spec fn decoded(frame: FrameView, mode: ModeView) -> Result<Seq<u8>, DecodeError> {
    match (mode, frame) {
        (ModeView::Unencrypted, FrameView::Raw(bytes)) => Ok(bytes),
        (ModeView::Encrypted { key }, FrameView::Sealed { nonce, ciphertext }) => {
            match aes256_gcm_open(key, nonce, ciphertext) {
                Some(plaintext) => Ok(plaintext),
                None => Err(DecodeError::AuthenticationFailed),
            }
        },
        _ => Err(DecodeError::ModeMismatch),
    }
}

/// The bytes that a frame puts on the wire: a raw frame as it is, a sealed
/// one as its nonce followed by its ciphertext.
pub open spec fn wire_of(frame: FrameView) -> Seq<u8> {
    match frame {
        FrameView::Raw(bytes) => bytes,
        FrameView::Sealed { nonce, ciphertext } => nonce + ciphertext,
    }
}

/// A decoding result as a plain value.
pub open spec fn message_view(result: Result<Vec<u8>, DecodeError>) -> Result<
    Seq<u8>,
    DecodeError,
> {
    match result {
        Ok(bytes) => Ok(bytes@),
        Err(e) => Err(e),
    }
}

/// An encoding result as a plain value.
pub open spec fn frame_view(result: Result<Frame, EncodeError>) -> Result<FrameView, EncodeError> {
    match result {
        Ok(frame) => Ok(frame@),
        Err(e) => Err(e),
    }
}

/// Calls `Aes256Gcm::new` and `Aead::encrypt` with an empty associated data.
/// Trusted: the call fails exactly on a plaintext above the cipher's limit of
/// 2^36 bytes; on success the bytes returned are the sealed message, 16 bytes
/// longer than the plaintext, and opening them under the same key and nonce
/// gives the plaintext back.
#[verifier::external_body]
fn aead_seal(key: &[u8; 32], nonce: &[u8; 12], plaintext: &[u8]) -> (out: Result<
    Vec<u8>,
    aes_gcm::Error,
>)
    ensures
        out is Ok <==> plaintext@.len() <= SEAL_LIMIT,
        out is Ok ==> out->Ok_0@ == aes256_gcm_seal(key@, nonce@, plaintext@),
        out is Ok ==> out->Ok_0@.len() == plaintext@.len() + TAG_LEN,
        out is Ok ==> aes256_gcm_open(key@, nonce@, out->Ok_0@) == Some(plaintext@),
{
    let cipher = aes_gcm::Aes256Gcm::new(aes_gcm::Key::<aes_gcm::Aes256Gcm>::from_slice(key));
    cipher.encrypt(aes_gcm::Nonce::from_slice(nonce), plaintext)
}

/// Calls `Aes256Gcm::new` and `Aead::decrypt` with an empty associated data.
/// Trusted: the call succeeds exactly where the sealed message authenticates
/// under the key and nonce, and then returns the plaintext, 16 bytes shorter
/// than the sealed message; a sealed message shorter than the tag never
/// authenticates.
#[verifier::external_body]
fn aead_open(key: &[u8; 32], nonce: &[u8; 12], sealed: &[u8]) -> (out: Result<
    Vec<u8>,
    aes_gcm::Error,
>)
    ensures
        out is Ok <==> aes256_gcm_open(key@, nonce@, sealed@) is Some,
        out is Ok ==> aes256_gcm_open(key@, nonce@, sealed@) == Some(out->Ok_0@),
        out is Ok ==> out->Ok_0@.len() + TAG_LEN == sealed@.len(),
        sealed@.len() < TAG_LEN ==> out is Err,
{
    let cipher = aes_gcm::Aes256Gcm::new(aes_gcm::Key::<aes_gcm::Aes256Gcm>::from_slice(key));
    cipher.decrypt(aes_gcm::Nonce::from_slice(nonce), sealed)
}

/// Calls `Aes256Gcm::generate_nonce` on the operating system's generator.
/// Nothing is promised about the 12 bytes: every call may return something
/// else.
#[verifier::external_body]
pub(crate) fn fresh_nonce() -> (nonce: [u8; 12]) {
    aes_gcm::Aes256Gcm::generate_nonce(&mut aes_gcm::aead::OsRng).into()
}

/// A copy of `bytes`.
pub fn copy_bytes(bytes: &[u8]) -> (out: Vec<u8>)
    ensures
        out@ == bytes@,
{
    let mut out: Vec<u8> = Vec::new();
    let mut i: usize = 0;
    while i < bytes.len()
        invariant
            i <= bytes.len(),
            out@ == bytes@.take(i as int),
        decreases bytes.len() - i,
    {
        out.push(bytes[i]);
        i += 1;
        assert(out@ =~= bytes@.take(i as int));
    }
    assert(bytes@.take(bytes.len() as int) =~= bytes@);
    out
}

/// The nonce held in `bytes`, where they are exactly twelve.
pub fn nonce_from(bytes: &[u8]) -> (nonce: Option<[u8; 12]>)
    ensures
        nonce is Some <==> bytes@.len() == NONCE_LEN,
        nonce is Some ==> nonce->0@ == bytes@,
{
    if bytes.len() != NONCE_LEN {
        return None;
    }
    let mut nonce = [0u8; 12];
    let mut i: usize = 0;
    while i < NONCE_LEN
        invariant
            bytes@.len() == NONCE_LEN,
            i <= NONCE_LEN,
            forall|j: int| 0 <= j < i ==> nonce@[j] == bytes@[j],
        decreases NONCE_LEN - i,
    {
        nonce[i] = bytes[i];
        i += 1;
    }
    assert(nonce@ =~= bytes@);
    Some(nonce)
}

/// Frames one message under a given nonce. In the unencrypted mode the
/// message is the frame. In the encrypted mode the frame holds the nonce and
/// the sealed message; only a plaintext above the cipher's limit is refused.
/// Whatever is framed decodes, in the same mode, to the message it was made
/// from.
pub fn encode_with_nonce(plaintext: &[u8], mode: &Mode, nonce: &[u8; 12]) -> (frame: Result<
    Frame,
    EncodeError,
>)
    ensures
        frame_view(frame) == encoded(plaintext@, mode@, nonce@),
        frame is Ok ==> decoded(frame->Ok_0@, mode@) == Ok::<Seq<u8>, DecodeError>(plaintext@),
        frame is Ok && mode@ is Encrypted ==> frame->Ok_0@->ciphertext.len() == plaintext@.len()
            + TAG_LEN,
{
    match mode {
        Mode::Unencrypted => Ok(Frame::Raw(copy_bytes(plaintext))),
        Mode::Encrypted { key } => match aead_seal(key, nonce, plaintext) {
            Ok(ciphertext) => Ok(Frame::Sealed { nonce: *nonce, ciphertext }),
            Err(_) => Err(EncodeError::TooLong),
        },
    }
}

/// Frames one message under a nonce drawn for this call alone.
pub fn encode(plaintext: &[u8], mode: &Mode) -> (frame: Result<Frame, EncodeError>)
    ensures
        exists|nonce: Seq<u8>|
            nonce.len() == NONCE_LEN && frame_view(frame) == #[trigger] encoded(
                plaintext@,
                mode@,
                nonce,
            ),
        frame is Ok ==> decoded(frame->Ok_0@, mode@) == Ok::<Seq<u8>, DecodeError>(plaintext@),
        frame is Ok && mode@ is Encrypted ==> frame->Ok_0@->ciphertext.len() == plaintext@.len()
            + TAG_LEN,
{
    match mode {
        Mode::Unencrypted => {
            let nonce = [0u8; 12];
            let frame = encode_with_nonce(plaintext, mode, &nonce);
            assert(frame_view(frame) == encoded(plaintext@, mode@, nonce@));
            frame
        },
        Mode::Encrypted { .. } => {
            let nonce = fresh_nonce();
            let frame = encode_with_nonce(plaintext, mode, &nonce);
            assert(frame_view(frame) == encoded(plaintext@, mode@, nonce@));
            frame
        },
    }
}

/// Recovers the message from a frame. A sealed frame that does not
/// authenticate under the session's key gives `AuthenticationFailed`; so does
/// every ciphertext shorter than the tag.
pub fn decode(frame: &Frame, mode: &Mode) -> (message: Result<Vec<u8>, DecodeError>)
    ensures
        message_view(message) == decoded(frame@, mode@),
        frame@ is Sealed && mode@ is Encrypted && frame@->ciphertext.len() < TAG_LEN ==> message
            == Err::<Vec<u8>, DecodeError>(DecodeError::AuthenticationFailed),
        frame@ is Sealed && message is Ok ==> message->Ok_0@.len() + TAG_LEN
            == frame@->ciphertext.len(),
{
    match (mode, frame) {
        (Mode::Unencrypted, Frame::Raw(bytes)) => Ok(copy_bytes(bytes.as_slice())),
        (Mode::Encrypted { key }, Frame::Sealed { nonce, ciphertext }) => {
            match aead_open(key, nonce, ciphertext.as_slice()) {
                Ok(plaintext) => Ok(plaintext),
                Err(_) => Err(DecodeError::AuthenticationFailed),
            }
        },
        _ => Err(DecodeError::ModeMismatch),
    }
}

/// The codec loses nothing of its own. A framed message decodes to itself in
/// the unencrypted mode, and in the encrypted mode wherever the cipher opens
/// what it sealed.
pub proof fn lemma_codec_round_trip(plaintext: Seq<u8>, mode: ModeView, nonce: Seq<u8>)
    requires
        encoded(plaintext, mode, nonce) is Ok,
        mode is Encrypted ==> aes256_gcm_open(
            mode->key,
            nonce,
            aes256_gcm_seal(mode->key, nonce, plaintext),
        ) == Some(plaintext),
    ensures
        decoded(encoded(plaintext, mode, nonce)->Ok_0, mode) == Ok::<Seq<u8>, DecodeError>(
            plaintext,
        ),
{
}

impl Frame {
    /// The bytes to put on the wire for this frame.
    pub fn to_wire(&self) -> (wire: Vec<u8>)
        ensures
            wire@ == wire_of(self@),
    {
        match self {
            Frame::Raw(bytes) => copy_bytes(bytes.as_slice()),
            Frame::Sealed { nonce, ciphertext } => crate::digest::join(
                nonce.as_slice(),
                ciphertext.as_slice(),
            ),
        }
    }
}

} // verus!
