//! Reading the text of a QR symbol.
//!
//! Decoding a captured frame is a single pass with no retries: reduce the
//! frame to luminance, locate symbol candidates in it, take the first one,
//! read its payload, and interpret the payload as UTF-8. Nothing in it
//! suspends, and each step is a function of what it is given.
//!
//! This module holds every step but the locating: [`luminance`] makes the
//! image the recognizer searches, and [`decode`], [`decode_with`] and
//! [`scan_image`] read the candidates it located. Locating is the host's
//! part. The recognizer (`quircs`) works on pixel coordinates in 32-bit
//! arithmetic that can overflow on frames which cannot be told apart
//! beforehand, so no call of it from here could promise to return; the host
//! makes the call and hands the candidates over as [`Symbol`]s.
//!
//! By default only the first candidate is ever read ([`decode`],
//! [`scan_image`]); [`decode_with`] lets the caller choose to go on to later
//! candidates instead.

use crate::frame::{frame_len, Frame, FrameView};
use vstd::prelude::*;
use vstd::utf8::{decode_utf8, valid_utf8};

verus! {

/// A QR symbol of version `v` has `4 * v + 17` cells along each side; a grid
/// of fewer than 17 cells belongs to no version.
pub const MIN_GRID_SIZE: i32 = 17;

/// Which candidates decoding may read.
#[derive(Clone, Copy, Debug, PartialEq, Eq, Structural)]
pub enum CandidatePolicy {
    /// The first candidate in scan order and no other: if it cannot be read,
    /// nothing is.
    FirstOnly,
    /// Every candidate in scan order, until one yields text.
    UntilReadable,
}

/// Why a frame yielded no text.
#[derive(Clone, Copy, Debug, PartialEq, Eq, Structural)]
pub enum DecodeFailure {
    /// No symbol candidate was located in the frame.
    NoSymbolFound,
    /// The first candidate could not be read.
    DecodeFailed,
    /// The payload of the first candidate is not valid UTF-8.
    InvalidUtf8,
}

/// A located symbol candidate, as the recognizer extracts it: its corner
/// points in the image, the number of cells along one side, and the sampled
/// cells as a bitmap (cell `(x, y)` is bit `y * size + x`, least significant
/// bit first).
#[derive(Clone, Copy, Debug, PartialEq, Eq)]
pub struct Symbol {
    pub corners: [(i32, i32); 4],
    pub size: i32,
    pub cell_bitmap: [u8; 3917],
}

#[verifier::external_type_specification]
#[verifier::external_body]
pub struct ExDecodeError(quircs::DecodeError);

#[verifier::external_type_specification]
#[verifier::external_body]
pub struct ExFromUtf8Error(std::string::FromUtf8Error);

/// Whether a buffer of `len` bytes is large enough for `image` to read a BGRA
/// picture of the given dimensions from it.
pub open spec fn holds_image(width: nat, height: nat, len: nat) -> bool {
    4 * width <= usize::MAX && frame_len(width, height) <= len
}

/// The luminance image that `image` computes for a BGRA buffer of the given
/// dimensions, one byte per pixel.
pub uninterp spec fn bgra_luma(width: nat, height: nat, bgra: Seq<u8>) -> Seq<u8>;

/// The payload bytes that `quircs` reads from a symbol, or `None` where it
/// reports the symbol as undecodable.
pub uninterp spec fn qr_payload(symbol: Symbol) -> Option<Seq<u8>>;

/// `String::from_utf8` succeeds exactly on valid UTF-8, and the string it
/// returns holds the characters those bytes encode.
pub assume_specification[ String::from_utf8 ](vec: Vec<u8>) -> (r: Result<
    String,
    std::string::FromUtf8Error,
>)
    ensures
        r is Ok <==> valid_utf8(vec@),
        r matches Ok(s) ==> s@ == decode_utf8(vec@),
;

/// Calls `image::ImageBuffer::from_raw` and `image::DynamicImage::into_luma8`.
/// `from_raw` multiplies 4 by the width and then by the height, both checked
/// in `usize`, and accepts the buffer exactly when it holds at least that
/// many bytes; the grayscale image then has one byte per pixel and is named
/// by [`bgra_luma`].
#[verifier::external_body]
fn luma8(width: u32, height: u32, bgra: Vec<u8>) -> (luma: Option<Vec<u8>>)
    ensures
        luma is Some <==> holds_image(width as nat, height as nat, bgra@.len()),
        luma matches Some(l) ==> l@ == bgra_luma(width as nat, height as nat, bgra@) && l@.len()
            == width * height,
{
    let image = image::ImageBuffer::from_raw(width, height, bgra)?;
    Some(image::DynamicImage::ImageBgra8(image).into_luma8().into_raw())
}

/// Calls `quircs::Code::decode`. The call subtracts 17 from the grid size
/// before it validates it, hence the lower bound. The payload is named by
/// [`qr_payload`].
#[verifier::external_body]
fn read_symbol(symbol: &Symbol) -> (r: Result<Vec<u8>, quircs::DecodeError>)
    requires
        symbol.size >= MIN_GRID_SIZE,
    ensures
        r matches Ok(payload) ==> qr_payload(*symbol) == Some(payload@),
        r is Err ==> qr_payload(*symbol) is None,
{
    let code = quircs::Code {
        corners: symbol.corners.map(|(x, y)| quircs::Point { x, y }),
        size: symbol.size,
        cell_bitmap: symbol.cell_bitmap,
    };
    code.decode().map(|data| data.payload)
}

/// The payload bytes of a symbol: what the recognizer reads from it, where
/// its grid is large enough to carry a version at all.
pub open spec fn symbol_payload(symbol: Symbol) -> Result<Seq<u8>, DecodeFailure> {
    if symbol.size < MIN_GRID_SIZE {
        Err(DecodeFailure::DecodeFailed)
    } else {
        match qr_payload(symbol) {
            Some(payload) => Ok(payload),
            None => Err(DecodeFailure::DecodeFailed),
        }
    }
}

/// The text a payload stands for: its characters where it is valid UTF-8.
pub open spec fn payload_text(payload: Seq<u8>) -> Result<Seq<char>, DecodeFailure> {
    if valid_utf8(payload) {
        Ok(decode_utf8(payload))
    } else {
        Err(DecodeFailure::InvalidUtf8)
    }
}

/// The text of one candidate: that of its payload, where the candidate could
/// be extracted and its payload read.
pub open spec fn candidate_text(candidate: Option<Symbol>) -> Result<Seq<char>, DecodeFailure> {
    match candidate {
        None => Err(DecodeFailure::DecodeFailed),
        Some(symbol) => match symbol_payload(symbol) {
            Err(failure) => Err(failure),
            Ok(payload) => payload_text(payload),
        },
    }
}

/// The text of the first candidate at or after `from` that yields any.
pub open spec fn first_text_from(candidates: Seq<Option<Symbol>>, from: int) -> Option<Seq<char>>
    decreases candidates.len() - from,
{
    if from < 0 || from >= candidates.len() {
        None
    } else {
        match candidate_text(candidates[from]) {
            Ok(text) => Some(text),
            Err(_) => first_text_from(candidates, from + 1),
        }
    }
}

/// What reading the candidates yields under a policy. Without a candidate no
/// symbol was found. Otherwise the first candidate decides, unless the policy
/// goes on to later ones: then the first text found is the result, and where
/// there is none, the failure of the first candidate.
pub open spec fn text_among(candidates: Seq<Option<Symbol>>, policy: CandidatePolicy) -> Result<
    Seq<char>,
    DecodeFailure,
> {
    if candidates.len() == 0 {
        Err(DecodeFailure::NoSymbolFound)
    } else {
        match policy {
            CandidatePolicy::FirstOnly => candidate_text(candidates[0]),
            CandidatePolicy::UntilReadable => match first_text_from(candidates, 0) {
                Some(text) => Ok(text),
                None => candidate_text(candidates[0]),
            },
        }
    }
}

/// What a scan reports for the candidates located in a frame: the text of
/// the first one, or nothing, whatever the reason.
pub open spec fn scanned(candidates: Seq<Option<Symbol>>) -> Option<Seq<char>> {
    match text_among(candidates, CandidatePolicy::FirstOnly) {
        Ok(text) => Some(text),
        Err(_) => None,
    }
}

/// The luminance image of a frame, one byte per pixel, row by row: what
/// `image` makes of the frame's pixels. A frame without pixels has an empty
/// one.
pub open spec fn luminance_of(frame: FrameView) -> Seq<u8> {
    if frame.pixel_count() == 0 {
        Seq::empty()
    } else {
        bgra_luma(frame.width, frame.height, frame.pixels)
    }
}

/// A decoding result in mathematical terms: the characters of the text.
pub open spec fn text_view(r: Result<String, DecodeFailure>) -> Result<Seq<char>, DecodeFailure> {
    match r {
        Ok(text) => Ok(text@),
        Err(failure) => Err(failure),
    }
}

/// A payload result in mathematical terms: the bytes of the payload.
pub open spec fn payload_view(r: Result<Vec<u8>, DecodeFailure>) -> Result<Seq<u8>, DecodeFailure> {
    match r {
        Ok(payload) => Ok(payload@),
        Err(failure) => Err(failure),
    }
}

impl Default for CandidatePolicy {
    /// Only the first candidate is read unless the caller says otherwise.
    fn default() -> (policy: CandidatePolicy)
        ensures
            policy == CandidatePolicy::FirstOnly,
    {
        CandidatePolicy::FirstOnly
    }
}

/// Turns what the recognizer returned for a symbol into this library's terms:
/// the payload, or [`DecodeFailure::DecodeFailed`] whatever the recognizer's
/// own error was.
pub fn payload_of(read: Result<Vec<u8>, quircs::DecodeError>) -> (r: Result<
    Vec<u8>,
    DecodeFailure,
>)
    ensures
        read matches Ok(payload) ==> r == Ok::<Vec<u8>, DecodeFailure>(payload),
        read is Err ==> r == Err::<Vec<u8>, DecodeFailure>(DecodeFailure::DecodeFailed),
{
    match read {
        Ok(payload) => Ok(payload),
        Err(_) => Err(DecodeFailure::DecodeFailed),
    }
}

/// Reads the payload bytes of one symbol.
pub fn decode_symbol(symbol: &Symbol) -> (r: Result<Vec<u8>, DecodeFailure>)
    ensures
        payload_view(r) == symbol_payload(*symbol),
{
    if symbol.size < MIN_GRID_SIZE {
        Err(DecodeFailure::DecodeFailed)
    } else {
        payload_of(read_symbol(symbol))
    }
}

/// Interprets payload bytes as UTF-8 text.
pub fn text_of(payload: Vec<u8>) -> (r: Result<String, DecodeFailure>)
    ensures
        text_view(r) == payload_text(payload@),
{
    match String::from_utf8(payload) {
        Ok(text) => Ok(text),
        Err(_) => Err(DecodeFailure::InvalidUtf8),
    }
}

/// Reads the text of one candidate.
pub fn read_candidate(candidate: &Option<Symbol>) -> (r: Result<String, DecodeFailure>)
    ensures
        text_view(r) == candidate_text(*candidate),
{
    match candidate {
        None => Err(DecodeFailure::DecodeFailed),
        Some(symbol) => match decode_symbol(symbol) {
            Ok(payload) => text_of(payload),
            Err(failure) => Err(failure),
        },
    }
}

/// Candidates that yield no text can be skipped: the first text at or after
/// `from` is the first text at or after `to`.
pub proof fn lemma_skip_unreadable(candidates: Seq<Option<Symbol>>, from: int, to: int)
    requires
        0 <= from <= to <= candidates.len(),
        forall|i: int| from <= i < to ==> (#[trigger] candidate_text(candidates[i])) is Err,
    ensures
        first_text_from(candidates, from) == first_text_from(candidates, to),
    decreases to - from,
{
    if from < to {
        lemma_skip_unreadable(candidates, from + 1, to);
    }
}

/// Reduces a frame to the luminance image in which symbols are looked for.
pub fn luminance(frame: Frame) -> (luma: Vec<u8>)
    ensures
        luma@ == luminance_of(frame@),
        luma@.len() == frame@.pixel_count(),
{
    let width = frame.width();
    let height = frame.height();
    if width == 0 || height == 0 {
        assert(frame@.pixel_count() == 0) by (nonlinear_arith)
            requires
                frame@.width == 0 || frame@.height == 0,
                frame@.pixel_count() == frame@.width * frame@.height,
        ;
        return Vec::new();
    }
    assert(frame@.pixel_count() > 0) by (nonlinear_arith)
        requires
            frame@.width > 0,
            frame@.height > 0,
            frame@.pixel_count() == frame@.width * frame@.height,
    ;
    let bgra = frame.into_buffer();
    assert(holds_image(width as nat, height as nat, bgra@.len())) by {
        assert(4 * width <= width * height * 4) by (nonlinear_arith)
            requires
                height > 0,
        ;
        assert(bgra.len() <= usize::MAX);
    }
    match luma8(width, height, bgra) {
        Some(luma) => luma,
        None => Vec::new(),
    }
}

/// Reads the candidates located in a frame, in scan order, as far as the
/// policy allows. An entry is `None` where a located grid could not be
/// extracted.
pub fn decode_with(candidates: &Vec<Option<Symbol>>, policy: CandidatePolicy) -> (r: Result<
    String,
    DecodeFailure,
>)
    ensures
        text_view(r) == text_among(candidates@, policy),
{
    if candidates.len() == 0 {
        return Err(DecodeFailure::NoSymbolFound);
    }
    let first = read_candidate(&candidates[0]);
    match policy {
        CandidatePolicy::FirstOnly => first,
        CandidatePolicy::UntilReadable => {
            if first.is_ok() {
                return first;
            }
            let mut next: usize = 1;
            while next < candidates.len()
                invariant
                    policy == CandidatePolicy::UntilReadable,
                    1 <= next <= candidates.len(),
                    forall|i: int|
                        0 <= i < next ==> (#[trigger] candidate_text(candidates@[i])) is Err,
                decreases candidates.len() - next,
            {
                let read = read_candidate(&candidates[next]);
                if read.is_ok() {
                    proof {
                        lemma_skip_unreadable(candidates@, 0, next as int);
                    }
                    return read;
                }
                next = next + 1;
            }
            proof {
                lemma_skip_unreadable(candidates@, 0, candidates@.len() as int);
            }
            first
        },
    }
}

/// Decodes the first candidate located in a frame, keeping apart the reasons
/// for which there may be no text.
pub fn decode(candidates: &Vec<Option<Symbol>>) -> (r: Result<String, DecodeFailure>)
    ensures
        text_view(r) == text_among(candidates@, CandidatePolicy::FirstOnly),
{
    decode_with(candidates, CandidatePolicy::FirstOnly)
}

/// The text of the QR symbol in a frame, from the candidates located in it.
/// All failures collapse into `None`: no symbol, an unreadable symbol, or a
/// payload that is not text.
pub fn scan_image(candidates: &Vec<Option<Symbol>>) -> (r: Option<String>)
    ensures
        r matches Some(text) ==> scanned(candidates@) == Some(text@),
        r is None ==> scanned(candidates@) is None,
{
    match decode(candidates) {
        Ok(text) => Some(text),
        Err(_) => None,
    }
}

/// Decoding is a function of its input alone. Two frames with the same
/// dimensions and the same bytes have the same luminance image, and the same
/// candidates decode to the same result under every policy.
pub proof fn decode_is_deterministic(
    a: Frame,
    b: Frame,
    found_in_a: Seq<Option<Symbol>>,
    found_in_b: Seq<Option<Symbol>>,
    policy: CandidatePolicy,
)
    requires
        a@ == b@,
        found_in_a == found_in_b,
    ensures
        luminance_of(a@) == luminance_of(b@),
        text_among(found_in_a, policy) == text_among(found_in_b, policy),
        scanned(found_in_a) == scanned(found_in_b),
{
}

/// Under [`CandidatePolicy::FirstOnly`] nothing but the first candidate
/// matters: later candidates never change the result.
pub proof fn first_only_ignores_later_candidates(
    first: Option<Symbol>,
    later: Seq<Option<Symbol>>,
    others: Seq<Option<Symbol>>,
)
    ensures
        text_among(seq![first] + later, CandidatePolicy::FirstOnly) == candidate_text(first),
        text_among(seq![first] + later, CandidatePolicy::FirstOnly) == text_among(
            seq![first] + others,
            CandidatePolicy::FirstOnly,
        ),
{
}

/// Under [`CandidatePolicy::UntilReadable`] the result is the text of the
/// first candidate that yields any.
pub proof fn until_readable_reads_the_first_readable(candidates: Seq<Option<Symbol>>, at: int)
    requires
        0 <= at < candidates.len(),
        candidate_text(candidates[at]) is Ok,
        forall|i: int| 0 <= i < at ==> (#[trigger] candidate_text(candidates[i])) is Err,
    ensures
        text_among(candidates, CandidatePolicy::UntilReadable) == candidate_text(candidates[at]),
{
    lemma_skip_unreadable(candidates, 0, at);
}

/// Going on to later candidates never loses a text: where the first candidate
/// is readable both policies give its text, and where no candidate is, both
/// give the failure of the first.
pub proof fn policies_agree_unless_a_later_candidate_is_readable(candidates: Seq<Option<Symbol>>)
    requires
        candidates.len() > 0,
        forall|i: int| 1 <= i < candidates.len() ==> (#[trigger] candidate_text(candidates[i])) is Err,
    ensures
        text_among(candidates, CandidatePolicy::UntilReadable) == text_among(
            candidates,
            CandidatePolicy::FirstOnly,
        ),
{
    if candidate_text(candidates[0]) is Err {
        lemma_skip_unreadable(candidates, 0, candidates.len() as int);
    }
}

} // verus!
