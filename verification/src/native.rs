//! Trusted boundary to the native LAME codec, reached through the
//! `mp3lame_encoder` crate.
//!
//! Everything in this module is believed, not verified: each function's body
//! makes one call into the outside crate and converts values; its contract
//! states only what that crate's source and the LAME sources and
//! documentation show. Negative status codes follow the LAME convention that
//! `mp3lame_encoder` maps to and from its error enums: -1 means an
//! insufficient output buffer on encode and flush calls.

use vstd::prelude::*;

use crate::encoder::{is_mpeg_sample_rate, is_valid_bitrate, spec_required_buffer_size};

use mp3lame_encoder::{Bitrate, DualPcm, EncodeError, FlushGap, InterleavedPcm, MonoPcm, Quality};

verus! {

/// Native configuration stage: owns a `lame_global_flags` allocation and
/// releases it exactly once when dropped or consumed by `build`.
#[verifier::external_type_specification]
#[verifier::external_body]
pub struct ExBuilder(mp3lame_encoder::Builder);

/// Native encoding session: owns the finalized `lame_global_flags` state and
/// releases it exactly once when dropped.
#[verifier::external_type_specification]
#[verifier::external_body]
pub struct ExEncoder(mp3lame_encoder::Encoder);

/// Relies on `mp3lame_encoder::Builder::new` (`lame_init`): allocates fresh
/// native encoder state, or returns `None` when the allocation fails.
#[verifier::external_body]
pub(crate) fn builder_new() -> Option<mp3lame_encoder::Builder> {
    mp3lame_encoder::Builder::new()
}

/// Relies on `mp3lame_encoder::Builder::set_sample_rate`
/// (`lame_set_in_samplerate`): the native setter stores any input rate of at
/// least 1 Hz and rejects 0.
#[verifier::external_body]
pub(crate) fn set_sample_rate(b: &mut mp3lame_encoder::Builder, rate: u32) -> (ok: bool)
    ensures
        ok == (rate >= 1),
{
    match b.set_sample_rate(rate) {
        Ok(()) => true,
        Err(_) => false,
    }
}

/// Relies on `mp3lame_encoder::Builder::set_output_sample_rate`
/// (`lame_set_out_samplerate`): accepted exactly for 0 (LAME picks the rate)
/// and the nine rates the MP3 format can emit.
#[verifier::external_body]
pub(crate) fn set_output_sample_rate(b: &mut mp3lame_encoder::Builder, rate: u32) -> (ok: bool)
    ensures
        ok == (rate == 0 || is_mpeg_sample_rate(rate as int)),
{
    match b.set_output_sample_rate(core::num::NonZeroU32::new(rate)) {
        Ok(()) => true,
        Err(_) => false,
    }
}

/// Relies on `mp3lame_encoder::Builder::set_num_channels`
/// (`lame_set_num_channels`): LAME supports exactly one or two channels.
#[verifier::external_body]
pub(crate) fn set_num_channels(b: &mut mp3lame_encoder::Builder, num: u8) -> (ok: bool)
    ensures
        ok == (num == 1 || num == 2),
{
    match b.set_num_channels(num) {
        Ok(()) => true,
        Err(_) => false,
    }
}

/// Relies on `mp3lame_encoder::Builder::set_brate` (`lame_set_brate`): the
/// crate's `Bitrate` enum admits exactly the documented kbps values, and the
/// native setter stores any of them.
#[verifier::external_body]
pub(crate) fn set_brate(b: &mut mp3lame_encoder::Builder, kbps: u16) -> (ok: bool)
    requires
        is_valid_bitrate(kbps as int),
    ensures
        ok,
{
    let brate = match kbps {
        8 => Bitrate::Kbps8, 16 => Bitrate::Kbps16, 24 => Bitrate::Kbps24,
        32 => Bitrate::Kbps32, 40 => Bitrate::Kbps40, 48 => Bitrate::Kbps48,
        64 => Bitrate::Kbps64, 80 => Bitrate::Kbps80, 96 => Bitrate::Kbps96,
        112 => Bitrate::Kbps112, 128 => Bitrate::Kbps128, 160 => Bitrate::Kbps160,
        192 => Bitrate::Kbps192, 224 => Bitrate::Kbps224, 256 => Bitrate::Kbps256,
        _ => Bitrate::Kbps320,
    };
    match b.set_brate(brate) {
        Ok(()) => true,
        Err(_) => false,
    }
}

/// Relies on `mp3lame_encoder::Builder::set_quality` (`lame_set_quality`):
/// the native setter stores every level on its 0 to 9 scale.
#[verifier::external_body]
pub(crate) fn set_quality(b: &mut mp3lame_encoder::Builder, level: u8) -> (ok: bool)
    requires
        level <= 9,
    ensures
        ok,
{
    let q = match level {
        0 => Quality::Best, 1 => Quality::SecondBest, 2 => Quality::NearBest,
        3 => Quality::VeryNice, 4 => Quality::Nice, 5 => Quality::Good,
        6 => Quality::Decent, 7 => Quality::Ok, 8 => Quality::SecondWorst,
        _ => Quality::Worst,
    };
    match b.set_quality(q) {
        Ok(()) => true,
        Err(_) => false,
    }
}

/// Relies on `mp3lame_encoder::Builder::set_vbr_mode` (`lame_set_VBR`): the
/// native setter stores every mode of its enumeration; 0 is constant
/// bitrate, 3 average bitrate, 4 the default variable-bitrate algorithm.
#[verifier::external_body]
pub(crate) fn set_vbr_mode(b: &mut mp3lame_encoder::Builder, code: u8) -> (ok: bool)
    requires
        code == 0 || code == 3 || code == 4,
    ensures
        ok,
{
    let mode = match code {
        0 => mp3lame_encoder::VbrMode::Off,
        3 => mp3lame_encoder::VbrMode::Abr,
        _ => mp3lame_encoder::VbrMode::Mtrh,
    };
    match b.set_vbr_mode(mode) {
        Ok(()) => true,
        Err(_) => false,
    }
}

/// Relies on `mp3lame_encoder::Builder::set_vbr_quality` (`lame_set_VBR_q`):
/// the native setter stores every level on its 0 to 9 scale.
#[verifier::external_body]
pub(crate) fn set_vbr_quality(b: &mut mp3lame_encoder::Builder, level: u8) -> (ok: bool)
    requires
        level <= 9,
    ensures
        ok,
{
    let q = match level {
        0 => Quality::Best, 1 => Quality::SecondBest, 2 => Quality::NearBest,
        3 => Quality::VeryNice, 4 => Quality::Nice, 5 => Quality::Good,
        6 => Quality::Decent, 7 => Quality::Ok, 8 => Quality::SecondWorst,
        _ => Quality::Worst,
    };
    match b.set_vbr_quality(q) {
        Ok(()) => true,
        Err(_) => false,
    }
}

/// Relies on `mp3lame_encoder::Builder::set_id3_tag` (`id3tag_init`,
/// `id3tag_add_v2` and the `id3tag_set_*` field writers): resets the tag
/// block, then writes each non-empty field into it, truncated by the crate
/// to its 250-byte field limit; with no album art the call cannot fail. With
/// every field empty the tag block is left untouched.
#[verifier::external_body]
pub(crate) fn set_id3_tag(
    b: &mut mp3lame_encoder::Builder,
    title: &Vec<u8>,
    artist: &Vec<u8>,
    album: &Vec<u8>,
    year: &Vec<u8>,
    comment: &Vec<u8>,
)
{
    let tag = mp3lame_encoder::Id3Tag {
        title: title.as_slice(),
        artist: artist.as_slice(),
        album: album.as_slice(),
        album_art: &[],
        year: year.as_slice(),
        comment: comment.as_slice(),
    };
    let _ = b.set_id3_tag(tag);
}

/// Relies on `mp3lame_encoder::Builder::build` (`lame_init_params`):
/// computes the derived parameters once; on success the native state moves
/// into the returned encoder, on failure the consumed builder releases it.
#[verifier::external_body]
pub(crate) fn build_encoder(b: mp3lame_encoder::Builder) -> Result<
    mp3lame_encoder::Encoder,
    (),
> {
    match b.build() {
        Ok(enc) => Ok(enc),
        Err(_) => Err(()),
    }
}

/// Relies on `mp3lame_encoder::Encoder::encode_to_vec` with `DualPcm`
/// (`lame_encode_buffer`): encodes `left.len()` stereo samples, writing at
/// most `out.len()` bytes at the start of `out` and leaving the rest; on
/// a negative status nothing is written. Per the LAME documentation a buffer
/// of 1.25 times the sample count plus 7200 bytes always suffices, so -1
/// (buffer too small) cannot come back at or above that size. The length
/// bounds are load-bearing: the native size argument is a C int, and a size
/// of 0 would switch the native capacity check off entirely. The scratch
/// buffer asks the allocator for exactly `out.len()` bytes; should it grant
/// more and the codec fill past `out.len()`, the wrapper reports -1 rather
/// than hand back a truncated prefix.
#[verifier::external_body]
pub(crate) fn encode_dual(
    enc: &mut mp3lame_encoder::Encoder,
    left: &Vec<i16>,
    right: &Vec<i16>,
    out: &mut Vec<u8>,
) -> (r: Result<usize, i32>)
    requires
        left@.len() == right@.len(),
        left@.len() <= i32::MAX as usize,
        1 <= old(out)@.len() <= i32::MAX as usize,
    ensures
        final(out)@.len() == old(out)@.len(),
        r matches Ok(n) ==> n <= old(out)@.len() && final(out)@.skip(n as int) == old(
            out,
        )@.skip(n as int),
        r matches Err(code) ==> code < 0 && final(out)@ == old(out)@ && (old(out)@.len()
            >= spec_required_buffer_size(left@.len() as int) ==> code != -1),
{
    let mut tmp: Vec<u8> = Vec::with_capacity(out.len());
    let input = DualPcm { left: left.as_slice(), right: right.as_slice() };
    match enc.encode_to_vec(input, &mut tmp) {
        Ok(n) if n <= out.len() => {
            out[..n].copy_from_slice(&tmp[..n]);
            Ok(n)
        },
        Ok(_) => Err(-1),
        Err(EncodeError::BufferTooSmall) => Err(-1),
        Err(EncodeError::NoMem) => Err(-2),
        Err(EncodeError::InvalidState) => Err(-3),
        Err(EncodeError::PsychoAcoustic) => Err(-4),
        Err(EncodeError::Other(code)) => Err(code),
    }
}

/// Relies on `mp3lame_encoder::Encoder::encode_to_vec` with
/// `InterleavedPcm` (`lame_encode_buffer_interleaved`): encodes
/// `pcm.len() / 2` sample pairs, writing at most `out.len()` bytes at the
/// start of `out`; on a negative status nothing is written. The worst-case
/// buffer bound of the LAME documentation applies to the pair count. The
/// length bounds and the scratch-buffer handling are as for the two-channel
/// wrapper.
#[verifier::external_body]
pub(crate) fn encode_interleaved(
    enc: &mut mp3lame_encoder::Encoder,
    pcm: &Vec<i16>,
    out: &mut Vec<u8>,
) -> (r: Result<usize, i32>)
    requires
        pcm@.len() % 2 == 0,
        pcm@.len() / 2 <= i32::MAX as usize,
        1 <= old(out)@.len() <= i32::MAX as usize,
    ensures
        final(out)@.len() == old(out)@.len(),
        r matches Ok(n) ==> n <= old(out)@.len() && final(out)@.skip(n as int) == old(
            out,
        )@.skip(n as int),
        r matches Err(code) ==> code < 0 && final(out)@ == old(out)@ && (old(out)@.len()
            >= spec_required_buffer_size(pcm@.len() as int / 2) ==> code != -1),
{
    let mut tmp: Vec<u8> = Vec::with_capacity(out.len());
    match enc.encode_to_vec(InterleavedPcm(pcm.as_slice()), &mut tmp) {
        Ok(n) if n <= out.len() => {
            out[..n].copy_from_slice(&tmp[..n]);
            Ok(n)
        },
        Ok(_) => Err(-1),
        Err(EncodeError::BufferTooSmall) => Err(-1),
        Err(EncodeError::NoMem) => Err(-2),
        Err(EncodeError::InvalidState) => Err(-3),
        Err(EncodeError::PsychoAcoustic) => Err(-4),
        Err(EncodeError::Other(code)) => Err(code),
    }
}

/// Relies on `mp3lame_encoder::Encoder::encode_to_vec` with `MonoPcm`
/// (`lame_encode_buffer` with a null right channel): encodes `pcm.len()`
/// mono samples, writing at most `out.len()` bytes at the start of `out`;
/// on a negative status nothing is written. Per the LAME documentation a
/// buffer of 1.25 times the sample count plus 7200 bytes always suffices.
/// The length bounds and the scratch-buffer handling are as for the
/// two-channel wrapper.
#[verifier::external_body]
pub(crate) fn encode_mono(
    enc: &mut mp3lame_encoder::Encoder,
    pcm: &Vec<i16>,
    out: &mut Vec<u8>,
) -> (r: Result<usize, i32>)
    requires
        pcm@.len() <= i32::MAX as usize,
        1 <= old(out)@.len() <= i32::MAX as usize,
    ensures
        final(out)@.len() == old(out)@.len(),
        r matches Ok(n) ==> n <= old(out)@.len() && final(out)@.skip(n as int) == old(
            out,
        )@.skip(n as int),
        r matches Err(code) ==> code < 0 && final(out)@ == old(out)@ && (old(out)@.len()
            >= spec_required_buffer_size(pcm@.len() as int) ==> code != -1),
{
    let mut tmp: Vec<u8> = Vec::with_capacity(out.len());
    match enc.encode_to_vec(MonoPcm(pcm.as_slice()), &mut tmp) {
        Ok(n) if n <= out.len() => {
            out[..n].copy_from_slice(&tmp[..n]);
            Ok(n)
        },
        Ok(_) => Err(-1),
        Err(EncodeError::BufferTooSmall) => Err(-1),
        Err(EncodeError::NoMem) => Err(-2),
        Err(EncodeError::InvalidState) => Err(-3),
        Err(EncodeError::PsychoAcoustic) => Err(-4),
        Err(EncodeError::Other(code)) => Err(code),
    }
}

/// Relies on `mp3lame_encoder::Encoder::flush_to_vec` with `FlushGap`
/// (`lame_encode_flush`): drains the buffered frames, writing at most
/// `out.len()` bytes at the start of `out`; on a negative status nothing is
/// written. Per the LAME documentation 7200 bytes always suffice for the
/// flush output. The length bounds and the scratch-buffer handling are as
/// for the two-channel encode wrapper.
#[verifier::external_body]
pub(crate) fn flush(enc: &mut mp3lame_encoder::Encoder, out: &mut Vec<u8>) -> (r: Result<
    usize,
    i32,
>)
    requires
        1 <= old(out)@.len() <= i32::MAX as usize,
    ensures
        final(out)@.len() == old(out)@.len(),
        r matches Ok(n) ==> n <= old(out)@.len() && final(out)@.skip(n as int) == old(
            out,
        )@.skip(n as int),
        r matches Err(code) ==> code < 0 && final(out)@ == old(out)@ && (old(out)@.len() >= 7200
            ==> code != -1),
{
    let mut tmp: Vec<u8> = Vec::with_capacity(out.len());
    match enc.flush_to_vec::<FlushGap>(&mut tmp) {
        Ok(n) if n <= out.len() => {
            out[..n].copy_from_slice(&tmp[..n]);
            Ok(n)
        },
        Ok(_) => Err(-1),
        Err(EncodeError::BufferTooSmall) => Err(-1),
        Err(EncodeError::NoMem) => Err(-2),
        Err(EncodeError::InvalidState) => Err(-3),
        Err(EncodeError::PsychoAcoustic) => Err(-4),
        Err(EncodeError::Other(code)) => Err(code),
    }
}

/// Relies on `mp3lame_encoder::mp3lame_version`: returns the version string
/// constant compiled into the LAME library (for example "3.100"), which is
/// never empty.
#[verifier::external_body]
pub(crate) fn version_string() -> (r: String)
    ensures
        r@.len() > 0,
{
    mp3lame_encoder::mp3lame_version().into_owned()
}

} // verus!
