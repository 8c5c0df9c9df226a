//! The configuration stage and the encoding session.
//!
//! `EncoderBuilder` collects encoder parameters, applying and validating
//! each one eagerly against the native state it exclusively owns.
//! `EncoderBuilder::build` freezes the settings with the native
//! derived-parameter step, exactly once, and hands the state to a
//! `LameEncoder`, which performs the per-call encode and flush operations
//! and releases the native resource exactly once when it is dropped —
//! whether or not it ever encoded anything.

use vstd::prelude::*;

use crate::error::LameError;
use crate::id3::{committed_field, TagSet};
use crate::native;

verus! {

/// Encoding quality presets, from best (slowest) to fastest (lowest
/// quality), on the native 0 to 9 scale.
#[derive(Debug, Clone, Copy, PartialEq, Eq, Structural)]
pub enum Quality {
    /// Highest quality, slowest encode (level 0).
    Best,
    /// Near-highest quality (level 2).
    High,
    /// Good quality (level 4).
    Good,
    /// Standard quality, the recommended default (level 5).
    Standard,
    /// Fast encoding (level 7).
    Fast,
    /// Fastest encoding, lowest quality (level 9).
    Fastest,
}

/// Bitrate management modes.
#[derive(Debug, Clone, Copy, PartialEq, Eq, Structural)]
pub enum VbrMode {
    /// Constant bitrate.
    Off,
    /// Variable bitrate, the default algorithm.
    Vbr,
    /// Average bitrate.
    Abr,
}

/// Level of a quality preset on the native 0 to 9 scale.
pub open spec fn spec_quality_level(q: Quality) -> int {
    match q {
        Quality::Best => 0,
        Quality::High => 2,
        Quality::Good => 4,
        Quality::Standard => 5,
        Quality::Fast => 7,
        Quality::Fastest => 9,
    }
}

fn quality_level(q: Quality) -> (r: u8)
    ensures
        r as int == spec_quality_level(q),
{
    match q {
        Quality::Best => 0,
        Quality::High => 2,
        Quality::Good => 4,
        Quality::Standard => 5,
        Quality::Fast => 7,
        Quality::Fastest => 9,
    }
}

/// Native code of a bitrate management mode.
pub open spec fn spec_vbr_code(m: VbrMode) -> int {
    match m {
        VbrMode::Off => 0,
        VbrMode::Abr => 3,
        VbrMode::Vbr => 4,
    }
}

fn vbr_code(m: VbrMode) -> (r: u8)
    ensures
        r as int == spec_vbr_code(m),
{
    match m {
        VbrMode::Off => 0,
        VbrMode::Abr => 3,
        VbrMode::Vbr => 4,
    }
}

/// The kbps values the bitrate setter can hand to the codec boundary.
/// MP3 itself also defines 56 and 144 kbps, but the boundary's bitrate
/// enumeration omits them, so this stage cannot express them and rejects
/// them with the other unsupported values.
pub open spec fn is_valid_bitrate(kbps: int) -> bool {
    ||| kbps == 8
    ||| kbps == 16
    ||| kbps == 24
    ||| kbps == 32
    ||| kbps == 40
    ||| kbps == 48
    ||| kbps == 64
    ||| kbps == 80
    ||| kbps == 96
    ||| kbps == 112
    ||| kbps == 128
    ||| kbps == 160
    ||| kbps == 192
    ||| kbps == 224
    ||| kbps == 256
    ||| kbps == 320
}

fn check_bitrate(kbps: i32) -> (r: bool)
    ensures
        r == is_valid_bitrate(kbps as int),
{
    kbps == 8 || kbps == 16 || kbps == 24 || kbps == 32 || kbps == 40 || kbps == 48 || kbps == 64
        || kbps == 80 || kbps == 96 || kbps == 112 || kbps == 128 || kbps == 160 || kbps == 192
        || kbps == 224 || kbps == 256 || kbps == 320
}

/// The nine sample rates an MP3 stream itself can carry.
pub open spec fn is_mpeg_sample_rate(rate: int) -> bool {
    ||| rate == 8000
    ||| rate == 11025
    ||| rate == 12000
    ||| rate == 16000
    ||| rate == 22050
    ||| rate == 24000
    ||| rate == 32000
    ||| rate == 44100
    ||| rate == 48000
}

/// Worst-case output capacity, in bytes, that one encode call of `n` input
/// samples per channel can need: the ceiling of 1.25 times `n`, plus 7200
/// bytes of frame and bit-reservoir headroom.
pub open spec fn spec_required_buffer_size(n: int) -> int {
    n + (n + 3) / 4 + 7200
}

/// Worst-case output buffer size for one encode call of `num_samples`
/// samples per channel. A buffer at least this large never makes an encode
/// call fail for want of capacity.
pub fn required_buffer_size(num_samples: usize) -> (r: usize)
    requires
        spec_required_buffer_size(num_samples as int) <= usize::MAX,
    ensures
        r as int == spec_required_buffer_size(num_samples as int),
{
    let quarter = num_samples / 4 + if num_samples % 4 == 0 {
        0
    } else {
        1
    };
    num_samples + quarter + 7200
}

/// What every encode and flush operation guarantees about its result and
/// the output buffer it was given: the buffer keeps its length; on success
/// the count written is within the buffer and only the first that many
/// bytes changed; on failure the buffer is untouched and the negative
/// native status code is surfaced, and -1 (buffer too small) cannot occur
/// once the buffer is at least `bound` bytes.
pub open spec fn spec_encode_result(
    r: Result<usize, LameError>,
    pre_buf: Seq<u8>,
    post_buf: Seq<u8>,
    bound: int,
) -> bool {
    &&& post_buf.len() == pre_buf.len()
    &&& match r {
        Ok(n) => n <= pre_buf.len() && post_buf.skip(n as int) == pre_buf.skip(n as int),
        Err(e) => {
            &&& e matches LameError::EncodingFailed(code)
            &&& code < 0
            &&& post_buf == pre_buf
            &&& (pre_buf.len() >= bound ==> code != -1)
        },
    }
}

/// Buffer-sizing law: for an encode call of `n` samples per channel, an
/// output buffer of `spec_required_buffer_size(n)` bytes or more rules the
/// buffer-too-small failure out of every outcome — whatever else the call
/// reports, it is never code -1.
pub proof fn lemma_sufficient_buffer_never_lacks_capacity(
    r: Result<usize, LameError>,
    pre_buf: Seq<u8>,
    post_buf: Seq<u8>,
    n: int,
)
    requires
        pre_buf.len() >= spec_required_buffer_size(n),
        spec_encode_result(r, pre_buf, post_buf, spec_required_buffer_size(n)),
    ensures
        r matches Err(e) ==> e matches LameError::EncodingFailed(code) && code != -1,
{
}

/// Mathematical model of the transient encoder configuration: the
/// parameters a stage has accepted so far. A field is `None` while the
/// native default is still in effect.
pub ghost struct EncoderConfig {
    /// Input sample rate in Hz; the same output rate is requested, not
    /// guaranteed — the native layer picks its own when the requested rate
    /// is one MP3 cannot carry.
    pub sample_rate: Option<int>,
    /// 1 (mono) or 2 (stereo).
    pub channel_count: Option<int>,
    /// Target bitrate in kbps.
    pub target_bitrate: Option<int>,
    /// Quality preset.
    pub quality_level: Option<Quality>,
    /// Bitrate management mode.
    pub vbr_mode: Option<VbrMode>,
    /// Variable-bitrate quality level, 0 to 9.
    pub vbr_quality: Option<int>,
}

impl EncoderConfig {
    /// The configuration of a fresh stage: every native default in effect.
    pub open spec fn unset() -> EncoderConfig {
        EncoderConfig {
            sample_rate: None,
            channel_count: None,
            target_bitrate: None,
            quality_level: None,
            vbr_mode: None,
            vbr_quality: None,
        }
    }
}

/// The configuration stage: exclusively owns freshly allocated native
/// encoder state, applies each parameter to it eagerly, and is consumed by
/// `build`, which produces the encoding session. A stage discarded without
/// `build` releases the native state exactly once, so a partial
/// configuration is safe to abandon at any point.
pub struct EncoderBuilder {
    native: mp3lame_encoder::Builder,
    cfg: Ghost<EncoderConfig>,
    tag_block: Ghost<TagSet>,
}

impl EncoderBuilder {
    /// The parameters this stage has accepted so far.
    pub closed spec fn config(&self) -> EncoderConfig {
        self.cfg@
    }

    /// The descriptive text fields committed to the native tag block so
    /// far (the native layer keeps at most the first 250 bytes of each).
    pub closed spec fn tag_block(&self) -> TagSet {
        self.tag_block@
    }

    /// Allocates fresh native encoder state.
    pub fn new() -> (r: Result<EncoderBuilder, LameError>)
        ensures
            r matches Ok(b) ==> b.config() == EncoderConfig::unset() && b.tag_block()
                == TagSet::empty(),
            r matches Err(e) ==> e == LameError::InitializationFailed,
    {
        match native::builder_new() {
            Some(nb) => Ok(
                EncoderBuilder {
                    native: nb,
                    cfg: Ghost(EncoderConfig::unset()),
                    tag_block: Ghost(TagSet::empty()),
                },
            ),
            None => Err(LameError::InitializationFailed),
        }
    }

    /// Sets the input sample rate in Hz and asks for the same output rate;
    /// when the MP3 format cannot carry the rate, the native layer picks
    /// the output rate itself. Accepted for every rate of at least 1 Hz.
    pub fn sample_rate(self, rate: i32) -> (r: Result<EncoderBuilder, LameError>)
        ensures
            rate >= 1 ==> (r matches Ok(b) && b.config() == (EncoderConfig {
                sample_rate: Some(rate as int),
                ..self.config()
            }) && b.tag_block() == self.tag_block()),
            rate < 1 ==> (r matches Err(e) && e matches LameError::InvalidParameter(m) && m@
                == "sample_rate"@),
    {
        if rate < 1 {
            return Err(LameError::InvalidParameter("sample_rate".to_owned()));
        }
        let mut s = self;
        let ok = native::set_sample_rate(&mut s.native, rate as u32);
        let _ = native::set_output_sample_rate(&mut s.native, rate as u32);
        if !ok {
            return Err(LameError::InvalidParameter("sample_rate".to_owned()));
        }
        s.cfg = Ghost(EncoderConfig { sample_rate: Some(rate as int), ..s.cfg@ });
        Ok(s)
    }

    /// Sets the number of input channels. Accepted exactly for 1 (mono)
    /// and 2 (stereo).
    pub fn channels(self, channels: i32) -> (r: Result<EncoderBuilder, LameError>)
        ensures
            channels == 1 || channels == 2 ==> (r matches Ok(b) && b.config() == (EncoderConfig {
                channel_count: Some(channels as int),
                ..self.config()
            }) && b.tag_block() == self.tag_block()),
            !(channels == 1 || channels == 2) ==> (r matches Err(e) && e
                matches LameError::InvalidParameter(m) && m@ == "channels"@),
    {
        if !(channels == 1 || channels == 2) {
            return Err(LameError::InvalidParameter("channels".to_owned()));
        }
        let mut s = self;
        let ok = native::set_num_channels(&mut s.native, channels as u8);
        if !ok {
            return Err(LameError::InvalidParameter("channels".to_owned()));
        }
        s.cfg = Ghost(EncoderConfig { channel_count: Some(channels as int), ..s.cfg@ });
        Ok(s)
    }

    /// Sets the target bitrate in kbps. Accepted exactly for the values of
    /// `is_valid_bitrate`: the codec boundary's bitrate enumeration, which
    /// omits the 56 and 144 kbps rates MP3 also defines.
    pub fn bitrate(self, bitrate: i32) -> (r: Result<EncoderBuilder, LameError>)
        ensures
            is_valid_bitrate(bitrate as int) ==> (r matches Ok(b) && b.config() == (EncoderConfig {
                target_bitrate: Some(bitrate as int),
                ..self.config()
            }) && b.tag_block() == self.tag_block()),
            !is_valid_bitrate(bitrate as int) ==> (r matches Err(e) && e
                matches LameError::InvalidParameter(m) && m@ == "bitrate"@),
    {
        if !check_bitrate(bitrate) {
            return Err(LameError::InvalidParameter("bitrate".to_owned()));
        }
        let mut s = self;
        let ok = native::set_brate(&mut s.native, bitrate as u16);
        if !ok {
            return Err(LameError::InvalidParameter("bitrate".to_owned()));
        }
        s.cfg = Ghost(EncoderConfig { target_bitrate: Some(bitrate as int), ..s.cfg@ });
        Ok(s)
    }

    /// Sets the encoding quality preset. Every preset is accepted.
    pub fn quality(self, quality: Quality) -> (r: Result<EncoderBuilder, LameError>)
        ensures
            r matches Ok(b) && b.config() == (EncoderConfig {
                quality_level: Some(quality),
                ..self.config()
            }) && b.tag_block() == self.tag_block(),
    {
        let mut s = self;
        let ok = native::set_quality(&mut s.native, quality_level(quality));
        if !ok {
            return Err(LameError::InvalidParameter("quality".to_owned()));
        }
        s.cfg = Ghost(EncoderConfig { quality_level: Some(quality), ..s.cfg@ });
        Ok(s)
    }

    /// Sets the bitrate management mode. Every mode is accepted.
    pub fn vbr_mode(self, mode: VbrMode) -> (r: Result<EncoderBuilder, LameError>)
        ensures
            r matches Ok(b) && b.config() == (EncoderConfig {
                vbr_mode: Some(mode),
                ..self.config()
            }) && b.tag_block() == self.tag_block(),
    {
        let mut s = self;
        let ok = native::set_vbr_mode(&mut s.native, vbr_code(mode));
        if !ok {
            return Err(LameError::InvalidParameter("vbr_mode".to_owned()));
        }
        s.cfg = Ghost(EncoderConfig { vbr_mode: Some(mode), ..s.cfg@ });
        Ok(s)
    }

    /// Sets the variable-bitrate quality level. Accepted exactly for 0
    /// (highest quality) through 9.
    pub fn vbr_quality(self, quality: i32) -> (r: Result<EncoderBuilder, LameError>)
        ensures
            0 <= quality <= 9 ==> (r matches Ok(b) && b.config() == (EncoderConfig {
                vbr_quality: Some(quality as int),
                ..self.config()
            }) && b.tag_block() == self.tag_block()),
            !(0 <= quality <= 9) ==> (r matches Err(e) && e matches LameError::InvalidParameter(m)
                && m@ == "vbr_quality"@),
    {
        if quality < 0 || quality > 9 {
            return Err(LameError::InvalidParameter("vbr_quality".to_owned()));
        }
        let mut s = self;
        let ok = native::set_vbr_quality(&mut s.native, quality as u8);
        if !ok {
            return Err(LameError::InvalidParameter("vbr_quality".to_owned()));
        }
        s.cfg = Ghost(EncoderConfig { vbr_quality: Some(quality as int), ..s.cfg@ });
        Ok(s)
    }

    /// Rewrites the native tag block with the given text fields: the
    /// block is reset and each nonempty field written into it, so the
    /// block afterwards holds exactly the nonempty fields. When every
    /// field is empty the native layer leaves the block untouched.
    /// Reached through the tag stage's setters and `apply`.
    pub(crate) fn write_tag_block(
        &mut self,
        title: &Vec<u8>,
        artist: &Vec<u8>,
        album: &Vec<u8>,
        year: &Vec<u8>,
        comment: &Vec<u8>,
    )
        ensures
            final(self).config() == old(self).config(),
            title@.len() == 0 && artist@.len() == 0 && album@.len() == 0 && year@.len() == 0
                && comment@.len() == 0 ==> final(self).tag_block() == old(self).tag_block(),
            !(title@.len() == 0 && artist@.len() == 0 && album@.len() == 0 && year@.len() == 0
                && comment@.len() == 0) ==> final(self).tag_block() == (TagSet {
                title: committed_field(title@),
                artist: committed_field(artist@),
                album: committed_field(album@),
                year: committed_field(year@),
                comment: committed_field(comment@),
                track: None,
                genre: None,
                album_artist: None,
            }),
    {
        native::set_id3_tag(&mut self.native, title, artist, album, year, comment);
        self.tag_block = Ghost(
            if title@.len() == 0 && artist@.len() == 0 && album@.len() == 0 && year@.len() == 0
                && comment@.len() == 0 {
                self.tag_block@
            } else {
                TagSet {
                    title: committed_field(title@),
                    artist: committed_field(artist@),
                    album: committed_field(album@),
                    year: committed_field(year@),
                    comment: committed_field(comment@),
                    track: None,
                    genre: None,
                    album_artist: None,
                }
            },
        );
    }

    /// Consumes the stage and invokes the native derived-parameter step
    /// exactly once. On success the native state moves into the returned
    /// session and the stage releases nothing; on failure the state is
    /// still released exactly once.
    pub fn build(self) -> (r: Result<LameEncoder, LameError>)
        ensures
            r matches Ok(e) ==> e.config() == self.config() && e.tag_block() == self.tag_block(),
            r matches Err(e) ==> e == LameError::InitializationFailed,
    {
        let EncoderBuilder { native: nb, cfg, tag_block } = self;
        match native::build_encoder(nb) {
            Ok(enc) => Ok(LameEncoder { native: enc, cfg, tag_block }),
            Err(()) => Err(LameError::InitializationFailed),
        }
    }
}

/// The encoding session: exclusively owns the finalized native encoder
/// state for its whole lifetime and releases it exactly once when dropped,
/// whether or not any encode call was ever made and whether or not earlier
/// calls failed.
pub struct LameEncoder {
    native: mp3lame_encoder::Encoder,
    cfg: Ghost<EncoderConfig>,
    tag_block: Ghost<TagSet>,
}

impl LameEncoder {
    /// The configuration this session was finalized with. Frozen: no
    /// operation changes it.
    pub closed spec fn config(&self) -> EncoderConfig {
        self.cfg@
    }

    /// The descriptive text fields frozen into the stream's leading tag
    /// block when the session was built. Frozen: no operation changes it.
    pub closed spec fn tag_block(&self) -> TagSet {
        self.tag_block@
    }

    /// Starts a configuration stage.
    pub fn builder() -> (r: Result<EncoderBuilder, LameError>)
        ensures
            r matches Ok(b) ==> b.config() == EncoderConfig::unset(),
            r matches Err(e) ==> e == LameError::InitializationFailed,
    {
        EncoderBuilder::new()
    }

    /// Encodes stereo PCM given as two channels of equal length, writing
    /// the compressed bytes at the start of `mp3_buffer` and returning the
    /// count written. Unequal channel lengths are rejected before any
    /// native call, with nothing written. A zero-length buffer is rejected
    /// up front with `BufferTooSmall`: handed a size of 0, the native layer
    /// would switch its own capacity check off.
    pub fn encode(
        &mut self,
        pcm_left: &Vec<i16>,
        pcm_right: &Vec<i16>,
        mp3_buffer: &mut Vec<u8>,
    ) -> (r: Result<usize, LameError>)
        requires
            pcm_left@.len() <= i32::MAX as usize,
            old(mp3_buffer)@.len() <= i32::MAX as usize,
        ensures
            final(self).config() == old(self).config(),
            final(self).tag_block() == old(self).tag_block(),
            pcm_left@.len() != pcm_right@.len() ==> {
                &&& r matches Err(e)
                &&& e matches LameError::InvalidInput(m)
                &&& m@ == "Left and right channel lengths must match"@
                &&& final(mp3_buffer)@ == old(mp3_buffer)@
            },
            pcm_left@.len() == pcm_right@.len() && old(mp3_buffer)@.len() == 0 ==> {
                &&& r matches Err(e)
                &&& e == (LameError::BufferTooSmall { required: 1, provided: 0 })
                &&& final(mp3_buffer)@ == old(mp3_buffer)@
            },
            pcm_left@.len() == pcm_right@.len() && old(mp3_buffer)@.len() >= 1
                ==> spec_encode_result(
                r,
                old(mp3_buffer)@,
                final(mp3_buffer)@,
                spec_required_buffer_size(pcm_left@.len() as int),
            ),
    {
        if pcm_left.len() != pcm_right.len() {
            return Err(LameError::InvalidInput("Left and right channel lengths must match".to_owned()));
        }
        if mp3_buffer.len() == 0 {
            return Err(LameError::BufferTooSmall { required: 1, provided: 0 });
        }
        match native::encode_dual(&mut self.native, pcm_left, pcm_right, mp3_buffer) {
            Ok(n) => Ok(n),
            Err(code) => Err(LameError::EncodingFailed(code)),
        }
    }

    /// Encodes interleaved stereo PCM (left, right, left, right, ...),
    /// writing the compressed bytes at the start of `mp3_buffer` and
    /// returning the count written. The sample-pair count is the truncating
    /// half of the input length: a trailing odd sample is dropped, a known
    /// boundary behaviour, since stereo PCM should never supply odd-length
    /// buffers. A zero-length output buffer is rejected up front with
    /// `BufferTooSmall`.
    pub fn encode_interleaved(
        &mut self,
        pcm_interleaved: &Vec<i16>,
        mp3_buffer: &mut Vec<u8>,
    ) -> (r: Result<usize, LameError>)
        requires
            pcm_interleaved@.len() <= i32::MAX as usize,
            old(mp3_buffer)@.len() <= i32::MAX as usize,
        ensures
            final(self).config() == old(self).config(),
            final(self).tag_block() == old(self).tag_block(),
            old(mp3_buffer)@.len() == 0 ==> {
                &&& r matches Err(e)
                &&& e == (LameError::BufferTooSmall { required: 1, provided: 0 })
                &&& final(mp3_buffer)@ == old(mp3_buffer)@
            },
            old(mp3_buffer)@.len() >= 1 ==> spec_encode_result(
                r,
                old(mp3_buffer)@,
                final(mp3_buffer)@,
                spec_required_buffer_size(pcm_interleaved@.len() as int / 2),
            ),
    {
        if mp3_buffer.len() == 0 {
            return Err(LameError::BufferTooSmall { required: 1, provided: 0 });
        }
        let r = if pcm_interleaved.len() % 2 == 0 {
            native::encode_interleaved(&mut self.native, pcm_interleaved, mp3_buffer)
        } else {
            let pairs = pcm_interleaved.len() / 2;
            let even = 2 * pairs;
            let mut whole: Vec<i16> = Vec::new();
            let mut i: usize = 0;
            while i < even
                invariant
                    i <= even,
                    even < pcm_interleaved@.len(),
                    whole@ == pcm_interleaved@.subrange(0, i as int),
                decreases even - i,
            {
                whole.push(pcm_interleaved[i]);
                i = i + 1;
            }
            native::encode_interleaved(&mut self.native, &whole, mp3_buffer)
        };
        match r {
            Ok(n) => Ok(n),
            Err(code) => Err(LameError::EncodingFailed(code)),
        }
    }

    /// Encodes mono PCM, writing the compressed bytes at the start of
    /// `mp3_buffer` and returning the count written. Meant for sessions
    /// configured with one channel; a channel-count mismatch is the native
    /// layer's to report, not re-validated here. A zero-length output
    /// buffer is rejected up front with `BufferTooSmall`.
    pub fn encode_mono(&mut self, pcm: &Vec<i16>, mp3_buffer: &mut Vec<u8>) -> (r: Result<
        usize,
        LameError,
    >)
        requires
            pcm@.len() <= i32::MAX as usize,
            old(mp3_buffer)@.len() <= i32::MAX as usize,
        ensures
            final(self).config() == old(self).config(),
            final(self).tag_block() == old(self).tag_block(),
            old(mp3_buffer)@.len() == 0 ==> {
                &&& r matches Err(e)
                &&& e == (LameError::BufferTooSmall { required: 1, provided: 0 })
                &&& final(mp3_buffer)@ == old(mp3_buffer)@
            },
            old(mp3_buffer)@.len() >= 1 ==> spec_encode_result(
                r,
                old(mp3_buffer)@,
                final(mp3_buffer)@,
                spec_required_buffer_size(pcm@.len() as int),
            ),
    {
        if mp3_buffer.len() == 0 {
            return Err(LameError::BufferTooSmall { required: 1, provided: 0 });
        }
        match native::encode_mono(&mut self.native, pcm, mp3_buffer) {
            Ok(n) => Ok(n),
            Err(code) => Err(LameError::EncodingFailed(code)),
        }
    }

    /// Drains the frames still buffered inside the native encoder, writing
    /// them at the start of `mp3_buffer` and returning the count written.
    /// Call it after the last encode call; calling it again is safe and
    /// yields at most a few remaining bytes. 7200 bytes of buffer always
    /// suffice; a zero-length buffer is rejected up front with
    /// `BufferTooSmall`.
    pub fn flush(&mut self, mp3_buffer: &mut Vec<u8>) -> (r: Result<usize, LameError>)
        requires
            old(mp3_buffer)@.len() <= i32::MAX as usize,
        ensures
            final(self).config() == old(self).config(),
            final(self).tag_block() == old(self).tag_block(),
            old(mp3_buffer)@.len() == 0 ==> {
                &&& r matches Err(e)
                &&& e == (LameError::BufferTooSmall { required: 1, provided: 0 })
                &&& final(mp3_buffer)@ == old(mp3_buffer)@
            },
            old(mp3_buffer)@.len() >= 1 ==> spec_encode_result(
                r,
                old(mp3_buffer)@,
                final(mp3_buffer)@,
                7200,
            ),
    {
        if mp3_buffer.len() == 0 {
            return Err(LameError::BufferTooSmall { required: 1, provided: 0 });
        }
        match native::flush(&mut self.native, mp3_buffer) {
            Ok(n) => Ok(n),
            Err(code) => Err(LameError::EncodingFailed(code)),
        }
    }
}

} // verus!
