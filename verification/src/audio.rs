//! Decoding WAV files for the transcription engines, and writing recordings.
//!
//! The app itself only ever writes 16 kHz mono 16-bit WAVs. Anything that accepts
//! a file from the user needs a decoder that either converts correctly or says
//! why it cannot: a 48 kHz stereo file read as if it were native decodes to
//! garbage that is also played back at the wrong speed.
//!
//! Samples are held here as integer words. An integer sample is its own value,
//! to be divided by the full scale of its width; a float sample is its bit
//! pattern. The division, the averaging of channels and the resampling are
//! floating point work and belong to whoever consumes the words.

use crate::protocol;
use crate::text;
use crate::WHISPER_SAMPLE_RATE;
use vstd::arithmetic::power2::pow2;
use vstd::prelude::*;

verus! {

/// Sample rates outside this range are rejected as corrupt rather than fed to a
/// resampler, which would either allocate absurdly or divide by about zero.
pub const MIN_SAMPLE_RATE: u32 = 4000;

/// The other end of that range.
pub const MAX_SAMPLE_RATE: u32 = 384000;

/// How the samples of a WAV file are stored.
#[derive(Debug, Clone, Copy, PartialEq, Eq, Structural)]
pub enum SampleFormat {
    Float,
    Int,
}

/// What the header of a WAV file says.
#[derive(Debug, Clone, Copy, PartialEq, Eq, Structural)]
pub struct WavSpec {
    pub channels: u16,
    pub sample_rate: u32,
    pub bits_per_sample: u16,
    pub sample_format: SampleFormat,
}

/// An open WAV file: its header, and the number of samples over all channels.
#[derive(Debug, Clone, Copy, PartialEq, Eq, Structural)]
pub struct WavHeader {
    pub spec: WavSpec,
    pub len: u32,
}

// ---------------------------------------------------------------------------
// Reading and writing WAV bytes
// ---------------------------------------------------------------------------

/// What `hound` finds in the header of a WAV file: channels, sample rate, bits
/// per sample, whether the samples are floats, and the number of samples; or the
/// text of its error.
pub uninterp spec fn wav_header(bytes: Seq<u8>) -> Result<(u16, u32, u16, bool, u32), Seq<char>>;

/// What `hound` reads as the integer samples of a WAV file, sign-extended, or
/// the text of its error.
pub uninterp spec fn wav_int_samples(bytes: Seq<u8>) -> Result<Seq<i32>, Seq<char>>;

/// What a header says, as plain values.
pub open spec fn header_fields(header: WavHeader) -> (u16, u32, u16, bool, u32) {
    (
        header.spec.channels,
        header.spec.sample_rate,
        header.spec.bits_per_sample,
        header.spec.sample_format == SampleFormat::Float,
        header.len,
    )
}

/// Calls `hound::WavReader::new` on the bytes, and `spec` and `len` of the reader
/// it gives. The contract claims that header and error text are functions of the
/// bytes alone.
#[verifier::external_body]
fn open_wav(bytes: &[u8]) -> (r: Result<WavHeader, String>)
    ensures
        match r {
            Ok(header) => wav_header(bytes@) == Ok::<(u16, u32, u16, bool, u32), Seq<char>>(
                header_fields(header),
            ),
            Err(e) => wav_header(bytes@) == Err::<(u16, u32, u16, bool, u32), Seq<char>>(e@),
        },
{
    let reader = hound::WavReader::new(bytes).map_err(|e| e.to_string())?;
    let spec = reader.spec();
    let sample_format = match spec.sample_format {
        hound::SampleFormat::Float => SampleFormat::Float,
        hound::SampleFormat::Int => SampleFormat::Int,
    };
    let (channels, sample_rate, bits_per_sample) =
        (spec.channels, spec.sample_rate, spec.bits_per_sample);
    let spec = WavSpec { channels, sample_rate, bits_per_sample, sample_format };
    Ok(WavHeader { spec, len: reader.len() })
}

/// Calls `hound::WavReader::into_samples` for `i32` on the bytes and collects
/// what it yields. The contract claims that the samples, or the text of the first
/// error, are a function of the bytes alone, and that a file that is read to its
/// end yields as many samples as its header says.
#[verifier::external_body]
fn read_int_samples(bytes: &[u8]) -> (r: Result<Vec<i32>, String>)
    ensures
        match r {
            Ok(words) => wav_int_samples(bytes@) == Ok::<Seq<i32>, Seq<char>>(words@)
                && wav_header(bytes@) is Ok && words@.len() == wav_header(bytes@)->Ok_0.4,
            Err(e) => wav_int_samples(bytes@) == Err::<Seq<i32>, Seq<char>>(e@),
        },
{
    let reader = hound::WavReader::new(bytes).map_err(|e| e.to_string())?;
    let samples: Result<Vec<i32>, hound::Error> = reader.into_samples::<i32>().collect();
    samples.map_err(|e| e.to_string())
}

/// Whether `hound` reads from `bytes` a file of 16-bit samples: the given
/// channels, rate and samples.
pub open spec fn holds_samples(
    bytes: Seq<u8>,
    channels: u16,
    sample_rate: u32,
    samples: Seq<i16>,
) -> bool {
    &&& wav_header(bytes) == Ok::<(u16, u32, u16, bool, u32), Seq<char>>(
        (channels, sample_rate, 16u16, false, samples.len() as u32),
    )
    &&& wav_int_samples(bytes) == Ok::<Seq<i32>, Seq<char>>(
        samples.map_values(|s: i16| s as i32),
    )
}

/// What `hound` writes as a file of 16-bit samples, or the text of its error.
pub uninterp spec fn wav_written(channels: u16, sample_rate: u32, samples: Seq<i16>) -> Result<
    Seq<u8>,
    Seq<char>,
>;

/// Calls `hound::WavWriter::new` for 16-bit samples on a buffer in memory, its
/// `write_sample` on each sample, and its `finalize`. The contract claims that the
/// bytes, or the text of the error, are a function of the arguments alone, and
/// that `hound` reads back from the bytes the header and the samples that were
/// written. That writing to memory succeeds is not claimed. The bounds leave out
/// what would overflow the format's 32-bit sizes.
#[verifier::external_body]
fn write_int_samples(channels: u16, sample_rate: u32, samples: &[i16]) -> (r: Result<
    Vec<u8>,
    String,
>)
    requires
        channels == 1 || channels == 2,
        sample_rate > 0,
        sample_rate * 2 * channels <= u32::MAX,
        samples@.len() % (channels as nat) == 0,
        2 * samples@.len() + 36 <= u32::MAX,
    ensures
        match r {
            Ok(bytes) => wav_written(channels, sample_rate, samples@) == Ok::<Seq<u8>, Seq<char>>(
                bytes@,
            ) && holds_samples(bytes@, channels, sample_rate, samples@),
            Err(e) => wav_written(channels, sample_rate, samples@) == Err::<Seq<u8>, Seq<char>>(e@),
        },
{
    let sample_format = hound::SampleFormat::Int;
    let bits_per_sample = i16::BITS as u16;
    let spec = hound::WavSpec { channels, sample_rate, bits_per_sample, sample_format };
    let mut out = std::io::Cursor::new(Vec::new());
    let mut writer = hound::WavWriter::new(&mut out, spec).map_err(|e| e.to_string())?;
    samples.iter().try_for_each(|s| writer.write_sample(*s)).map_err(|e| e.to_string())?;
    writer.finalize().map_err(|e| e.to_string())?;
    Ok(out.into_inner())
}

// ---------------------------------------------------------------------------
// Decoding
// ---------------------------------------------------------------------------

/// What is wrong with a header, where something is.
pub open spec fn spec_fault(spec: WavSpec) -> Option<Seq<char>> {
    if spec.channels == 0 {
        Some("WAV declares zero channels"@)
    } else if !(MIN_SAMPLE_RATE <= spec.sample_rate <= MAX_SAMPLE_RATE) {
        Some(
            "unsupported sample rate "@ + text::decimal_text(spec.sample_rate as nat)
                + " Hz (expected "@ + text::decimal_text(MIN_SAMPLE_RATE as nat) + "..="@
                + text::decimal_text(MAX_SAMPLE_RATE as nat) + ")"@,
        )
    } else if spec.sample_format == SampleFormat::Float && spec.bits_per_sample != 32 {
        Some(
            "unsupported "@ + text::decimal_text(spec.bits_per_sample as nat)
                + "-bit float WAV (only 32-bit float is defined)"@,
        )
    } else if spec.sample_format == SampleFormat::Int && !(1 <= spec.bits_per_sample <= 32) {
        Some(
            "unsupported "@ + text::decimal_text(spec.bits_per_sample as nat)
                + "-bit integer WAV"@,
        )
    } else {
        None
    }
}

/// Check a header.
pub fn check_spec(spec: WavSpec) -> (r: Result<(), String>)
    ensures
        match r {
            Ok(_) => spec_fault(spec) is None,
            Err(e) => spec_fault(spec) == Some(e@),
        },
{
    if spec.channels == 0 {
        return Err("WAV declares zero channels".to_owned());
    }
    if spec.sample_rate < MIN_SAMPLE_RATE || spec.sample_rate > MAX_SAMPLE_RATE {
        return Err(
            "unsupported sample rate ".to_owned().concat(
                text::decimal(spec.sample_rate as u64).as_str(),
            ).concat(" Hz (expected ").concat(text::decimal(MIN_SAMPLE_RATE as u64).as_str()).concat(
                "..=",
            ).concat(text::decimal(MAX_SAMPLE_RATE as u64).as_str()).concat(")"),
        );
    }
    let bits: String = text::decimal(spec.bits_per_sample as u64);
    if spec.sample_format == SampleFormat::Float && spec.bits_per_sample != 32 {
        return Err(
            "unsupported ".to_owned().concat(bits.as_str()).concat(
                "-bit float WAV (only 32-bit float is defined)",
            ),
        );
    }
    if spec.sample_format == SampleFormat::Int && (spec.bits_per_sample < 1
        || spec.bits_per_sample > 32) {
        return Err(
            "unsupported ".to_owned().concat(bits.as_str()).concat("-bit integer WAV"),
        );
    }
    Ok(())
}

/// A decoded file, still at its source rate and with its source channels.
#[derive(Debug, Clone)]
pub struct DecodedAudio {
    /// Interleaved samples, whole frames only.
    pub words: Vec<i32>,
    /// How to read a word.
    pub sample_format: SampleFormat,
    pub source_rate: u32,
    pub source_channels: u16,
    pub source_bits: u16,
    /// Number of frames: samples per channel.
    pub frames: u64,
}

/// The largest positive value of an integer sample of the given width.
pub open spec fn scale_of(bits: u16) -> int {
    pow2((bits - 1) as nat) - 1
}

/// How many 16 kHz samples `frames` frames at `rate` come to.
pub open spec fn samples_at_16k(frames: int, rate: u32) -> int {
    if rate == WHISPER_SAMPLE_RATE {
        frames
    } else {
        frames * WHISPER_SAMPLE_RATE / (rate as int)
    }
}

impl DecodedAudio {
    /// What holds of every decoded file.
    pub open spec fn wf(&self) -> bool {
        &&& self.source_channels > 0
        &&& MIN_SAMPLE_RATE <= self.source_rate <= MAX_SAMPLE_RATE
        &&& 1 <= self.source_bits <= 32
        &&& self.frames > 0
        &&& self.words@.len() == self.frames * self.source_channels
    }

    /// Whether decoding was a pure read (no downmix, no resample).
    pub fn is_native(&self) -> (r: bool)
        ensures
            r == (self.source_rate == WHISPER_SAMPLE_RATE && self.source_channels == 1),
    {
        self.source_rate == WHISPER_SAMPLE_RATE && self.source_channels == 1
    }

    /// Human-readable description of the source format, for logs and errors.
    pub fn source_description(&self) -> (r: String)
        ensures
            r@ == text::decimal_text(self.source_rate as nat) + " Hz / "@ + text::decimal_text(
                self.source_channels as nat,
            ) + " ch / "@ + text::decimal_text(self.source_bits as nat) + "-bit"@,
    {
        text::decimal(self.source_rate as u64).concat(" Hz / ").concat(
            text::decimal(self.source_channels as u64).as_str(),
        ).concat(" ch / ").concat(text::decimal(self.source_bits as u64).as_str()).concat("-bit")
    }

    /// What an integer word has to be divided by. It must be a division, not a
    /// multiplication by a reciprocal — those differ in the last digit.
    pub fn full_scale(&self) -> (r: i64)
        requires
            self.wf(),
        ensures
            r == scale_of(self.source_bits),
    {
        let n: u64 = (self.source_bits - 1) as u64;
        proof {
            vstd::bits::lemma_u64_pow2_no_overflow(31);
            vstd::arithmetic::power2::lemma2_to64();
            vstd::arithmetic::power2::lemma_pow2_pos(n as nat);
            if n < 31 {
                vstd::arithmetic::power2::lemma_pow2_strictly_increases(n as nat, 31);
            }
            vstd::bits::lemma_u64_shl_is_mul(1, n);
        }
        (1u64 << n) as i64 - 1
    }

    /// How many 16 kHz samples the file comes to. A resampler that pads its last
    /// frame has to be cut to this, or every file would gain trailing silence.
    pub fn expected_samples(&self) -> (r: u128)
        requires
            self.wf(),
        ensures
            r == samples_at_16k(self.frames as int, self.source_rate),
    {
        if self.source_rate == WHISPER_SAMPLE_RATE {
            self.frames as u128
        } else {
            let frames: u128 = self.frames as u128;
            assert(frames * 16000 <= u128::MAX);
            frames * 16000 / self.source_rate as u128
        }
    }
}

/// What decoding gives, from the header and the samples that were read: the
/// words of the whole frames, or what is wrong. A trailing partial frame is
/// dropped rather than emitted at the wrong amplitude.
pub open spec fn decoded_words(spec: WavSpec, samples: Result<Seq<i32>, Seq<char>>) -> Result<
    Seq<i32>,
    Seq<char>,
> {
    if spec_fault(spec) is Some {
        Err(spec_fault(spec)->0)
    } else {
        match samples {
            Err(e) => Err(e),
            Ok(words) => {
                let frames = words.len() / (spec.channels as nat);
                if frames == 0 {
                    Err("WAV contains no audio samples"@)
                } else {
                    Ok(words.take(frames * spec.channels))
                }
            },
        }
    }
}

/// Whether a decoded file is the one with the given header and words.
pub open spec fn is_decoded(audio: DecodedAudio, spec: WavSpec, words: Seq<i32>) -> bool {
    &&& audio.wf()
    &&& audio.words@ == words
    &&& audio.sample_format == spec.sample_format
    &&& audio.source_rate == spec.sample_rate
    &&& audio.source_channels == spec.channels
    &&& audio.source_bits == spec.bits_per_sample
}

proof fn lemma_whole_frames(len: int, channels: int)
    requires
        len >= 0,
        channels > 0,
    ensures
        0 <= (len / channels) * channels <= len < (len / channels) * channels + channels,
        ((len / channels) * channels) % channels == 0,
        len / channels == 0 <==> len < channels,
{
    vstd::arithmetic::div_mod::lemma_fundamental_div_mod(len, channels);
    vstd::arithmetic::div_mod::lemma_mod_multiples_basic(len / channels, channels);
    assert((len / channels) * channels == channels * (len / channels)) by (nonlinear_arith);
    assert(len / channels >= 0) by (nonlinear_arith)
        requires
            len >= 0,
            channels > 0,
    ;
    assert(len / channels > 0 ==> channels * (len / channels) >= channels) by (nonlinear_arith)
        requires
            channels > 0,
    ;
}

/// Decode the samples that were read from a file with the given header. Float
/// samples are given by their bit patterns.
pub fn decode_samples(spec: WavSpec, samples: Result<Vec<i32>, String>) -> (r: Result<
    DecodedAudio,
    String,
>)
    ensures
        ({
            let given = match samples {
                Ok(words) => Ok(words@),
                Err(e) => Err(e@),
            };
            match r {
                Ok(audio) => decoded_words(spec, given) is Ok && is_decoded(
                    audio,
                    spec,
                    decoded_words(spec, given)->Ok_0,
                ),
                Err(e) => decoded_words(spec, given) == Err::<Seq<i32>, Seq<char>>(e@),
            }
        }),
        r matches Ok(audio) ==> samples matches Ok(given) && audio.words@.is_prefix_of(given@)
            && given@.len() < audio.words@.len() + spec.channels,
        (r is Err && samples is Ok) ==> spec_fault(spec) is Some || samples->Ok_0@.len()
            < spec.channels,
{
    check_spec(spec)?;
    let mut words: Vec<i32> = samples?;
    let ghost all = words@;
    let channels: usize = spec.channels as usize;
    let frames: usize = words.len() / channels;
    if frames == 0 {
        proof {
            lemma_whole_frames(all.len() as int, channels as int);
        }
        return Err("WAV contains no audio samples".to_owned());
    }
    assert(frames * channels <= all.len()) by (nonlinear_arith)
        requires
            frames == all.len() / (channels as nat),
            channels > 0,
    ;
    let whole: usize = frames * channels;
    proof {
        lemma_whole_frames(all.len() as int, channels as int);
        assert(all.take(whole as int).is_prefix_of(all));
    }
    words.truncate(whole);
    Ok(
        DecodedAudio {
            words,
            sample_format: spec.sample_format,
            source_rate: spec.sample_rate,
            source_channels: spec.channels,
            source_bits: spec.bits_per_sample,
            frames: frames as u64,
        },
    )
}

/// What a file's bytes hold, before anything was read but its header.
pub open spec fn opened(bytes: Seq<u8>) -> Result<WavSpec, Seq<char>> {
    match wav_header(bytes) {
        Ok((channels, sample_rate, bits_per_sample, float, len)) => Ok(
            WavSpec {
                channels,
                sample_rate,
                bits_per_sample,
                sample_format: if float {
                    SampleFormat::Float
                } else {
                    SampleFormat::Int
                },
            },
        ),
        Err(e) => Err(e),
    }
}

/// A WAV file on its way to being decoded.
#[derive(Debug, Clone)]
pub enum WavContent {
    /// The decoded samples.
    Decoded(DecodedAudio),
    /// A float file with this header: read its samples, and continue with
    /// [`decode_samples`].
    Floats(WavSpec),
}

/// Decode an opened WAV file, as far as integers can.
///
/// Handles 8/16/24/32-bit integer and 32-bit float PCM, any channel count, and
/// any sample rate in [`MIN_SAMPLE_RATE`]..=[`MAX_SAMPLE_RATE`].
pub fn decode_wav_reader(bytes: &[u8], spec: WavSpec) -> (r: Result<WavContent, String>)
    ensures
        match r {
            Ok(WavContent::Floats(s)) => s == spec && spec.sample_format == SampleFormat::Float
                && spec_fault(spec) is None,
            Ok(WavContent::Decoded(audio)) => {
                let words = decoded_words(spec, wav_int_samples(bytes@));
                spec.sample_format == SampleFormat::Int && words is Ok && is_decoded(
                    audio,
                    spec,
                    words->Ok_0,
                )
            },
            Err(e) => if spec.sample_format == SampleFormat::Float {
                spec_fault(spec) == Some(e@)
            } else {
                decoded_words(spec, wav_int_samples(bytes@)) == Err::<Seq<i32>, Seq<char>>(e@)
            },
        },
{
    check_spec(spec)?;
    match spec.sample_format {
        SampleFormat::Float => Ok(WavContent::Floats(spec)),
        SampleFormat::Int => {
            let audio = decode_samples(spec, read_int_samples(bytes))?;
            Ok(WavContent::Decoded(audio))
        },
    }
}

/// What is said of a file that cannot be opened as WAV.
pub fn unreadable(path: &str, detail: &str) -> (r: String)
    ensures
        r@ == "cannot read "@ + path@ + " as WAV: "@ + detail@,
{
    "cannot read ".to_owned().concat(path).concat(" as WAV: ").concat(detail)
}

/// What is said of a WAV file that cannot be decoded.
pub fn undecodable(path: &str, detail: &str) -> (r: String)
    ensures
        r@ == "failed to decode "@ + path@ + ": "@ + detail@,
{
    "failed to decode ".to_owned().concat(path).concat(": ").concat(detail)
}

/// What decoding the WAV file at `path` gives, from its bytes.
pub open spec fn file_decoded(path: Seq<char>, bytes: Seq<u8>) -> Result<
    (WavSpec, Option<Seq<i32>>),
    Seq<char>,
> {
    match opened(bytes) {
        Err(e) => Err("cannot read "@ + path + " as WAV: "@ + e),
        Ok(spec) => if spec.sample_format == SampleFormat::Float {
            match spec_fault(spec) {
                Some(e) => Err("failed to decode "@ + path + ": "@ + e),
                None => Ok((spec, None)),
            }
        } else {
            match decoded_words(spec, wav_int_samples(bytes)) {
                Err(e) => Err("failed to decode "@ + path + ": "@ + e),
                Ok(words) => Ok((spec, Some(words))),
            }
        },
    }
}

/// Decode the WAV file at `path`, from its bytes.
pub fn decode_to_16k_mono(path: &str, bytes: &[u8]) -> (r: Result<WavContent, String>)
    ensures
        match r {
            Ok(WavContent::Floats(spec)) => file_decoded(path@, bytes@) == Ok::<
                (WavSpec, Option<Seq<i32>>),
                Seq<char>,
            >((spec, None)),
            Ok(WavContent::Decoded(audio)) => {
                let words = file_decoded(path@, bytes@);
                words is Ok && words->Ok_0.1 is Some && is_decoded(
                    audio,
                    words->Ok_0.0,
                    words->Ok_0.1->0,
                )
            },
            Err(e) => file_decoded(path@, bytes@) == Err::<
                (WavSpec, Option<Seq<i32>>),
                Seq<char>,
            >(e@),
        },
{
    match open_wav(bytes) {
        Err(e) => Err(unreadable(path, e.as_str())),
        Ok(header) => match decode_wav_reader(bytes, header.spec) {
            Ok(content) => Ok(content),
            Err(e) => Err(undecodable(path, e.as_str())),
        },
    }
}

// ---------------------------------------------------------------------------
// Recordings
// ---------------------------------------------------------------------------

/// What is wrong with a recording that should hold `expected` samples, where
/// something is.
pub open spec fn recording_fault(bytes: Seq<u8>, expected: u64) -> Option<Seq<char>> {
    match wav_header(bytes) {
        Err(e) => Some(e),
        Ok(fields) => if fields.4 != expected {
            Some(
                "WAV sample count mismatch: expected "@ + text::decimal_text(expected as nat)
                    + ", got "@ + text::decimal_text(fields.4 as nat),
            )
        } else {
            None
        },
    }
}

/// Verify a WAV file by reading it back and checking the sample count.
pub fn verify_wav_file(bytes: &[u8], expected_samples: u64) -> (r: Result<(), String>)
    ensures
        match r {
            Ok(_) => recording_fault(bytes@, expected_samples) is None,
            Err(e) => recording_fault(bytes@, expected_samples) == Some(e@),
        },
{
    let header = open_wav(bytes)?;
    let actual: u64 = header.len as u64;
    if actual != expected_samples {
        return Err(
            "WAV sample count mismatch: expected ".to_owned().concat(
                text::decimal(expected_samples).as_str(),
            ).concat(", got ").concat(text::decimal(actual).as_str()),
        );
    }
    Ok(())
}

/// The 16-bit amplitudes of a recording.
pub open spec fn amplitudes(samples: Seq<i32>) -> Seq<i16> {
    samples.map_values(|s: i32| protocol::clamped(s as int) as i16)
}

/// Write audio samples as a 16 kHz mono WAV file. A sample is its amplitude
/// scaled to 16 bits; one that does not fit is clamped rather than wrapped.
pub fn save_wav_file(samples: &[i32]) -> (r: Result<Vec<u8>, String>)
    requires
        2 * samples@.len() + 36 <= u32::MAX,
    ensures
        match r {
            Ok(bytes) => wav_written(1, WHISPER_SAMPLE_RATE, amplitudes(samples@)) == Ok::<
                Seq<u8>,
                Seq<char>,
            >(bytes@) && holds_samples(bytes@, 1, WHISPER_SAMPLE_RATE, amplitudes(samples@)),
            Err(e) => wav_written(1, WHISPER_SAMPLE_RATE, amplitudes(samples@)) == Err::<
                Seq<u8>,
                Seq<char>,
            >(e@),
        },
{
    let mut out: Vec<i16> = Vec::new();
    let mut i: usize = 0;
    while i < samples.len()
        invariant
            i <= samples.len(),
            out@ =~= amplitudes(samples@).take(i as int),
        decreases samples.len() - i,
    {
        let s: i32 = samples[i];
        let a: i16 = if s < -0x8000 {
            -0x8000
        } else if s > 0x7fff {
            0x7fff
        } else {
            s as i16
        };
        out.push(a);
        i = i + 1;
    }
    assert(out@ =~= amplitudes(samples@));
    write_int_samples(1, WHISPER_SAMPLE_RATE, out.as_slice())
}

/// A recording that was saved verifies, and decodes natively to the amplitudes
/// that were saved.
pub proof fn law_a_saved_recording_reads_back(
    bytes: Seq<u8>,
    samples: Seq<i32>,
    path: Seq<char>,
    len: u64,
)
    requires
        holds_samples(bytes, 1, WHISPER_SAMPLE_RATE, amplitudes(samples)),
        samples.len() == len,
        0 < len <= u32::MAX,
    ensures
        recording_fault(bytes, len) is None,
        ({
            let native = WavSpec {
                channels: 1,
                sample_rate: WHISPER_SAMPLE_RATE,
                bits_per_sample: 16,
                sample_format: SampleFormat::Int,
            };
            file_decoded(path, bytes) == Ok::<(WavSpec, Option<Seq<i32>>), Seq<char>>(
                (native, Some(samples.map_values(|s: i32| protocol::clamped(s as int) as i32))),
            )
        }),
{
    let words = samples.map_values(|s: i32| protocol::clamped(s as int) as i32);
    assert(amplitudes(samples).map_values(|s: i16| s as i32) =~= words);
    assert(words.take(words.len() as int) =~= words);
}

/// Resampling never gains audio: the expected length lasts no longer than the
/// source.
pub proof fn law_resampling_adds_nothing(frames: nat, rate: u32)
    requires
        MIN_SAMPLE_RATE <= rate <= MAX_SAMPLE_RATE,
    ensures
        0 <= samples_at_16k(frames as int, rate),
        samples_at_16k(frames as int, rate) * rate <= frames * WHISPER_SAMPLE_RATE,
        frames * WHISPER_SAMPLE_RATE < (samples_at_16k(frames as int, rate) + 1) * rate,
{
    let total: int = frames * WHISPER_SAMPLE_RATE;
    if rate != WHISPER_SAMPLE_RATE {
        vstd::arithmetic::div_mod::lemma_fundamental_div_mod(total, rate as int);
        assert((total / (rate as int)) * rate <= total < (total / (rate as int) + 1) * rate)
            by (nonlinear_arith)
            requires
                total == (rate as int) * (total / (rate as int)) + total % (rate as int),
                0 <= total % (rate as int) < rate,
        ;
        assert(total / (rate as int) >= 0) by (nonlinear_arith)
            requires
                total >= 0,
                rate > 0,
        ;
    } else {
        assert(total < (frames + 1) * rate) by (nonlinear_arith)
            requires
                total == frames * rate,
                rate > 0,
        ;
    }
}

/// What can be decoded: a file with a channel, a rate between 4 and 384 kHz, and
/// samples of 32 bits if they are floats, else of 1 to 32.
pub proof fn law_what_can_be_decoded(spec: WavSpec)
    ensures
        spec_fault(spec) is None <==> spec.channels > 0 && 4000 <= spec.sample_rate <= 384000 && (
        match spec.sample_format {
            SampleFormat::Float => spec.bits_per_sample == 32,
            SampleFormat::Int => 0 < spec.bits_per_sample <= 32,
        }),
{
}

/// Decoding keeps the audio: every whole frame of every file with a good header
/// comes out as it was read, in order, at any rate and with any number of channels;
/// less than one frame is left off at the end. Only a bad header, an unreadable
/// sample or the lack of a single frame stops it.
pub proof fn law_decoding_keeps_every_whole_frame(spec: WavSpec, samples: Seq<i32>, e: Seq<char>)
    ensures
        spec_fault(spec) is None ==> match decoded_words(spec, Ok(samples)) {
            Ok(words) => {
                &&& words.len() > 0
                &&& words.len() <= samples.len() < words.len() + spec.channels
                &&& words.len() % (spec.channels as nat) == 0
                &&& forall|i: int| 0 <= i < words.len() ==> #[trigger] words[i] == samples[i]
            },
            Err(_) => samples.len() < spec.channels,
        },
        spec_fault(spec) is None && spec.channels == 1 && samples.len() > 0 ==> decoded_words(
            spec,
            Ok(samples),
        ) == Ok::<Seq<i32>, Seq<char>>(samples),
        spec_fault(spec) is None ==> decoded_words(spec, Err(e)) == Err::<Seq<i32>, Seq<char>>(e),
        spec_fault(spec) matches Some(fault) ==> decoded_words(spec, Ok(samples)) == Err::<
            Seq<i32>,
            Seq<char>,
        >(fault) && decoded_words(spec, Err(e)) == Err::<Seq<i32>, Seq<char>>(fault),
{
    if spec.channels > 0 {
        lemma_whole_frames(samples.len() as int, spec.channels as int);
        assert(samples.take(samples.len() as int) =~= samples);
    }
}

/// Samples that are added behind never change what was decoded before them.
pub proof fn law_decoding_goes_from_front_to_back(spec: WavSpec, samples: Seq<i32>, more: Seq<i32>)
    requires
        decoded_words(spec, Ok(samples)) is Ok,
    ensures
        ({
            let first = decoded_words(spec, Ok(samples))->Ok_0;
            let whole = decoded_words(spec, Ok(samples + more));
            &&& whole is Ok
            &&& first.len() <= whole->Ok_0.len()
            &&& first == whole->Ok_0.take(first.len() as int)
        }),
{
    let c = spec.channels as int;
    let n = samples.len() as int;
    let m = (samples + more).len() as int;
    lemma_whole_frames(n, c);
    lemma_whole_frames(m, c);
    assert(n / c <= m / c) by {
        vstd::arithmetic::div_mod::lemma_div_is_ordered(n, m, c);
    }
    assert((n / c) * c <= (m / c) * c) by (nonlinear_arith)
        requires
            n / c <= m / c,
            c > 0,
    ;
    let whole = decoded_words(spec, Ok(samples + more))->Ok_0;
    let first = decoded_words(spec, Ok(samples))->Ok_0;
    assert(first =~= whole.take(first.len() as int));
}

/// A decoded file keeps its header: its rate, channels, width and format, and it
/// has as many frames as its words make.
pub proof fn law_a_decoded_file_keeps_its_header(audio: DecodedAudio, spec: WavSpec, words: Seq<i32>)
    requires
        is_decoded(audio, spec, words),
    ensures
        audio.words@ == words,
        audio.source_rate == spec.sample_rate,
        audio.source_channels == spec.channels,
        audio.source_bits == spec.bits_per_sample,
        audio.sample_format == spec.sample_format,
        audio.frames * spec.channels == words.len(),
        audio.frames > 0,
{
}

/// A file is decoded by its own header and from its own samples. What is wrong
/// with it is told together with its path.
pub proof fn law_a_file_is_decoded_by_its_header(path: Seq<char>, bytes: Seq<u8>)
    ensures
        match wav_header(bytes) {
            Err(e) => file_decoded(path, bytes) == Err::<(WavSpec, Option<Seq<i32>>), Seq<char>>(
                "cannot read "@ + path + " as WAV: "@ + e,
            ),
            Ok((channels, sample_rate, bits_per_sample, float, _)) => {
                let sample_format = if float {
                    SampleFormat::Float
                } else {
                    SampleFormat::Int
                };
                let spec = WavSpec { channels, sample_rate, bits_per_sample, sample_format };
                match (spec_fault(spec), wav_int_samples(bytes)) {
                    (Some(e), _) => file_decoded(path, bytes) == Err::<
                        (WavSpec, Option<Seq<i32>>),
                        Seq<char>,
                    >("failed to decode "@ + path + ": "@ + e),
                    (None, read) => if float {
                        file_decoded(path, bytes) == Ok::<(WavSpec, Option<Seq<i32>>), Seq<char>>(
                            (spec, None),
                        )
                    } else {
                        match (read, file_decoded(path, bytes)) {
                            (Err(e), Err(told)) => told == "failed to decode "@ + path + ": "@ + e,
                            (Ok(samples), Err(told)) => samples.len() < channels && told
                                == "failed to decode "@ + path + ": "@
                                + "WAV contains no audio samples"@,
                            (Ok(samples), Ok((s, Some(words)))) => {
                                &&& s == spec
                                &&& words.is_prefix_of(samples)
                                &&& samples.len() < words.len() + channels
                            },
                            _ => false,
                        }
                    },
                }
            },
        },
{
    if let Ok((channels, sample_rate, bits_per_sample, float, _)) = wav_header(bytes) {
        let sample_format = if float {
            SampleFormat::Float
        } else {
            SampleFormat::Int
        };
        let spec = WavSpec { channels, sample_rate, bits_per_sample, sample_format };
        if let Ok(samples) = wav_int_samples(bytes) {
            law_decoding_keeps_every_whole_frame(spec, samples, Seq::empty());
            if let Ok(words) = decoded_words(spec, Ok(samples)) {
                assert(words =~= samples.subrange(0, words.len() as int));
            }
        }
    }
}

/// A recording is fine exactly where its header holds the number of samples that
/// it should.
pub proof fn law_a_recording_is_checked_by_its_length(bytes: Seq<u8>, expected: u64)
    ensures
        recording_fault(bytes, expected) is None <==> (wav_header(bytes) is Ok && wav_header(
            bytes,
        )->Ok_0.4 == expected),
        wav_header(bytes) matches Err(e) ==> recording_fault(bytes, expected) == Some(e),
{
}

/// A recording keeps every sample: one that fits 16 bits as it is, and one that
/// does not as the nearest that does.
pub proof fn law_a_recording_keeps_every_sample(samples: Seq<i32>, i: int)
    requires
        0 <= i < samples.len(),
    ensures
        amplitudes(samples).len() == samples.len(),
        -32768 <= samples[i] <= 32767 ==> amplitudes(samples)[i] == samples[i],
        samples[i] < -32768 ==> amplitudes(samples)[i] == -32768,
        samples[i] > 32767 ==> amplitudes(samples)[i] == 32767,
{
}

/// The full scale of a width is the largest value that it holds: none for a single
/// bit, and with every bit more twice as much and one.
pub proof fn law_full_scale_grows_by_a_bit(bits: u16)
    requires
        1 <= bits < 32,
    ensures
        scale_of(1) == 0,
        scale_of((bits + 1) as u16) == 2 * scale_of(bits) + 1,
        scale_of(16) == 32767,
{
    vstd::arithmetic::power2::lemma2_to64();
    vstd::arithmetic::power2::lemma_pow2_unfold(bits as nat);
}

/// Audio at 16 kHz needs no resampling, and half or twice the rate gives twice or
/// half the samples.
pub proof fn law_resampling_goes_by_the_rate(frames: nat)
    ensures
        samples_at_16k(frames as int, 16000) == frames,
        samples_at_16k(frames as int, 8000) == 2 * frames,
        samples_at_16k(2 * frames as int, 32000) == frames,
        samples_at_16k(3 * frames as int, 48000) == frames,
{
}

} // verus!
