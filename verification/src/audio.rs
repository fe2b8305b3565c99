//! The sound played when a volume changes: a WAV file turned into a sample
//! specification for the audio server and the raw audio data.

use std::io::Cursor;

use vstd::prelude::*;

use crate::text::{decimal, u64_to_decimal};

verus! {

/// What the header of a WAV file says of its samples.
#[derive(Debug, Clone, Copy, PartialEq, Eq, Structural)]
pub struct WavFormat {
    /// Whether the samples are floating point (else integers).
    pub float: bool,
    pub bits_per_sample: u16,
    pub channels: u16,
    pub sample_rate: u32,
}

/// What `hound` reads from the start of a WAV file: its format and the
/// offset of the audio data, or the text of its error.
pub uninterp spec fn wav_header(bytes: Seq<u8>) -> Result<(WavFormat, nat), Seq<char>>;

/// `hound::WavReader::new` on the bytes of a WAV file: it reads the RIFF
/// header and the chunks up to the data chunk. On success the format it read
/// and the position reached (the start of the audio data, never past the
/// end) are returned, else the text of its error. Both are named by
/// `wav_header`; what `hound` accepts is not stated.
#[verifier::external_body]
fn read_wav_header(bytes: &[u8]) -> (r: Result<(WavFormat, usize), String>)
    ensures
        match r {
            Ok((f, o)) => o <= bytes@.len() && wav_header(bytes@) == Ok::<(WavFormat, nat), Seq<char>>((f, o as nat)),
            Err(e) => wav_header(bytes@) == Err::<(WavFormat, nat), Seq<char>>(e@),
        },
{
    match hound::WavReader::new(Cursor::new(bytes)) {
        Ok(reader) => {
            let spec = reader.spec();
            let float = match spec.sample_format {
                hound::SampleFormat::Float => true,
                hound::SampleFormat::Int => false,
            };
            let format = WavFormat { float, bits_per_sample: spec.bits_per_sample, channels: spec.channels, sample_rate: spec.sample_rate };
            Ok((format, reader.into_inner().position() as usize))
        },
        Err(e) => Err(e.to_string()),
    }
}

/// A sample format of the audio server, in the machine's byte order.
#[derive(Debug, Clone, Copy, PartialEq, Eq, Structural)]
pub enum SampleFormat {
    Float32Ne,
    S16Ne,
    S24Ne,
    S32Ne,
}

/// A sample specification for the audio server.
#[derive(Debug, Clone, Copy, PartialEq, Eq, Structural)]
pub struct SampleSpec {
    pub format: SampleFormat,
    pub rate: u32,
    pub channels: u8,
}

/// The most channels the audio server takes.
pub const CHANNELS_MAX: u8 = 32;

/// The highest sample rate the audio server takes.
pub const RATE_MAX: u32 = 768000;

/// The bytes of one sample.
pub open spec fn sample_bytes(f: SampleFormat) -> nat {
    match f {
        SampleFormat::Float32Ne => 4,
        SampleFormat::S16Ne => 2,
        SampleFormat::S24Ne => 3,
        SampleFormat::S32Ne => 4,
    }
}

/// The name of a sample format.
pub open spec fn format_name(f: SampleFormat) -> Seq<char> {
    match f {
        SampleFormat::Float32Ne => "FLOAT32NE"@,
        SampleFormat::S16Ne => "S16NE"@,
        SampleFormat::S24Ne => "S24NE"@,
        SampleFormat::S32Ne => "S32NE"@,
    }
}

/// Whether the audio server takes a specification: a rate and a number of
/// channels within its limits.
pub open spec fn spec_valid(s: SampleSpec) -> bool {
    0 < s.rate <= RATE_MAX && 0 < s.channels <= CHANNELS_MAX
}

/// The text of a specification.
pub open spec fn spec_text(s: SampleSpec) -> Seq<char> {
    "Spec { format: "@ + format_name(s.format) + ", rate: "@ + decimal(s.rate as nat) + ", channels: "@ + decimal(
        s.channels as nat,
    ) + " }"@
}

/// The sample format for a WAV format: 32-bit floats for floating point,
/// else 16, 24 or 32-bit integers; other integer sizes are refused.
pub open spec fn format_for(f: WavFormat) -> Result<SampleFormat, Seq<char>> {
    if f.float {
        Ok(SampleFormat::Float32Ne)
    } else if f.bits_per_sample == 16 {
        Ok(SampleFormat::S16Ne)
    } else if f.bits_per_sample == 24 {
        Ok(SampleFormat::S24Ne)
    } else if f.bits_per_sample == 32 {
        Ok(SampleFormat::S32Ne)
    } else {
        Err("unsupported bits per sample: "@ + decimal(f.bits_per_sample as nat))
    }
}

/// `data` padded with zeros to a multiple of `frame` bytes.
pub open spec fn padded(data: Seq<u8>, frame: nat) -> Seq<u8> {
    let rem = data.len() % frame;
    let pad: nat = if rem == 0 { 0 } else { (frame - rem) as nat };
    data + Seq::new(pad, |i: int| 0u8)
}

/// The sample specification and audio data of a WAV file whose header reads
/// as `header`: the format mapped to the audio server's, the channel count
/// kept to a byte, the data the bytes after the header padded to whole
/// frames.
pub open spec fn wav_sample_of(bytes: Seq<u8>, header: Result<(WavFormat, nat), Seq<char>>) -> Result<
    (SampleSpec, Seq<u8>),
    Seq<char>,
> {
    match header {
        Err(e) => Err(e),
        Ok((f, offset)) => match format_for(f) {
            Err(e) => Err(e),
            Ok(format) => {
                let spec = SampleSpec { format, rate: f.sample_rate, channels: (f.channels % 256) as u8 };
                if spec_valid(spec) {
                    Ok((spec, padded(bytes.skip(offset as int), sample_bytes(format) * (spec.channels as nat))))
                } else {
                    Err("format specification wasn't valid: "@ + spec_text(spec))
                }
            },
        },
    }
}

impl SampleSpec {
    /// Whether the audio server takes this specification.
    pub fn is_valid(&self) -> (r: bool)
        ensures
            r == spec_valid(*self),
    {
        0 < self.rate && self.rate <= RATE_MAX && 0 < self.channels && self.channels <= CHANNELS_MAX
    }

    /// The bytes of one frame: a sample for each channel.
    pub fn frame_size(&self) -> (r: usize)
        ensures
            r == sample_bytes(self.format) * (self.channels as nat),
    {
        let b: usize = match self.format {
            SampleFormat::Float32Ne => 4,
            SampleFormat::S16Ne => 2,
            SampleFormat::S24Ne => 3,
            SampleFormat::S32Ne => 4,
        };
        b * self.channels as usize
    }

    /// The text of this specification.
    pub fn text(&self) -> (r: String)
        ensures
            r@ == spec_text(*self),
    {
        let mut s = String::from_str("Spec { format: ");
        s.append(
            match self.format {
                SampleFormat::Float32Ne => "FLOAT32NE",
                SampleFormat::S16Ne => "S16NE",
                SampleFormat::S24Ne => "S24NE",
                SampleFormat::S32Ne => "S32NE",
            },
        );
        s.append(", rate: ");
        let r = u64_to_decimal(self.rate as u64);
        s.append(r.as_str());
        s.append(", channels: ");
        let c = u64_to_decimal(self.channels as u64);
        s.append(c.as_str());
        s.append(" }");
        s
    }
}

/// The sample format for a WAV format: 32-bit floats for floating point,
/// else 16, 24 or 32-bit integers; other integer sizes are refused.
pub fn sample_format(f: &WavFormat) -> (r: Result<SampleFormat, String>)
    ensures
        match format_for(*f) {
            Ok(s) => r == Ok::<SampleFormat, String>(s),
            Err(m) => r matches Err(e) && e@ == m,
        },
{
    if f.float {
        Ok(SampleFormat::Float32Ne)
    } else if f.bits_per_sample == 16 {
        Ok(SampleFormat::S16Ne)
    } else if f.bits_per_sample == 24 {
        Ok(SampleFormat::S24Ne)
    } else if f.bits_per_sample == 32 {
        Ok(SampleFormat::S32Ne)
    } else {
        let mut e = String::from_str("unsupported bits per sample: ");
        let n = u64_to_decimal(f.bits_per_sample as u64);
        e.append(n.as_str());
        Err(e)
    }
}

/// The sample specification and audio data of a WAV file, given what its
/// header reads as: see [`wav_sample_of`].
pub fn sample_from_header(bytes: &[u8], header: Result<(WavFormat, usize), String>) -> (r: Result<
    (SampleSpec, Vec<u8>),
    String,
>)
    requires
        header matches Ok((_, o)) ==> o <= bytes@.len(),
    ensures
        match wav_sample_of(
            bytes@,
            match header {
                Ok((f, o)) => Ok::<(WavFormat, nat), Seq<char>>((f, o as nat)),
                Err(e) => Err::<(WavFormat, nat), Seq<char>>(e@),
            },
        ) {
            Ok((s, d)) => r matches Ok((t, v)) && t == s && v@ == d,
            Err(m) => r matches Err(e) && e@ == m,
        },
{
    let (f, offset) = match header {
        Ok(h) => h,
        Err(e) => return Err(e),
    };
    let format = match sample_format(&f) {
        Ok(s) => s,
        Err(e) => return Err(e),
    };
    let spec = SampleSpec { format, rate: f.sample_rate, channels: (f.channels % 256) as u8 };
    if !spec.is_valid() {
        let mut e = String::from_str("format specification wasn't valid: ");
        let t = spec.text();
        e.append(t.as_str());
        return Err(e);
    }
    let mut data: Vec<u8> = Vec::new();
    let mut i = offset;
    while i < bytes.len()
        invariant
            offset <= i <= bytes@.len(),
            data@ == bytes@.subrange(offset as int, i as int),
        decreases bytes@.len() - i,
    {
        data.push(bytes[i]);
        i = i + 1;
        assert(data@ =~= bytes@.subrange(offset as int, i as int));
    }
    assert(data@ =~= bytes@.skip(offset as int));
    let frame = spec.frame_size();
    assert(frame > 0) by (nonlinear_arith)
        requires
            frame == sample_bytes(spec.format) * (spec.channels as nat),
            sample_bytes(spec.format) >= 2,
            spec.channels >= 1,
    ;
    let rem = data.len() % frame;
    let pad: usize = if rem == 0 { 0 } else { frame - rem };
    let ghost body = data@;
    let mut k: usize = 0;
    while k < pad
        invariant
            k <= pad,
            data@ == body + Seq::new(k as nat, |j: int| 0u8),
        decreases pad - k,
    {
        data.push(0);
        k = k + 1;
        assert(data@ =~= body + Seq::new(k as nat, |j: int| 0u8));
    }
    Ok((spec, data))
}

/// The sample specification and audio data of the WAV file `bytes`: the
/// header as `hound` reads it, its format mapped to the audio server's, and
/// the bytes after the header padded with zeros to whole frames.
pub fn wav_sample(bytes: &[u8]) -> (r: Result<(SampleSpec, Vec<u8>), String>)
    ensures
        match wav_sample_of(bytes@, wav_header(bytes@)) {
            Ok((s, d)) => r matches Ok((t, v)) && t == s && v@ == d,
            Err(m) => r matches Err(e) && e@ == m,
        },
{
    let header = read_wav_header(bytes);
    sample_from_header(bytes, header)
}

} // verus!
