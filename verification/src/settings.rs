//! Recorder settings: validation of the requested frequency window and the
//! command line handed to the external recording tool.

use vstd::prelude::*;
use vstd::arithmetic::power2::*;
use vstd::bits::*;
use vstd::string::*;
use crate::clock::{is_utc_stamp, utc_stamp, STAMP_FORMAT};
use crate::scientific::{scientific, to_scientific};
use crate::text::{append_decimal, decimal, digit, digit_char, push_char};

verus! {

/// Lowest frequency the receiver can tune to, in Hz.
pub const MIN_FREQ: u32 = 0;

/// Highest frequency the receiver can tune to, in Hz.
pub const MAX_FREQ: u32 = 30_000_000;

/// Largest zoom level; the zoom is a shift exponent on a 32-bit value.
pub const MAX_ZOOM: u8 = 31;

/// What the recorder captures.
#[derive(Clone, Copy, Debug, PartialEq, Eq, Structural)]
pub enum RecordingType {
    /// Waterfall image capture.
    PNG,
    /// Raw IQ sample capture.
    IQ,
}

/// Why a set of recorder settings was rejected.
#[derive(Clone, Copy, Debug, PartialEq, Eq, Structural)]
pub enum RecorderSettingsError {
    ZoomTooHigh,
    FrequencyAboveMax,
    FrequencyBelowMin,
}

impl RecordingType {
    /// The name of the recording type in a settings summary.
    pub open spec fn label(self) -> Seq<char> {
        match self {
            RecordingType::PNG => "Png"@,
            RecordingType::IQ => "Iq"@,
        }
    }

    pub fn to_string(&self) -> (s: String)
        ensures
            s@ == self.label(),
    {
        match self {
            RecordingType::PNG => "Png".to_owned(),
            RecordingType::IQ => "Iq".to_owned(),
        }
    }
}

/// A requested recording.
#[derive(Clone, Copy, Debug)]
pub struct RecorderSettings {
    rec_type: RecordingType,
    frequency: u32,
    zoom: u8,
    duration: u16,
    interval: Option<u32>,
}

/// Width in Hz of the window that is visible at a zoom level: the full band
/// divided by two to the power of the zoom.
pub open spec fn bandwidth(zoom: u8) -> int {
    (MAX_FREQ - MIN_FREQ) / (pow2(zoom as nat) as int)
}

/// Half of the visible window, the distance from the centre frequency to
/// either edge of the selection.
pub open spec fn half_window(zoom: u8) -> int {
    bandwidth(zoom) / 2
}

/// The verdict on a centre frequency and zoom level. The zoom is judged
/// first, then the upper edge of the selection, then the lower edge.
pub open spec fn verdict(frequency: u32, zoom: u8) -> Result<(), RecorderSettingsError> {
    if zoom > MAX_ZOOM {
        Err(RecorderSettingsError::ZoomTooHigh)
    } else if frequency + half_window(zoom) > MAX_FREQ {
        Err(RecorderSettingsError::FrequencyAboveMax)
    } else if frequency - half_window(zoom) < MIN_FREQ {
        Err(RecorderSettingsError::FrequencyBelowMin)
    } else {
        Ok(())
    }
}

/// `i64::saturating_sub`, which vstd leaves unspecified for signed integers.
///
/// Trusted: the difference of the two operands, held at the nearest bound of
/// `i64` where the exact difference does not fit.
pub assume_specification[ i64::saturating_sub ](x: i64, y: i64) -> (r: i64)
    ensures
        r == if x - y > i64::MAX {
            i64::MAX as int
        } else if x - y < i64::MIN {
            i64::MIN as int
        } else {
            x - y
        },
;

impl RecorderSettings {
    pub closed spec fn spec_rec_type(&self) -> RecordingType {
        self.rec_type
    }

    pub closed spec fn spec_frequency(&self) -> u32 {
        self.frequency
    }

    pub closed spec fn spec_zoom(&self) -> u8 {
        self.zoom
    }

    pub closed spec fn spec_duration(&self) -> u16 {
        self.duration
    }

    pub closed spec fn spec_interval(&self) -> Option<u32> {
        self.interval
    }

    pub fn new(
        rec_type: RecordingType,
        frequency: u32,
        zoom: u8,
        duration: u16,
        interval: Option<u32>,
    ) -> (s: Self)
        ensures
            s.spec_rec_type() == rec_type,
            s.spec_frequency() == frequency,
            s.spec_zoom() == zoom,
            s.spec_duration() == duration,
            s.spec_interval() == interval,
    {
        RecorderSettings { rec_type, frequency, zoom, duration, interval }
    }

    #[verifier::when_used_as_spec(spec_rec_type)]
    pub fn rec_type(&self) -> (r: RecordingType)
        ensures
            r == self.spec_rec_type(),
    {
        self.rec_type
    }

    /// Centre frequency in Hz.
    #[verifier::when_used_as_spec(spec_frequency)]
    pub fn frequency(&self) -> (r: u32)
        ensures
            r == self.spec_frequency(),
    {
        self.frequency
    }

    #[verifier::when_used_as_spec(spec_zoom)]
    pub fn zoom(&self) -> (r: u8)
        ensures
            r == self.spec_zoom(),
    {
        self.zoom
    }

    /// Recording time in seconds; zero records without limit.
    #[verifier::when_used_as_spec(spec_duration)]
    pub fn duration(&self) -> (r: u16)
        ensures
            r == self.spec_duration(),
    {
        self.duration
    }

    /// Seconds between two starts of a repeating job; absent or zero for a
    /// job that runs once.
    #[verifier::when_used_as_spec(spec_interval)]
    pub fn interval(&self) -> (r: Option<u32>)
        ensures
            r == self.spec_interval(),
    {
        self.interval
    }

    /// Checks that the zoom is a legal shift exponent and that the selected
    /// window lies inside the receiver's band.
    pub fn validate(&self) -> (r: Result<(), RecorderSettingsError>)
        ensures
            r == verdict(self.frequency(), self.zoom()),
            self.zoom() > MAX_ZOOM ==> r == Err::<(), _>(RecorderSettingsError::ZoomTooHigh),
            self.zoom() <= MAX_ZOOM && MIN_FREQ <= self.frequency() - half_window(self.zoom())
                && self.frequency() + half_window(self.zoom()) <= MAX_FREQ ==> r is Ok,
    {
        if self.zoom > MAX_ZOOM {
            return Err(RecorderSettingsError::ZoomTooHigh);
        }
        let zoom: u32 = self.zoom as u32;
        let center_freq: u32 = self.frequency;
        proof {
            lemma_u32_pow2_no_overflow(zoom as nat);
            lemma_u32_shl_is_mul(1, zoom);
        }
        let bandwidth: u32 = (MAX_FREQ - MIN_FREQ) / (1u32 << zoom);
        let selection_freq_max: u32 = center_freq.saturating_add(bandwidth / 2);
        let selection_freq_min: i64 = (center_freq as i64).saturating_sub((bandwidth as i64) / 2);
        if selection_freq_max > MAX_FREQ {
            return Err(RecorderSettingsError::FrequencyAboveMax);
        }
        if selection_freq_min < MIN_FREQ as i64 {
            return Err(RecorderSettingsError::FrequencyBelowMin);
        }
        Ok(())
    }
}

/// A frequency in kHz with exactly three decimals.
pub open spec fn kilohertz(frequency: u32) -> Seq<char> {
    decimal((frequency / 1000) as nat) + seq![
        '.',
        digit((frequency % 1000 / 100) as int),
        digit((frequency % 1000 / 10 % 10) as int),
        digit((frequency % 10) as int),
    ]
}

fn append_kilohertz(s: &mut String, frequency: u32)
    ensures
        final(s)@ == old(s)@ + kilohertz(frequency),
{
    let ghost before = s@;
    append_decimal(s, (frequency / 1000) as u64);
    let f: u32 = frequency % 1000;
    push_char(s, '.');
    push_char(s, digit_char((f / 100) as u8));
    push_char(s, digit_char((f / 10 % 10) as u8));
    push_char(s, digit_char((f % 10) as u8));
    assert(s@ =~= before + kilohertz(frequency));
}

impl RecorderSettings {
    /// The stem of the output file name: the job's token, the time of the
    /// start, the frequency in scientific notation, and the zoom level of an
    /// image capture or the fixed bandwidth tag of an IQ capture.
    pub open spec fn station_stem(&self, uid: Seq<char>, stamp: Seq<char>) -> Seq<char> {
        let common = uid + "_"@ + stamp + "_Fq"@ + scientific(self.frequency() as nat);
        match self.rec_type() {
            RecordingType::IQ => common + "_Bw1d2e4"@,
            RecordingType::PNG => common + "_Zm"@ + decimal(self.zoom() as nat),
        }
    }

    /// The arguments that every recording gets: server, port, frequency,
    /// output directory, file name prefix and station stem.
    pub open spec fn common_arguments(&self, uid: Seq<char>, stamp: Seq<char>) -> Seq<Seq<char>> {
        seq![
            "-s"@,
            "127.0.0.1"@,
            "-p"@,
            "8073"@,
            "--freq="@ + kilohertz(self.frequency()),
            "-d"@,
            "/var/recorder/recorded-files/"@,
            "--filename=KiwiRec"@,
            "--station="@ + self.station_stem(uid, stamp),
        ]
    }

    /// The arguments that belong to the recording type.
    pub open spec fn mode_arguments(&self) -> Seq<Seq<char>> {
        match self.rec_type() {
            RecordingType::PNG => seq![
                "--wf"@,
                "--wf-png"@,
                "--speed=4"@,
                "--modulation=am"@,
                "--zoom="@ + decimal(self.zoom() as nat),
            ],
            RecordingType::IQ => seq!["--kiwi-wav"@, "--modulation=iq"@],
        }
    }

    /// The time limit, present where the duration is not zero.
    pub open spec fn limit_arguments(&self) -> Seq<Seq<char>> {
        if self.duration() != 0 {
            seq!["--time-limit="@ + decimal(self.duration() as nat)]
        } else {
            seq![]
        }
    }

    /// The argument vector of the recording tool for a job token and a
    /// start time.
    pub open spec fn arguments(&self, uid: Seq<char>, stamp: Seq<char>) -> Seq<Seq<char>> {
        self.common_arguments(uid, stamp) + self.mode_arguments() + self.limit_arguments()
    }

    /// The one-line description of the settings that a job writes to its log.
    pub open spec fn summary(&self) -> Seq<char> {
        "Type: "@ + self.rec_type().label() + ", Frequency: "@ + decimal(self.frequency() as nat)
            + " Hz, "@ + (match self.rec_type() {
            RecordingType::PNG => "Zoom: "@ + decimal(self.zoom() as nat) + ", "@,
            RecordingType::IQ => Seq::<char>::empty(),
        }) + (match self.interval() {
            Some(every) => "Every "@ + decimal(every as nat) + " sec"@,
            None => "Once"@,
        }) + ", for "@ + decimal(self.duration() as nat) + " sec"@
    }

    /// The file name stem for a given start time.
    pub fn get_filename_stamped(&self, uid: &str, stamp: &str) -> (name: String)
        ensures
            name@ == self.station_stem(uid@, stamp@),
    {
        let mut name = String::new();
        name.append(uid);
        name.append("_");
        name.append(stamp);
        name.append("_Fq");
        let sci = to_scientific(self.frequency);
        name.append(sci.as_str());
        match self.rec_type {
            RecordingType::IQ => {
                name.append("_Bw1d2e4");
            },
            RecordingType::PNG => {
                name.append("_Zm");
                append_decimal(&mut name, self.zoom as u64);
            },
        }
        assert(name@ =~= self.station_stem(uid@, stamp@));
        name
    }

    /// The file name stem for a recording that starts now.
    pub fn get_filename(&self, uid: &str) -> (name: String)
        ensures
            exists|stamp: Seq<char>|
                is_utc_stamp(stamp) && name@ == self.station_stem(uid@, stamp),
    {
        let stamp = utc_stamp(STAMP_FORMAT);
        self.get_filename_stamped(uid, stamp.as_str())
    }

    /// The argument vector for a given start time.
    pub fn as_args_stamped(&self, uid: &str, stamp: &str) -> (args: Vec<String>)
        ensures
            args.deep_view() == self.arguments(uid@, stamp@),
    {
        let mut args: Vec<String> = Vec::new();
        args.push("-s".to_owned());
        args.push("127.0.0.1".to_owned());
        args.push("-p".to_owned());
        args.push("8073".to_owned());
        let mut freq = "--freq=".to_owned();
        append_kilohertz(&mut freq, self.frequency);
        args.push(freq);
        args.push("-d".to_owned());
        args.push("/var/recorder/recorded-files/".to_owned());
        args.push("--filename=KiwiRec".to_owned());
        let mut station = "--station=".to_owned();
        let stem = self.get_filename_stamped(uid, stamp);
        station.append(stem.as_str());
        args.push(station);
        assert(args.deep_view() =~= self.common_arguments(uid@, stamp@));
        match self.rec_type {
            RecordingType::PNG => {
                args.push("--wf".to_owned());
                args.push("--wf-png".to_owned());
                args.push("--speed=4".to_owned());
                args.push("--modulation=am".to_owned());
                let mut zoom = "--zoom=".to_owned();
                append_decimal(&mut zoom, self.zoom as u64);
                args.push(zoom);
            },
            RecordingType::IQ => {
                args.push("--kiwi-wav".to_owned());
                args.push("--modulation=iq".to_owned());
            },
        }
        assert(args.deep_view() =~= self.common_arguments(uid@, stamp@) + self.mode_arguments());
        if self.duration != 0 {
            let mut limit = "--time-limit=".to_owned();
            append_decimal(&mut limit, self.duration as u64);
            args.push(limit);
        }
        assert(args.deep_view() =~= self.arguments(uid@, stamp@));
        args
    }

    /// The argument vector for a recording that starts now.
    pub fn as_args(&self, uid: &str) -> (args: Vec<String>)
        ensures
            exists|stamp: Seq<char>|
                is_utc_stamp(stamp) && args.deep_view() == self.arguments(uid@, stamp),
    {
        let stamp = utc_stamp(STAMP_FORMAT);
        self.as_args_stamped(uid, stamp.as_str())
    }

    /// The settings in words.
    pub fn to_string(&self) -> (s: String)
        ensures
            s@ == self.summary(),
    {
        let mut s = "Type: ".to_owned();
        let label = self.rec_type.to_string();
        s.append(label.as_str());
        s.append(", Frequency: ");
        append_decimal(&mut s, self.frequency as u64);
        s.append(" Hz, ");
        match self.rec_type {
            RecordingType::PNG => {
                s.append("Zoom: ");
                append_decimal(&mut s, self.zoom as u64);
                s.append(", ");
            },
            RecordingType::IQ => {},
        }
        match self.interval {
            Some(every) => {
                s.append("Every ");
                append_decimal(&mut s, every as u64);
                s.append(" sec");
            },
            None => {
                s.append("Once");
            },
        }
        s.append(", for ");
        append_decimal(&mut s, self.duration as u64);
        s.append(" sec");
        assert(s@ =~= self.summary());
        s
    }
}

impl RecorderSettingsError {
    /// The message shown to the caller who sent the settings.
    pub open spec fn message(self) -> Seq<char> {
        match self {
            RecorderSettingsError::ZoomTooHigh => "Zoom too high"@,
            RecorderSettingsError::FrequencyAboveMax =>
                "The selected frequency range exceeds the maximum frequency"@,
            RecorderSettingsError::FrequencyBelowMin =>
                "The selected frequency range exceeds the minimum frequency"@,
        }
    }

    pub fn to_string(&self) -> (s: String)
        ensures
            s@ == self.message(),
    {
        match self {
            RecorderSettingsError::ZoomTooHigh => "Zoom too high".to_owned(),
            RecorderSettingsError::FrequencyAboveMax =>
                "The selected frequency range exceeds the maximum frequency".to_owned(),
            RecorderSettingsError::FrequencyBelowMin =>
                "The selected frequency range exceeds the minimum frequency".to_owned(),
        }
    }
}

} // verus!
