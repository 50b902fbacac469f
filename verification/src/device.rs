//! Device resolution and stream-configuration negotiation: pure decisions
//! over the device names and configuration descriptions that the host
//! reports, so that the surrounding process only has to enumerate and obey.

use vstd::prelude::*;
use vstd::utf8::encode_utf8;

verus! {

/// The fixed output sample rate of the audio protocol, in Hz.
pub const TARGET_SAMPLE_RATE: u32 = 16000;

/// The sample representation a configuration reports. Anything but 32-bit
/// float, signed 16-bit or unsigned 16-bit samples is unsupported.
#[derive(Clone, Copy, Debug, PartialEq, Eq, Structural)]
pub enum SampleKind {
    Float32,
    Int16,
    Uint16,
    Other,
}

/// One supported input configuration, as the host reports it: its channel
/// count, the highest sample rate it offers, and its sample representation.
#[derive(Clone, Copy, Debug, PartialEq, Eq, Structural)]
pub struct ConfigDesc {
    pub channels: u16,
    pub max_rate: u32,
    pub kind: SampleKind,
}

/// Everything a new capture session is built from: the negotiated rate and
/// representation, and whether a rate converter is needed at all.
#[derive(Clone, Copy, Debug, PartialEq, Eq, Structural)]
pub struct SessionPlan {
    pub channels: u16,
    pub sample_rate: u32,
    pub kind: SampleKind,
    pub use_converter: bool,
}

/// Why a Start attempt could not produce a session. Every one of these is
/// swallowed silently: the controller just stays idle.
#[derive(Clone, Copy, Debug, PartialEq, Eq, Structural)]
pub enum StartError {
    /// No device matched the requested name.
    DeviceNotFound,
    /// The device reported no configuration with a non-zero channel count.
    NoSupportedConfig,
    /// The chosen configuration's sample representation is not one of the
    /// three supported ones.
    UnsupportedFormat,
    /// The rate converter could not be constructed.
    ResamplerFailed,
    /// The input stream could not be built or started.
    StreamBuildFailed,
}

/// Whether the (UTF-8 encoded) requested name selects the default device:
/// the name is absent, empty, or equals "default" up to ASCII case.
pub open spec fn spec_wants_default(name: Option<Seq<u8>>) -> bool {
    match name {
        Option::None => true,
        Option::Some(bs) => bs.len() == 0 || is_default_token(bs),
    }
}

/// Case-insensitive (ASCII) equality with the reserved token "default".
pub open spec fn is_default_token(bs: Seq<u8>) -> bool {
    bs.len() == 7 && eq_ignore_ascii_case(bs[0], 0x64) && eq_ignore_ascii_case(bs[1], 0x65)
        && eq_ignore_ascii_case(bs[2], 0x66) && eq_ignore_ascii_case(bs[3], 0x61)
        && eq_ignore_ascii_case(bs[4], 0x75) && eq_ignore_ascii_case(bs[5], 0x6c)
        && eq_ignore_ascii_case(bs[6], 0x74)
}

/// Whether `b` equals the lowercase ASCII letter `lower`, ignoring case.
pub open spec fn eq_ignore_ascii_case(b: u8, lower: u8) -> bool {
    b == lower || b + 0x20 == lower
}

/// Decide whether a Start request names the default input device.
pub fn wants_default(device_name: &Option<String>) -> (b: bool)
    ensures
        b == spec_wants_default(
            match device_name {
                Option::None => Option::None,
                Option::Some(s) => Option::Some(encode_utf8(s@)),
            },
        ),
{
    match device_name {
        Option::None => true,
        Option::Some(name) => {
            let bs = name.as_str().as_bytes();
            if bs.len() == 0 {
                true
            } else if bs.len() != 7 {
                false
            } else {
                eq_ci(bs[0], 0x64) && eq_ci(bs[1], 0x65) && eq_ci(bs[2], 0x66) && eq_ci(
                    bs[3],
                    0x61,
                ) && eq_ci(bs[4], 0x75) && eq_ci(bs[5], 0x6c) && eq_ci(bs[6], 0x74)
            }
        },
    }
}

/// Whether `b` equals the lowercase ASCII letter `lower`, ignoring case.
fn eq_ci(b: u8, lower: u8) -> (r: bool)
    requires
        0x61 <= lower <= 0x7a,
    ensures
        r == eq_ignore_ascii_case(b, lower),
{
    b == lower || (b >= 0x41 && b <= 0x5a && b + 0x20 == lower)
}

/// The first index whose name equals the target exactly, if any.
pub open spec fn spec_find_device(names: Seq<Seq<char>>, target: Seq<char>) -> Option<int>
    decreases names.len(),
{
    if names.len() == 0 {
        Option::None
    } else if names[0] == target {
        Option::Some(0int)
    } else {
        match spec_find_device(names.skip(1), target) {
            Option::None => Option::None,
            Option::Some(i) => Option::Some(i + 1),
        }
    }
}

/// Find the requested device: the first name in enumeration order that
/// equals the target, compared exactly and case-sensitively.
pub fn find_device(names: &Vec<String>, target: &String) -> (r: Option<usize>)
    ensures
        match r {
            Option::Some(i) => {
                &&& i < names@.len()
                &&& names.deep_view()[i as int] == target@
                &&& forall|j: int| 0 <= j < i ==> names.deep_view()[j] != target@
            },
            Option::None => forall|j: int|
                0 <= j < names@.len() ==> names.deep_view()[j] != target@,
        },
{
    let mut i: usize = 0;
    while i < names.len()
        invariant
            i <= names@.len(),
            forall|j: int| 0 <= j < i ==> names.deep_view()[j] != target@,
        decreases names@.len() - i,
    {
        proof {
            assert(names.deep_view()[i as int] == names@[i as int]@);
        }
        if names[i].eq(target) {
            return Some(i);
        }
        i = i + 1;
    }
    None
}

/// The first configuration that reports a non-zero channel count, if any.
pub open spec fn spec_negotiate(configs: Seq<ConfigDesc>) -> Option<ConfigDesc>
    decreases configs.len(),
{
    if configs.len() == 0 {
        Option::None
    } else if configs[0].channels > 0 {
        Option::Some(configs[0])
    } else {
        spec_negotiate(configs.skip(1))
    }
}

/// Pick the stream configuration: the first one with a non-zero channel
/// count, which the session then runs at that configuration's maximum rate.
pub fn negotiate(configs: &Vec<ConfigDesc>) -> (r: Option<ConfigDesc>)
    ensures
        r == spec_negotiate(configs@),
{
    let mut i: usize = 0;
    proof {
        assert(configs@.skip(0) =~= configs@);
    }
    while i < configs.len()
        invariant
            i <= configs@.len(),
            spec_negotiate(configs@) == spec_negotiate(configs@.skip(i as int)),
        decreases configs@.len() - i,
    {
        if configs[i].channels > 0 {
            proof {
                assert(configs@.skip(i as int)[0] == configs@[i as int]);
            }
            return Some(configs[i]);
        }
        i = i + 1;
        proof {
            assert(configs@.skip(i - 1).skip(1) =~= configs@.skip(i as int));
        }
    }
    None
}

/// What `plan_start` must decide for each combination of inputs.
pub open spec fn spec_plan_start(device_found: bool, configs: Seq<ConfigDesc>) -> Result<
    SessionPlan,
    StartError,
> {
    if !device_found {
        Result::Err(StartError::DeviceNotFound)
    } else {
        match spec_negotiate(configs) {
            Option::None => Result::Err(StartError::NoSupportedConfig),
            Option::Some(c) => {
                if c.kind == SampleKind::Other {
                    Result::Err(StartError::UnsupportedFormat)
                } else {
                    Result::Ok(
                        SessionPlan {
                            channels: c.channels,
                            sample_rate: c.max_rate,
                            kind: c.kind,
                            use_converter: c.max_rate != TARGET_SAMPLE_RATE,
                        },
                    )
                }
            },
        }
    }
}

/// The whole Start decision: given whether the requested device resolved and
/// the configurations it reports, either the plan for the new session — its
/// negotiated rate, its sample representation, and whether a converter is
/// needed because that rate differs from the 16000 Hz target — or the reason
/// the attempt fails.
pub fn plan_start(device_found: bool, configs: &Vec<ConfigDesc>) -> (r: Result<
    SessionPlan,
    StartError,
>)
    ensures
        r == spec_plan_start(device_found, configs@),
{
    if !device_found {
        return Err(StartError::DeviceNotFound);
    }
    match negotiate(configs) {
        None => Err(StartError::NoSupportedConfig),
        Some(c) => {
            match c.kind {
                SampleKind::Other => Err(StartError::UnsupportedFormat),
                _ => Ok(
                    SessionPlan {
                        channels: c.channels,
                        sample_rate: c.max_rate,
                        kind: c.kind,
                        use_converter: c.max_rate != TARGET_SAMPLE_RATE,
                    },
                ),
            }
        },
    }
}

/// An absent name, an empty name, and the token "default" in any ASCII case
/// all select the default input device.
pub proof fn lemma_default_selectors()
    ensures
        spec_wants_default(Option::None),
        spec_wants_default(Option::Some(Seq::<u8>::empty())),
        spec_wants_default(Option::Some(seq![0x64, 0x65, 0x66, 0x61, 0x75, 0x6c, 0x74])),
        spec_wants_default(Option::Some(seq![0x44, 0x45, 0x46, 0x41, 0x55, 0x4c, 0x54])),
        spec_wants_default(Option::Some(seq![0x44, 0x65, 0x66, 0x61, 0x75, 0x6c, 0x74])),
{
}

} // verus!
