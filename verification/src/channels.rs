//! The 902 to 928 MHz channel table: each channel maps to the
//! synthesizer programming (centre frequency word and fractional part)
//! that parks the radio on it. Channels zero to twenty-five sit on the
//! 906 MHz centre word, the remaining twenty-six on the 907 MHz word,
//! and the fractional parts repeat the same twenty-six deviations.

use vstd::prelude::*;

verus! {

/// One of the fifty-two radio channels.
#[derive(Copy, Clone, Debug, PartialEq, Eq, Structural)]
pub enum RadioChannel {

    Channel0,
    Channel1,
    Channel2,
    Channel3,
    Channel4,
    Channel5,
    Channel6,
    Channel7,
    Channel8,
    Channel9,
    Channel10,
    Channel11,
    Channel12,
    Channel13,
    Channel14,
    Channel15,
    Channel16,
    Channel17,
    Channel18,
    Channel19,
    Channel20,
    Channel21,
    Channel22,
    Channel23,
    Channel24,
    Channel25,
    Channel26,
    Channel27,
    Channel28,
    Channel29,
    Channel30,
    Channel31,
    Channel32,
    Channel33,
    Channel34,
    Channel35,
    Channel36,
    Channel37,
    Channel38,
    Channel39,
    Channel40,
    Channel41,
    Channel42,
    Channel43,
    Channel44,
    Channel45,
    Channel46,
    Channel47,
    Channel48,
    Channel49,
    Channel50,
    Channel51,
}

/// Synthesizer programming of one channel.
#[derive(Copy, Clone, Debug, PartialEq, Eq, Structural)]
pub struct ChannelParams {
    pub frequency: u16,
    pub fract_freq: u16,
}

/// The fractional frequency deviations shared by both centre words.
pub open spec fn spec_freq_deviation(i: int) -> u16 {

    if i == 0 {
        0x0
    } else if i == 1 {
        0xa34
    } else if i == 2 {
        0x1467
    } else if i == 3 {
        0x1ecd
    } else if i == 4 {
        0x2900
    } else if i == 5 {
        0x3334
    } else if i == 6 {
        0x3d67
    } else if i == 7 {
        0x479a
    } else if i == 8 {
        0x5200
    } else if i == 9 {
        0x5c34
    } else if i == 10 {
        0x6134
    } else if i == 11 {
        0x6b9a
    } else if i == 12 {
        0x75cd
    } else if i == 13 {
        0x8000
    } else if i == 14 {
        0x8a34
    } else if i == 15 {
        0x8467
    } else if i == 16 {
        0x9ecd
    } else if i == 17 {
        0xa900
    } else if i == 18 {
        0xb334
    } else if i == 19 {
        0xbd67
    } else if i == 20 {
        0xc79a
    } else if i == 21 {
        0xd200
    } else if i == 22 {
        0xdc34
    } else if i == 23 {
        0xe134
    } else if i == 24 {
        0xeb9a
    } else {
        0xf5cd
    }

}

/// The synthesizer programming of each channel.
pub open spec fn spec_channel_params(c: RadioChannel) -> ChannelParams {
    match c {
        RadioChannel::Channel0 => ChannelParams { frequency: 0x38a, fract_freq: 0x0 },
        RadioChannel::Channel1 => ChannelParams { frequency: 0x38a, fract_freq: 0xa34 },
        RadioChannel::Channel2 => ChannelParams { frequency: 0x38a, fract_freq: 0x1467 },
        RadioChannel::Channel3 => ChannelParams { frequency: 0x38a, fract_freq: 0x1ecd },
        RadioChannel::Channel4 => ChannelParams { frequency: 0x38a, fract_freq: 0x2900 },
        RadioChannel::Channel5 => ChannelParams { frequency: 0x38a, fract_freq: 0x3334 },
        RadioChannel::Channel6 => ChannelParams { frequency: 0x38a, fract_freq: 0x3d67 },
        RadioChannel::Channel7 => ChannelParams { frequency: 0x38a, fract_freq: 0x479a },
        RadioChannel::Channel8 => ChannelParams { frequency: 0x38a, fract_freq: 0x5200 },
        RadioChannel::Channel9 => ChannelParams { frequency: 0x38a, fract_freq: 0x5c34 },
        RadioChannel::Channel10 => ChannelParams { frequency: 0x38a, fract_freq: 0x6134 },
        RadioChannel::Channel11 => ChannelParams { frequency: 0x38a, fract_freq: 0x6b9a },
        RadioChannel::Channel12 => ChannelParams { frequency: 0x38a, fract_freq: 0x75cd },
        RadioChannel::Channel13 => ChannelParams { frequency: 0x38a, fract_freq: 0x8000 },
        RadioChannel::Channel14 => ChannelParams { frequency: 0x38a, fract_freq: 0x8a34 },
        RadioChannel::Channel15 => ChannelParams { frequency: 0x38a, fract_freq: 0x8467 },
        RadioChannel::Channel16 => ChannelParams { frequency: 0x38a, fract_freq: 0x9ecd },
        RadioChannel::Channel17 => ChannelParams { frequency: 0x38a, fract_freq: 0xa900 },
        RadioChannel::Channel18 => ChannelParams { frequency: 0x38a, fract_freq: 0xb334 },
        RadioChannel::Channel19 => ChannelParams { frequency: 0x38a, fract_freq: 0xbd67 },
        RadioChannel::Channel20 => ChannelParams { frequency: 0x38a, fract_freq: 0xc79a },
        RadioChannel::Channel21 => ChannelParams { frequency: 0x38a, fract_freq: 0xd200 },
        RadioChannel::Channel22 => ChannelParams { frequency: 0x38a, fract_freq: 0xdc34 },
        RadioChannel::Channel23 => ChannelParams { frequency: 0x38a, fract_freq: 0xe134 },
        RadioChannel::Channel24 => ChannelParams { frequency: 0x38a, fract_freq: 0xeb9a },
        RadioChannel::Channel25 => ChannelParams { frequency: 0x38a, fract_freq: 0xf5cd },
        RadioChannel::Channel26 => ChannelParams { frequency: 0x38b, fract_freq: 0x0 },
        RadioChannel::Channel27 => ChannelParams { frequency: 0x38b, fract_freq: 0xa34 },
        RadioChannel::Channel28 => ChannelParams { frequency: 0x38b, fract_freq: 0x1467 },
        RadioChannel::Channel29 => ChannelParams { frequency: 0x38b, fract_freq: 0x1ecd },
        RadioChannel::Channel30 => ChannelParams { frequency: 0x38b, fract_freq: 0x2900 },
        RadioChannel::Channel31 => ChannelParams { frequency: 0x38b, fract_freq: 0x3334 },
        RadioChannel::Channel32 => ChannelParams { frequency: 0x38b, fract_freq: 0x3d67 },
        RadioChannel::Channel33 => ChannelParams { frequency: 0x38b, fract_freq: 0x479a },
        RadioChannel::Channel34 => ChannelParams { frequency: 0x38b, fract_freq: 0x5200 },
        RadioChannel::Channel35 => ChannelParams { frequency: 0x38b, fract_freq: 0x5c34 },
        RadioChannel::Channel36 => ChannelParams { frequency: 0x38b, fract_freq: 0x6134 },
        RadioChannel::Channel37 => ChannelParams { frequency: 0x38b, fract_freq: 0x6b9a },
        RadioChannel::Channel38 => ChannelParams { frequency: 0x38b, fract_freq: 0x75cd },
        RadioChannel::Channel39 => ChannelParams { frequency: 0x38b, fract_freq: 0x8000 },
        RadioChannel::Channel40 => ChannelParams { frequency: 0x38b, fract_freq: 0x8a34 },
        RadioChannel::Channel41 => ChannelParams { frequency: 0x38b, fract_freq: 0x8467 },
        RadioChannel::Channel42 => ChannelParams { frequency: 0x38b, fract_freq: 0x9ecd },
        RadioChannel::Channel43 => ChannelParams { frequency: 0x38b, fract_freq: 0xa900 },
        RadioChannel::Channel44 => ChannelParams { frequency: 0x38b, fract_freq: 0xb334 },
        RadioChannel::Channel45 => ChannelParams { frequency: 0x38b, fract_freq: 0xbd67 },
        RadioChannel::Channel46 => ChannelParams { frequency: 0x38b, fract_freq: 0xc79a },
        RadioChannel::Channel47 => ChannelParams { frequency: 0x38b, fract_freq: 0xd200 },
        RadioChannel::Channel48 => ChannelParams { frequency: 0x38b, fract_freq: 0xdc34 },
        RadioChannel::Channel49 => ChannelParams { frequency: 0x38b, fract_freq: 0xe134 },
        RadioChannel::Channel50 => ChannelParams { frequency: 0x38b, fract_freq: 0xeb9a },
        RadioChannel::Channel51 => ChannelParams { frequency: 0x38b, fract_freq: 0xf5cd },
    }
}

impl RadioChannel {
    /// The synthesizer programming that parks the radio on this
    /// channel.
    pub fn get_channel(&self) -> (r: ChannelParams)
        ensures
            r == spec_channel_params(*self),
    {
        match *self {
            RadioChannel::Channel0 => ChannelParams { frequency: 0x38a, fract_freq: 0x0 },
            RadioChannel::Channel1 => ChannelParams { frequency: 0x38a, fract_freq: 0xa34 },
            RadioChannel::Channel2 => ChannelParams { frequency: 0x38a, fract_freq: 0x1467 },
            RadioChannel::Channel3 => ChannelParams { frequency: 0x38a, fract_freq: 0x1ecd },
            RadioChannel::Channel4 => ChannelParams { frequency: 0x38a, fract_freq: 0x2900 },
            RadioChannel::Channel5 => ChannelParams { frequency: 0x38a, fract_freq: 0x3334 },
            RadioChannel::Channel6 => ChannelParams { frequency: 0x38a, fract_freq: 0x3d67 },
            RadioChannel::Channel7 => ChannelParams { frequency: 0x38a, fract_freq: 0x479a },
            RadioChannel::Channel8 => ChannelParams { frequency: 0x38a, fract_freq: 0x5200 },
            RadioChannel::Channel9 => ChannelParams { frequency: 0x38a, fract_freq: 0x5c34 },
            RadioChannel::Channel10 => ChannelParams { frequency: 0x38a, fract_freq: 0x6134 },
            RadioChannel::Channel11 => ChannelParams { frequency: 0x38a, fract_freq: 0x6b9a },
            RadioChannel::Channel12 => ChannelParams { frequency: 0x38a, fract_freq: 0x75cd },
            RadioChannel::Channel13 => ChannelParams { frequency: 0x38a, fract_freq: 0x8000 },
            RadioChannel::Channel14 => ChannelParams { frequency: 0x38a, fract_freq: 0x8a34 },
            RadioChannel::Channel15 => ChannelParams { frequency: 0x38a, fract_freq: 0x8467 },
            RadioChannel::Channel16 => ChannelParams { frequency: 0x38a, fract_freq: 0x9ecd },
            RadioChannel::Channel17 => ChannelParams { frequency: 0x38a, fract_freq: 0xa900 },
            RadioChannel::Channel18 => ChannelParams { frequency: 0x38a, fract_freq: 0xb334 },
            RadioChannel::Channel19 => ChannelParams { frequency: 0x38a, fract_freq: 0xbd67 },
            RadioChannel::Channel20 => ChannelParams { frequency: 0x38a, fract_freq: 0xc79a },
            RadioChannel::Channel21 => ChannelParams { frequency: 0x38a, fract_freq: 0xd200 },
            RadioChannel::Channel22 => ChannelParams { frequency: 0x38a, fract_freq: 0xdc34 },
            RadioChannel::Channel23 => ChannelParams { frequency: 0x38a, fract_freq: 0xe134 },
            RadioChannel::Channel24 => ChannelParams { frequency: 0x38a, fract_freq: 0xeb9a },
            RadioChannel::Channel25 => ChannelParams { frequency: 0x38a, fract_freq: 0xf5cd },
            RadioChannel::Channel26 => ChannelParams { frequency: 0x38b, fract_freq: 0x0 },
            RadioChannel::Channel27 => ChannelParams { frequency: 0x38b, fract_freq: 0xa34 },
            RadioChannel::Channel28 => ChannelParams { frequency: 0x38b, fract_freq: 0x1467 },
            RadioChannel::Channel29 => ChannelParams { frequency: 0x38b, fract_freq: 0x1ecd },
            RadioChannel::Channel30 => ChannelParams { frequency: 0x38b, fract_freq: 0x2900 },
            RadioChannel::Channel31 => ChannelParams { frequency: 0x38b, fract_freq: 0x3334 },
            RadioChannel::Channel32 => ChannelParams { frequency: 0x38b, fract_freq: 0x3d67 },
            RadioChannel::Channel33 => ChannelParams { frequency: 0x38b, fract_freq: 0x479a },
            RadioChannel::Channel34 => ChannelParams { frequency: 0x38b, fract_freq: 0x5200 },
            RadioChannel::Channel35 => ChannelParams { frequency: 0x38b, fract_freq: 0x5c34 },
            RadioChannel::Channel36 => ChannelParams { frequency: 0x38b, fract_freq: 0x6134 },
            RadioChannel::Channel37 => ChannelParams { frequency: 0x38b, fract_freq: 0x6b9a },
            RadioChannel::Channel38 => ChannelParams { frequency: 0x38b, fract_freq: 0x75cd },
            RadioChannel::Channel39 => ChannelParams { frequency: 0x38b, fract_freq: 0x8000 },
            RadioChannel::Channel40 => ChannelParams { frequency: 0x38b, fract_freq: 0x8a34 },
            RadioChannel::Channel41 => ChannelParams { frequency: 0x38b, fract_freq: 0x8467 },
            RadioChannel::Channel42 => ChannelParams { frequency: 0x38b, fract_freq: 0x9ecd },
            RadioChannel::Channel43 => ChannelParams { frequency: 0x38b, fract_freq: 0xa900 },
            RadioChannel::Channel44 => ChannelParams { frequency: 0x38b, fract_freq: 0xb334 },
            RadioChannel::Channel45 => ChannelParams { frequency: 0x38b, fract_freq: 0xbd67 },
            RadioChannel::Channel46 => ChannelParams { frequency: 0x38b, fract_freq: 0xc79a },
            RadioChannel::Channel47 => ChannelParams { frequency: 0x38b, fract_freq: 0xd200 },
            RadioChannel::Channel48 => ChannelParams { frequency: 0x38b, fract_freq: 0xdc34 },
            RadioChannel::Channel49 => ChannelParams { frequency: 0x38b, fract_freq: 0xe134 },
            RadioChannel::Channel50 => ChannelParams { frequency: 0x38b, fract_freq: 0xeb9a },
            RadioChannel::Channel51 => ChannelParams { frequency: 0x38b, fract_freq: 0xf5cd },
        }
    }
}

/// The twenty-six fractional frequency deviations, in channel order.
pub fn freq_deviations() -> (r: Vec<u16>)
    ensures
        r@.len() == 26,
        forall|i: int| 0 <= i < 26 ==> r@[i] == spec_freq_deviation(i),
{
    let mut r: Vec<u16> = Vec::new();
    r.push(0x0);
    r.push(0xa34);
    r.push(0x1467);
    r.push(0x1ecd);
    r.push(0x2900);
    r.push(0x3334);
    r.push(0x3d67);
    r.push(0x479a);
    r.push(0x5200);
    r.push(0x5c34);
    r.push(0x6134);
    r.push(0x6b9a);
    r.push(0x75cd);
    r.push(0x8000);
    r.push(0x8a34);
    r.push(0x8467);
    r.push(0x9ecd);
    r.push(0xa900);
    r.push(0xb334);
    r.push(0xbd67);
    r.push(0xc79a);
    r.push(0xd200);
    r.push(0xdc34);
    r.push(0xe134);
    r.push(0xeb9a);
    r.push(0xf5cd);
    proof {
        assert forall|i: int| 0 <= i < 26 implies r@[i] == spec_freq_deviation(i) by {}
    }
    r
}

} // verus!
