//! Common genre numbers of the ID3v1 genre list.

use vstd::prelude::*;

verus! {

/// Blues.
pub const BLUES: u8 = 0;

/// Classic rock.
pub const CLASSIC_ROCK: u8 = 1;

/// Country.
pub const COUNTRY: u8 = 2;

/// Dance.
pub const DANCE: u8 = 3;

/// Disco.
pub const DISCO: u8 = 4;

/// Funk.
pub const FUNK: u8 = 5;

/// Grunge.
pub const GRUNGE: u8 = 6;

/// Hip-hop.
pub const HIP_HOP: u8 = 7;

/// Jazz.
pub const JAZZ: u8 = 8;

/// Metal.
pub const METAL: u8 = 9;

/// New age.
pub const NEW_AGE: u8 = 10;

/// Oldies.
pub const OLDIES: u8 = 11;

/// Other.
pub const OTHER: u8 = 12;

/// Pop.
pub const POP: u8 = 13;

/// Rhythm and blues.
pub const RNB: u8 = 14;

/// Rap.
pub const RAP: u8 = 15;

/// Reggae.
pub const REGGAE: u8 = 16;

/// Rock.
pub const ROCK: u8 = 17;

/// Techno.
pub const TECHNO: u8 = 18;

/// Industrial.
pub const INDUSTRIAL: u8 = 19;

/// Alternative.
pub const ALTERNATIVE: u8 = 20;

/// Ska.
pub const SKA: u8 = 21;

/// Death metal.
pub const DEATH_METAL: u8 = 22;

/// Pranks.
pub const PRANKS: u8 = 23;

/// Soundtrack.
pub const SOUNDTRACK: u8 = 24;

/// Euro-techno.
pub const EURO_TECHNO: u8 = 25;

/// Ambient.
pub const AMBIENT: u8 = 26;

/// Trip-hop.
pub const TRIP_HOP: u8 = 27;

/// Vocal.
pub const VOCAL: u8 = 28;

/// Jazz-funk.
pub const JAZZ_FUNK: u8 = 29;

/// Fusion.
pub const FUSION: u8 = 30;

/// Trance.
pub const TRANCE: u8 = 31;

/// Classical.
pub const CLASSICAL: u8 = 32;

/// Instrumental.
pub const INSTRUMENTAL: u8 = 33;

/// Acid.
pub const ACID: u8 = 34;

/// House.
pub const HOUSE: u8 = 35;

/// Game.
pub const GAME: u8 = 36;

/// Sound clip.
pub const SOUND_CLIP: u8 = 37;

/// Gospel.
pub const GOSPEL: u8 = 38;

/// Noise.
pub const NOISE: u8 = 39;

/// Alternative rock.
pub const ALTERNATIVE_ROCK: u8 = 40;

/// Bass.
pub const BASS: u8 = 41;

/// Soul.
pub const SOUL: u8 = 42;

/// Punk.
pub const PUNK: u8 = 43;

/// Space.
pub const SPACE: u8 = 44;

/// Meditative.
pub const MEDITATIVE: u8 = 45;

/// Instrumental pop.
pub const INSTRUMENTAL_POP: u8 = 46;

/// Instrumental rock.
pub const INSTRUMENTAL_ROCK: u8 = 47;

/// Ethnic.
pub const ETHNIC: u8 = 48;

/// Gothic.
pub const GOTHIC: u8 = 49;

/// Darkwave.
pub const DARKWAVE: u8 = 50;

} // verus!
