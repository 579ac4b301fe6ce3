//! The datagram encoding of a [`MetaCommand`]: one byte for each variant
//! tag, followed by the variant's fields in order, a `bool` as `0` or `1`, a
//! `u8` as itself, and an `Option` as `0` for `None` or `1` and the value.
//! A datagram may hold bytes after the command; they are ignored.
use vstd::prelude::*;

use crate::meta_command::{Active, DeckInfo, MetaCommand, Mute, Power, Volume};

verus! {

/// The longest encoding of any command.
pub const MAX_ENCODED_LEN: usize = 3;

/// Why a datagram does not hold a command.
#[derive(Debug, Clone, Copy, PartialEq, Eq, Structural)]
pub enum DecodeError {
    /// The datagram ends before the command does.
    Truncated,
    /// A tag or a `bool` holds a value that no variant has.
    InvalidTag,
}

pub open spec fn bool_byte(b: bool) -> u8 {
    if b {
        1
    } else {
        0
    }
}

pub open spec fn mute_tag(m: Mute) -> u8 {
    match m {
        Mute::Toggle => 0,
        Mute::On => 1,
        Mute::Off => 2,
    }
}

pub open spec fn deck_tag(d: DeckInfo) -> u8 {
    match d {
        DeckInfo::Play => 0,
        DeckInfo::Still => 1,
        DeckInfo::Stop => 2,
    }
}

/// The bytes that stand for `c`.
pub open spec fn encoding(c: MetaCommand) -> Seq<u8> {
    match c {
        MetaCommand::Active(Active::SetSource { cooperative }) => seq![0, 0, bool_byte(cooperative)],
        MetaCommand::Active(Active::Unset) => seq![0, 1],
        MetaCommand::Power(Power::On) => seq![1, 0],
        MetaCommand::Power(Power::Off { cooperative }) => seq![1, 1, bool_byte(cooperative)],
        MetaCommand::Volume(Volume::Up { steps }) => seq![2, 0, steps],
        MetaCommand::Volume(Volume::Down { steps }) => seq![2, 1, steps],
        MetaCommand::Volume(Volume::SetLevel { volume }) => seq![2, 2, volume],
        MetaCommand::Mute { command } => match command {
            None => seq![3, 0],
            Some(m) => seq![3, 1, mute_tag(m)],
        },
        MetaCommand::DeckInfo(d) => seq![4, deck_tag(d)],
    }
}

/// The byte at `i`, if the datagram reaches that far.
pub open spec fn byte_at(b: Seq<u8>, i: int) -> Result<u8, DecodeError> {
    if 0 <= i < b.len() {
        Ok(b[i])
    } else {
        Err(DecodeError::Truncated)
    }
}

/// The `bool` at `i`.
pub open spec fn bool_at(b: Seq<u8>, i: int) -> Result<bool, DecodeError> {
    match byte_at(b, i) {
        Ok(0) => Ok(false),
        Ok(1) => Ok(true),
        Ok(_) => Err(DecodeError::InvalidTag),
        Err(e) => Err(e),
    }
}

/// The command at the start of `b`, or why there is none.
pub open spec fn decoded(b: Seq<u8>) -> Result<MetaCommand, DecodeError> {
    match byte_at(b, 0) {
        Err(e) => Err(e),
        Ok(0) => match byte_at(b, 1) {
            Err(e) => Err(e),
            Ok(0) => match bool_at(b, 2) {
                Ok(cooperative) => Ok(MetaCommand::Active(Active::SetSource { cooperative })),
                Err(e) => Err(e),
            },
            Ok(1) => Ok(MetaCommand::Active(Active::Unset)),
            Ok(_) => Err(DecodeError::InvalidTag),
        },
        Ok(1) => match byte_at(b, 1) {
            Err(e) => Err(e),
            Ok(0) => Ok(MetaCommand::Power(Power::On)),
            Ok(1) => match bool_at(b, 2) {
                Ok(cooperative) => Ok(MetaCommand::Power(Power::Off { cooperative })),
                Err(e) => Err(e),
            },
            Ok(_) => Err(DecodeError::InvalidTag),
        },
        Ok(2) => match (byte_at(b, 1), byte_at(b, 2)) {
            (Err(e), _) => Err(e),
            (Ok(tag), _) if tag > 2 => Err(DecodeError::InvalidTag),
            (_, Err(e)) => Err(e),
            (Ok(0), Ok(v)) => Ok(MetaCommand::Volume(Volume::Up { steps: v })),
            (Ok(1), Ok(v)) => Ok(MetaCommand::Volume(Volume::Down { steps: v })),
            (Ok(_), Ok(v)) => Ok(MetaCommand::Volume(Volume::SetLevel { volume: v })),
        },
        Ok(3) => match byte_at(b, 1) {
            Err(e) => Err(e),
            Ok(0) => Ok(MetaCommand::Mute { command: None }),
            Ok(1) => match byte_at(b, 2) {
                Err(e) => Err(e),
                Ok(0) => Ok(MetaCommand::Mute { command: Some(Mute::Toggle) }),
                Ok(1) => Ok(MetaCommand::Mute { command: Some(Mute::On) }),
                Ok(2) => Ok(MetaCommand::Mute { command: Some(Mute::Off) }),
                Ok(_) => Err(DecodeError::InvalidTag),
            },
            Ok(_) => Err(DecodeError::InvalidTag),
        },
        Ok(4) => match byte_at(b, 1) {
            Err(e) => Err(e),
            Ok(0) => Ok(MetaCommand::DeckInfo(DeckInfo::Play)),
            Ok(1) => Ok(MetaCommand::DeckInfo(DeckInfo::Still)),
            Ok(2) => Ok(MetaCommand::DeckInfo(DeckInfo::Stop)),
            Ok(_) => Err(DecodeError::InvalidTag),
        },
        Ok(_) => Err(DecodeError::InvalidTag),
    }
}

fn bool_to_byte(b: bool) -> (r: u8)
    ensures
        r == bool_byte(b),
{
    if b {
        1
    } else {
        0
    }
}

/// Encodes a command for a datagram.
pub fn encode(c: MetaCommand) -> (r: Vec<u8>)
    ensures
        r@ == encoding(c),
        r@.len() <= MAX_ENCODED_LEN,
{
    let r = match c {
        MetaCommand::Active(Active::SetSource { cooperative }) => vec![0, 0, bool_to_byte(cooperative)],
        MetaCommand::Active(Active::Unset) => vec![0, 1],
        MetaCommand::Power(Power::On) => vec![1, 0],
        MetaCommand::Power(Power::Off { cooperative }) => vec![1, 1, bool_to_byte(cooperative)],
        MetaCommand::Volume(Volume::Up { steps }) => vec![2, 0, steps],
        MetaCommand::Volume(Volume::Down { steps }) => vec![2, 1, steps],
        MetaCommand::Volume(Volume::SetLevel { volume }) => vec![2, 2, volume],
        MetaCommand::Mute { command } => match command {
            None => vec![3, 0],
            Some(Mute::Toggle) => vec![3, 1, 0],
            Some(Mute::On) => vec![3, 1, 1],
            Some(Mute::Off) => vec![3, 1, 2],
        },
        MetaCommand::DeckInfo(DeckInfo::Play) => vec![4, 0],
        MetaCommand::DeckInfo(DeckInfo::Still) => vec![4, 1],
        MetaCommand::DeckInfo(DeckInfo::Stop) => vec![4, 2],
    };
    assert(r@ =~= encoding(c));
    r
}

fn read_byte(b: &[u8], i: usize) -> (r: Result<u8, DecodeError>)
    ensures
        r == byte_at(b@, i as int),
{
    if i < b.len() {
        Ok(b[i])
    } else {
        Err(DecodeError::Truncated)
    }
}

fn read_bool(b: &[u8], i: usize) -> (r: Result<bool, DecodeError>)
    ensures
        r == bool_at(b@, i as int),
{
    match read_byte(b, i) {
        Ok(0) => Ok(false),
        Ok(1) => Ok(true),
        Ok(_) => Err(DecodeError::InvalidTag),
        Err(e) => Err(e),
    }
}

/// Decodes the command at the start of a datagram.
pub fn decode(b: &[u8]) -> (r: Result<MetaCommand, DecodeError>)
    ensures
        r == decoded(b@),
{
    match read_byte(b, 0)? {
        0 => match read_byte(b, 1)? {
            0 => Ok(MetaCommand::Active(Active::SetSource { cooperative: read_bool(b, 2)? })),
            1 => Ok(MetaCommand::Active(Active::Unset)),
            _ => Err(DecodeError::InvalidTag),
        },
        1 => match read_byte(b, 1)? {
            0 => Ok(MetaCommand::Power(Power::On)),
            1 => Ok(MetaCommand::Power(Power::Off { cooperative: read_bool(b, 2)? })),
            _ => Err(DecodeError::InvalidTag),
        },
        2 => {
            let tag = read_byte(b, 1)?;
            if tag > 2 {
                return Err(DecodeError::InvalidTag);
            }
            let v = read_byte(b, 2)?;
            if tag == 0 {
                Ok(MetaCommand::Volume(Volume::Up { steps: v }))
            } else if tag == 1 {
                Ok(MetaCommand::Volume(Volume::Down { steps: v }))
            } else {
                Ok(MetaCommand::Volume(Volume::SetLevel { volume: v }))
            }
        },
        3 => match read_byte(b, 1)? {
            0 => Ok(MetaCommand::Mute { command: None }),
            1 => match read_byte(b, 2)? {
                0 => Ok(MetaCommand::Mute { command: Some(Mute::Toggle) }),
                1 => Ok(MetaCommand::Mute { command: Some(Mute::On) }),
                2 => Ok(MetaCommand::Mute { command: Some(Mute::Off) }),
                _ => Err(DecodeError::InvalidTag),
            },
            _ => Err(DecodeError::InvalidTag),
        },
        4 => match read_byte(b, 1)? {
            0 => Ok(MetaCommand::DeckInfo(DeckInfo::Play)),
            1 => Ok(MetaCommand::DeckInfo(DeckInfo::Still)),
            2 => Ok(MetaCommand::DeckInfo(DeckInfo::Stop)),
            _ => Err(DecodeError::InvalidTag),
        },
        _ => Err(DecodeError::InvalidTag),
    }
}

/// Decoding the encoding of a command gives the command back, whatever
/// follows it in the datagram.
pub proof fn lemma_round_trip(c: MetaCommand, rest: Seq<u8>)
    ensures
        decoded(encoding(c) + rest) == Ok::<MetaCommand, DecodeError>(c),
        decoded(encoding(c)) == Ok::<MetaCommand, DecodeError>(c),
{
    let b = encoding(c) + rest;
    assert(b[0] == encoding(c)[0]);
    assert(b[1] == encoding(c)[1]);
    if encoding(c).len() > 2 {
        assert(b[2] == encoding(c)[2]);
    }
}

} // verus!
