use cec_sync::meta_command::{Active, DeckInfo, MetaCommand, Mute, Power, Volume};
use cec_sync::wire::{decode, encode, DecodeError, MAX_ENCODED_LEN};

fn all_commands() -> Vec<MetaCommand> {
    let mut commands = vec![
        MetaCommand::Active(Active::SetSource { cooperative: false }),
        MetaCommand::Active(Active::SetSource { cooperative: true }),
        MetaCommand::Active(Active::Unset),
        MetaCommand::Power(Power::On),
        MetaCommand::Power(Power::Off { cooperative: false }),
        MetaCommand::Power(Power::Off { cooperative: true }),
        MetaCommand::Mute { command: None },
        MetaCommand::Mute { command: Some(Mute::Toggle) },
        MetaCommand::Mute { command: Some(Mute::On) },
        MetaCommand::Mute { command: Some(Mute::Off) },
        MetaCommand::DeckInfo(DeckInfo::Play),
        MetaCommand::DeckInfo(DeckInfo::Still),
        MetaCommand::DeckInfo(DeckInfo::Stop),
    ];
    for v in [0u8, 1, 7, 100, 255] {
        commands.push(MetaCommand::Volume(Volume::Up { steps: v }));
        commands.push(MetaCommand::Volume(Volume::Down { steps: v }));
        commands.push(MetaCommand::Volume(Volume::SetLevel { volume: v }));
    }
    commands
}

#[test]
fn round_trip_every_command() {
    for c in all_commands() {
        let bytes = encode(c);
        assert!(bytes.len() <= MAX_ENCODED_LEN);
        assert_eq!(decode(&bytes), Ok(c));
    }
}

#[test]
fn round_trip_ignores_trailing_bytes() {
    for c in all_commands() {
        let mut bytes = encode(c);
        bytes.extend_from_slice(&[0, 0, 9, 255]);
        assert_eq!(decode(&bytes), Ok(c));
    }
}

#[test]
fn encodes_exact_bytes() {
    assert_eq!(encode(MetaCommand::Volume(Volume::Up { steps: 5 })), vec![2, 0, 5]);
    assert_eq!(encode(MetaCommand::Power(Power::Off { cooperative: true })), vec![1, 1, 1]);
    assert_eq!(encode(MetaCommand::Active(Active::Unset)), vec![0, 1]);
    assert_eq!(encode(MetaCommand::Mute { command: Some(Mute::Off) }), vec![3, 1, 2]);
    assert_eq!(encode(MetaCommand::DeckInfo(DeckInfo::Still)), vec![4, 1]);
}

#[test]
fn decode_truncated() {
    assert_eq!(decode(&[]), Err(DecodeError::Truncated));
    assert_eq!(decode(&[0]), Err(DecodeError::Truncated));
    assert_eq!(decode(&[0, 0]), Err(DecodeError::Truncated));
    assert_eq!(decode(&[2, 2]), Err(DecodeError::Truncated));
    assert_eq!(decode(&[3, 1]), Err(DecodeError::Truncated));
}

#[test]
fn decode_invalid_tags() {
    assert_eq!(decode(&[5, 0, 0]), Err(DecodeError::InvalidTag));
    assert_eq!(decode(&[0, 2, 0]), Err(DecodeError::InvalidTag));
    assert_eq!(decode(&[0, 0, 2]), Err(DecodeError::InvalidTag));
    assert_eq!(decode(&[2, 3]), Err(DecodeError::InvalidTag));
    assert_eq!(decode(&[3, 1, 3]), Err(DecodeError::InvalidTag));
    assert_eq!(decode(&[4, 3]), Err(DecodeError::InvalidTag));
}

#[test]
fn deck_info_order_and_default() {
    assert_eq!(DeckInfo::default(), DeckInfo::Stop);
    assert_eq!(DeckInfo::Play.min(DeckInfo::Stop), DeckInfo::Play);
    assert_eq!(DeckInfo::Stop.min(DeckInfo::Still), DeckInfo::Still);
    assert_eq!(DeckInfo::Still.min(DeckInfo::Play), DeckInfo::Play);
    assert_eq!(DeckInfo::Stop.min(DeckInfo::Stop), DeckInfo::Stop);
}
