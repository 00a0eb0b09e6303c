use hedera_exec::entity_id::{checksum_for, validate_optional_checksum, EntityId, LedgerId};
use hedera_exec::error::Error;

fn mainnet() -> LedgerId {
    LedgerId { bytes: vec![0] }
}

fn testnet() -> LedgerId {
    LedgerId { bytes: vec![1] }
}

#[test]
fn checksum_of_known_addresses() {
    assert_eq!(&checksum_for(0, 0, 123, &mainnet()), b"vfmkw");
    assert_eq!(&checksum_for(0, 0, 123, &testnet()), b"esxsf");
}

#[test]
fn checksum_differs_across_ledgers() {
    assert_ne!(checksum_for(0, 0, 1001, &mainnet()), checksum_for(0, 0, 1001, &testnet()));
}

#[test]
fn correct_checksum_validates() {
    let c = checksum_for(1, 2, 3456, &mainnet());
    let id = EntityId { shard: 1, realm: 2, num: 3456, checksum: Some(c) };
    assert_eq!(id.validate_checksum(&mainnet()), Ok(()));
}

#[test]
fn every_single_letter_change_fails() {
    let c = checksum_for(0, 0, 98765, &testnet());
    for i in 0..5 {
        for letter in b'a'..=b'z' {
            if letter == c[i] {
                continue;
            }
            let mut changed = c;
            changed[i] = letter;
            let id = EntityId { shard: 0, realm: 0, num: 98765, checksum: Some(changed) };
            assert_eq!(
                id.validate_checksum(&testnet()),
                Err(Error::BadEntityId {
                    shard: 0,
                    realm: 0,
                    num: 98765,
                    present_checksum: changed,
                    expected_checksum: c,
                })
            );
        }
    }
}

#[test]
fn absent_checksum_passes() {
    let id = EntityId::from_num(1001);
    assert_eq!(id.validate_checksum(&mainnet()), Ok(()));
    assert_eq!(validate_optional_checksum(&None, &mainnet()), Ok(()));
}

#[test]
fn checksum_from_other_ledger_fails() {
    let c = checksum_for(0, 0, 123, &testnet());
    let id = EntityId { shard: 0, realm: 0, num: 123, checksum: Some(c) };
    assert!(id.validate_checksum(&mainnet()).is_err());
    assert!(validate_optional_checksum(&Some(id), &mainnet()).is_err());
}
