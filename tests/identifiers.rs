use ark_indexer::felt::Felt;
use ark_indexer::token_id::TokenId;
use ark_indexer::transfer::{decode_transfer, is_mint, DecodeError, TransferEvent};

#[test]
fn padded_token_id_is_sixty_four_hex_digits() {
    let t = TokenId::new(1, 0);
    let p = t.padded_token_id();
    assert_eq!(p.len(), 64);
    assert_eq!(p, format!("{}1", "0".repeat(63)));
}

#[test]
fn padded_token_id_puts_high_half_first() {
    let t = TokenId::new(0xab, 0x1);
    let p = t.padded_token_id();
    assert_eq!(p, format!("{}1{}ab", "0".repeat(31), "0".repeat(30)));
}

#[test]
fn padded_order_matches_numeric_order() {
    let values = [
        TokenId::new(0, 0),
        TokenId::new(9, 0),
        TokenId::new(10, 0),
        TokenId::new(255, 0),
        TokenId::new(u128::MAX, 0),
        TokenId::new(0, 1),
        TokenId::new(5, 1),
        TokenId::new(0, u128::MAX),
        TokenId::new(u128::MAX, u128::MAX),
    ];
    for i in 0..values.len() {
        for j in (i + 1)..values.len() {
            assert!(values[i].padded_token_id() < values[j].padded_token_id());
        }
    }
}

#[test]
fn token_id_hex_has_no_padding() {
    assert_eq!(TokenId::new(0, 0).token_id_hex(), "0");
    assert_eq!(TokenId::new(255, 0).token_id_hex(), "ff");
    assert_eq!(TokenId::new(1, 1).token_id_hex(), format!("1{}1", "0".repeat(31)));
    assert_eq!(TokenId::new(0x1f, 0).low_hex(), "1f");
    assert_eq!(TokenId::new(0x1f, 0).high_hex(), "0");
}

#[test]
fn felt_renders_with_sixty_four_digits() {
    assert_eq!(Felt::zero().to_padded_hex(), format!("0x{}", "0".repeat(64)));
    let f = Felt::new(0, 0xabc);
    assert_eq!(f.to_padded_hex(), format!("0x{}abc", "0".repeat(61)));
    let wide = Felt::new(0x0800_0000_0000_0000_0000_0000_0000_0011, 0);
    let s = wide.to_padded_hex();
    assert_eq!(s.len(), 66);
    assert!(s.starts_with("0x08000"));
    assert_eq!(Felt::new(u128::MAX, u128::MAX).to_padded_hex(), format!("0x{}", "f".repeat(64)));
    assert_eq!(Felt::new(0, 0xdead).to_hex(), "dead");
}

#[test]
fn zero_sender_is_a_mint_and_others_are_not() {
    assert!(is_mint(&Felt::zero()));
    assert!(!is_mint(&Felt::new(0, 1)));
    assert!(!is_mint(&Felt::new(1, 0)));
}

fn event(data: Vec<Felt>) -> TransferEvent {
    TransferEvent {
        block_number: 100,
        from_address: Felt::new(0, 0xc0ffee),
        transaction_hash: Felt::new(0, 0xdead),
        data,
    }
}

#[test]
fn decode_rejects_short_data() {
    let ev = event(vec![Felt::zero(), Felt::new(0, 0xabc), Felt::new(0, 1)]);
    assert_eq!(decode_transfer(&ev).err(), Some(DecodeError::MissingData));
}

#[test]
fn decode_rejects_wide_token_halves() {
    let ev = event(vec![Felt::zero(), Felt::new(0, 0xabc), Felt::new(1, 0), Felt::zero()]);
    assert_eq!(decode_transfer(&ev).err(), Some(DecodeError::TokenIdOutOfRange));
}

#[test]
fn decode_renders_words_and_detects_mint() {
    let ev = event(vec![Felt::zero(), Felt::new(0, 0xabc), Felt::new(0, 1), Felt::zero()]);
    let t = decode_transfer(&ev).unwrap();
    assert_eq!(t.block_number, 100);
    assert!(t.is_mint);
    assert_eq!(t.from_address, format!("0x{}", "0".repeat(64)));
    assert_eq!(t.to_address, format!("0x{}abc", "0".repeat(61)));
    assert_eq!(t.contract_address, format!("0x{}c0ffee", "0".repeat(58)));
    assert_eq!(t.transaction_hash, format!("0x{}dead", "0".repeat(60)));
    assert_eq!(t.token_id, TokenId::new(1, 0));

    let ev = event(vec![Felt::new(0, 5), Felt::new(0, 0xabc), Felt::new(0, 1), Felt::zero()]);
    assert!(!decode_transfer(&ev).unwrap().is_mint);
}

#[test]
fn words_read_from_hex_text() {
    assert_eq!(Felt::from_hex("0x0"), Some(Felt::zero()));
    assert_eq!(Felt::from_hex("0xabc"), Some(Felt::new(0, 0xabc)));
    assert_eq!(Felt::from_hex("ABC"), Some(Felt::new(0, 0xabc)));
    let text = format!("0x1{}2", "0".repeat(31));
    assert_eq!(Felt::from_hex(&text), Some(Felt::new(1, 2)));
    let full = format!("0x{}", "f".repeat(64));
    assert_eq!(Felt::from_hex(&full), None);
    let modulus = format!("0x08000000000000110000000000000000{}1", "0".repeat(31));
    assert_eq!(Felt::from_hex(&modulus), None);
    let below = format!("0x08000000000000110000000000000000{}", "0".repeat(32));
    let high = 0x0800_0000_0000_0011_0000_0000_0000_0000u128;
    assert_eq!(Felt::from_hex(&below), Some(Felt::new(high, 0)));
    assert_eq!(Felt::from_hex(&format!("0x{}", "f".repeat(65))), None);
    assert_eq!(Felt::from_hex("0x"), None);
    assert_eq!(Felt::from_hex(""), None);
    assert_eq!(Felt::from_hex("0xg1"), None);
    let rendered = Felt::new(7, 9).to_padded_hex();
    assert_eq!(Felt::from_hex(&rendered), Some(Felt::new(7, 9)));
}
