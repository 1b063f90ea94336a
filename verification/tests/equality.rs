use coin_client::coins::{Coin, CoinType, MessageCoin};
use coin_client::scalars::{Address, AssetId, Nonce, UtxoId};

fn coin() -> Coin {
    Coin {
        amount: 100,
        block_created: 11,
        asset_id: AssetId([0x10; 32]),
        utxo_id: UtxoId { tx_id: [0x20; 32], output_index: 3 },
        maturity: 22,
        owner: Address([0x30; 32]),
    }
}

fn message_coin() -> MessageCoin {
    MessageCoin {
        amount: 250,
        sender: Address([0x40; 32]),
        recipient: Address([0x50; 32]),
        nonce: Nonce([0x60; 32]),
        da_height: 77,
    }
}

fn with_byte(fill: u8, at: usize, byte: u8) -> [u8; 32] {
    let mut out = [fill; 32];
    out[at] = byte;
    out
}

#[test]
fn identifiers_are_equal_when_all_bytes_are() {
    assert_eq!(Address([7; 32]), Address([7; 32]));
    assert_eq!(AssetId([0; 32]), AssetId([0; 32]));
    assert_eq!(Nonce([0xff; 32]), Nonce([0xff; 32]));
    assert_eq!(
        UtxoId { tx_id: [9; 32], output_index: 1 },
        UtxoId { tx_id: [9; 32], output_index: 1 }
    );
}

#[test]
fn identifiers_differ_when_one_byte_does() {
    for at in 0..32 {
        assert_ne!(Address([7; 32]), Address(with_byte(7, at, 8)));
        assert_ne!(AssetId([7; 32]), AssetId(with_byte(7, at, 6)));
        assert_ne!(Nonce([7; 32]), Nonce(with_byte(7, at, 0)));
        assert_ne!(
            UtxoId { tx_id: [7; 32], output_index: 1 },
            UtxoId { tx_id: with_byte(7, at, 0xff), output_index: 1 }
        );
    }
}

#[test]
fn output_identifiers_differ_by_index_alone() {
    assert_ne!(
        UtxoId { tx_id: [9; 32], output_index: 1 },
        UtxoId { tx_id: [9; 32], output_index: 2 }
    );
}

#[test]
fn coin_equals_itself() {
    assert_eq!(coin(), coin());
    assert!(coin() == coin().clone());
}

#[test]
fn coin_differs_in_each_field() {
    let base = coin();
    assert_ne!(Coin { amount: 101, ..coin() }, base);
    assert_ne!(Coin { block_created: 12, ..coin() }, base);
    assert_ne!(Coin { asset_id: AssetId(with_byte(0x10, 31, 0)), ..coin() }, base);
    assert_ne!(Coin { utxo_id: UtxoId { tx_id: [0x20; 32], output_index: 4 }, ..coin() }, base);
    assert_ne!(
        Coin { utxo_id: UtxoId { tx_id: with_byte(0x20, 0, 0), output_index: 3 }, ..coin() },
        base
    );
    assert_ne!(Coin { maturity: 23, ..coin() }, base);
    assert_ne!(Coin { owner: Address(with_byte(0x30, 15, 0)), ..coin() }, base);
}

#[test]
fn coin_with_heights_swapped_is_another_coin() {
    assert_ne!(Coin { block_created: 22, maturity: 11, ..coin() }, coin());
}

#[test]
fn message_coin_equals_itself() {
    assert_eq!(message_coin(), message_coin());
    assert!(message_coin() == message_coin().clone());
}

#[test]
fn message_coin_differs_in_each_field() {
    let base = message_coin();
    assert_ne!(MessageCoin { amount: 251, ..message_coin() }, base);
    assert_ne!(MessageCoin { sender: Address(with_byte(0x40, 31, 0)), ..message_coin() }, base);
    assert_ne!(MessageCoin { recipient: Address(with_byte(0x50, 0, 0)), ..message_coin() }, base);
    assert_ne!(MessageCoin { nonce: Nonce(with_byte(0x60, 16, 0)), ..message_coin() }, base);
    assert_ne!(MessageCoin { da_height: 78, ..message_coin() }, base);
}

#[test]
fn message_coin_with_parties_swapped_is_another_coin() {
    assert_ne!(
        MessageCoin {
            sender: Address([0x50; 32]),
            recipient: Address([0x40; 32]),
            ..message_coin()
        },
        message_coin()
    );
}

#[test]
fn coin_types_are_equal_within_a_variant() {
    assert_eq!(CoinType::Coin(coin()), CoinType::Coin(coin()));
    assert_eq!(CoinType::MessageCoin(message_coin()), CoinType::MessageCoin(message_coin()));
    assert_eq!(CoinType::Unknown, CoinType::Unknown);
    assert_ne!(CoinType::Coin(coin()), CoinType::Coin(Coin { amount: 1, ..coin() }));
    assert_ne!(
        CoinType::MessageCoin(message_coin()),
        CoinType::MessageCoin(MessageCoin { da_height: 1, ..message_coin() })
    );
}

#[test]
fn coin_types_differ_across_variants() {
    let all = [CoinType::Coin(coin()), CoinType::MessageCoin(message_coin()), CoinType::Unknown];
    for (i, a) in all.iter().enumerate() {
        for (j, b) in all.iter().enumerate() {
            assert_eq!(a == b, i == j);
        }
    }
}
