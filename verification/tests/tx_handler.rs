use ocular::chain::client::tx::basic_tx_metadata;
use ocular::tx::Coin;

#[test]
fn placeholder() {
    let m = basic_tx_metadata(7, Coin { amount: 1, denom: String::from("uatom") });
    assert_eq!(m.gas_limit, 200000);
    assert_eq!(m.timeout_height, 37);
}
