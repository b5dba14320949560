use escrow::escrow::Escrow;
use soroban_sdk::Symbol;

#[test]
#[allow(deprecated)]
fn hello_round_trips_symbol() {
    assert_eq!(Escrow::hello(Symbol::short("World")), Symbol::short("World"));
}
