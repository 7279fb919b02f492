use gravitas::buy_shares;
use gravitas::create_creator;
use gravitas::get_buy_price;
use gravitas::get_current_supply;
use gravitas::get_sell_price;
use gravitas::state::Creator;

fn fresh_creator() -> Creator {
    create_creator(7, String::from("alice"), String::from("curves")).unwrap()
}

#[test]
fn quotes_follow_the_creator_supply() {
    let mut creator = fresh_creator();
    assert_eq!(get_current_supply(&creator), 1);
    assert_eq!(get_buy_price(&creator, 10), 1_000);
    assert_eq!(get_sell_price(&creator, 1), 100);

    let mut trader: u64 = 10_000;
    let mut pool: u64 = 0;
    let mut creator_balance: u64 = 0;
    buy_shares(&mut creator, &mut trader, &mut pool, &mut creator_balance, 10).unwrap();

    assert_eq!(get_current_supply(&creator), 11);
    assert_eq!(get_sell_price(&creator, 10), 1_000);
}
