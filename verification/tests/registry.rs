use icp_lottery::registry::{LotteryConf, NANOS_PER_MINUTE};
use icp_lottery::types::{ConfState, InitArgs, LotteryError, LotteryState};

fn registry(price: u128, minutes: u64) -> LotteryConf {
    let mut conf = LotteryConf::default();
    conf.init(InitArgs { ticket_price: price, lottery_duration: minutes });
    conf
}

#[test]
fn default_registry_is_inactive() {
    assert_eq!(ConfState::default(), ConfState::Inactive);
    let conf = LotteryConf::default();
    assert_eq!(conf.state, ConfState::Inactive);
    assert_eq!(conf.next_lottery_id, 0);
    assert_eq!(conf.lottery_pool, 0);
    assert_eq!(conf.ticket_price, 0);
    assert_eq!(conf.lottery_duration, 0);
}

#[test]
fn init_sets_the_registry_up() {
    let conf = registry(10, 1);
    assert_eq!(conf.ticket_price, 10);
    assert_eq!(conf.lottery_duration, 60_000_000_000);
    assert_eq!(conf.lottery_pool, 0);
    assert_eq!(conf.next_lottery_id, 0);
    assert_eq!(conf.state, ConfState::Inactive);
}

#[test]
fn init_starts_over() {
    let mut conf = registry(10, 1);
    conf.increment_pool(&70);
    let _ = conf.gen_lottery(5).unwrap();
    conf.init(InitArgs { ticket_price: 3, lottery_duration: 2 });
    assert_eq!(conf.ticket_price, 3);
    assert_eq!(conf.lottery_duration, 2 * NANOS_PER_MINUTE);
    assert_eq!(conf.lottery_pool, 0);
    assert_eq!(conf.next_lottery_id, 0);
    assert_eq!(conf.state, ConfState::Inactive);
}

#[test]
fn init_takes_the_longest_round_that_fits() {
    let minutes = u64::MAX / NANOS_PER_MINUTE;
    let conf = registry(1, minutes);
    assert_eq!(conf.lottery_duration, 18_446_744_040_000_000_000);
}

#[test]
fn ticket_price_is_price_times_count() {
    let conf = registry(10, 1);
    assert_eq!(conf.calc_ticket_price(&0), 0);
    assert_eq!(conf.calc_ticket_price(&1), 10);
    assert_eq!(conf.calc_ticket_price(&3), 30);
    assert_eq!(conf.calc_ticket_price(&u32::MAX), 42_949_672_950);
}

#[test]
fn ticket_price_may_pass_sixty_four_bits() {
    let conf = registry(u64::MAX as u128, 1);
    assert_eq!(conf.calc_ticket_price(&1000), 18_446_744_073_709_551_615_000);
}

#[test]
fn pool_grows_by_each_purchase() {
    let mut conf = registry(7, 1);
    for _ in 0..4 {
        let amount = conf.calc_ticket_price(&5);
        conf.increment_pool(&amount);
    }
    assert_eq!(conf.lottery_pool, 4 * 5 * 7);
}

#[test]
fn prize_is_half_the_pool_rounded_down() {
    let mut conf = registry(1, 1);
    assert_eq!(conf.get_prize(), 0);
    conf.increment_pool(&1);
    assert_eq!(conf.get_prize(), 0);
    conf.increment_pool(&30);
    assert_eq!(conf.get_prize(), 15);
    conf.increment_pool(&69);
    assert_eq!(conf.get_prize(), 50);
}

#[test]
fn decrement_takes_from_the_pool() {
    let mut conf = registry(1, 1);
    conf.increment_pool(&31);
    let prize = conf.get_prize();
    assert_eq!(conf.decrement_pool(&prize), Ok(()));
    assert_eq!(conf.lottery_pool, 16);
    assert_eq!(conf.decrement_pool(&16), Ok(()));
    assert_eq!(conf.lottery_pool, 0);
    assert_eq!(conf.decrement_pool(&0), Ok(()));
}

#[test]
fn decrement_beyond_the_pool_is_refused() {
    let mut conf = registry(1, 1);
    conf.increment_pool(&31);
    assert_eq!(conf.decrement_pool(&32), Err(LotteryError::InsufficientPool));
    assert_eq!(conf.lottery_pool, 31);
    let mut empty = registry(1, 1);
    assert_eq!(empty.decrement_pool(&1), Err(LotteryError::InsufficientPool));
    assert_eq!(empty.lottery_pool, 0);
}

#[test]
fn gen_lottery_opens_an_empty_round() {
    let mut conf = registry(10, 1);
    let round = conf.gen_lottery(1_000).unwrap();
    let data = round.get_lottery();
    assert_eq!(data.id, 0);
    assert_eq!(data.winner.as_slice(), &[4u8]);
    assert_eq!(data.no_of_tickets_sold, 0);
    assert_eq!(data.no_of_players, 0);
    assert_eq!(data.winning_ticket, 0);
    assert_eq!(data.amount_in_lottery, 0);
    assert_eq!(data.lottery_start_time, 1_000);
    assert_eq!(data.lottery_end_time, 1_000 + 60_000_000_000);
    assert_eq!(data.lottery_state, LotteryState::Active);
    assert_eq!(conf.state, ConfState::Active);
    assert_eq!(conf.next_lottery_id, 1);
    assert_eq!(conf.ticket_price, 10);
    assert_eq!(conf.lottery_pool, 0);
}

#[test]
fn second_open_round_is_refused() {
    let mut conf = registry(10, 1);
    let _first = conf.gen_lottery(0).unwrap();
    let before = conf.get_configuration();
    match conf.gen_lottery(1) {
        Err(refused) => assert_eq!(refused, LotteryError::InvalidState),
        Ok(_) => panic!("a second round was opened"),
    }
    assert_eq!(conf, before);
}

#[test]
fn next_round_opens_after_reset() {
    let mut conf = registry(10, 1);
    let first = conf.gen_lottery(0).unwrap();
    assert_eq!(first.get_lottery().id, 0);
    assert!(conf.gen_lottery(1).is_err());
    conf.reset_state();
    assert_eq!(conf.state, ConfState::Inactive);
    let second = conf.gen_lottery(2).unwrap();
    assert_eq!(second.get_lottery().id, 1);
    assert_eq!(conf.next_lottery_id, 2);
    assert_eq!(conf.state, ConfState::Active);
}

#[test]
fn check_state_of_the_registry() {
    let mut conf = registry(10, 1);
    assert_eq!(conf.check_state(ConfState::Inactive), Ok(()));
    assert_eq!(conf.check_state(ConfState::Active), Err(LotteryError::InvalidState));
    let _ = conf.gen_lottery(0).unwrap();
    assert_eq!(conf.check_state(ConfState::Active), Ok(()));
    assert_eq!(conf.check_state(ConfState::Inactive), Err(LotteryError::InvalidState));
}

#[test]
fn configuration_is_a_copy() {
    let mut conf = registry(10, 1);
    conf.increment_pool(&5);
    let copy = conf.get_configuration();
    assert_eq!(copy, conf);
    conf.increment_pool(&5);
    assert_eq!(copy.lottery_pool, 5);
    assert_eq!(conf.lottery_pool, 10);
}
