use icp_lottery::endpoints::{
    check_draw, complete_payout, complete_purchase, get_estimated_amount, get_lottery_info,
    get_no_of_tickets, payout_amount, quote_payout, quote_purchase,
};
use icp_lottery::identity::PlayerId;
use icp_lottery::registry::LotteryConf;
use icp_lottery::round::Lottery;
use icp_lottery::types::{
    BuyTicketArgs, ConfState, InitArgs, LedgerError, LotteryError, LotteryState, TicketQuery,
    TransferPayload, UserArgs,
};

const MINUTE: u64 = 60_000_000_000;

fn player(tag: u8) -> PlayerId {
    PlayerId::from_slice(&[tag]).unwrap()
}

fn lottery() -> (LotteryConf, Lottery) {
    let mut conf = LotteryConf::default();
    conf.init(InitArgs { ticket_price: 10, lottery_duration: 1 });
    let round = conf.gen_lottery(0).unwrap();
    (conf, round)
}

fn buy(count: u32) -> BuyTicketArgs {
    BuyTicketArgs { lottery_id: 0, no_of_tickets: count }
}

/// A lottery in which player 1 holds tickets 0 to 3 and player 2 tickets 4 to
/// 10, and ticket 4 was drawn.
fn drawn() -> (LotteryConf, Lottery) {
    let (mut conf, mut round) = lottery();
    complete_purchase(&mut conf, &mut round, &player(1), &buy(4), 5, Ok(())).unwrap();
    complete_purchase(&mut conf, &mut round, &player(2), &buy(7), 5, Ok(())).unwrap();
    round.get_winning_ticket(&[0u8; 32], MINUTE).unwrap();
    (conf, round)
}

#[test]
fn estimated_amount_adds_the_fee() {
    let (conf, _) = lottery();
    assert_eq!(get_estimated_amount(&conf, &TicketQuery { no_of_tickets: 3 }, 2), 32);
    assert_eq!(get_estimated_amount(&conf, &TicketQuery { no_of_tickets: 0 }, 2), 2);
    assert_eq!(get_estimated_amount(&conf, &TicketQuery { no_of_tickets: 1 }, 0), 10);
}

#[test]
fn payout_amount_takes_the_fee_off() {
    assert_eq!(payout_amount(55, 2), 53);
    assert_eq!(payout_amount(55, 55), 0);
    assert_eq!(payout_amount(0, 0), 0);
}

#[test]
fn questions_about_an_unknown_round() {
    let (conf, _) = lottery();
    let args = UserArgs { lottery_id: 9, user: player(1) };
    assert_eq!(get_lottery_info(None), Err(LotteryError::UnknownRound));
    assert_eq!(get_no_of_tickets(None, &args), Err(LotteryError::UnknownRound));
    assert_eq!(quote_purchase(&conf, None, &buy(1), 0), Err(LotteryError::UnknownRound));
    assert_eq!(check_draw(None, 0), Err(LotteryError::UnknownRound));
    assert_eq!(quote_payout(&conf, None, &player(1), 0), Err(LotteryError::UnknownRound));
}

#[test]
fn lottery_info_is_what_the_round_shows() {
    let (_, round) = drawn();
    let info = get_lottery_info(Some(&round)).unwrap();
    assert_eq!(info, round.get_lottery());
    assert_eq!(info.no_of_tickets_sold, 11);
    assert_eq!(info.no_of_players, 2);
    assert_eq!(info.winning_ticket, 4);
    assert_eq!(info.lottery_state, LotteryState::Payout);
}

#[test]
fn no_of_tickets_of_a_player() {
    let (_, round) = drawn();
    let one = UserArgs { lottery_id: 0, user: player(1) };
    let two = UserArgs { lottery_id: 0, user: player(2) };
    let nobody = UserArgs { lottery_id: 0, user: player(3) };
    assert_eq!(get_no_of_tickets(Some(&round), &one), Ok(4));
    assert_eq!(get_no_of_tickets(Some(&round), &two), Ok(7));
    assert_eq!(get_no_of_tickets(Some(&round), &nobody), Ok(0));
}

#[test]
fn purchase_is_quoted_at_the_ticket_price() {
    let (conf, round) = lottery();
    assert_eq!(quote_purchase(&conf, Some(&round), &buy(3), 0), Ok(30));
    assert_eq!(quote_purchase(&conf, Some(&round), &buy(1), MINUTE), Ok(10));
}

#[test]
fn purchase_that_the_round_refuses_is_not_quoted() {
    let (conf, round) = lottery();
    assert_eq!(
        quote_purchase(&conf, Some(&round), &buy(0), 0),
        Err(LotteryError::InvalidTicketCount)
    );
    assert_eq!(
        quote_purchase(&conf, Some(&round), &buy(1), MINUTE + 1),
        Err(LotteryError::LotteryEnded)
    );
    let (conf, round) = drawn();
    assert_eq!(
        quote_purchase(&conf, Some(&round), &buy(1), 0),
        Err(LotteryError::LotteryNotActive)
    );
}

#[test]
fn paid_purchase_fills_round_and_pool() {
    let (mut conf, mut round) = lottery();
    assert_eq!(complete_purchase(&mut conf, &mut round, &player(1), &buy(3), 5, Ok(())), Ok(()));
    assert_eq!(conf.lottery_pool, 30);
    assert_eq!(round.get_player_ticket_count(&player(1)), 3);
    assert_eq!(complete_purchase(&mut conf, &mut round, &player(1), &buy(2), 6, Ok(())), Ok(()));
    assert_eq!(conf.lottery_pool, 50);
    assert_eq!(round.get_player_ticket_count(&player(1)), 5);
    assert_eq!(conf.state, ConfState::Active);
    assert_eq!(conf.next_lottery_id, 1);
}

#[test]
fn unpaid_purchase_changes_nothing() {
    let (mut conf, mut round) = lottery();
    complete_purchase(&mut conf, &mut round, &player(1), &buy(3), 5, Ok(())).unwrap();
    let before = (conf, round.get_lottery(), round.ticket_holders());
    assert_eq!(
        complete_purchase(
            &mut conf,
            &mut round,
            &player(2),
            &buy(2),
            6,
            Err(LedgerError::InsufficientFunds)
        ),
        Err(LotteryError::LedgerTransferFailed(LedgerError::InsufficientFunds))
    );
    assert_eq!(
        complete_purchase(&mut conf, &mut round, &player(2), &buy(0), 6, Err(LedgerError::Rejected)),
        Err(LotteryError::LedgerTransferFailed(LedgerError::Rejected))
    );
    assert_eq!((conf, round.get_lottery(), round.ticket_holders()), before);
    assert_eq!(round.get_player_ticket_count(&player(2)), 0);
}

#[test]
fn refused_purchase_changes_nothing() {
    let (mut conf, mut round) = lottery();
    complete_purchase(&mut conf, &mut round, &player(1), &buy(3), 5, Ok(())).unwrap();
    let before = (conf, round.get_lottery(), round.ticket_holders());
    assert_eq!(
        complete_purchase(&mut conf, &mut round, &player(1), &buy(0), 5, Ok(())),
        Err(LotteryError::InvalidTicketCount)
    );
    assert_eq!(
        complete_purchase(&mut conf, &mut round, &player(1), &buy(1), MINUTE + 1, Ok(())),
        Err(LotteryError::LotteryEnded)
    );
    assert_eq!((conf, round.get_lottery(), round.ticket_holders()), before);
}

#[test]
fn draw_is_checked_before_the_seed_is_asked_for() {
    let (mut conf, mut round) = lottery();
    assert_eq!(check_draw(Some(&round), MINUTE - 1), Err(LotteryError::LotteryStillOngoing));
    assert_eq!(check_draw(Some(&round), MINUTE), Err(LotteryError::NoTicketsSold));
    complete_purchase(&mut conf, &mut round, &player(1), &buy(3), 5, Ok(())).unwrap();
    assert_eq!(check_draw(Some(&round), MINUTE), Ok(()));
    round.get_winning_ticket(&[0u8; 32], MINUTE).unwrap();
    assert_eq!(check_draw(Some(&round), MINUTE), Err(LotteryError::InvalidState));
}

#[test]
fn payout_is_the_prize_less_the_fee() {
    let (conf, round) = drawn();
    assert_eq!(conf.lottery_pool, 110);
    assert_eq!(
        quote_payout(&conf, Some(&round), &player(2), 3),
        Ok(TransferPayload { to: player(2), amount: 52 })
    );
    assert_eq!(
        quote_payout(&conf, Some(&round), &player(2), 0),
        Ok(TransferPayload { to: player(2), amount: 55 })
    );
}

#[test]
fn payout_is_quoted_to_the_winner_only() {
    let (conf, round) = drawn();
    assert_eq!(quote_payout(&conf, Some(&round), &player(1), 3), Err(LotteryError::NotWinner));
    let (conf, round) = lottery();
    assert_eq!(quote_payout(&conf, Some(&round), &player(1), 3), Err(LotteryError::InvalidState));
}

#[test]
fn paid_claim_closes_the_round() {
    let (mut conf, mut round) = drawn();
    assert_eq!(complete_payout(&mut conf, &mut round, &player(2), Ok(())), Ok(()));
    assert_eq!(conf.lottery_pool, 55);
    assert_eq!(conf.state, ConfState::Inactive);
    assert_eq!(conf.next_lottery_id, 1);
    let data = round.get_lottery();
    assert_eq!(data.lottery_state, LotteryState::Closed);
    assert_eq!(data.winner, player(2));
    let next = conf.gen_lottery(2 * MINUTE).unwrap();
    assert_eq!(next.get_lottery().id, 1);
}

#[test]
fn odd_unit_stays_in_the_pool() {
    let mut conf = LotteryConf::default();
    conf.init(InitArgs { ticket_price: 7, lottery_duration: 1 });
    let mut round = conf.gen_lottery(0).unwrap();
    complete_purchase(&mut conf, &mut round, &player(1), &buy(3), 5, Ok(())).unwrap();
    round.get_winning_ticket(&[0u8; 32], MINUTE).unwrap();
    assert_eq!(conf.lottery_pool, 21);
    assert_eq!(conf.get_prize(), 10);
    complete_payout(&mut conf, &mut round, &player(1), Ok(())).unwrap();
    assert_eq!(conf.lottery_pool, 11);
}

#[test]
fn unpaid_claim_changes_nothing() {
    let (mut conf, mut round) = drawn();
    let before = (conf, round.get_lottery(), round.ticket_holders());
    assert_eq!(
        complete_payout(&mut conf, &mut round, &player(2), Err(LedgerError::Rejected)),
        Err(LotteryError::LedgerTransferFailed(LedgerError::Rejected))
    );
    assert_eq!((conf, round.get_lottery(), round.ticket_holders()), before);
    assert_eq!(complete_payout(&mut conf, &mut round, &player(2), Ok(())), Ok(()));
}

#[test]
fn refused_claim_changes_nothing() {
    let (mut conf, mut round) = drawn();
    let before = (conf, round.get_lottery(), round.ticket_holders());
    assert_eq!(
        complete_payout(&mut conf, &mut round, &player(1), Ok(())),
        Err(LotteryError::NotWinner)
    );
    assert_eq!((conf, round.get_lottery(), round.ticket_holders()), before);
    let (mut conf, mut round) = lottery();
    assert_eq!(
        complete_payout(&mut conf, &mut round, &player(1), Ok(())),
        Err(LotteryError::InvalidState)
    );
    assert_eq!(conf.state, ConfState::Active);
}
