use westworld::fsm::{Handler, StateMachine, StateStack, StateTransition};
use westworld::miner::{
    init_miner, update_miner, EnterMineAndDigForNugget, GoHomeAndSleepTilRested, Location, Miner,
    MinerHandler, MinerNote, MinerState, MinerStateData, QuenchThirst, VisitBankAndDepositGold,
    COMFORT_LEVEL, MAX_NUGGETS, THIRST_LEVEL, TIREDNESS_THRESHOLD,
};

fn counters(miner: &Miner) -> (i32, i32, i32, i32) {
    (miner.gold(), miner.wealth(), miner.thirst(), miner.fatigue())
}

#[test]
fn thresholds() {
    assert_eq!(COMFORT_LEVEL, 5);
    assert_eq!(MAX_NUGGETS, 3);
    assert_eq!(THIRST_LEVEL, 5);
    assert_eq!(TIREDNESS_THRESHOLD, 5);
}

#[test]
fn new_miner_has_nothing() {
    let miner = Miner::new();
    assert_eq!(counters(&miner), (0, 0, 0, 0));
    assert!(!miner.pockets_full());
    assert!(!miner.thirsty());
    assert!(!miner.fatigued());
}

#[test]
fn gold_carried_never_drops_below_zero() {
    let mut miner = Miner::new();
    miner.add_to_gold_carried(2);
    assert_eq!(miner.gold(), 2);
    miner.add_to_gold_carried(-1);
    assert_eq!(miner.gold(), 1);
    miner.add_to_gold_carried(-5);
    assert_eq!(miner.gold(), 0);
}

#[test]
fn pockets_are_full_at_three_nuggets() {
    let mut miner = Miner::new();
    miner.add_to_gold_carried(2);
    assert!(!miner.pockets_full());
    miner.add_to_gold_carried(1);
    assert!(miner.pockets_full());
    miner.add_to_gold_carried(1);
    assert!(miner.pockets_full());
}

#[test]
fn thirsty_above_five() {
    let mut miner = Miner::new();
    for _ in 0..5 {
        miner.increase_thirst();
    }
    assert_eq!(miner.thirst(), 5);
    assert!(!miner.thirsty());
    miner.increase_thirst();
    assert!(miner.thirsty());
}

#[test]
fn fatigued_above_five() {
    let mut miner = Miner::new();
    for _ in 0..6 {
        miner.increase_fatigue();
    }
    assert!(miner.fatigued());
    miner.decrease_fatigue();
    assert_eq!(miner.fatigue(), 5);
    assert!(!miner.fatigued());
}

#[test]
fn banking_moves_all_gold() {
    let mut miner = Miner::new();
    miner.add_to_gold_carried(3);
    miner.move_gold_to_bank();
    assert_eq!(counters(&miner), (0, 3, 0, 0));
    miner.add_to_gold_carried(4);
    miner.move_gold_to_bank();
    assert_eq!(counters(&miner), (0, 7, 0, 0));
    assert_eq!(miner.wealth(), 7);
}

#[test]
fn whiskey_costs_two_and_quenches() {
    let mut miner = Miner::new();
    for _ in 0..6 {
        miner.increase_thirst();
    }
    miner.buy_and_drink_whiskey();
    assert_eq!(counters(&miner), (0, -2, 0, 0));
    assert!(!miner.thirsty());
}

#[test]
fn a_new_miner_sleeps_at_the_shack() {
    let (mut stack, data) = init_miner();
    assert_eq!(data.location, Location::Shack);
    assert_eq!(counters(&data.miner), (0, 0, 0, 0));
    assert!(data.journal.is_empty());
    assert_eq!(stack.pop(), Some(MinerState::GoHomeAndSleepTilRested));
    assert_eq!(stack.pop(), None);
}

#[test]
fn walking_is_only_mentioned_when_it_happens() {
    let mut data = MinerStateData::new();
    let state = MinerState::GoHomeAndSleepTilRested;
    MinerHandler.on_start(&state, &mut data);
    assert!(data.journal.is_empty());
    assert_eq!(data.location, Location::Shack);

    let state = MinerState::QuenchThirst;
    MinerHandler.on_start(&state, &mut data);
    assert_eq!(data.journal, vec![MinerNote::WalkingToSaloon]);
    assert_eq!(data.location, Location::Saloon);
    MinerHandler.on_start(&state, &mut data);
    assert_eq!(data.journal, vec![MinerNote::WalkingToSaloon]);
}

#[test]
fn mine_and_bank_walk_back_when_resumed() {
    let mut data = MinerStateData::new();
    MinerHandler.on_resume(&MinerState::EnterMineAndDigForNugget, &mut data);
    assert_eq!(data.location, Location::Goldmine);
    MinerHandler.on_resume(&MinerState::VisitBankAndDepositGold, &mut data);
    assert_eq!(data.location, Location::Bank);
    MinerHandler.on_resume(&MinerState::QuenchThirst, &mut data);
    assert_eq!(data.location, Location::Bank);
    MinerHandler.on_resume(&MinerState::GoHomeAndSleepTilRested, &mut data);
    assert_eq!(data.location, Location::Bank);
    assert_eq!(data.journal, vec![MinerNote::WalkingToGoldmine, MinerNote::GoingToBank]);
}

#[test]
fn pausing_says_nothing() {
    let mut data = MinerStateData::new();
    MinerHandler.on_pause(&MinerState::EnterMineAndDigForNugget, &mut data);
    MinerHandler.on_pause(&MinerState::VisitBankAndDepositGold, &mut data);
    MinerHandler.on_pause(&MinerState::QuenchThirst, &mut data);
    MinerHandler.on_pause(&MinerState::GoHomeAndSleepTilRested, &mut data);
    assert!(data.journal.is_empty());
    assert_eq!(data.location, Location::Shack);
    assert_eq!(counters(&data.miner), (0, 0, 0, 0));
}

#[test]
fn every_state_says_goodbye() {
    let mut data = MinerStateData::new();
    MinerHandler.on_stop(&MinerState::EnterMineAndDigForNugget, &mut data);
    MinerHandler.on_stop(&MinerState::VisitBankAndDepositGold, &mut data);
    MinerHandler.on_stop(&MinerState::GoHomeAndSleepTilRested, &mut data);
    MinerHandler.on_stop(&MinerState::QuenchThirst, &mut data);
    assert_eq!(
        data.journal,
        vec![
            MinerNote::LeavingGoldmine,
            MinerNote::LeavingBank,
            MinerNote::LeavingHouse,
            MinerNote::LeavingSaloon,
        ]
    );
    assert_eq!(data.location, Location::Shack);
}

#[test]
fn digging_fills_the_pockets() {
    let mut data = MinerStateData::new();
    let state = MinerState::EnterMineAndDigForNugget;
    let first = EnterMineAndDigForNugget.update(&state, &mut data);
    assert!(matches!(first, StateTransition::Stay));
    assert_eq!(counters(&data.miner), (1, 0, 1, 1));
    let second = EnterMineAndDigForNugget.update(&state, &mut data);
    assert!(matches!(second, StateTransition::Stay));
    let third = EnterMineAndDigForNugget.update(&state, &mut data);
    assert!(matches!(
        third,
        StateTransition::Switch(MinerState::VisitBankAndDepositGold)
    ));
    assert_eq!(counters(&data.miner), (3, 0, 3, 3));
    assert_eq!(data.journal, vec![MinerNote::PickedUpNugget; 3]);
}

#[test]
fn thirst_interrupts_digging() {
    let mut data = MinerStateData::new();
    for _ in 0..5 {
        data.miner.increase_thirst();
    }
    let request = EnterMineAndDigForNugget.update(&MinerState::EnterMineAndDigForNugget, &mut data);
    assert!(matches!(request, StateTransition::Switch(MinerState::QuenchThirst)));
    assert_eq!(counters(&data.miner), (1, 0, 6, 1));
}

#[test]
fn full_pockets_come_before_thirst() {
    let mut data = MinerStateData::new();
    data.miner.add_to_gold_carried(2);
    for _ in 0..5 {
        data.miner.increase_thirst();
    }
    let request = MinerHandler.update(&MinerState::EnterMineAndDigForNugget, &mut data);
    assert!(matches!(
        request,
        StateTransition::Switch(MinerState::VisitBankAndDepositGold)
    ));
}

#[test]
fn a_small_deposit_sends_the_miner_back_to_the_mine() {
    let mut data = MinerStateData::new();
    data.miner.add_to_gold_carried(3);
    let request = VisitBankAndDepositGold.update(&MinerState::VisitBankAndDepositGold, &mut data);
    assert!(matches!(
        request,
        StateTransition::Switch(MinerState::EnterMineAndDigForNugget)
    ));
    assert_eq!(counters(&data.miner), (0, 3, 1, 0));
    assert_eq!(data.journal, vec![MinerNote::DepositedGold { savings: 3 }]);
}

#[test]
fn a_comfortable_miner_goes_home() {
    let mut data = MinerStateData::new();
    data.miner.add_to_gold_carried(5);
    let request = VisitBankAndDepositGold.update(&MinerState::VisitBankAndDepositGold, &mut data);
    assert!(matches!(
        request,
        StateTransition::Switch(MinerState::GoHomeAndSleepTilRested)
    ));
    assert_eq!(
        data.journal,
        vec![MinerNote::DepositedGold { savings: 5 }, MinerNote::RichEnough]
    );
}

#[test]
fn a_tired_miner_sleeps_until_rested() {
    let mut data = MinerStateData::new();
    for _ in 0..7 {
        data.miner.increase_fatigue();
    }
    let state = MinerState::GoHomeAndSleepTilRested;
    assert!(matches!(GoHomeAndSleepTilRested.update(&state, &mut data), StateTransition::Stay));
    assert!(matches!(GoHomeAndSleepTilRested.update(&state, &mut data), StateTransition::Stay));
    assert_eq!(counters(&data.miner), (0, 0, 2, 5));
    assert!(matches!(
        GoHomeAndSleepTilRested.update(&state, &mut data),
        StateTransition::Switch(MinerState::EnterMineAndDigForNugget)
    ));
    assert_eq!(counters(&data.miner), (0, 0, 3, 5));
    assert_eq!(
        data.journal,
        vec![MinerNote::Sleeping, MinerNote::Sleeping, MinerNote::Rested]
    );
}

#[test]
fn a_thirsty_miner_drinks() {
    let mut data = MinerStateData::new();
    for _ in 0..6 {
        data.miner.increase_thirst();
    }
    let request = QuenchThirst.update(&MinerState::QuenchThirst, &mut data);
    assert!(matches!(
        request,
        StateTransition::Switch(MinerState::EnterMineAndDigForNugget)
    ));
    assert_eq!(counters(&data.miner), (0, -2, 0, 0));
    assert_eq!(data.journal, vec![MinerNote::DrankWhiskey]);
}

#[test]
fn a_miner_in_the_saloon_without_thirst_gives_up() {
    let mut stack = StateStack::new_initial_state(MinerState::QuenchThirst);
    let mut data = MinerStateData::new();
    assert!(update_miner(&mut stack, &mut data));
    assert_eq!(data.journal, vec![MinerNote::NotThirsty, MinerNote::LeavingSaloon]);
    assert_eq!(counters(&data.miner), (0, 0, 1, 0));
    assert!(!StateMachine::is_running(&stack));
    assert!(update_miner(&mut stack, &mut data));
    assert_eq!(data.journal.len(), 2);
}

#[test]
fn the_first_fourteen_updates() {
    let (mut stack, mut data) = init_miner();
    for _ in 0..14 {
        assert!(update_miner(&mut stack, &mut data));
    }
    let dig = MinerNote::PickedUpNugget;
    assert_eq!(
        data.journal,
        vec![
            MinerNote::Rested,
            MinerNote::LeavingHouse,
            MinerNote::WalkingToGoldmine,
            dig,
            dig,
            dig,
            MinerNote::LeavingGoldmine,
            MinerNote::GoingToBank,
            MinerNote::DepositedGold { savings: 3 },
            MinerNote::LeavingBank,
            MinerNote::WalkingToGoldmine,
            dig,
            MinerNote::LeavingGoldmine,
            MinerNote::WalkingToSaloon,
            MinerNote::DrankWhiskey,
            MinerNote::LeavingSaloon,
            MinerNote::WalkingToGoldmine,
            dig,
            dig,
            MinerNote::LeavingGoldmine,
            MinerNote::GoingToBank,
            MinerNote::DepositedGold { savings: 4 },
            MinerNote::LeavingBank,
            MinerNote::WalkingToGoldmine,
            dig,
            dig,
            dig,
            MinerNote::LeavingGoldmine,
            MinerNote::GoingToBank,
            MinerNote::DepositedGold { savings: 7 },
            MinerNote::RichEnough,
            MinerNote::LeavingBank,
            MinerNote::WalkingHome,
        ]
    );
    assert_eq!(counters(&data.miner), (0, 7, 7, 9));
    assert_eq!(data.location, Location::Shack);
    assert_eq!(stack.pop(), Some(MinerState::GoHomeAndSleepTilRested));
    assert_eq!(stack.pop(), None);
}

#[test]
fn sleeping_off_the_fatigue() {
    let (mut stack, mut data) = init_miner();
    for _ in 0..14 {
        assert!(update_miner(&mut stack, &mut data));
    }
    data.journal.clear();
    for _ in 0..5 {
        assert!(update_miner(&mut stack, &mut data));
    }
    let nap = MinerNote::Sleeping;
    assert_eq!(
        data.journal,
        vec![
            nap,
            nap,
            nap,
            nap,
            MinerNote::Rested,
            MinerNote::LeavingHouse,
            MinerNote::WalkingToGoldmine,
        ]
    );
    assert_eq!(counters(&data.miner), (0, 7, 12, 5));
    assert_eq!(stack.last(), Some(&MinerState::EnterMineAndDigForNugget));
}

#[test]
fn an_update_that_would_overflow_is_refused() {
    let mut stack = StateStack::new_initial_state(MinerState::EnterMineAndDigForNugget);
    let mut data = MinerStateData::new();
    data.miner.add_to_gold_carried(i32::MAX);
    assert!(!data.can_update(&MinerState::EnterMineAndDigForNugget));
    assert!(!update_miner(&mut stack, &mut data));
    assert!(data.journal.is_empty());
    assert_eq!(counters(&data.miner), (i32::MAX, 0, 0, 0));
    assert_eq!(stack.last(), Some(&MinerState::EnterMineAndDigForNugget));
    assert!(data.can_update(&MinerState::GoHomeAndSleepTilRested));
}

#[test]
fn a_deposit_that_would_overflow_is_refused() {
    let mut data = MinerStateData::new();
    data.miner.add_to_gold_carried(i32::MAX);
    data.miner.move_gold_to_bank();
    assert!(data.can_update(&MinerState::VisitBankAndDepositGold));
    data.miner.add_to_gold_carried(1);
    assert!(!data.can_update(&MinerState::VisitBankAndDepositGold));
    assert!(data.can_update(&MinerState::QuenchThirst));
}

#[test]
fn a_miner_seeded_at_home_keeps_going() {
    let (mut stack, mut data) = init_miner();
    for _ in 0..2000 {
        assert!(update_miner(&mut stack, &mut data));
        assert!(StateMachine::is_running(&stack));
    }
    assert!(!data.journal.contains(&MinerNote::NotThirsty));
    assert!(data.miner.wealth() >= COMFORT_LEVEL - 2);
}
