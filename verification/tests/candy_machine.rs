use transition_engine::application::Control;
use transition_engine::candy_machine::{
    process_event, publish, to_input, update, CandyMachine, CandyMachineEvent, CandyMachineInput,
    CandyMachineState,
};

#[test]
fn decode_coin_turn_exit_unknown() {
    assert_eq!(to_input('c'), CandyMachineInput::Coin);
    assert_eq!(to_input('t'), CandyMachineInput::Turn);
    assert_eq!(to_input('x'), CandyMachineInput::Exit);
    assert_eq!(to_input('q'), CandyMachineInput::Unknown);
    assert_eq!(to_input(' '), CandyMachineInput::Unknown);
    assert_eq!(to_input('C'), CandyMachineInput::Unknown);
}

#[test]
fn new_machine_starts_unlocked_with_ten_candies() {
    let app = CandyMachine::new();
    assert_eq!(app.state, CandyMachineState { locked: false, candies: 10, coins: 0 });
}

#[test]
fn coin_then_turn_then_rejected_turn() {
    let mut state = CandyMachineState { locked: false, candies: 10, coins: 0 };

    let event = update(&mut state, CandyMachineInput::Coin);
    assert_eq!(event, CandyMachineEvent::CoinReceived);
    assert_eq!(state, CandyMachineState { locked: true, candies: 10, coins: 1 });

    let event = update(&mut state, CandyMachineInput::Turn);
    assert_eq!(event, CandyMachineEvent::CandyReleased);
    assert_eq!(state, CandyMachineState { locked: false, candies: 9, coins: 1 });

    let event = update(&mut state, CandyMachineInput::Turn);
    assert_eq!(event, CandyMachineEvent::InputIgnored);
    assert_eq!(state, CandyMachineState { locked: false, candies: 9, coins: 1 });
}

#[test]
fn coin_rejected_while_locked() {
    let mut state = CandyMachineState { locked: true, candies: 7, coins: 3 };
    let event = update(&mut state, CandyMachineInput::Coin);
    assert_eq!(event, CandyMachineEvent::InputIgnored);
    assert_eq!(state, CandyMachineState { locked: true, candies: 7, coins: 3 });
}

#[test]
fn coin_rejected_when_no_candies_left() {
    let mut state = CandyMachineState { locked: false, candies: 0, coins: 10 };
    let event = update(&mut state, CandyMachineInput::Coin);
    assert_eq!(event, CandyMachineEvent::InputIgnored);
    assert_eq!(state, CandyMachineState { locked: false, candies: 0, coins: 10 });
}

#[test]
fn turn_rejected_when_no_coins_taken() {
    let mut state = CandyMachineState { locked: false, candies: 10, coins: 0 };
    let event = update(&mut state, CandyMachineInput::Turn);
    assert_eq!(event, CandyMachineEvent::InputIgnored);
    assert_eq!(state, CandyMachineState { locked: false, candies: 10, coins: 0 });
}

#[test]
fn exit_leaves_state_unchanged_and_stops_the_loop() {
    let mut state = CandyMachineState { locked: true, candies: 4, coins: 6 };
    let event = update(&mut state, CandyMachineInput::Exit);
    assert_eq!(event, CandyMachineEvent::Exited);
    assert_eq!(state, CandyMachineState { locked: true, candies: 4, coins: 6 });
    assert_eq!(process_event(&event), Control::Stop(0x0100));
}

#[test]
fn unknown_input_is_ignored() {
    let mut state = CandyMachineState { locked: false, candies: 10, coins: 0 };
    let event = update(&mut state, CandyMachineInput::Unknown);
    assert_eq!(event, CandyMachineEvent::InputIgnored);
    assert_eq!(state, CandyMachineState { locked: false, candies: 10, coins: 0 });
}

#[test]
fn only_exit_stops_the_candy_loop() {
    assert_eq!(process_event(&CandyMachineEvent::CoinReceived), Control::Continue);
    assert_eq!(process_event(&CandyMachineEvent::CandyReleased), Control::Continue);
    assert_eq!(process_event(&CandyMachineEvent::InputIgnored), Control::Continue);
    assert_eq!(process_event(&CandyMachineEvent::Exited), Control::Stop(0x0100));
}

#[test]
fn publish_is_a_no_op() {
    let state = CandyMachineState { locked: false, candies: 10, coins: 0 };
    publish(&state);
    assert_eq!(state, CandyMachineState { locked: false, candies: 10, coins: 0 });
}
