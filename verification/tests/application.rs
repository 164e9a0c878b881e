use transition_engine::application::{Application, Control};
use transition_engine::candy_machine::{CandyMachine, CandyMachineEvent, CandyMachineState};
use transition_engine::tic_tac_toe::{Player, TicTacToeEvent, TicTacToeGame};

#[test]
fn one_step_decodes_evolves_and_decides() {
    let mut app = CandyMachine::new();
    let (event, control) = app.step('c');
    assert_eq!(event, CandyMachineEvent::CoinReceived);
    assert_eq!(control, Control::Continue);
    assert_eq!(app.state, CandyMachineState { locked: true, candies: 10, coins: 1 });

    let (event, control) = app.step('t');
    assert_eq!(event, CandyMachineEvent::CandyReleased);
    assert_eq!(control, Control::Continue);
    assert_eq!(app.state, CandyMachineState { locked: false, candies: 9, coins: 1 });

    let (event, control) = app.step('?');
    assert_eq!(event, CandyMachineEvent::InputIgnored);
    assert_eq!(control, Control::Continue);
    assert_eq!(app.state, CandyMachineState { locked: false, candies: 9, coins: 1 });
}

#[test]
fn a_candy_run_stops_at_exit_and_ignores_the_rest() {
    let mut app = CandyMachine::new();
    let script = vec!['c', 't', 'x', 'c', 'c'];
    let (code, consumed) = app.run(&script);
    assert_eq!(code, Some(0x0100));
    assert_eq!(consumed, 3);
    assert_eq!(app.state, CandyMachineState { locked: false, candies: 9, coins: 1 });
}

#[test]
fn a_candy_run_without_exit_consumes_everything() {
    let mut app = CandyMachine::new();
    let script = vec!['c', 't', 'c', 't'];
    let (code, consumed) = app.run(&script);
    assert_eq!(code, None);
    assert_eq!(consumed, 4);
    assert_eq!(app.state, CandyMachineState { locked: false, candies: 8, coins: 2 });
}

#[test]
fn a_game_run_stops_the_moment_x_wins() {
    let mut app = TicTacToeGame::new();
    let script = vec![
        ('0', '0'),
        ('1', '0'),
        ('0', '1'),
        ('1', '1'),
        ('0', '2'),
        ('2', '2'),
    ];
    let (code, consumed) = app.run(&script);
    assert_eq!(code, Some(0x0200));
    assert_eq!(consumed, 5);
    assert_eq!(app.state.turn, Player::O);
}

#[test]
fn a_game_step_reports_a_rejected_move() {
    let mut app = TicTacToeGame::new();
    let (event, control) = app.step(('1', '1'));
    assert_eq!(event, TicTacToeEvent::Moved(Player::X, 1, 1));
    assert_eq!(control, Control::Continue);
    let (event, control) = app.step(('1', '1'));
    assert_eq!(event, TicTacToeEvent::InputIgnored);
    assert_eq!(control, Control::Continue);
    let (event, control) = app.step(('x', '!'));
    assert_eq!(event, TicTacToeEvent::Exited);
    assert_eq!(control, Control::Stop(0x0100));
}
