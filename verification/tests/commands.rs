use uciclient::commands::go_nodes_command;
use uciclient::commands::position_fen_command;
use uciclient::commands::position_startpos_command;
use uciclient::commands::set_option_command;

#[test]
fn position_fen_line() {
    assert_eq!(
        position_fen_command("8/8/8/8/8/8/8/K6k w - - 0 1", "a1a2 h1h2"),
        "position fen 8/8/8/8/8/8/8/K6k w - - 0 1 moves a1a2 h1h2".to_string()
    );
}

#[test]
fn position_startpos_line() {
    assert_eq!(
        position_startpos_command("e2e4 e7e5"),
        "position startpos moves e2e4 e7e5".to_string()
    );
    assert_eq!(position_startpos_command(""), "position startpos moves ".to_string());
}

#[test]
fn set_option_line() {
    assert_eq!(
        set_option_command("Hash", "128"),
        "setoption name Hash value 128".to_string()
    );
}

#[test]
fn go_nodes_line() {
    assert_eq!(go_nodes_command(0), "go nodes 0".to_string());
    assert_eq!(go_nodes_command(1234), "go nodes 1234".to_string());
    assert_eq!(go_nodes_command(1_000_000), "go nodes 1000000".to_string());
}
