use tictactoe_p2p::commands::{
    convert_coords, is_help_command, parse_coords, parse_peer_index, process_input, Commands,
    CoordinatesError,
};
use tictactoe_p2p::session::Input;

#[test]
fn command_names() {
    assert_eq!(Commands::Help.to_string(), "help");
    assert_eq!(Commands::Start.to_string(), "start");
    assert_eq!(Commands::Peers.to_string(), "peers");
    assert_eq!(Commands::Turn.to_string(), "turn");
}

#[test]
fn command_descriptions() {
    assert_eq!(Commands::Help.description(), ("help", "prints help."));
    assert_eq!(
        Commands::Start.description(),
        ("start <peer_index>", "sends peer with index <peer_index> offer to play.")
    );
    assert_eq!(
        Commands::Peers.description(),
        ("peers", "writes <index> : <peer_id> for all active peers.")
    );
    assert_eq!(
        Commands::Turn.description(),
        ("turn <row> <col>", "sends turn to opponent")
    );
}

#[test]
fn all_commands_in_help_order() {
    assert_eq!(
        Commands::all(),
        vec![Commands::Help, Commands::Start, Commands::Peers, Commands::Turn]
    );
}

#[test]
fn coordinates_parse_for_each_row_letter() {
    assert_eq!(parse_coords("turn A 1"), Ok((0, 0)));
    assert_eq!(parse_coords("turn B 2"), Ok((1, 1)));
    assert_eq!(parse_coords("turn C 3"), Ok((2, 2)));
}

#[test]
fn coordinates_accept_extra_whitespace_and_leading_zeros() {
    assert_eq!(parse_coords("turn   B \t 2  "), Ok((1, 1)));
    assert_eq!(parse_coords("turn A 01"), Ok((0, 0)));
}

#[test]
fn coordinate_format_errors() {
    assert_eq!(parse_coords("walk A 1"), Err(CoordinatesError::InvalidFormat));
    assert_eq!(parse_coords("turn A"), Err(CoordinatesError::InvalidFormat));
    assert_eq!(parse_coords("turn A 1 2"), Err(CoordinatesError::InvalidFormat));
    assert_eq!(parse_coords("turn AB 1"), Err(CoordinatesError::InvalidFormat));
    assert_eq!(parse_coords("turn A x"), Err(CoordinatesError::InvalidFormat));
    assert_eq!(parse_coords("turn A 1x"), Err(CoordinatesError::InvalidFormat));
    assert_eq!(parse_coords("turn"), Err(CoordinatesError::InvalidFormat));
}

#[test]
fn coordinate_value_errors() {
    assert_eq!(parse_coords("turn D 1"), Err(CoordinatesError::InvalidValue));
    assert_eq!(parse_coords("turn a 1"), Err(CoordinatesError::InvalidValue));
    assert_eq!(parse_coords("turn A 0"), Err(CoordinatesError::InvalidValue));
    assert_eq!(parse_coords("turn A 4"), Err(CoordinatesError::InvalidValue));
    assert_eq!(
        parse_coords("turn A 99999999999999999999"),
        Err(CoordinatesError::InvalidValue)
    );
}

#[test]
fn convert_coords_maps_letters_and_one_based_columns() {
    assert_eq!(convert_coords('A', 1), Some((0, 0)));
    assert_eq!(convert_coords('B', 3), Some((1, 2)));
    assert_eq!(convert_coords('C', 2), Some((2, 1)));
    assert_eq!(convert_coords('D', 1), None);
    assert_eq!(convert_coords('A', 0), None);
    assert_eq!(convert_coords('A', 4), None);
}

#[test]
fn input_lines_resolve_in_fixed_order() {
    assert_eq!(process_input("help"), None);
    assert!(is_help_command("help me please"));
    assert_eq!(process_input("peers"), Some(Input::ListPeers));
    assert_eq!(process_input("peers and more"), Some(Input::ListPeers));
    assert_eq!(process_input("turn B 2"), Some(Input::Turn(1, 1)));
    assert_eq!(process_input("turn Z 9"), None);
    assert_eq!(
        process_input("start 0"),
        Some(Input::InitiateGame(String::from("0")))
    );
    assert_eq!(
        process_input("start 12"),
        Some(Input::InitiateGame(String::from("12")))
    );
    assert_eq!(process_input("start"), None);
    assert_eq!(process_input("startled"), None);
    assert_eq!(process_input("y"), Some(Input::Yes));
    assert_eq!(process_input("yes"), Some(Input::Yes));
    assert_eq!(process_input("n"), Some(Input::No));
    assert_eq!(process_input("no"), Some(Input::No));
    assert_eq!(process_input("yess"), None);
    assert_eq!(process_input(""), None);
    assert_eq!(process_input("quit"), None);
}

#[test]
fn peer_index_parses_within_bounds() {
    assert_eq!(parse_peer_index("0", 3), Some(0));
    assert_eq!(parse_peer_index("2", 3), Some(2));
    assert_eq!(parse_peer_index("02", 3), Some(2));
    assert_eq!(parse_peer_index("3", 3), None);
    assert_eq!(parse_peer_index("", 3), None);
    assert_eq!(parse_peer_index("1a", 3), None);
    assert_eq!(parse_peer_index("-1", 3), None);
    assert_eq!(parse_peer_index("99999999999999999999", usize::MAX), None);
}
