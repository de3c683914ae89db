use hardback_server::lobby::{Connection, Lobby, LobbyAction, LobbyMsg, ServerReceivedMsg, Table};
use hardback_server::codec::GameCommand;

fn empty_msg() -> ServerReceivedMsg {
    ServerReceivedMsg {
        gamecommand: None,
        newTable: None,
        ready: None,
        joinTable: None,
        changePlayers: None,
        leaveTable: None,
        joinLobby: None,
        namechange: None,
        message: None,
        location: None,
    }
}

fn lobby_of(addrs: &[&str]) -> Lobby {
    let mut l = Lobby::new();
    for a in addrs {
        l.add_connection(Connection::new(a.to_string()));
    }
    l
}

#[test]
fn new_connection_defaults() {
    let c = Connection::new("x".to_owned());
    assert_eq!(c.name, "defaultname");
    assert_eq!(c.number_of_player, 3);
    assert_eq!(c.table, None);
    assert!(!c.ready && !c.game_started);
}

#[test]
fn add_connection_replaces_the_same_address() {
    let mut l = lobby_of(&["a", "b"]);
    let mut c = Connection::new("a".to_owned());
    c.name = "Ann".to_owned();
    l.add_connection(c);
    assert_eq!(l.connections.len(), 2);
    assert_eq!(l.connections[0].name, "Ann");
}

#[test]
fn make_table_seats_the_player_and_lists_the_table() {
    let mut l = lobby_of(&["a", "b"]);
    let mut tables = vec![];
    let mut out = vec![];
    let mut m = empty_msg();
    m.newTable = Some(true);
    let acts = l.from_json(&"a".to_owned(), m, &mut tables, &mut out);
    assert!(acts.is_empty());
    assert_eq!(l.connections[0].table, Some(0));
    assert_eq!(l.connections[0].player_num, Some(0));
    assert_eq!(l.table_index, 0);
    assert_eq!(out.len(), 2);
    match &out[1] {
        LobbyMsg::Tables { to, tables, tablenumber, sender } => {
            assert_eq!(to, "b");
            assert_eq!(tables.len(), 1);
            assert_eq!(tables[0].players, vec!["defaultname".to_owned()]);
            assert_eq!(tables[0].numberOfPlayers, 3);
            assert_eq!(*tablenumber, None);
            assert_eq!(sender, "defaultname");
        }
        _ => panic!("expected the tables"),
    }
}

#[test]
fn runs_of_a_table_are_listed_apart() {
    let mut l = lobby_of(&["a", "b", "c"]);
    l.connections[0].table = Some(4);
    l.connections[2].table = Some(4);
    let mut out = vec![];
    l.broadcast_tableinfo(&mut out);
    match &out[0] {
        LobbyMsg::Tables { tables, .. } => assert_eq!(tables.len(), 2),
        _ => panic!("expected the tables"),
    }
}

#[test]
fn everyone_ready_starts_the_game() {
    let mut l = lobby_of(&["a", "b"]);
    let mut tables: Vec<(usize, Table)> = vec![];
    let mut out = vec![];
    for a in ["a", "b"] {
        let mut m = empty_msg();
        m.joinTable = Some(2);
        l.from_json(&a.to_owned(), m, &mut tables, &mut out);
    }
    let mut m = empty_msg();
    m.ready = Some(true);
    let acts = l.from_json(&"a".to_owned(), m, &mut tables, &mut out);
    assert!(acts.is_empty());
    assert!(tables.is_empty());
    let mut m = empty_msg();
    m.ready = Some(true);
    let acts = l.from_json(&"b".to_owned(), m, &mut tables, &mut out);
    assert_eq!(acts.len(), 1);
    assert!(matches!(acts[0], LobbyAction::StartGame(2)));
    assert_eq!(tables.len(), 1);
    assert_eq!(tables[0].0, 2);
    assert_eq!(tables[0].1.players.len(), 2);
    assert!(l.connections.iter().all(|c| c.game_started));
    let players = tables[0].1.start_game();
    assert_eq!(players.len(), 2);
    assert_eq!(players[0].name, "defaultname");

    let mut m = empty_msg();
    let mut gc = GameCommand::new();
    gc.submit_word = Some(true);
    m.gamecommand = Some(gc);
    l.connections[1].player_num = Some(1);
    let acts = l.from_json(&"b".to_owned(), m, &mut tables, &mut out);
    assert_eq!(acts.len(), 1);
    match &acts[0] {
        LobbyAction::Forward { table, player_num, command } => {
            assert_eq!(*table, 2);
            assert_eq!(*player_num, 1);
            assert_eq!(command.submit_word, Some(true));
        }
        _ => panic!("expected the command handed on"),
    }
}

#[test]
fn chat_goes_to_the_lobby_or_the_table() {
    let mut l = lobby_of(&["a", "b", "c"]);
    l.connections[0].table = Some(1);
    l.connections[1].table = Some(1);
    let mut tables = vec![];
    let mut out = vec![];
    let mut m = empty_msg();
    m.message = Some("hi".to_owned());
    m.location = Some("table".to_owned());
    l.from_json(&"a".to_owned(), m, &mut tables, &mut out);
    assert_eq!(out.len(), 2);
    let mut m = empty_msg();
    m.message = Some("hello".to_owned());
    m.location = Some("lobby".to_owned());
    out.clear();
    l.from_json(&"z".to_owned(), m, &mut tables, &mut out);
    assert_eq!(out.len(), 3);
    match &out[2] {
        LobbyMsg::Chat { to, message, location, sender } => {
            assert_eq!(to, "c");
            assert_eq!(message, "hello");
            assert_eq!(location, "lobby");
            assert_eq!(sender, "defaultname");
        }
        _ => panic!("expected the chat"),
    }
}

#[test]
fn remove_table_and_connection() {
    let mut l = lobby_of(&["a", "b"]);
    l.connections[0].table = Some(3);
    l.connections[0].player_num = Some(0);
    let mut out = vec![];
    l.remove_table(3, &mut out);
    assert_eq!(l.connections[0].table, None);
    assert_eq!(l.connections[0].player_num, None);
    out.clear();
    l.remove_connection(&"a".to_owned(), &mut out);
    assert_eq!(l.connections.len(), 1);
    assert_eq!(out.len(), 1);
}

#[test]
fn change_players_and_leave() {
    let mut l = lobby_of(&["a", "b"]);
    let mut tables = vec![];
    let mut out = vec![];
    let mut m = empty_msg();
    m.joinTable = Some(1);
    l.from_json(&"a".to_owned(), m, &mut tables, &mut out);
    let mut m = empty_msg();
    m.changePlayers = Some(2);
    l.from_json(&"a".to_owned(), m, &mut tables, &mut out);
    assert_eq!(l.connections[0].number_of_player, 2);
    assert_eq!(l.connections[1].number_of_player, 3);
    let mut m = empty_msg();
    m.namechange = Some("Ann".to_owned());
    l.from_json(&"a".to_owned(), m, &mut tables, &mut out);
    assert_eq!(l.connections[0].name, "Ann");
    let mut m = empty_msg();
    m.leaveTable = Some(true);
    l.from_json(&"a".to_owned(), m, &mut tables, &mut out);
    assert_eq!(l.connections[0].table, None);
    assert_eq!(l.connections[0].number_of_player, 3);
}
