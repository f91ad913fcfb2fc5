use wayclip_daemon::discord::{
    DiscordPresenceManager, PresenceAction, PresenceCommand, PresenceWorker,
};

fn wish(game: Option<&str>) -> PresenceCommand {
    PresenceCommand::Recording { game: game.map(str::to_string) }
}

fn shown(action: PresenceAction) -> (String, String, i64) {
    match action {
        PresenceAction::Show(a) => (a.state, a.details, a.started_at),
        _ => panic!("something to show was expected"),
    }
}

#[test]
fn wishes_are_taken_up_in_order() {
    let mut m = DiscordPresenceManager::default();
    m.set_recording(Some("A".to_string()));
    m.set_recording(None);
    let PresenceCommand::Recording { game } = m.next().unwrap();
    assert_eq!(game.as_deref(), Some("A"));
    let PresenceCommand::Recording { game } = m.next().unwrap();
    assert_eq!(game, None);
    assert!(m.next().is_none());
}

#[test]
fn first_wish_connects_and_fixes_the_start() {
    let mut w = PresenceWorker::new();
    assert!(matches!(w.on_command(wish(Some("Game")), Some(1000)), PresenceAction::Connect));
    let got = shown(w.on_connect(true));
    assert_eq!(got, ("Recording".to_string(), "Game".to_string(), 1000));
    w.on_shown(true);
    let got = shown(w.on_command(wish(None), Some(2000)));
    assert_eq!(got, ("Recording".to_string(), "Desktop".to_string(), 1000));
}

#[test]
fn wish_without_discord_is_dropped() {
    let mut w = PresenceWorker::new();
    assert!(matches!(w.on_command(wish(None), None), PresenceAction::Connect));
    assert!(matches!(w.on_connect(false), PresenceAction::Rest));
    assert!(matches!(w.on_command(wish(None), Some(5)), PresenceAction::Connect));
    assert_eq!(shown(w.on_connect(true)).2, 0);
}

#[test]
fn lost_discord_is_connected_again() {
    let mut w = PresenceWorker::new();
    assert!(matches!(w.on_command(wish(None), Some(7)), PresenceAction::Connect));
    assert_eq!(shown(w.on_connect(true)).2, 7);
    w.on_shown(false);
    assert!(matches!(w.on_command(wish(None), Some(9)), PresenceAction::Connect));
}
