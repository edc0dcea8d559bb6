use client::game_events::{OpenSession, SessionErrorReceived, SessionUpdateReceived};
use client::info_panel::{
    authority_label, game_state_label, info_panel, panel_side, turn_border, AuthorityLabel,
    GameStateLabel, PanelColor, PlayerTags,
};
use client::session::{
    can_send_action, session_finished, session_opening, session_receive_event,
    SessionOpening, SessionReceiveEvent,
};
use client::ttt_flow::Side;

/// An opened session always starts connecting; only a delayed one waits for the reconnect
/// timer first.
#[test]
fn start_session_initialization() {
    let (session1, session2) = (1u64, 2u64);
    let opening1 = session_opening(&OpenSession::new(session1));
    let opening2 = session_opening(&OpenSession::new_delayed(session2));
    // both sessions are connecting
    assert!(matches!(opening1, SessionOpening::Connect | SessionOpening::Reconnect));
    assert!(matches!(opening2, SessionOpening::Connect | SessionOpening::Reconnect));
    // only the delayed one waits for the reconnect timer
    assert_eq!(opening1, SessionOpening::Connect);
    assert_eq!(opening2, SessionOpening::Reconnect);
}

/// When the tasks of two sessions finish, both are closed and only the active game opens its
/// session again, after a delay.
#[test]
fn session_close() {
    let (session_active, session_inactive) = (1u64, 2u64);
    let open_session: Vec<OpenSession> = [(session_active, true), (session_inactive, false)]
        .iter()
        .filter_map(|&(session, active)| session_finished(session, active))
        .collect();
    assert_eq!(open_session.len(), 1);
    assert_eq!(open_session[0].game, session_active);
    assert!(open_session[0].delayed);
}

/// An action is handed to the session only when there is a session and no send in flight.
#[test]
fn session_send_action() {
    // no session component: the send fails
    assert!(!can_send_action(false, false));
    // a send task is already present: the send fails
    assert!(!can_send_action(true, true));
    // otherwise a send task is created
    assert!(can_send_action(true, false));
}

/// Updates and errors received over a session become events; a closed channel gives none.
#[test]
fn session_receive_update() {
    let session = 7u64;
    let update = session_receive_event::<(), String>(session, Some(Ok((0, ()))));
    assert_eq!(
        update,
        Some(SessionReceiveEvent::Update(SessionUpdateReceived::new(session, 0, ())))
    );
    match update {
        Some(SessionReceiveEvent::Update(u)) => {
            assert_eq!(u.session_entity(), session);
            assert_eq!(u.player(), 0);
            assert_eq!(*u.action(), ());
        }
        other => panic!("unexpected {:?}", other),
    }
    let error = session_receive_event::<(), String>(session, Some(Err(String::new())));
    assert_eq!(
        error,
        Some(SessionReceiveEvent::Error(SessionErrorReceived::new(session, String::new())))
    );
    if let Some(SessionReceiveEvent::Error(e)) = error {
        assert_eq!(e.session_entity(), session);
        assert_eq!(e.error(), "");
    }
    assert_eq!(session_receive_event::<(), String>(session, None), None);
}

fn tags(position: u8, current_user: bool, current_player: bool, winner: bool) -> PlayerTags {
    PlayerTags {
        position,
        user_authority: if current_user { Some(10) } else { None },
        bot_authority: if current_user { None } else { Some(3) },
        current_user,
        current_player,
        winner,
    }
}

#[test]
fn info_panel_puts_the_user_on_the_left() {
    let bot = tags(0, false, true, false);
    let user = tags(1, true, false, false);
    let panel = info_panel(&[bot, user]).unwrap();
    assert_eq!(panel.user.tags, user);
    assert_eq!(panel.enemy.tags, bot);
    assert_eq!(panel.user.color, PanelColor::Friendly);
    assert_eq!(panel.enemy.color, PanelColor::Enemy);
    assert_eq!(panel.user.authority, AuthorityLabel::User(10));
    assert_eq!(panel.enemy.authority, AuthorityLabel::Bot(3));
    assert!(!panel.user.active);
    assert!(panel.enemy.active);
    assert_eq!(panel.label, GameStateLabel::Next(Side::Enemy));

    // the first player stays on the left when the second is not the user's
    let panel = info_panel(&[user, bot]).unwrap();
    assert_eq!(panel.user.tags, user);
    assert_eq!(panel.enemy.tags, bot);
}

#[test]
fn info_panel_needs_two_players() {
    let p = tags(0, true, true, false);
    assert!(info_panel(&[]).is_none());
    assert!(info_panel(&[p]).is_none());
    assert!(info_panel(&[p, p, p]).is_none());
}

#[test]
fn game_state_labels() {
    let idle_user = tags(0, true, false, false);
    let idle_enemy = tags(1, false, false, false);
    assert_eq!(game_state_label(&tags(0, true, true, false), &idle_enemy), GameStateLabel::Next(Side::User));
    assert_eq!(game_state_label(&idle_user, &tags(1, false, false, true)), GameStateLabel::Winner(Side::Enemy));
    assert_eq!(game_state_label(&tags(0, true, false, true), &idle_enemy), GameStateLabel::Winner(Side::User));
    assert_eq!(game_state_label(&idle_user, &idle_enemy), GameStateLabel::Draw);
}

#[test]
fn authority_labels_and_borders() {
    let mut both = tags(0, true, false, false);
    both.bot_authority = Some(1);
    assert_eq!(authority_label(&both), AuthorityLabel::Unknown);
    let mut none = tags(0, false, false, false);
    none.bot_authority = None;
    assert_eq!(authority_label(&none), AuthorityLabel::Unknown);
    assert_eq!(panel_side(&none).color, PanelColor::Enemy);
    assert_eq!(turn_border(1, PanelColor::Friendly, 1), Some(PanelColor::Friendly));
    assert_eq!(turn_border(0, PanelColor::Friendly, 1), None);
}
