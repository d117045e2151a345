use irminsul::game_data::GameData;
use irminsul::monitor::{Action, ClassifiedCommand, Message, Monitor};
use irminsul::player_data::ExportSettings;
use irminsul::records::{AchievementRecord, ItemDetail, ItemRecord};
use irminsul::state::{AppState, DataUpdated, State};

fn monitor() -> Monitor {
    Monitor::new(AppState::new(), GameData::new())
}

fn settings() -> ExportSettings {
    ExportSettings {
        include_characters: true,
        include_artifacts: true,
        include_weapons: true,
        include_materials: true,
        min_character_level: 0,
        min_character_ascension: 0,
        min_character_constellation: 0,
        min_artifact_level: 0,
        min_artifact_rarity: 0,
        min_weapon_level: 0,
        min_weapon_refinement: 0,
        min_weapon_ascension: 0,
        min_weapon_rarity: 0,
    }
}

#[test]
fn stop_without_capture_is_a_warning() {
    let mut m = monitor();
    let action = m.handle_ui_msg(Message::StopCapture);
    assert!(matches!(action, Action::WarnNoCapture));
    assert!(!m.app_state().capturing);
}

#[test]
fn start_twice_is_abnormal_but_capturing() {
    let mut m = monitor();
    let first = m.handle_ui_msg(Message::StartCapture);
    assert!(matches!(first, Action::StartCapture { replaced: false }));
    let second = m.handle_ui_msg(Message::StartCapture);
    assert!(matches!(second, Action::StartCapture { replaced: true }));
    assert!(m.app_state().capturing);
}

#[test]
fn start_then_stop() {
    let mut m = monitor();
    m.handle_ui_msg(Message::StartCapture);
    let action = m.handle_ui_msg(Message::StopCapture);
    assert!(matches!(action, Action::StopCapture));
    assert!(!m.app_state().capturing);
    assert!(matches!(m.handle_ui_msg(Message::StopCapture), Action::WarnNoCapture));
}

#[test]
fn capture_failure_returns_to_idle() {
    let mut m = monitor();
    assert!(!m.handle_capture_failure());
    m.handle_ui_msg(Message::StartCapture);
    assert!(m.handle_capture_failure());
    assert!(!m.app_state().capturing);
}

#[test]
fn export_request_is_answered() {
    let mut m = monitor();
    match m.handle_ui_msg(Message::ExportGenshinOptimizer(settings())) {
        Action::Reply(doc) => {
            assert_eq!(doc.format, "GOOD");
            assert_eq!(doc.version, 2);
            assert!(doc.characters.is_empty());
        }
        _ => panic!("export request not answered"),
    }
}

#[test]
fn other_messages_are_ignored() {
    let mut m = monitor();
    assert!(matches!(m.handle_ui_msg(Message::UpdateAcknowledged), Action::Ignore));
    assert!(matches!(m.handle_ui_msg(Message::DownloadAcknowledged), Action::Ignore));
    assert!(!m.app_state().capturing);
}

#[test]
fn commands_update_records_and_freshness() {
    let mut m = monitor();
    let items = vec![ItemRecord { item_id: 1, guid: 2, detail: ItemDetail::Material { count: 3 } }];
    let achievements = vec![AchievementRecord {
        id: 9,
        status: 2,
        current_progress: 1,
        total_progress: 1,
        finish_timestamp: 5,
    }];
    let changed = m.handle_commands(
        vec![ClassifiedCommand::Unrecognized, ClassifiedCommand::Items(items), ClassifiedCommand::Achievements(achievements)],
        42,
    );
    assert!(changed);
    assert_eq!(m.app_state().updated.items_updated, Some(42));
    assert_eq!(m.app_state().updated.achievements_updated, Some(42));
    assert_eq!(m.app_state().updated.characters_updated, None);
    assert_eq!(m.player_data().items().len(), 1);
    assert_eq!(m.player_data().achievements().len(), 1);
    m.handle_commands(vec![ClassifiedCommand::Avatars(Vec::new())], 50);
    assert_eq!(m.app_state().updated.characters_updated, Some(50));
    assert_eq!(m.app_state().updated.items_updated, Some(42));
}

#[test]
fn unrecognized_commands_change_nothing() {
    let mut m = monitor();
    assert!(!m.handle_commands(vec![ClassifiedCommand::Unrecognized], 1));
    assert!(!m.handle_commands(Vec::new(), 2));
    assert_eq!(m.app_state().updated, DataUpdated::new());
}

#[test]
fn start_resets_session_records() {
    let mut m = monitor();
    let items = vec![ItemRecord { item_id: 1, guid: 2, detail: ItemDetail::Material { count: 3 } }];
    m.handle_commands(vec![ClassifiedCommand::Items(items)], 7);
    m.handle_ui_msg(Message::StartCapture);
    assert!(m.player_data().items().is_empty());
    assert_eq!(m.app_state().updated, DataUpdated::default());
}

#[test]
fn initial_state() {
    let s = AppState::new();
    assert!(matches!(s.state, State::Starting));
    assert!(!s.capturing);
    assert_eq!(s.updated.items_updated, None);
    let mut m = monitor();
    m.update_app_state(State::Main);
    assert!(matches!(m.app_state().state, State::Main));
}
