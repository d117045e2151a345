//! The decisions of the capture session: what each control message and each
//! batch of decoded commands does to the session's state, and what the
//! caller must do next (start or cancel a capture task, answer an export).

use vstd::prelude::*;

use crate::export::export_document;
use crate::game_data::GameData;
use crate::good::Good;
use crate::player_data::{
    after_achievements, after_characters, after_items, ExportSettings, PlayerData, PlayerDataView,
};
use crate::records::{AchievementRecord, CharacterRecord, ItemRecord};
use crate::state::{AppState, DataUpdated, State};

verus! {

/// A request from the user interface.
pub enum Message {
    UpdateAcknowledged,
    UpdateCanceled,
    DownloadAcknowledged,
    StartCapture,
    StopCapture,
    /// Export the current records under these settings.
    ExportGenshinOptimizer(ExportSettings),
}

/// A decoded command, classified by the record category it carries.
pub enum ClassifiedCommand {
    Items(Vec<ItemRecord>),
    Avatars(Vec<CharacterRecord>),
    Achievements(Vec<AchievementRecord>),
    /// A command of no category of interest.
    Unrecognized,
}

/// What the caller must do after a control message.
pub enum Action {
    /// Start a new capture task and keep its cancellation handle. Where
    /// `replaced` is set a capture was already active: its handle is
    /// overwritten, so that task can no longer be cancelled, and the
    /// request is abnormal.
    StartCapture { replaced: bool },
    /// Cancel the active capture task.
    StopCapture,
    /// A stop was asked with no active capture: nothing to cancel.
    WarnNoCapture,
    /// Answer the export request with this document.
    Reply(Good),
    /// Nothing to do.
    Ignore,
}

/// Whether a capture is active after `msg`, from `capturing` before it.
pub open spec fn capture_after(capturing: bool, msg: Message) -> bool {
    match msg {
        Message::StartCapture => true,
        Message::StopCapture => false,
        _ => capturing,
    }
}

/// The action for a start request.
pub open spec fn start_action(capturing: bool) -> Action {
    Action::StartCapture { replaced: capturing }
}

/// The action for a stop request.
pub open spec fn stop_action(capturing: bool) -> Action {
    if capturing {
        Action::StopCapture
    } else {
        Action::WarnNoCapture
    }
}

/// A stop with no active capture leaves the session idle and asks only for
/// a warning; two starts in a row leave a capture active, the second one
/// marked as replacing an active capture.
pub proof fn lemma_control_idempotent(capturing: bool)
    ensures
        !capture_after(false, Message::StopCapture),
        stop_action(false) is WarnNoCapture,
        capture_after(capture_after(capturing, Message::StartCapture), Message::StartCapture),
        start_action(capture_after(capturing, Message::StartCapture)) == (Action::StartCapture {
            replaced: true,
        }),
{
}

/// The records after one classified command.
pub open spec fn apply_command(v: PlayerDataView, c: ClassifiedCommand) -> PlayerDataView {
    match c {
        ClassifiedCommand::Items(b) => after_items(v, b@),
        ClassifiedCommand::Avatars(b) => after_characters(v, b@),
        ClassifiedCommand::Achievements(b) => after_achievements(v, b@),
        ClassifiedCommand::Unrecognized => v,
    }
}

/// The records after the commands `cmds`, in order.
pub open spec fn apply_commands(v: PlayerDataView, cmds: Seq<ClassifiedCommand>) -> PlayerDataView
    decreases cmds.len(),
{
    if cmds.len() == 0 {
        v
    } else {
        apply_command(apply_commands(v, cmds.drop_last()), cmds.last())
    }
}

/// The freshness after one command received at `now`.
pub open spec fn stamp(u: DataUpdated, c: ClassifiedCommand, now: u64) -> DataUpdated {
    match c {
        ClassifiedCommand::Items(_) => DataUpdated { items_updated: Some(now), ..u },
        ClassifiedCommand::Avatars(_) => DataUpdated { characters_updated: Some(now), ..u },
        ClassifiedCommand::Achievements(_) => DataUpdated { achievements_updated: Some(now), ..u },
        ClassifiedCommand::Unrecognized => u,
    }
}

/// The freshness after the commands `cmds`, all received at `now`.
pub open spec fn stamp_all(u: DataUpdated, cmds: Seq<ClassifiedCommand>, now: u64) -> DataUpdated
    decreases cmds.len(),
{
    if cmds.len() == 0 {
        u
    } else {
        stamp(stamp_all(u, cmds.drop_last(), now), cmds.last(), now)
    }
}

/// The session: the published state and the aggregated records. It is the
/// only owner of both; the caller runs the capture tasks and the channels.
pub struct Monitor {
    app_state: AppState,
    player_data: PlayerData,
}

impl Monitor {
    /// The published state.
    pub closed spec fn spec_app_state(&self) -> AppState {
        self.app_state
    }

    /// The aggregated records.
    pub closed spec fn spec_player_data(&self) -> PlayerData {
        self.player_data
    }

    /// The records agree with their equip map.
    pub open spec fn wf(&self) -> bool {
        self.spec_player_data().wf()
    }

    /// A session with no records, publishing `app_state`.
    pub fn new(app_state: AppState, game_data: GameData) -> (r: Monitor)
        ensures
            r.wf(),
            r.spec_app_state() == app_state,
            r.spec_player_data()@.achievements.len() == 0,
            r.spec_player_data()@.characters.len() == 0,
            r.spec_player_data()@.items.len() == 0,
            r.spec_player_data()@.equip_map == Map::<u64, u32>::empty(),
            r.spec_player_data().spec_game_data() == game_data,
    {
        Monitor { app_state, player_data: PlayerData::new(game_data) }
    }

    /// The published state.
    pub fn app_state(&self) -> (r: &AppState)
        ensures
            *r == self.spec_app_state(),
    {
        &self.app_state
    }

    /// The aggregated records.
    pub fn player_data(&self) -> (r: &PlayerData)
        ensures
            *r == self.spec_player_data(),
    {
        &self.player_data
    }

    /// Sets the phase of the application.
    pub fn update_app_state(&mut self, state: State)
        requires
            old(self).wf(),
        ensures
            final(self).wf(),
            final(self).spec_app_state() == (AppState { state, ..old(self).spec_app_state() }),
            final(self).spec_player_data() == old(self).spec_player_data(),
    {
        self.app_state.state = state;
    }

    /// Applies a control message. A start always starts a new capture
    /// session with no records and no freshness, also where one was active
    /// (`replaced` in the action). A stop with no active capture changes
    /// nothing. An export answers with the document of the current records.
    pub fn handle_ui_msg(&mut self, msg: Message) -> (r: Action)
        requires
            old(self).wf(),
        ensures
            final(self).wf(),
            final(self).spec_app_state().capturing == capture_after(old(self).spec_app_state().capturing, msg),
            final(self).spec_app_state().state == old(self).spec_app_state().state,
            final(self).spec_player_data().spec_game_data() == old(self).spec_player_data().spec_game_data(),
            match msg {
                Message::StartCapture => {
                    &&& r == start_action(old(self).spec_app_state().capturing)
                    &&& final(self).spec_app_state().updated == DataUpdated {
                        achievements_updated: None,
                        characters_updated: None,
                        items_updated: None,
                    }
                    &&& final(self).spec_player_data()@.achievements.len() == 0
                    &&& final(self).spec_player_data()@.characters.len() == 0
                    &&& final(self).spec_player_data()@.items.len() == 0
                    &&& final(self).spec_player_data()@.equip_map == Map::<u64, u32>::empty()
                },
                Message::StopCapture => {
                    &&& r == stop_action(old(self).spec_app_state().capturing)
                    &&& final(self).spec_app_state().updated == old(self).spec_app_state().updated
                    &&& final(self).spec_player_data() == old(self).spec_player_data()
                },
                Message::ExportGenshinOptimizer(settings) => {
                    &&& r matches Action::Reply(doc)
                    &&& doc@ == export_document(
                        old(self).spec_player_data().spec_game_data(),
                        old(self).spec_player_data()@,
                        settings,
                    )
                    &&& final(self).spec_app_state() == old(self).spec_app_state()
                    &&& final(self).spec_player_data() == old(self).spec_player_data()
                },
                _ => {
                    &&& r is Ignore
                    &&& final(self).spec_app_state() == old(self).spec_app_state()
                    &&& final(self).spec_player_data() == old(self).spec_player_data()
                },
            },
    {
        match msg {
            Message::StartCapture => {
                let replaced = self.app_state.capturing;
                self.player_data.reset();
                self.app_state.updated = DataUpdated::new();
                self.app_state.capturing = true;
                Action::StartCapture { replaced }
            },
            Message::StopCapture => {
                if !self.app_state.capturing {
                    return Action::WarnNoCapture;
                }
                self.app_state.capturing = false;
                Action::StopCapture
            },
            Message::ExportGenshinOptimizer(settings) => {
                Action::Reply(self.player_data.export_genshin_optimizer(&settings))
            },
            _ => Action::Ignore,
        }
    }

    /// The capture task could not open its frame source: the capture ends.
    /// Returns whether the published state changed.
    pub fn handle_capture_failure(&mut self) -> (r: bool)
        requires
            old(self).wf(),
        ensures
            final(self).wf(),
            r == old(self).spec_app_state().capturing,
            final(self).spec_app_state() == (AppState { capturing: false, ..old(self).spec_app_state() }),
            final(self).spec_player_data() == old(self).spec_player_data(),
    {
        let was = self.app_state.capturing;
        self.app_state.capturing = false;
        was
    }

    /// Applies the classified commands of one frame, in order, each at
    /// `now`. Returns whether any of them carried records, in which case
    /// the freshness changed.
    pub fn handle_commands(&mut self, commands: Vec<ClassifiedCommand>, now: u64) -> (r: bool)
        requires
            old(self).wf(),
        ensures
            final(self).wf(),
            final(self).spec_player_data()@ == apply_commands(old(self).spec_player_data()@, commands@),
            final(self).spec_player_data().spec_game_data() == old(self).spec_player_data().spec_game_data(),
            final(self).spec_app_state() == (AppState {
                updated: stamp_all(old(self).spec_app_state().updated, commands@, now),
                ..old(self).spec_app_state()
            }),
            r == exists|i: int| 0 <= i < commands@.len() && !(commands@[i] is Unrecognized),
    {
        let ghost cmds = commands@;
        let mut has_new_data = false;
        for command in it: commands.into_iter()
            invariant
                it.seq() == cmds,
                self.wf(),
                self.player_data@ == apply_commands(old(self).player_data@, cmds.take(it.index() as int)),
                self.player_data.spec_game_data() == old(self).player_data.spec_game_data(),
                self.app_state == (AppState {
                    updated: stamp_all(old(self).app_state.updated, cmds.take(it.index() as int), now),
                    ..old(self).app_state
                }),
                has_new_data == exists|i: int| 0 <= i < it.index() && !(cmds[i] is Unrecognized),
        {
            proof {
                assert(cmds.take(it.index() + 1).drop_last() == cmds.take(it.index() as int));
            }
            match command {
                ClassifiedCommand::Items(items) => {
                    self.player_data.process_items(items);
                    self.app_state.updated.items_updated = Some(now);
                    has_new_data = true;
                },
                ClassifiedCommand::Avatars(avatars) => {
                    self.player_data.process_characters(avatars);
                    self.app_state.updated.characters_updated = Some(now);
                    has_new_data = true;
                },
                ClassifiedCommand::Achievements(achievements) => {
                    self.player_data.process_achievements(achievements);
                    self.app_state.updated.achievements_updated = Some(now);
                    has_new_data = true;
                },
                ClassifiedCommand::Unrecognized => {},
            }
        }
        proof {
            assert(cmds.take(cmds.len() as int) == cmds);
        }
        has_new_data
    }
}

} // verus!
