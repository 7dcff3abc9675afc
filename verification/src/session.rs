use vstd::prelude::*;
use crate::combo::{combo_bonus_percent, combo_bonus_points, combo_percent, combo_points, COMBO_MIN_FARTS, MEGA_FART_MIN_FARTS};
use crate::death::DeathType;
use crate::leaderboard::{after_store, duplicate_entries, LeaderboardCache, LeaderboardEntry};
use crate::name_entry::{
    after_backspace, after_typing, byte_len, char_is_alphanumeric, clear_name, confirmed_name,
    erase_char, lemma_backspace_keeps_name_valid, lemma_typed_name_stays_short, lemma_typed_names_are_alphanumeric,
    lemma_confirmed_name_not_empty, resolve_confirmed_name, type_char, NAME_INPUT_MAX_BYTES,
};
use crate::sound::SoundAction;
use crate::zone::AltitudeZone;

verus! {

/// The screen the game is on.
#[derive(Clone, Copy, PartialEq, Eq, Structural, Debug)]
pub enum GameState {
    /// Title screen.
    Menu,
    /// Main menu with its three buttons.
    MainMenu,
    /// Typing the player name.
    EnterName,
    /// The full leaderboard.
    Leaderboard,
    /// The (not yet available) custom game screen.
    CustomGame,
    /// A round is running.
    Playing,
    /// The death animation of the round is playing.
    Dying,
    /// The round is over.
    GameOver,
}

/// Number of buttons of the main menu: play, leaderboard, custom game.
pub const MENU_BUTTON_COUNT: usize = 3;

/// The button above `selected`, wrapping from the first to the last.
pub open spec fn previous_button(selected: nat) -> nat {
    (((selected + MENU_BUTTON_COUNT - 1) as int) % (MENU_BUTTON_COUNT as int)) as nat
}

/// The button below `selected`, wrapping from the last to the first.
pub open spec fn next_button(selected: nat) -> nat {
    (((selected + 1) as int) % (MENU_BUTTON_COUNT as int)) as nat
}

/// Moves the menu selection one button up, wrapping around.
pub fn select_previous(selected: usize) -> (r: usize)
    requires
        selected < MENU_BUTTON_COUNT,
    ensures
        r == previous_button(selected as nat),
        r < MENU_BUTTON_COUNT,
{
    (selected + MENU_BUTTON_COUNT - 1) % MENU_BUTTON_COUNT
}

/// Moves the menu selection one button down, wrapping around.
pub fn select_next(selected: usize) -> (r: usize)
    requires
        selected < MENU_BUTTON_COUNT,
    ensures
        r == next_button(selected as nat),
        r < MENU_BUTTON_COUNT,
{
    (selected + 1) % MENU_BUTTON_COUNT
}

/// Moving up then down, or down then up, comes back to the same button.
pub proof fn lemma_menu_moves_undo_each_other(selected: nat)
    requires
        selected < MENU_BUTTON_COUNT,
    ensures
        next_button(previous_button(selected)) == selected,
        previous_button(next_button(selected)) == selected,
        previous_button(selected) < MENU_BUTTON_COUNT,
        next_button(selected) < MENU_BUTTON_COUNT,
{
}

/// What the player did on one frame, as the input layer read it, together with the
/// outside facts that the menus decide on.
pub struct FrameInput {
    /// A left click or a touch started this frame.
    pub any_click: bool,
    pub space: bool,
    pub escape: bool,
    pub enter: bool,
    /// Up arrow or W.
    pub up: bool,
    /// Down arrow or S.
    pub down: bool,
    pub backspace: bool,
    /// A character typed on the keyboard.
    pub typed: Option<char>,
    /// The pointer is over the play button.
    pub play_hovered: bool,
    /// The pointer is over the leaderboard button.
    pub leaderboard_hovered: bool,
    /// The play button was clicked or touched.
    pub play_activated: bool,
    /// The leaderboard button was clicked or touched.
    pub leaderboard_activated: bool,
    /// The custom game button was clicked or touched.
    pub custom_activated: bool,
    /// The text that the on-screen keyboard confirmed this frame.
    pub confirmed_name: Option<String>,
    /// The platform is configured and the user is authenticated.
    pub connected: bool,
    /// The user name that the platform knows.
    pub platform_username: String,
}

/// A [`FrameInput`] with its texts and lists as sequences.
pub struct InputView {
    pub any_click: bool,
    pub space: bool,
    pub escape: bool,
    pub enter: bool,
    pub up: bool,
    pub down: bool,
    pub backspace: bool,
    pub typed: Option<char>,
    pub play_hovered: bool,
    pub leaderboard_hovered: bool,
    pub play_activated: bool,
    pub leaderboard_activated: bool,
    pub custom_activated: bool,
    pub confirmed_name: Option<Seq<char>>,
    pub connected: bool,
    pub platform_username: Seq<char>,
}

impl View for FrameInput {
    type V = InputView;

    open spec fn view(&self) -> InputView {
        InputView {
            any_click: self.any_click,
            space: self.space,
            escape: self.escape,
            enter: self.enter,
            up: self.up,
            down: self.down,
            backspace: self.backspace,
            typed: self.typed,
            play_hovered: self.play_hovered,
            leaderboard_hovered: self.leaderboard_hovered,
            play_activated: self.play_activated,
            leaderboard_activated: self.leaderboard_activated,
            custom_activated: self.custom_activated,
            confirmed_name: match self.confirmed_name {
                Some(t) => Some(t@),
                None => None,
            },
            connected: self.connected,
            platform_username: self.platform_username@,
        }
    }
}

/// The result of a finished round, as it is sent to the platform.
pub struct ScoreReport {
    pub name: String,
    pub score: u32,
    pub difficulty_level: u32,
    pub combo_max: u32,
    pub fart_count: u32,
    pub death: DeathType,
    pub zone: AltitudeZone,
}

/// A [`ScoreReport`] with the name as a sequence.
pub struct ReportView {
    pub name: Seq<char>,
    pub score: u32,
    pub difficulty_level: u32,
    pub combo_max: u32,
    pub fart_count: u32,
    pub death: DeathType,
    pub zone: AltitudeZone,
}

impl View for ScoreReport {
    type V = ReportView;

    open spec fn view(&self) -> ReportView {
        ReportView {
            name: self.name@,
            score: self.score,
            difficulty_level: self.difficulty_level,
            combo_max: self.combo_max,
            fart_count: self.fart_count,
            death: self.death,
            zone: self.zone,
        }
    }
}

/// Something the game asks the outside world to do.
pub enum Action {
    /// Start fetching the leaderboard from the platform.
    StartLeaderboardFetch,
    /// Show the on-screen keyboard.
    ShowKeyboard,
    /// Hide the on-screen keyboard.
    HideKeyboard,
    /// Clear the on-screen keyboard's text.
    ResetKeyboard,
    /// Put the player, the obstacles and the effects back to the start of a round.
    ResetRound,
    /// Persist a new high score.
    SaveHighScore(u32),
    /// Send the result of a round to the platform.
    SubmitScore(ScoreReport),
}

/// An [`Action`] with its report as a [`ReportView`].
pub enum ActionView {
    StartLeaderboardFetch,
    ShowKeyboard,
    HideKeyboard,
    ResetKeyboard,
    ResetRound,
    SaveHighScore(u32),
    SubmitScore(ReportView),
}

impl View for Action {
    type V = ActionView;

    open spec fn view(&self) -> ActionView {
        match self {
            Action::StartLeaderboardFetch => ActionView::StartLeaderboardFetch,
            Action::ShowKeyboard => ActionView::ShowKeyboard,
            Action::HideKeyboard => ActionView::HideKeyboard,
            Action::ResetKeyboard => ActionView::ResetKeyboard,
            Action::ResetRound => ActionView::ResetRound,
            Action::SaveHighScore(s) => ActionView::SaveHighScore(*s),
            Action::SubmitScore(r) => ActionView::SubmitScore(r@),
        }
    }
}

/// The views of a list of actions.
pub open spec fn action_views(actions: Seq<Action>) -> Seq<ActionView> {
    actions.map_values(|a: Action| a@)
}

/// The discrete state of a game: the screen, the menu selection, the names, the
/// counters of the current round, and the sounds waiting to be played.
pub struct CoreState {
    pub state: GameState,
    pub selected: usize,
    pub player_name: Seq<char>,
    pub name_input: Seq<char>,
    pub connected: bool,
    pub high_score: u32,
    pub fart_count: u32,
    pub combo_count: usize,
    pub combo_max: u32,
    pub difficulty_level: u32,
    pub death: DeathType,
    pub zone: AltitudeZone,
    pub leaderboard: Seq<LeaderboardEntry>,
    pub pending_sounds: Seq<SoundAction>,
}

/// The invariant of a game: a valid menu selection, and a name being typed made of
/// alphanumeric characters and at most fifteen bytes long.
pub open spec fn core_wf(s: CoreState) -> bool {
    &&& s.selected < MENU_BUTTON_COUNT
    &&& byte_len(s.name_input) <= NAME_INPUT_MAX_BYTES + 3
    &&& forall|i: int| 0 <= i < s.name_input.len() ==> char_is_alphanumeric(#[trigger] s.name_input[i])
}

/// The state at the start of a round: counters back to zero, level one, alive, in the
/// middle sky; the connection is read again.
pub open spec fn reset_round(s: CoreState, connected: bool) -> CoreState {
    CoreState {
        fart_count: 0,
        combo_count: 0,
        combo_max: 0,
        difficulty_level: 1,
        death: DeathType::Alive,
        zone: AltitudeZone::Sky,
        connected: connected,
        ..s
    }
}

/// A new round on the playing screen.
pub open spec fn start_round(s: CoreState, connected: bool) -> CoreState {
    CoreState { state: GameState::Playing, ..reset_round(s, connected) }
}

/// The screens on which a leaderboard delivered by the platform is taken in.
pub open spec fn polls(state: GameState) -> bool {
    state == GameState::MainMenu || state == GameState::Leaderboard || state == GameState::GameOver
}

/// Whether the screen `state` takes in a leaderboard that the platform delivered.
pub fn polls_leaderboard(state: GameState) -> (b: bool)
    ensures
        b == polls(state),
{
    match state {
        GameState::MainMenu | GameState::Leaderboard | GameState::GameOver => true,
        _ => false,
    }
}

/// Title screen: space or a click opens the main menu on its first button, and starts
/// a leaderboard fetch when the platform is connected (an anonymous game makes no call
/// to the platform).
pub open spec fn menu_step(s: CoreState, i: InputView) -> (CoreState, Seq<ActionView>) {
    if i.space || i.any_click {
        (
            CoreState { state: GameState::MainMenu, selected: 0, ..s },
            if s.connected { seq![ActionView::StartLeaderboardFetch] } else { seq![] },
        )
    } else {
        (s, seq![])
    }
}

/// The main-menu selection after this frame's arrows and hovering.
pub open spec fn menu_selection(selected: usize, i: InputView) -> usize {
    let a = if i.up { previous_button(selected as nat) as usize } else { selected };
    let b = if i.down { next_button(a as nat) as usize } else { a };
    let c = if i.play_hovered { 0 } else { b };
    if i.leaderboard_hovered { 1 } else { c }
}

/// Main menu. The selection moves with the arrows and follows the pointer. Play (its
/// button, or enter/space on it) asks for a name when there is none and the platform
/// is not connected; otherwise it starts a round, taking the platform's user name when
/// there is no name yet. Leaderboard opens the leaderboard (fetching it when
/// connected); custom game opens its screen. Escape goes back to the title screen.
pub open spec fn main_menu_step(s: CoreState, i: InputView) -> (CoreState, Seq<ActionView>) {
    let sel = menu_selection(s.selected, i);
    let confirm = i.enter || i.space;
    let play = i.play_activated || (sel == 0 && confirm);
    let board = i.leaderboard_activated || (sel == 1 && confirm);
    let custom = i.custom_activated || (sel == 2 && confirm);
    let s1 = CoreState { selected: sel, ..s };
    let (s2, acts) = if play {
        if s.player_name.len() == 0 && !s.connected {
            (CoreState { state: GameState::EnterName, ..s1 }, seq![ActionView::ShowKeyboard])
        } else {
            let name = if s.player_name.len() == 0 && s.connected {
                i.platform_username
            } else {
                s.player_name
            };
            (start_round(CoreState { player_name: name, ..s1 }, i.connected), seq![ActionView::ResetRound])
        }
    } else if board {
        (
            CoreState { state: GameState::Leaderboard, ..s1 },
            if s.connected { seq![ActionView::StartLeaderboardFetch] } else { seq![] },
        )
    } else if custom {
        (CoreState { state: GameState::CustomGame, ..s1 }, seq![])
    } else {
        (s1, seq![])
    };
    (if i.escape { CoreState { state: GameState::Menu, ..s2 } } else { s2 }, acts)
}

/// Leaderboard screen: escape, space or a click goes back to the main menu.
pub open spec fn leaderboard_step(s: CoreState, i: InputView) -> (CoreState, Seq<ActionView>) {
    if i.escape || i.space || i.any_click {
        (CoreState { state: GameState::MainMenu, ..s }, seq![])
    } else {
        (s, seq![])
    }
}

/// Custom game screen: escape or space goes back to the main menu.
pub open spec fn custom_step(s: CoreState, i: InputView) -> (CoreState, Seq<ActionView>) {
    if i.escape || i.space {
        (CoreState { state: GameState::MainMenu, ..s }, seq![])
    } else {
        (s, seq![])
    }
}

/// Name entry. A text confirmed on the on-screen keyboard becomes the name ("Anonymous"
/// when empty) and starts a round. A typed character goes into the name being typed
/// (see `after_typing`), backspace removes one, and enter with a non-empty name being
/// typed makes it the player name and starts a round. Escape clears the name being
/// typed and goes back to the main menu.
pub open spec fn enter_name_step(s: CoreState, i: InputView) -> (CoreState, Seq<ActionView>) {
    let (s1, a1) = match i.confirmed_name {
        Some(t) => (
            start_round(CoreState { player_name: confirmed_name(t), name_input: seq![], ..s }, i.connected),
            seq![ActionView::ResetKeyboard, ActionView::HideKeyboard, ActionView::ResetRound],
        ),
        None => (s, seq![]),
    };
    let n1 = match i.typed {
        Some(c) => after_typing(s1.name_input, c),
        None => s1.name_input,
    };
    let n2 = if i.backspace { after_backspace(n1) } else { n1 };
    let s2 = CoreState { name_input: n2, ..s1 };
    let (s3, a3) = if i.enter && n2.len() > 0 {
        (start_round(CoreState { player_name: n2, name_input: seq![], ..s2 }, i.connected), seq![ActionView::ResetRound])
    } else {
        (s2, seq![])
    };
    let (s4, a4) = if i.escape {
        (
            CoreState { state: GameState::MainMenu, name_input: seq![], ..s3 },
            seq![ActionView::HideKeyboard, ActionView::ResetKeyboard],
        )
    } else {
        (s3, seq![])
    };
    (s4, a1 + a3 + a4)
}

/// Game over: space or a click starts a new round; escape goes back to the main menu.
pub open spec fn game_over_step(s: CoreState, i: InputView) -> (CoreState, Seq<ActionView>) {
    let (s2, acts) = if i.space || i.any_click {
        (start_round(s, i.connected), seq![ActionView::ResetRound])
    } else {
        (s, seq![])
    };
    (if i.escape { CoreState { state: GameState::MainMenu, ..s2 } } else { s2 }, acts)
}

/// One frame of the menus. While a round runs or its death animation plays, nothing
/// changes here: those screens are driven by the round's own operations.
pub open spec fn menu_frame(s: CoreState, i: InputView) -> (CoreState, Seq<ActionView>) {
    match s.state {
        GameState::Menu => menu_step(s, i),
        GameState::MainMenu => main_menu_step(s, i),
        GameState::Leaderboard => leaderboard_step(s, i),
        GameState::CustomGame => custom_step(s, i),
        GameState::EnterName => enter_name_step(s, i),
        GameState::GameOver => game_over_step(s, i),
        GameState::Playing => (s, seq![]),
        GameState::Dying => (s, seq![]),
    }
}

/// The end of the death animation: the high score rises to the round's score if it beat
/// it (and is saved); when connected, the result is submitted and a leaderboard fetch
/// starts; the game-over sound is queued and the game-over screen shown.
pub open spec fn finish_round(s: CoreState, score: u32) -> (CoreState, Seq<ActionView>) {
    let report = ReportView {
        name: s.player_name,
        score: score,
        difficulty_level: s.difficulty_level,
        combo_max: s.combo_max,
        fart_count: s.fart_count,
        death: s.death,
        zone: s.zone,
    };
    let save = if score > s.high_score { seq![ActionView::SaveHighScore(score)] } else { seq![] };
    let submit = if s.connected {
        seq![ActionView::SubmitScore(report), ActionView::StartLeaderboardFetch]
    } else {
        seq![]
    };
    (
        CoreState {
            high_score: if score > s.high_score { score } else { s.high_score },
            pending_sounds: s.pending_sounds.push(SoundAction::GameOver),
            state: GameState::GameOver,
            ..s
        },
        save + submit,
    )
}

/// The combo that a fart completes, when `recent` farts (this one included) fell in
/// the combo window: its size, its power bonus in percent, and its score points.
pub struct ComboReward {
    pub level: usize,
    pub percent: u128,
    pub points: u128,
}

/// A fart with `recent` farts in the combo window: the fart counter goes up by one;
/// from three farts on, the combo takes that size (its best size in the round is kept,
/// and a bigger combo than before queues the combo sound); then the fart sound is
/// queued, a mega fart from five farts on.
pub open spec fn after_fart(s: CoreState, recent: usize) -> CoreState {
    let combo = recent >= COMBO_MIN_FARTS;
    let level_up = combo && recent > s.combo_count;
    let sounds1 = if level_up { s.pending_sounds.push(SoundAction::ComboUp) } else { s.pending_sounds };
    let sound = if recent >= MEGA_FART_MIN_FARTS { SoundAction::MegaFart } else { SoundAction::Fart };
    CoreState {
        fart_count: (s.fart_count + 1) as u32,
        combo_count: if combo { recent } else { s.combo_count },
        combo_max: if combo && (recent as u32) > s.combo_max { recent as u32 } else { s.combo_max },
        pending_sounds: sounds1.push(sound),
        ..s
    }
}

/// The state of a game apart from its floating-point physics (see [`CoreState`]).
pub struct GameCore {
    state: GameState,
    selected: usize,
    player_name: String,
    name_input: String,
    connected: bool,
    high_score: u32,
    fart_count: u32,
    combo_count: usize,
    combo_max: u32,
    difficulty_level: u32,
    death: DeathType,
    zone: AltitudeZone,
    leaderboard: Vec<LeaderboardEntry>,
    pending_sounds: Vec<SoundAction>,
}

impl View for GameCore {
    type V = CoreState;

    closed spec fn view(&self) -> CoreState {
        CoreState {
            state: self.state,
            selected: self.selected,
            player_name: self.player_name@,
            name_input: self.name_input@,
            connected: self.connected,
            high_score: self.high_score,
            fart_count: self.fart_count,
            combo_count: self.combo_count,
            combo_max: self.combo_max,
            difficulty_level: self.difficulty_level,
            death: self.death,
            zone: self.zone,
            leaderboard: self.leaderboard@,
            pending_sounds: self.pending_sounds@,
        }
    }
}

impl GameCore {
    /// A game on the title screen, before any round: the player name is the platform's
    /// user name when connected and empty otherwise.
    pub fn new(
        high_score: u32,
        connected: bool,
        platform_username: String,
        leaderboard: Vec<LeaderboardEntry>,
    ) -> (g: Self)
        ensures
            core_wf(g@),
            g@.state == GameState::Menu,
            g@.selected == 0,
            g@.player_name == if connected { platform_username@ } else { Seq::<char>::empty() },
            g@.name_input.len() == 0,
            g@.connected == connected,
            g@.high_score == high_score,
            g@.fart_count == 0,
            g@.combo_count == 0,
            g@.combo_max == 0,
            g@.difficulty_level == 1,
            g@.death == DeathType::Alive,
            g@.zone == AltitudeZone::Sky,
            g@.leaderboard == leaderboard@,
            g@.pending_sounds.len() == 0,
    {
        let player_name = if connected { platform_username } else { String::new() };
        let g = GameCore {
            state: GameState::Menu,
            selected: 0,
            player_name,
            name_input: String::new(),
            connected,
            high_score,
            fart_count: 0,
            combo_count: 0,
            combo_max: 0,
            difficulty_level: 1,
            death: DeathType::Alive,
            zone: AltitudeZone::Sky,
            leaderboard,
            pending_sounds: Vec::new(),
        };
        proof {
            assert(g@.name_input =~= Seq::<char>::empty());
            assert(byte_len(g@.name_input) == 0);
        }
        g
    }

    fn reset_round(&mut self, connected: bool)
        ensures
            final(self)@ == reset_round(old(self)@, connected),
    {
        self.fart_count = 0;
        self.combo_count = 0;
        self.combo_max = 0;
        self.difficulty_level = 1;
        self.death = DeathType::Alive;
        self.zone = AltitudeZone::Sky;
        self.connected = connected;
    }

    fn start_round(&mut self, connected: bool, actions: &mut Vec<Action>)
        ensures
            final(self)@ == start_round(old(self)@, connected),
            action_views(final(actions)@) == action_views(old(actions)@).push(ActionView::ResetRound),
    {
        self.reset_round(connected);
        self.state = GameState::Playing;
        push_action(actions, Action::ResetRound);
    }

    /// Takes in a leaderboard that the platform delivered: it becomes the game's
    /// leaderboard and is stored in `cache`.
    pub fn take_leaderboard(&mut self, cache: &mut LeaderboardCache, entries: Vec<LeaderboardEntry>)
        requires
            core_wf(old(self)@),
        ensures
            core_wf(final(self)@),
            final(self)@ == (CoreState { leaderboard: entries@, ..old(self)@ }),
            final(cache)@ == after_store(old(cache)@, entries@),
    {
        cache.update_leaderboard_cache(duplicate_entries(&entries));
        self.leaderboard = entries;
    }

    /// Advances the menus by one frame (see [`menu_frame`]).
    pub fn step(&mut self, input: FrameInput) -> (actions: Vec<Action>)
        requires
            core_wf(old(self)@),
        ensures
            core_wf(final(self)@),
            (final(self)@, action_views(actions@)) == menu_frame(old(self)@, input@),
    {
        let mut actions: Vec<Action> = Vec::new();
        proof {
            assert(action_views(actions@) =~= Seq::<ActionView>::empty());
        }
        match self.state {
            GameState::Menu => {
                self.menu_step(&input, &mut actions);
            },
            GameState::MainMenu => {
                self.main_menu_step(input, &mut actions);
            },
            GameState::Leaderboard => {
                if input.escape || input.space || input.any_click {
                    self.state = GameState::MainMenu;
                }
            },
            GameState::CustomGame => {
                if input.escape || input.space {
                    self.state = GameState::MainMenu;
                }
            },
            GameState::EnterName => {
                self.enter_name_step(input, &mut actions);
            },
            GameState::GameOver => {
                let restart = input.space || input.any_click;
                let escape = input.escape;
                let connected = input.connected;
                if restart {
                    self.start_round(connected, &mut actions);
                }
                if escape {
                    self.state = GameState::MainMenu;
                }
            },
            GameState::Playing => {},
            GameState::Dying => {},
        }
        actions
    }

    fn menu_step(&mut self, input: &FrameInput, actions: &mut Vec<Action>)
        requires
            old(self)@.state == GameState::Menu,
            core_wf(old(self)@),
            action_views(old(actions)@) == Seq::<ActionView>::empty(),
        ensures
            core_wf(final(self)@),
            (final(self)@, action_views(final(actions)@)) == menu_step(old(self)@, input@),
    {
        if input.space || input.any_click {
            self.selected = 0;
            if self.connected {
                push_action(actions, Action::StartLeaderboardFetch);
            }
            self.state = GameState::MainMenu;
        }
    }

    fn main_menu_step(&mut self, input: FrameInput, actions: &mut Vec<Action>)
        requires
            old(self)@.state == GameState::MainMenu,
            core_wf(old(self)@),
            action_views(old(actions)@) == Seq::<ActionView>::empty(),
        ensures
            core_wf(final(self)@),
            (final(self)@, action_views(final(actions)@)) == main_menu_step(old(self)@, input@),
    {
        let ghost s0 = self@;
        let ghost iv = input@;
        if input.up {
            self.selected = select_previous(self.selected);
        }
        if input.down {
            self.selected = select_next(self.selected);
        }
        if input.play_hovered {
            self.selected = 0;
        }
        if input.leaderboard_hovered {
            self.selected = 1;
        }
        let confirm = input.enter || input.space;
        let play = input.play_activated || (self.selected == 0 && confirm);
        let board = input.leaderboard_activated || (self.selected == 1 && confirm);
        let custom = input.custom_activated || (self.selected == 2 && confirm);
        let escape = input.escape;
        let connected_now = input.connected;
        let FrameInput { platform_username, .. } = input;
        if play {
            if self.player_name.as_str().is_empty() && !self.connected {
                self.state = GameState::EnterName;
                push_action(actions, Action::ShowKeyboard);
            } else {
                if self.player_name.as_str().is_empty() && self.connected {
                    self.player_name = platform_username;
                }
                self.start_round(connected_now, actions);
            }
        } else if board {
            if self.connected {
                push_action(actions, Action::StartLeaderboardFetch);
            }
            self.state = GameState::Leaderboard;
        } else if custom {
            self.state = GameState::CustomGame;
        }
        if escape {
            self.state = GameState::Menu;
        }
        proof {
            assert(self.selected == menu_selection(s0.selected, iv));
        }
    }

    fn enter_name_step(&mut self, input: FrameInput, actions: &mut Vec<Action>)
        requires
            old(self)@.state == GameState::EnterName,
            core_wf(old(self)@),
            action_views(old(actions)@) == Seq::<ActionView>::empty(),
        ensures
            core_wf(final(self)@),
            (final(self)@, action_views(final(actions)@)) == enter_name_step(old(self)@, input@),
    {
        let ghost s0 = self@;
        let ghost iv = input@;
        let connected_now = input.connected;
        let typed = input.typed;
        let backspace = input.backspace;
        let enter = input.enter;
        let escape = input.escape;
        let FrameInput { confirmed_name: confirmed, .. } = input;
        if let Some(text) = confirmed {
            push_action(actions, Action::ResetKeyboard);
            push_action(actions, Action::HideKeyboard);
            self.player_name = resolve_confirmed_name(text);
            clear_name(&mut self.name_input);
            self.start_round(connected_now, actions);
        }
        let ghost s1 = self@;
        proof {
            assert(core_wf(s1)) by {
                assert(s1.name_input.len() == 0 || s1.name_input == s0.name_input);
                if s1.name_input.len() == 0 {
                    assert(s1.name_input =~= Seq::<char>::empty());
                }
            }
        }
        if let Some(c) = typed {
            proof {
                lemma_typed_name_stays_short(self.name_input@, c);
                lemma_typed_names_are_alphanumeric(self.name_input@, c);
            }
            type_char(&mut self.name_input, c);
        }
        if backspace {
            proof {
                lemma_backspace_keeps_name_valid(self.name_input@);
            }
            erase_char(&mut self.name_input);
        }
        if enter && !self.name_input.as_str().is_empty() {
            self.player_name = self.name_input.clone();
            clear_name(&mut self.name_input);
            self.start_round(connected_now, actions);
        }
        if escape {
            push_action(actions, Action::HideKeyboard);
            push_action(actions, Action::ResetKeyboard);
            clear_name(&mut self.name_input);
            self.state = GameState::MainMenu;
        }
        proof {
            assert(byte_len(Seq::<char>::empty()) == 0);
            assert(action_views(actions@) =~= enter_name_step(s0, iv).1);
        }
    }

    /// Records a fart while `recent` farts (this one included) fell within the combo
    /// window (see [`after_fart`]), and returns the combo it completes, if any.
    pub fn record_fart(&mut self, recent: usize) -> (reward: Option<ComboReward>)
        requires
            core_wf(old(self)@),
            old(self)@.fart_count < u32::MAX,
        ensures
            core_wf(final(self)@),
            final(self)@ == after_fart(old(self)@, recent),
            recent >= COMBO_MIN_FARTS <==> reward is Some,
            reward matches Some(r) ==> r.level == recent && r.percent == combo_percent(recent as nat)
                && r.points == combo_points(recent as nat, old(self)@.difficulty_level as nat),
    {
        self.fart_count = self.fart_count + 1;
        let is_mega = recent >= MEGA_FART_MIN_FARTS;
        let mut reward: Option<ComboReward> = None;
        if recent >= COMBO_MIN_FARTS {
            let old_combo = self.combo_count;
            self.combo_count = recent;
            if recent as u32 > self.combo_max {
                self.combo_max = recent as u32;
            }
            if recent > old_combo {
                self.pending_sounds.push(SoundAction::ComboUp);
            }
            reward = Some(ComboReward {
                level: recent,
                percent: combo_bonus_percent(recent),
                points: combo_bonus_points(recent, self.difficulty_level),
            });
        }
        if is_mega {
            self.pending_sounds.push(SoundAction::MegaFart);
        } else {
            self.pending_sounds.push(SoundAction::Fart);
        }
        reward
    }

    /// Ends the round with the given death: the death animation starts and the death's
    /// sound, if any, is queued.
    pub fn die(&mut self, death: DeathType)
        requires
            core_wf(old(self)@),
        ensures
            core_wf(final(self)@),
            final(self)@ == (CoreState {
                death: death,
                state: GameState::Dying,
                pending_sounds: match death.sound_of() {
                    Some(snd) => old(self)@.pending_sounds.push(snd),
                    None => old(self)@.pending_sounds,
                },
                ..old(self)@
            }),
    {
        self.death = death;
        self.state = GameState::Dying;
        if let Some(snd) = death.death_sound() {
            self.pending_sounds.push(snd);
        }
    }

    /// Closes the round once its death animation is over, with the round's final score
    /// (see [`finish_round`]).
    pub fn finish_dying(&mut self, score: u32) -> (actions: Vec<Action>)
        requires
            core_wf(old(self)@),
        ensures
            core_wf(final(self)@),
            (final(self)@, action_views(actions@)) == finish_round(old(self)@, score),
    {
        let mut actions: Vec<Action> = Vec::new();
        if score > self.high_score {
            self.high_score = score;
            push_action(&mut actions, Action::SaveHighScore(score));
        }
        if self.connected {
            let report = ScoreReport {
                name: self.player_name.clone(),
                score,
                difficulty_level: self.difficulty_level,
                combo_max: self.combo_max,
                fart_count: self.fart_count,
                death: self.death,
                zone: self.zone,
            };
            push_action(&mut actions, Action::SubmitScore(report));
            push_action(&mut actions, Action::StartLeaderboardFetch);
        }
        self.pending_sounds.push(SoundAction::GameOver);
        self.state = GameState::GameOver;
        proof {
            assert(action_views(actions@) =~= finish_round(old(self)@, score).1);
        }
        actions
    }

    /// Queues a sound to be played.
    pub fn queue_sound(&mut self, sound: SoundAction)
        requires
            core_wf(old(self)@),
        ensures
            core_wf(final(self)@),
            final(self)@ == (CoreState { pending_sounds: old(self)@.pending_sounds.push(sound), ..old(self)@ }),
    {
        self.pending_sounds.push(sound);
    }

    /// Records the zone the player is in.
    pub fn set_zone(&mut self, zone: AltitudeZone)
        requires
            core_wf(old(self)@),
        ensures
            core_wf(final(self)@),
            final(self)@ == (CoreState { zone: zone, ..old(self)@ }),
    {
        self.zone = zone;
    }

    /// Records the difficulty level reached.
    pub fn set_difficulty_level(&mut self, level: u32)
        requires
            core_wf(old(self)@),
        ensures
            core_wf(final(self)@),
            final(self)@ == (CoreState { difficulty_level: level, ..old(self)@ }),
    {
        self.difficulty_level = level;
    }

    /// Hands out the queued sounds, in the order they were queued, and empties the queue.
    pub fn take_pending_sounds(&mut self) -> (sounds: Vec<SoundAction>)
        requires
            core_wf(old(self)@),
        ensures
            core_wf(final(self)@),
            sounds@ == old(self)@.pending_sounds,
            final(self)@ == (CoreState { pending_sounds: Seq::empty(), ..old(self)@ }),
    {
        let mut sounds: Vec<SoundAction> = Vec::new();
        std::mem::swap(&mut sounds, &mut self.pending_sounds);
        proof {
            assert(self@.pending_sounds =~= Seq::<SoundAction>::empty());
        }
        sounds
    }

    /// The game-over screen celebrates a new record when the round's score is the high
    /// score and is above zero.
    pub fn is_new_record(&self, score: u32) -> (b: bool)
        ensures
            b == (score == self@.high_score && score > 0),
    {
        score == self.high_score && score > 0
    }

    /// The current screen.
    pub fn state(&self) -> (s: GameState)
        ensures
            s == self@.state,
    {
        self.state
    }

    /// The selected main-menu button.
    pub fn selected_button(&self) -> (b: usize)
        requires
            core_wf(self@),
        ensures
            b == self@.selected,
            b < MENU_BUTTON_COUNT,
    {
        self.selected
    }

    /// The player name.
    pub fn player_name(&self) -> (n: &String)
        ensures
            n@ == self@.player_name,
    {
        &self.player_name
    }

    /// The name being typed.
    pub fn name_input(&self) -> (n: &String)
        ensures
            n@ == self@.name_input,
    {
        &self.name_input
    }

    /// Whether the platform was connected at the start of the round.
    pub fn is_connected(&self) -> (b: bool)
        ensures
            b == self@.connected,
    {
        self.connected
    }

    /// The best score so far.
    pub fn high_score(&self) -> (h: u32)
        ensures
            h == self@.high_score,
    {
        self.high_score
    }

    /// Farts in the current round.
    pub fn fart_count(&self) -> (n: u32)
        ensures
            n == self@.fart_count,
    {
        self.fart_count
    }

    /// Size of the last combo.
    pub fn combo_count(&self) -> (n: usize)
        ensures
            n == self@.combo_count,
    {
        self.combo_count
    }

    /// Largest combo of the round.
    pub fn combo_max(&self) -> (n: u32)
        ensures
            n == self@.combo_max,
    {
        self.combo_max
    }

    /// Difficulty level of the round.
    pub fn difficulty_level(&self) -> (n: u32)
        ensures
            n == self@.difficulty_level,
    {
        self.difficulty_level
    }

    /// How the round ended.
    pub fn death_type(&self) -> (d: DeathType)
        ensures
            d == self@.death,
    {
        self.death
    }

    /// The zone the player is in.
    pub fn current_zone(&self) -> (z: AltitudeZone)
        ensures
            z == self@.zone,
    {
        self.zone
    }

    /// The leaderboard last taken in.
    pub fn leaderboard(&self) -> (l: &Vec<LeaderboardEntry>)
        ensures
            l@ == self@.leaderboard,
    {
        &self.leaderboard
    }
}

fn push_action(actions: &mut Vec<Action>, a: Action)
    ensures
        final(actions)@ == old(actions)@.push(a),
        action_views(final(actions)@) == action_views(old(actions)@).push(a@),
{
    actions.push(a);
    proof {
        assert(action_views(actions@) =~= action_views(old(actions)@).push(a@));
    }
}


/// Escape always backs out of a menu screen: from the main menu to the title screen,
/// from the other menu screens and from the game-over screen to the main menu; it never
/// lands in a round.
pub proof fn lemma_escape_backs_out(s: CoreState, i: InputView)
    requires
        i.escape,
        s.state != GameState::Menu,
        s.state != GameState::Playing,
        s.state != GameState::Dying,
    ensures
        menu_frame(s, i).0.state == if s.state == GameState::MainMenu {
            GameState::Menu
        } else {
            GameState::MainMenu
        },
        menu_frame(s, i).0.state != GameState::Playing,
{
}

/// The menus never touch the high score; closing a round raises it to the round's score
/// when that beats it, and asks to save it exactly then.
pub proof fn lemma_high_score_only_rises(s: CoreState, i: InputView, score: u32)
    ensures
        menu_frame(s, i).0.high_score == s.high_score,
        finish_round(s, score).0.high_score >= s.high_score,
        finish_round(s, score).0.high_score >= score,
        finish_round(s, score).0.high_score == s.high_score || finish_round(s, score).0.high_score == score,
        (finish_round(s, score).1.len() > 0 && finish_round(s, score).1[0] == ActionView::SaveHighScore(score))
            <==> score > s.high_score,
{
}

/// Every round that the menus start begins fresh: no farts, no combo, level one, alive,
/// in the middle sky, and the outside world is asked to reset the round.
pub proof fn lemma_rounds_start_fresh(s: CoreState, i: InputView)
    requires
        s.state != GameState::Playing,
        menu_frame(s, i).0.state == GameState::Playing,
    ensures
        menu_frame(s, i).0.fart_count == 0,
        menu_frame(s, i).0.combo_count == 0,
        menu_frame(s, i).0.combo_max == 0,
        menu_frame(s, i).0.difficulty_level == 1,
        menu_frame(s, i).0.death == DeathType::Alive,
        menu_frame(s, i).0.zone == AltitudeZone::Sky,
        menu_frame(s, i).0.connected == i.connected,
        menu_frame(s, i).1.contains(ActionView::ResetRound),
{
    let acts = menu_frame(s, i).1;
    match s.state {
        GameState::MainMenu => {
            assert(acts[0] == ActionView::ResetRound);
        },
        GameState::GameOver => {
            assert(acts[0] == ActionView::ResetRound);
        },
        GameState::EnterName => {
            if i.confirmed_name is Some {
                assert(acts[2] == ActionView::ResetRound);
            } else {
                assert(acts[0] == ActionView::ResetRound);
            }
        },
        _ => {},
    }
}

/// A round started from the name screen always has a non-empty player name.
pub proof fn lemma_named_before_playing(s: CoreState, i: InputView)
    requires
        s.state == GameState::EnterName,
        menu_frame(s, i).0.state == GameState::Playing,
    ensures
        menu_frame(s, i).0.player_name.len() > 0,
{
    if let Some(t) = i.confirmed_name {
        lemma_confirmed_name_not_empty(t);
    }
}

/// The result of a round is submitted, and a fresh leaderboard fetched, exactly when
/// the platform is connected; the submission carries the round's figures.
pub proof fn lemma_submission_only_when_connected(s: CoreState, score: u32)
    ensures
        (exists|k: int| 0 <= k < finish_round(s, score).1.len()
            && (#[trigger] finish_round(s, score).1[k]) is SubmitScore) <==> s.connected,
        finish_round(s, score).0.state == GameState::GameOver,
        finish_round(s, score).0.pending_sounds.last() == SoundAction::GameOver,
{
    let acts = finish_round(s, score).1;
    let save: Seq<ActionView> = if score > s.high_score { seq![ActionView::SaveHighScore(score)] } else { seq![] };
    if s.connected {
        assert(acts[save.len() as int] is SubmitScore);
    }
}

/// Each fart adds exactly one to the fart counter; the best combo of the round never
/// shrinks; the last queued sound is the mega fart exactly when five or more farts fell
/// in the combo window, and the ordinary fart otherwise.
pub proof fn lemma_fart_bookkeeping(s: CoreState, recent: usize)
    requires
        s.fart_count < u32::MAX,
    ensures
        after_fart(s, recent).fart_count == s.fart_count + 1,
        after_fart(s, recent).combo_max >= s.combo_max,
        after_fart(s, recent).pending_sounds.last() == if recent >= MEGA_FART_MIN_FARTS {
            SoundAction::MegaFart
        } else {
            SoundAction::Fart
        },
        recent < COMBO_MIN_FARTS ==> after_fart(s, recent).combo_count == s.combo_count,
        after_fart(s, recent).state == s.state,
        after_fart(s, recent).high_score == s.high_score,
{
}

/// An anonymous game makes no call to the platform: while it is not connected, neither
/// the menus nor the end of a round ask for a leaderboard fetch or submit a score.
pub proof fn lemma_anonymous_makes_no_platform_call(s: CoreState, i: InputView, score: u32)
    requires
        !s.connected,
    ensures
        forall|k: int| 0 <= k < menu_frame(s, i).1.len()
            ==> !((#[trigger] menu_frame(s, i).1[k]) is StartLeaderboardFetch)
                && !(menu_frame(s, i).1[k] is SubmitScore),
        forall|k: int| 0 <= k < finish_round(s, score).1.len()
            ==> !((#[trigger] finish_round(s, score).1[k]) is StartLeaderboardFetch)
                && !(finish_round(s, score).1[k] is SubmitScore),
{
}

/// The platform receives the round's own figures: every submission among the actions
/// that close a round carries the player's name, the round's score (whatever the high
/// score was), its level, best combo, fart count, death and zone.
pub proof fn lemma_submission_carries_the_round(s: CoreState, score: u32)
    ensures
        forall|k: int| 0 <= k < finish_round(s, score).1.len()
            && (#[trigger] finish_round(s, score).1[k]) is SubmitScore ==> {
                let r = finish_round(s, score).1[k]->SubmitScore_0;
                &&& r.score == score
                &&& r.name == s.player_name
                &&& r.difficulty_level == s.difficulty_level
                &&& r.combo_max == s.combo_max
                &&& r.fart_count == s.fart_count
                &&& r.death == s.death
                &&& r.zone == s.zone
            },
{
}

/// On the main menu, Space confirms exactly as Enter does: a frame with Space gives the
/// same state and actions as the same frame with Enter. In particular, confirming
/// while the play button is selected (without escape) leaves the menu, for the name
/// screen or a round.
pub proof fn lemma_space_confirms_like_enter(s: CoreState, i: InputView)
    ensures
        main_menu_step(s, (InputView { space: true, enter: false, ..i }))
            == main_menu_step(s, (InputView { space: false, enter: true, ..i })),
        (i.space || i.enter) && !i.escape && menu_selection(s.selected, i) == 0 ==> {
            let next = main_menu_step(s, i).0.state;
            next == GameState::EnterName || next == GameState::Playing
        },
{
}

} // verus!
