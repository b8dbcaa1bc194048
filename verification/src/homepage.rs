//! The home screen of the syncer's user interface: which control is
//! selected, how the arrows and the button move it, and what a release of
//! the button asks the outside world to do.

use vstd::prelude::*;

verus! {

/// A length of time: whole seconds and the nanoseconds past them.
#[derive(Debug, Clone, Copy, PartialEq, Eq, Structural, Hash)]
pub struct Span {
    pub secs: u64,
    pub nanos: u32,
}

/// How many poll intervals the home screen offers.
pub const POLL_OPTION_COUNT: usize = 10;

/// The poll intervals offered, shortest first: one, five, ten, fifteen and
/// thirty minutes, one, two, four and eight hours, and the longest span
/// there is, which disables polling.
pub open spec fn poll_option(i: int) -> Span {
    if i == 0 {
        Span { secs: 60, nanos: 0 }
    } else if i == 1 {
        Span { secs: 300, nanos: 0 }
    } else if i == 2 {
        Span { secs: 600, nanos: 0 }
    } else if i == 3 {
        Span { secs: 900, nanos: 0 }
    } else if i == 4 {
        Span { secs: 1800, nanos: 0 }
    } else if i == 5 {
        Span { secs: 3600, nanos: 0 }
    } else if i == 6 {
        Span { secs: 7200, nanos: 0 }
    } else if i == 7 {
        Span { secs: 14400, nanos: 0 }
    } else if i == 8 {
        Span { secs: 28800, nanos: 0 }
    } else {
        Span { secs: u64::MAX, nanos: 999_999_999 }
    }
}

/// The poll interval offered at position `i`.
pub fn poll_time_option(i: usize) -> (s: Span)
    requires
        i < POLL_OPTION_COUNT,
    ensures
        s == poll_option(i as int),
{
    match i {
        0 => Span { secs: 60, nanos: 0 },
        1 => Span { secs: 300, nanos: 0 },
        2 => Span { secs: 600, nanos: 0 },
        3 => Span { secs: 900, nanos: 0 },
        4 => Span { secs: 1800, nanos: 0 },
        5 => Span { secs: 3600, nanos: 0 },
        6 => Span { secs: 7200, nanos: 0 },
        7 => Span { secs: 14400, nanos: 0 },
        8 => Span { secs: 28800, nanos: 0 },
        _ => Span { secs: u64::MAX, nanos: 999_999_999 },
    }
}

/// The first position at or after `i` whose option lasts at least `secs`
/// whole seconds.
pub open spec fn poll_index_from(secs: u64, i: int) -> int
    decreases 9 - i,
{
    if i >= 9 || poll_option(i).secs >= secs {
        i
    } else {
        poll_index_from(secs, i + 1)
    }
}

/// The position of the shortest offered option that lasts at least as many
/// whole seconds as `duration`.
pub open spec fn poll_index(duration: Span) -> int {
    poll_index_from(duration.secs, 0)
}

/// The first option that lasts at least `secs` seconds is found by
/// `poll_index_from`, starting from any position before it.
proof fn lemma_poll_index_from(secs: u64, i: int)
    requires
        0 <= i <= 9,
        forall|j: int| 0 <= j < i ==> poll_option(j).secs < secs,
    ensures
        i <= poll_index_from(secs, i) <= 9,
        poll_option(poll_index_from(secs, i)).secs >= secs,
        forall|j: int| 0 <= j < poll_index_from(secs, i) ==> poll_option(j).secs < secs,
    decreases 9 - i,
{
    if i < 9 && poll_option(i).secs < secs {
        lemma_poll_index_from(secs, i + 1);
    }
}

/// `poll_index` is the position of the shortest offered option that lasts at
/// least as many whole seconds as `duration`.
pub proof fn lemma_poll_index(duration: Span)
    ensures
        0 <= poll_index(duration) < POLL_OPTION_COUNT,
        poll_option(poll_index(duration)).secs >= duration.secs,
        forall|j: int| 0 <= j < poll_index(duration) ==> poll_option(j).secs < duration.secs,
{
    lemma_poll_index_from(duration.secs, 0);
}

/// The position of the shortest offered poll interval that lasts at least as
/// many whole seconds as `duration`.
pub fn cur_poll_idx(duration: Span) -> (r: usize)
    ensures
        r == poll_index(duration),
        r < POLL_OPTION_COUNT,
{
    proof {
        lemma_poll_index(duration);
    }
    let mut retvl: usize = 0;
    while poll_time_option(retvl).secs < duration.secs
        invariant
            retvl <= 9,
            forall|j: int| 0 <= j < retvl ==> poll_option(j).secs < duration.secs,
            poll_index(duration) == poll_index_from(duration.secs, 0),
            0 <= poll_index(duration) <= 9,
            poll_option(poll_index(duration)).secs >= duration.secs,
            forall|j: int| 0 <= j < poll_index(duration) ==> poll_option(j).secs < duration.secs,
        decreases 9 - retvl,
    {
        retvl += 1;
    }
    if retvl >= POLL_OPTION_COUNT {
        retvl = POLL_OPTION_COUNT;
    }
    retvl
}

/// The control of the home screen that is selected.
#[derive(Debug, Clone, Copy, PartialEq, Eq, Structural, Hash)]
pub enum HomePageSelection {
    Nothing,
    DaemonInstalledBox,
    DaemonRunningBox,
    PollTimeSelection,
    FsnotifyBox,
    ReinstallDaemon,
    UninstallDaemon,
    ForceSyncButton,
}

impl Default for HomePageSelection {
    fn default() -> (s: Self)
        ensures
            s == HomePageSelection::Nothing,
    {
        HomePageSelection::Nothing
    }
}

impl HomePageSelection {
    /// One of the three buttons of the bottom row.
    pub open spec fn is_button(self) -> bool {
        self == HomePageSelection::ReinstallDaemon || self == HomePageSelection::UninstallDaemon
            || self == HomePageSelection::ForceSyncButton
    }

    /// The selection one row up; the bottom row leads to the change-sync box,
    /// and the top stays where it is.
    pub open spec fn moved_up(self) -> HomePageSelection {
        match self {
            HomePageSelection::UninstallDaemon
            | HomePageSelection::ReinstallDaemon
            | HomePageSelection::ForceSyncButton => HomePageSelection::FsnotifyBox,
            HomePageSelection::FsnotifyBox => HomePageSelection::PollTimeSelection,
            HomePageSelection::PollTimeSelection => HomePageSelection::DaemonRunningBox,
            HomePageSelection::DaemonRunningBox => HomePageSelection::DaemonInstalledBox,
            HomePageSelection::DaemonInstalledBox
            | HomePageSelection::Nothing => HomePageSelection::Nothing,
        }
    }

    /// The selection one row down; below the bottom row nothing is selected.
    pub open spec fn moved_down(self) -> HomePageSelection {
        match self {
            HomePageSelection::Nothing => HomePageSelection::DaemonInstalledBox,
            HomePageSelection::DaemonInstalledBox => HomePageSelection::DaemonRunningBox,
            HomePageSelection::DaemonRunningBox => HomePageSelection::PollTimeSelection,
            HomePageSelection::PollTimeSelection => HomePageSelection::FsnotifyBox,
            HomePageSelection::FsnotifyBox => HomePageSelection::ReinstallDaemon,
            HomePageSelection::ReinstallDaemon
            | HomePageSelection::UninstallDaemon
            | HomePageSelection::ForceSyncButton => HomePageSelection::Nothing,
        }
    }

    /// The button to the left, wrapping round the bottom row; any other
    /// selection stays.
    pub open spec fn moved_left(self) -> HomePageSelection {
        match self {
            HomePageSelection::ReinstallDaemon => HomePageSelection::ForceSyncButton,
            HomePageSelection::ForceSyncButton => HomePageSelection::UninstallDaemon,
            HomePageSelection::UninstallDaemon => HomePageSelection::ReinstallDaemon,
            other => other,
        }
    }

    /// The button to the right, wrapping round the bottom row; any other
    /// selection stays.
    pub open spec fn moved_right(self) -> HomePageSelection {
        match self {
            HomePageSelection::ReinstallDaemon => HomePageSelection::UninstallDaemon,
            HomePageSelection::UninstallDaemon => HomePageSelection::ForceSyncButton,
            HomePageSelection::ForceSyncButton => HomePageSelection::ReinstallDaemon,
            other => other,
        }
    }

    /// The selection one row up.
    pub fn up(&self) -> (r: HomePageSelection)
        ensures
            r == self.moved_up(),
    {
        match *self {
            HomePageSelection::UninstallDaemon
            | HomePageSelection::ReinstallDaemon
            | HomePageSelection::ForceSyncButton => HomePageSelection::FsnotifyBox,
            HomePageSelection::FsnotifyBox => HomePageSelection::PollTimeSelection,
            HomePageSelection::PollTimeSelection => HomePageSelection::DaemonRunningBox,
            HomePageSelection::DaemonRunningBox => HomePageSelection::DaemonInstalledBox,
            HomePageSelection::DaemonInstalledBox
            | HomePageSelection::Nothing => HomePageSelection::Nothing,
        }
    }

    /// The selection one row down.
    pub fn down(&self) -> (r: HomePageSelection)
        ensures
            r == self.moved_down(),
    {
        match *self {
            HomePageSelection::Nothing => HomePageSelection::DaemonInstalledBox,
            HomePageSelection::DaemonInstalledBox => HomePageSelection::DaemonRunningBox,
            HomePageSelection::DaemonRunningBox => HomePageSelection::PollTimeSelection,
            HomePageSelection::PollTimeSelection => HomePageSelection::FsnotifyBox,
            HomePageSelection::FsnotifyBox => HomePageSelection::ReinstallDaemon,
            HomePageSelection::ReinstallDaemon
            | HomePageSelection::UninstallDaemon
            | HomePageSelection::ForceSyncButton => HomePageSelection::Nothing,
        }
    }

    /// The button to the left.
    pub fn left(&self) -> (r: HomePageSelection)
        ensures
            r == self.moved_left(),
    {
        match *self {
            HomePageSelection::ReinstallDaemon => HomePageSelection::ForceSyncButton,
            HomePageSelection::ForceSyncButton => HomePageSelection::UninstallDaemon,
            HomePageSelection::UninstallDaemon => HomePageSelection::ReinstallDaemon,
            other => other,
        }
    }

    /// The button to the right.
    pub fn right(&self) -> (r: HomePageSelection)
        ensures
            r == self.moved_right(),
    {
        match *self {
            HomePageSelection::ReinstallDaemon => HomePageSelection::UninstallDaemon,
            HomePageSelection::UninstallDaemon => HomePageSelection::ForceSyncButton,
            HomePageSelection::ForceSyncButton => HomePageSelection::ReinstallDaemon,
            other => other,
        }
    }
}

/// The position one step shorter than `i`, never below the first.
pub open spec fn shorter_index(i: int) -> int {
    if i > 0 {
        i - 1
    } else {
        0
    }
}

/// The position one step longer than `i`, never past the last.
pub open spec fn longer_index(i: int) -> int {
    if i + 1 < POLL_OPTION_COUNT {
        i + 1
    } else {
        POLL_OPTION_COUNT - 1
    }
}

/// What the outside world is asked to do after an input on the home screen.
#[derive(Debug, Clone, Copy, PartialEq, Eq, Structural, Hash)]
pub enum HomepageAction {
    /// Nothing beyond the change of selection.
    Stay,
    /// Store this poll interval in the configuration.
    SetPollInterval(Span),
    ReinstallDaemon,
    UninstallDaemon,
    InstallDaemon,
    StartDaemon,
    StopDaemon,
    /// Ask the running daemon to synchronise now.
    ForceSync,
    /// Store whether to synchronise when a save file changes.
    SetSyncOnFileChange(bool),
}

/// What the home screen shows of the system: whether the daemon is installed
/// and running, whether changed files start a synchronisation, and the
/// configured poll interval.
#[derive(Debug, Clone, Copy, PartialEq, Eq, Structural, Hash)]
pub struct ExternalState {
    pub daemon_installed: bool,
    pub daemon_running: bool,
    pub fs_notify_enabled: bool,
    pub poll_interval: Span,
}

impl ExternalState {
    /// The state before anything has been read: all flags off and a zero
    /// poll interval.
    pub fn new() -> (s: Self)
        ensures
            !s.daemon_installed,
            !s.daemon_running,
            !s.fs_notify_enabled,
            s.poll_interval == (Span { secs: 0, nanos: 0 }),
    {
        ExternalState {
            daemon_installed: false,
            daemon_running: false,
            fs_notify_enabled: false,
            poll_interval: Span { secs: 0, nanos: 0 },
        }
    }

    /// Records whether the daemon is installed; tells whether that changed.
    pub fn reload_installed(&mut self, installed: bool) -> (modified: bool)
        ensures
            *final(self) == (ExternalState { daemon_installed: installed, ..*old(self) }),
            modified == (old(self).daemon_installed != installed),
    {
        let modified = self.daemon_installed != installed;
        self.daemon_installed = installed;
        modified
    }

    /// Records whether the daemon is running; tells whether that changed.
    pub fn reload_running(&mut self, running: bool) -> (modified: bool)
        ensures
            *final(self) == (ExternalState { daemon_running: running, ..*old(self) }),
            modified == (old(self).daemon_running != running),
    {
        let modified = self.daemon_running != running;
        self.daemon_running = running;
        modified
    }

    /// Records the configured poll interval and change-sync flag; tells
    /// whether either changed.
    pub fn reload_config(&mut self, poll_interval: Span, fs_notify_enabled: bool) -> (modified:
        bool)
        ensures
            *final(self) == (ExternalState {
                poll_interval: poll_interval,
                fs_notify_enabled: fs_notify_enabled,
                ..*old(self)
            }),
            modified == (old(self).poll_interval != poll_interval || old(self).fs_notify_enabled
                != fs_notify_enabled),
    {
        let poll_modified = self.poll_interval != poll_interval;
        self.poll_interval = poll_interval;
        let notify_modified = self.fs_notify_enabled != fs_notify_enabled;
        self.fs_notify_enabled = fs_notify_enabled;
        poll_modified || notify_modified
    }

    /// Replaces the state by a freshly read one; tells whether anything
    /// changed, so that the screen needs drawing again.
    pub fn reload(&mut self, fresh: ExternalState) -> (modified: bool)
        ensures
            *final(self) == fresh,
            modified == (*old(self) != fresh),
    {
        let a = self.reload_installed(fresh.daemon_installed);
        let b = self.reload_running(fresh.daemon_running);
        let c = self.reload_config(fresh.poll_interval, fresh.fs_notify_enabled);
        a || b || c
    }
}

/// What each control of the home screen shows.
#[derive(Debug, Clone, Copy, PartialEq, Eq, Structural, Hash)]
pub struct HomepageView {
    pub installed_selected: bool,
    pub installed_checked: bool,
    pub running_selected: bool,
    pub running_checked: bool,
    pub poll_selected: bool,
    pub poll_interval: Span,
    pub fs_notify_selected: bool,
    pub fs_notify_checked: bool,
    pub reinstall_selected: bool,
    pub reinstall_pressed: bool,
    pub uninstall_selected: bool,
    pub uninstall_pressed: bool,
    pub sync_selected: bool,
    pub sync_pressed: bool,
}

/// The view of the home screen: a control is highlighted when selected, a
/// button looks pressed when it is selected and the button is held, and the
/// boxes show the external state.
pub open spec fn view_of(
    selection: HomePageSelection,
    pressed: bool,
    daemon_installed: bool,
    daemon_running: bool,
    poll_interval: Span,
    fs_notify_enabled: bool,
) -> HomepageView {
    HomepageView {
        installed_selected: selection == HomePageSelection::DaemonInstalledBox,
        installed_checked: daemon_installed,
        running_selected: selection == HomePageSelection::DaemonRunningBox,
        running_checked: daemon_running,
        poll_selected: selection == HomePageSelection::PollTimeSelection,
        poll_interval: poll_interval,
        fs_notify_selected: selection == HomePageSelection::FsnotifyBox,
        fs_notify_checked: fs_notify_enabled,
        reinstall_selected: selection == HomePageSelection::ReinstallDaemon,
        reinstall_pressed: selection == HomePageSelection::ReinstallDaemon && pressed,
        uninstall_selected: selection == HomePageSelection::UninstallDaemon,
        uninstall_pressed: selection == HomePageSelection::UninstallDaemon && pressed,
        sync_selected: selection == HomePageSelection::ForceSyncButton,
        sync_pressed: selection == HomePageSelection::ForceSyncButton && pressed,
    }
}

/// Lays out what each control of the home screen shows.
pub fn build_view(
    selection: HomePageSelection,
    pressed: bool,
    daemon_installed: bool,
    daemon_running: bool,
    poll_interval: Span,
    fs_notify_enabled: bool,
) -> (v: HomepageView)
    ensures
        v == view_of(
            selection,
            pressed,
            daemon_installed,
            daemon_running,
            poll_interval,
            fs_notify_enabled,
        ),
{
    HomepageView {
        installed_selected: selection == HomePageSelection::DaemonInstalledBox,
        installed_checked: daemon_installed,
        running_selected: selection == HomePageSelection::DaemonRunningBox,
        running_checked: daemon_running,
        poll_selected: selection == HomePageSelection::PollTimeSelection,
        poll_interval,
        fs_notify_selected: selection == HomePageSelection::FsnotifyBox,
        fs_notify_checked: fs_notify_enabled,
        reinstall_selected: selection == HomePageSelection::ReinstallDaemon,
        reinstall_pressed: selection == HomePageSelection::ReinstallDaemon && pressed,
        uninstall_selected: selection == HomePageSelection::UninstallDaemon,
        uninstall_pressed: selection == HomePageSelection::UninstallDaemon && pressed,
        sync_selected: selection == HomePageSelection::ForceSyncButton,
        sync_pressed: selection == HomePageSelection::ForceSyncButton && pressed,
    }
}

/// The controls of the home screen from top to bottom, each row from left
/// to right: the two daemon boxes, the poll interval, the change-sync box,
/// and the row of reinstall, uninstall and force-sync buttons.
pub open spec fn layout_rows() -> Seq<Seq<HomePageSelection>> {
    seq![
        seq![HomePageSelection::DaemonInstalledBox],
        seq![HomePageSelection::DaemonRunningBox],
        seq![HomePageSelection::PollTimeSelection],
        seq![HomePageSelection::FsnotifyBox],
        seq![
            HomePageSelection::ReinstallDaemon,
            HomePageSelection::UninstallDaemon,
            HomePageSelection::ForceSyncButton,
        ],
    ]
}

/// The order in which the home screen lays out its controls.
pub fn homepage_layout() -> (rows: Vec<Vec<HomePageSelection>>)
    ensures
        rows@.len() == layout_rows().len(),
        forall|i: int| 0 <= i < rows@.len() ==> #[trigger] rows@[i]@ == layout_rows()[i],
{
    let rows: Vec<Vec<HomePageSelection>> = vec![
        vec![HomePageSelection::DaemonInstalledBox],
        vec![HomePageSelection::DaemonRunningBox],
        vec![HomePageSelection::PollTimeSelection],
        vec![HomePageSelection::FsnotifyBox],
        vec![
            HomePageSelection::ReinstallDaemon,
            HomePageSelection::UninstallDaemon,
            HomePageSelection::ForceSyncButton,
        ],
    ];
    proof {
        assert(rows@[0]@ =~= layout_rows()[0]);
        assert(rows@[1]@ =~= layout_rows()[1]);
        assert(rows@[2]@ =~= layout_rows()[2]);
        assert(rows@[3]@ =~= layout_rows()[3]);
        assert(rows@[4]@ =~= layout_rows()[4]);
    }
    rows
}

/// The arrows follow the layout: down walks the column from nothing through
/// the four single rows to the first button, up walks it back, every button
/// leads up to the change-sync box, and right and left step through the
/// buttons in their order, wrapping round.
pub proof fn lemma_moves_follow_layout()
    ensures
        HomePageSelection::Nothing.moved_down() == layout_rows()[0][0],
        forall|i: int|
            0 <= i < 4 ==> (#[trigger] layout_rows()[i])[0].moved_down() == layout_rows()[i + 1][0],
        forall|i: int|
            0 < i <= 4 ==> (#[trigger] layout_rows()[i])[0].moved_up() == layout_rows()[i - 1][0],
        layout_rows()[0][0].moved_up() == HomePageSelection::Nothing,
        forall|j: int|
            0 <= j < 3 ==> (#[trigger] layout_rows()[4][j]).moved_right() == layout_rows()[4][(j
                + 1) % 3],
        forall|j: int|
            0 <= j < 3 ==> (#[trigger] layout_rows()[4][j]).moved_left() == layout_rows()[4][(j
                + 2) % 3],
        forall|j: int|
            0 <= j < 3 ==> (#[trigger] layout_rows()[4][j]).moved_up() == layout_rows()[3][0],
{
    let rows = layout_rows();
    assert(rows[0][0] == HomePageSelection::DaemonInstalledBox);
    assert(rows[1][0] == HomePageSelection::DaemonRunningBox);
    assert(rows[2][0] == HomePageSelection::PollTimeSelection);
    assert(rows[3][0] == HomePageSelection::FsnotifyBox);
    assert(rows[4][0] == HomePageSelection::ReinstallDaemon);
    assert(rows[4][1] == HomePageSelection::UninstallDaemon);
    assert(rows[4][2] == HomePageSelection::ForceSyncButton);
}

/// The text that labels a control; nothing selected has none.
pub open spec fn label_of(s: HomePageSelection) -> Option<Seq<char>> {
    match s {
        HomePageSelection::Nothing => None,
        HomePageSelection::DaemonInstalledBox => Some("Daemon installed"@),
        HomePageSelection::DaemonRunningBox => Some("Daemon Running"@),
        HomePageSelection::PollTimeSelection => Some("Poll time"@),
        HomePageSelection::FsnotifyBox => Some("Sync on change"@),
        HomePageSelection::ReinstallDaemon => Some("Reinstall"@),
        HomePageSelection::UninstallDaemon => Some("Uninstall"@),
        HomePageSelection::ForceSyncButton => Some("Force Sync"@),
    }
}

/// The text that labels a control.
pub fn control_label(s: HomePageSelection) -> (r: Option<&'static str>)
    ensures
        match r {
            Some(t) => label_of(s) == Some(t@),
            None => label_of(s) is None,
        },
{
    match s {
        HomePageSelection::Nothing => None,
        HomePageSelection::DaemonInstalledBox => Some("Daemon installed"),
        HomePageSelection::DaemonRunningBox => Some("Daemon Running"),
        HomePageSelection::PollTimeSelection => Some("Poll time"),
        HomePageSelection::FsnotifyBox => Some("Sync on change"),
        HomePageSelection::ReinstallDaemon => Some("Reinstall"),
        HomePageSelection::UninstallDaemon => Some("Uninstall"),
        HomePageSelection::ForceSyncButton => Some("Force Sync"),
    }
}

/// A colour of the screen, by its red, green and blue parts.
#[derive(Debug, Clone, Copy, PartialEq, Eq, Structural, Hash)]
pub struct Rgb {
    pub r: u8,
    pub g: u8,
    pub b: u8,
}

/// The colours of a labelled option that the arrows scroll through.
#[derive(Debug, Clone, Copy, PartialEq, Eq, Structural, Hash)]
pub struct ScrollableColors {
    pub label: Rgb,
    pub arrows: Rgb,
    pub option: Rgb,
}

/// A selected option is drawn all in blue, any other all in black.
pub open spec fn scrollable_colors_for(is_selected: bool) -> ScrollableColors {
    let c = if is_selected {
        Rgb { r: 0, g: 0, b: 255 }
    } else {
        Rgb { r: 0, g: 0, b: 0 }
    };
    ScrollableColors { label: c, arrows: c, option: c }
}

/// The colours in which a labelled, scrollable option is drawn.
pub fn scrollable_option_colors(is_selected: bool) -> (c: ScrollableColors)
    ensures
        c == scrollable_colors_for(is_selected),
{
    let label_selected = Rgb { r: 0, g: 0, b: 255 };
    let label_plain = Rgb { r: 0, g: 0, b: 0 };
    let arrow_selected = Rgb { r: 0, g: 0, b: 255 };
    let arrow_plain = Rgb { r: 0, g: 0, b: 0 };
    let option_selected = Rgb { r: 0, g: 0, b: 255 };
    let option_plain = Rgb { r: 0, g: 0, b: 0 };
    let label = if is_selected {
        label_selected
    } else {
        label_plain
    };
    let arrows = if is_selected {
        arrow_selected
    } else {
        arrow_plain
    };
    let option = if is_selected {
        option_selected
    } else {
        option_plain
    };
    ScrollableColors { label, arrows, option }
}

/// One piece of a row of the screen: a text in a colour, or a spacer that
/// takes up the free width.
#[derive(Debug, Clone, PartialEq, Eq, Hash)]
pub enum RowPiece {
    Text { text: String, color: Rgb },
    Spacer,
}

/// A row of the screen, its pieces from left to right.
#[derive(Debug, Clone, PartialEq, Eq, Hash)]
pub struct ScrollableRow {
    pub pieces: Vec<RowPiece>,
}

/// `p` is the text `s` in the colour `c`.
pub open spec fn is_text(p: RowPiece, s: Seq<char>, c: Rgb) -> bool {
    p matches RowPiece::Text { text, color } && text@ == s && color == c
}

/// The row of a labelled option that the arrows scroll through: the label,
/// a spacer, then `<`, the current option and `>`, all in the colours for
/// whether the option is selected.
pub fn scrollable_row(label: &str, option: &str, is_selected: bool) -> (r: ScrollableRow)
    ensures
        r.pieces@.len() == 5,
        is_text(r.pieces@[0], label@, scrollable_colors_for(is_selected).label),
        r.pieces@[1] is Spacer,
        is_text(r.pieces@[2], "<"@, scrollable_colors_for(is_selected).arrows),
        is_text(r.pieces@[3], option@, scrollable_colors_for(is_selected).option),
        is_text(r.pieces@[4], ">"@, scrollable_colors_for(is_selected).arrows),
{
    let colors = scrollable_option_colors(is_selected);
    let mut pieces: Vec<RowPiece> = Vec::new();
    pieces.push(RowPiece::Text { text: label.to_owned(), color: colors.label });
    pieces.push(RowPiece::Spacer);
    pieces.push(RowPiece::Text { text: "<".to_owned(), color: colors.arrows });
    pieces.push(RowPiece::Text { text: option.to_owned(), color: colors.option });
    pieces.push(RowPiece::Text { text: ">".to_owned(), color: colors.arrows });
    ScrollableRow { pieces }
}

/// How carrying out an action went.
#[derive(Debug, Clone, Copy, PartialEq, Eq, Structural, Hash)]
pub enum ActionOutcome {
    /// The action succeeded.
    Done,
    /// The action failed because its counterpart was not found (for a forced
    /// sync: no daemon listens on the socket).
    NotFound,
    /// The action failed otherwise.
    Failed,
}

/// What remains to be done after an action.
#[derive(Debug, Clone, Copy, PartialEq, Eq, Structural, Hash)]
pub enum FollowUp {
    /// Reload the external state; once that succeeded the step is complete
    /// (after a release: call `finish_release`).
    Reload,
    /// Nothing: the step is complete.
    Complete,
}

/// An action that failed; the error is passed on to the caller.
#[derive(Debug, Clone, Copy, PartialEq, Eq, Structural, Hash)]
pub enum ActionError {
    ActionFailed(HomepageAction),
}

/// What follows an action asked for by a release of the button: success
/// calls for a reload; asking for nothing completes the release; a forced
/// sync that found no daemon is no error and completes the release without
/// a reload; any other failure is passed on.
pub open spec fn release_follow_up(action: HomepageAction, outcome: ActionOutcome) -> Result<
    FollowUp,
    ActionError,
> {
    if action == HomepageAction::Stay {
        Ok(FollowUp::Complete)
    } else if outcome == ActionOutcome::Done {
        Ok(FollowUp::Reload)
    } else if action == HomepageAction::ForceSync && outcome == ActionOutcome::NotFound {
        Ok(FollowUp::Complete)
    } else {
        Err(ActionError::ActionFailed(action))
    }
}

/// What follows storing a new poll interval: success calls for a reload,
/// any failure is passed on.
pub open spec fn poll_change_follow_up(action: HomepageAction, outcome: ActionOutcome) -> Result<
    FollowUp,
    ActionError,
> {
    if outcome == ActionOutcome::Done {
        Ok(FollowUp::Reload)
    } else {
        Err(ActionError::ActionFailed(action))
    }
}

/// The home screen's own state: the selected control and whether the button
/// is held down.
#[derive(Debug, Clone, Copy, PartialEq, Eq, Structural, Hash)]
pub struct HomepageState {
    pub pressed: bool,
    pub selection: HomePageSelection,
}

/// The action a release of the button asks for, given the selection and the
/// external state: the buttons reinstall, uninstall or force a sync; the
/// boxes toggle what they show; the poll interval and no selection ask for
/// nothing.
pub open spec fn release_action(selection: HomePageSelection, external: ExternalState) -> HomepageAction {
    match selection {
        HomePageSelection::ReinstallDaemon => HomepageAction::ReinstallDaemon,
        HomePageSelection::UninstallDaemon => HomepageAction::UninstallDaemon,
        HomePageSelection::ForceSyncButton => HomepageAction::ForceSync,
        HomePageSelection::DaemonInstalledBox => if external.daemon_installed {
            HomepageAction::UninstallDaemon
        } else {
            HomepageAction::InstallDaemon
        },
        HomePageSelection::DaemonRunningBox => if external.daemon_running {
            HomepageAction::StopDaemon
        } else {
            HomepageAction::StartDaemon
        },
        HomePageSelection::FsnotifyBox => HomepageAction::SetSyncOnFileChange(
            !external.fs_notify_enabled,
        ),
        HomePageSelection::PollTimeSelection | HomePageSelection::Nothing => HomepageAction::Stay,
    }
}

impl HomepageState {
    /// Nothing selected and the button not held.
    pub fn new() -> (s: Self)
        ensures
            s.selection == HomePageSelection::Nothing,
            !s.pressed,
    {
        HomepageState { pressed: false, selection: HomePageSelection::Nothing }
    }

    /// The up arrow moves the selection one row up.
    pub fn up(&mut self)
        ensures
            final(self).selection == old(self).selection.moved_up(),
            final(self).pressed == old(self).pressed,
    {
        self.selection = self.selection.up();
    }

    /// The down arrow moves the selection one row down.
    pub fn down(&mut self)
        ensures
            final(self).selection == old(self).selection.moved_down(),
            final(self).pressed == old(self).pressed,
    {
        self.selection = self.selection.down();
    }

    /// The left arrow: on the poll interval it asks for the next shorter
    /// offered interval than the configured one; elsewhere it moves the
    /// selection left.
    pub fn left(&mut self, configured_poll: Span) -> (a: HomepageAction)
        ensures
            final(self).pressed == old(self).pressed,
            old(self).selection == HomePageSelection::PollTimeSelection ==> {
                &&& final(self).selection == old(self).selection
                &&& a == HomepageAction::SetPollInterval(
                    poll_option(shorter_index(poll_index(configured_poll))),
                )
            },
            old(self).selection != HomePageSelection::PollTimeSelection ==> {
                &&& final(self).selection == old(self).selection.moved_left()
                &&& a == HomepageAction::Stay
            },
    {
        if self.selection == HomePageSelection::PollTimeSelection {
            let cur: usize = cur_poll_idx(configured_poll);
            let prev: usize = cur.saturating_sub(1);
            HomepageAction::SetPollInterval(poll_time_option(prev))
        } else {
            self.selection = self.selection.left();
            HomepageAction::Stay
        }
    }

    /// The right arrow: on the poll interval it asks for the next longer
    /// offered interval than the configured one; elsewhere it moves the
    /// selection right.
    pub fn right(&mut self, configured_poll: Span) -> (a: HomepageAction)
        ensures
            final(self).pressed == old(self).pressed,
            old(self).selection == HomePageSelection::PollTimeSelection ==> {
                &&& final(self).selection == old(self).selection
                &&& a == HomepageAction::SetPollInterval(
                    poll_option(longer_index(poll_index(configured_poll))),
                )
            },
            old(self).selection != HomePageSelection::PollTimeSelection ==> {
                &&& final(self).selection == old(self).selection.moved_right()
                &&& a == HomepageAction::Stay
            },
    {
        if self.selection == HomePageSelection::PollTimeSelection {
            let cur: usize = cur_poll_idx(configured_poll);
            let last: usize = POLL_OPTION_COUNT - 1;
            let next: usize = if cur + 1 < last {
                cur + 1
            } else {
                last
            };
            HomepageAction::SetPollInterval(poll_time_option(next))
        } else {
            self.selection = self.selection.right();
            HomepageAction::Stay
        }
    }

    /// Pressing the button holds it down.
    pub fn press(&mut self)
        ensures
            final(self).pressed,
            final(self).selection == old(self).selection,
    {
        self.pressed = true;
    }

    /// What releasing the button asks for; the button stays held until the
    /// action has been carried out and `finish_release` is called.
    pub fn release(&self, external: &ExternalState) -> (a: HomepageAction)
        ensures
            a == release_action(self.selection, *external),
    {
        match self.selection {
            HomePageSelection::ReinstallDaemon => HomepageAction::ReinstallDaemon,
            HomePageSelection::UninstallDaemon => HomepageAction::UninstallDaemon,
            HomePageSelection::ForceSyncButton => HomepageAction::ForceSync,
            HomePageSelection::DaemonInstalledBox => {
                if external.daemon_installed {
                    HomepageAction::UninstallDaemon
                } else {
                    HomepageAction::InstallDaemon
                }
            },
            HomePageSelection::DaemonRunningBox => {
                if external.daemon_running {
                    HomepageAction::StopDaemon
                } else {
                    HomepageAction::StartDaemon
                }
            },
            HomePageSelection::FsnotifyBox => HomepageAction::SetSyncOnFileChange(
                !external.fs_notify_enabled,
            ),
            HomePageSelection::PollTimeSelection | HomePageSelection::Nothing => {
                HomepageAction::Stay
            },
        }
    }

    /// The released button's action is done: the button is no longer held.
    pub fn finish_release(&mut self)
        ensures
            !final(self).pressed,
            final(self).selection == old(self).selection,
    {
        self.pressed = false;
    }

    /// The step after the action that a release asked for has been carried
    /// out (or, for `Stay`, not needed). The button comes up when the release
    /// is complete: at once when nothing is left to do, or by
    /// `finish_release` once the asked-for reload succeeded. On an error it
    /// stays held.
    pub fn after_release(&mut self, action: HomepageAction, outcome: ActionOutcome) -> (r: Result<
        FollowUp,
        ActionError,
    >)
        ensures
            r == release_follow_up(action, outcome),
            final(self).selection == old(self).selection,
            final(self).pressed == (old(self).pressed && r != Ok::<FollowUp, ActionError>(
                FollowUp::Complete,
            )),
    {
        let r = if action == HomepageAction::Stay {
            Ok(FollowUp::Complete)
        } else {
            match outcome {
                ActionOutcome::Done => Ok(FollowUp::Reload),
                ActionOutcome::NotFound => {
                    if action == HomepageAction::ForceSync {
                        Ok(FollowUp::Complete)
                    } else {
                        Err(ActionError::ActionFailed(action))
                    }
                },
                ActionOutcome::Failed => Err(ActionError::ActionFailed(action)),
            }
        };
        if let Ok(FollowUp::Complete) = r {
            self.pressed = false;
        }
        r
    }

    /// The step after a new poll interval asked for by an arrow has been
    /// stored: reload on success, pass the error on otherwise. The button and
    /// the selection are not touched.
    pub fn after_poll_change(&self, action: HomepageAction, outcome: ActionOutcome) -> (r: Result<
        FollowUp,
        ActionError,
    >)
        ensures
            r == poll_change_follow_up(action, outcome),
    {
        match outcome {
            ActionOutcome::Done => Ok(FollowUp::Reload),
            _ => Err(ActionError::ActionFailed(action)),
        }
    }

    /// What the screen shows for this state and the external state.
    pub fn build_view(&self, external: &ExternalState) -> (v: HomepageView)
        ensures
            v == view_of(
                self.selection,
                self.pressed,
                external.daemon_installed,
                external.daemon_running,
                external.poll_interval,
                external.fs_notify_enabled,
            ),
    {
        build_view(
            self.selection,
            self.pressed,
            external.daemon_installed,
            external.daemon_running,
            external.poll_interval,
            external.fs_notify_enabled,
        )
    }
}

/// After a release, a successful action never ends in an error; the only
/// failure that is no error is a forced sync that found no daemon, and only
/// a release that asked for nothing or completed without a reload lifts the
/// button at once.
pub proof fn lemma_release_follow_up(action: HomepageAction, outcome: ActionOutcome)
    ensures
        release_follow_up(action, ActionOutcome::Done) is Ok,
        release_follow_up(action, outcome) is Err <==> (action != HomepageAction::Stay && (
        outcome == ActionOutcome::Failed || (outcome == ActionOutcome::NotFound && action
            != HomepageAction::ForceSync))),
        release_follow_up(action, outcome) == Ok::<FollowUp, ActionError>(FollowUp::Reload) <==> (
        action != HomepageAction::Stay && outcome == ActionOutcome::Done),
        release_follow_up(action, outcome) is Err ==> release_follow_up(action, outcome)
            == Err::<FollowUp, ActionError>(ActionError::ActionFailed(action)),
        poll_change_follow_up(action, outcome) == (if outcome == ActionOutcome::Done {
            Ok::<FollowUp, ActionError>(FollowUp::Reload)
        } else {
            Err::<FollowUp, ActionError>(ActionError::ActionFailed(action))
        }),
{
}

/// Left and right undo each other.
pub proof fn lemma_left_right_inverse(s: HomePageSelection)
    ensures
        s.moved_left().moved_right() == s,
        s.moved_right().moved_left() == s,
{
}

/// Left and right only cycle through the three buttons: three steps either
/// way come back, buttons stay buttons, and any other selection stays put.
pub proof fn lemma_left_right_cycle_buttons(s: HomePageSelection)
    ensures
        s.moved_left().moved_left().moved_left() == s,
        s.moved_right().moved_right().moved_right() == s,
        s.is_button() ==> s.moved_left().is_button() && s.moved_right().is_button(),
        !s.is_button() ==> s.moved_left() == s && s.moved_right() == s,
{
}

/// Up undoes down everywhere but on the bottom row.
pub proof fn lemma_up_undoes_down(s: HomePageSelection)
    requires
        !s.is_button(),
    ensures
        s.moved_down().moved_up() == s,
{
}

/// Down undoes up everywhere but at the top and on the two outer buttons,
/// which up leaves by the change-sync box that leads down to reinstalling.
pub proof fn lemma_down_undoes_up(s: HomePageSelection)
    requires
        s != HomePageSelection::Nothing,
        s != HomePageSelection::DaemonInstalledBox,
        s != HomePageSelection::UninstallDaemon,
        s != HomePageSelection::ForceSyncButton,
    ensures
        s.moved_up().moved_down() == s,
{
}

/// Down runs through the column and the reinstall button back to nothing:
/// six steps down from any of them come back.
pub proof fn lemma_down_cycles(s: HomePageSelection)
    requires
        s != HomePageSelection::UninstallDaemon,
        s != HomePageSelection::ForceSyncButton,
    ensures
        s.moved_down().moved_down().moved_down().moved_down().moved_down().moved_down() == s,
{
}

/// Every offered poll interval is found at its own position.
pub proof fn lemma_poll_option_found_at_its_index(k: int)
    requires
        0 <= k < POLL_OPTION_COUNT,
    ensures
        poll_index(poll_option(k)) == k,
{
    lemma_poll_index(poll_option(k));
    let i: int = poll_index(poll_option(k));
    assert(poll_option(i).secs >= poll_option(k).secs);
    if i < k {
        assert(poll_option(i).secs < poll_option(k).secs);
    }
    if k < i {
        assert(poll_option(k).secs < poll_option(k).secs);
    }
}

/// On an offered poll interval, a step shorter and then a step longer come
/// back to it unless it was the shortest; a step longer and then a step
/// shorter come back unless it was the longest.
pub proof fn lemma_poll_steps_undo_each_other(k: int)
    requires
        0 <= k < POLL_OPTION_COUNT,
    ensures
        k > 0 ==> poll_option(
            longer_index(poll_index(poll_option(shorter_index(poll_index(poll_option(k)))))),
        ) == poll_option(k),
        k + 1 < POLL_OPTION_COUNT ==> poll_option(
            shorter_index(poll_index(poll_option(longer_index(poll_index(poll_option(k)))))),
        ) == poll_option(k),
{
    lemma_poll_option_found_at_its_index(k);
    if k > 0 {
        lemma_poll_option_found_at_its_index(k - 1);
    }
    if k + 1 < POLL_OPTION_COUNT {
        lemma_poll_option_found_at_its_index(k + 1);
    }
}

/// The view highlights at most one control, and a button looks pressed only
/// when it is the selected one.
pub proof fn lemma_view_single_highlight(
    selection: HomePageSelection,
    pressed: bool,
    daemon_installed: bool,
    daemon_running: bool,
    poll_interval: Span,
    fs_notify_enabled: bool,
)
    ensures
        ({
            let v = view_of(
                selection,
                pressed,
                daemon_installed,
                daemon_running,
                poll_interval,
                fs_notify_enabled,
            );
            let n: int = (if v.installed_selected { 1int } else { 0 }) + (if v.running_selected {
                1int
            } else {
                0
            }) + (if v.poll_selected { 1int } else { 0 }) + (if v.fs_notify_selected {
                1int
            } else {
                0
            }) + (if v.reinstall_selected { 1int } else { 0 }) + (if v.uninstall_selected {
                1int
            } else {
                0
            }) + (if v.sync_selected { 1int } else { 0 });
            &&& n <= 1
            &&& (n == 0 <==> selection == HomePageSelection::Nothing)
            &&& v.reinstall_pressed ==> v.reinstall_selected && pressed
            &&& v.uninstall_pressed ==> v.uninstall_selected && pressed
            &&& v.sync_pressed ==> v.sync_selected && pressed
        }),
{
}

/// The offered poll intervals are one, five, ten, fifteen and thirty
/// minutes, one, two, four and eight hours, and finally the longest span
/// there is, in that order.
pub proof fn lemma_poll_options_offered()
    ensures
        poll_option(0).secs == 60 && poll_option(0).nanos == 0,
        poll_option(1).secs == 5 * 60 && poll_option(1).nanos == 0,
        poll_option(2).secs == 10 * 60 && poll_option(2).nanos == 0,
        poll_option(3).secs == 15 * 60 && poll_option(3).nanos == 0,
        poll_option(4).secs == 30 * 60 && poll_option(4).nanos == 0,
        poll_option(5).secs == 60 * 60 && poll_option(5).nanos == 0,
        poll_option(6).secs == 2 * 60 * 60 && poll_option(6).nanos == 0,
        poll_option(7).secs == 4 * 60 * 60 && poll_option(7).nanos == 0,
        poll_option(8).secs == 8 * 60 * 60 && poll_option(8).nanos == 0,
        poll_option(9) == (Span { secs: 0xffff_ffff_ffff_ffff, nanos: 999_999_999 }),
        forall|i: int, j: int|
            0 <= i < j < POLL_OPTION_COUNT ==> #[trigger] poll_option(i).secs
                < #[trigger] poll_option(j).secs,
{
}

/// The left arrow on the poll interval asks for the longest offered interval
/// that is shorter than the configured offered one (the shortest stays), and
/// the right arrow for the shortest offered interval that is longer (the
/// longest stays).
pub proof fn lemma_poll_steps_are_neighbours(k: int)
    requires
        0 <= k < POLL_OPTION_COUNT,
    ensures
        ({
            let shorter = poll_option(shorter_index(poll_index(poll_option(k))));
            let longer = poll_option(longer_index(poll_index(poll_option(k))));
            &&& k == 0 ==> shorter == poll_option(k)
            &&& k > 0 ==> shorter.secs < poll_option(k).secs
            &&& k > 0 ==> forall|i: int|
                0 <= i < POLL_OPTION_COUNT && #[trigger] poll_option(i).secs < poll_option(k).secs
                    ==> poll_option(i).secs <= shorter.secs
            &&& k == POLL_OPTION_COUNT - 1 ==> longer == poll_option(k)
            &&& k < POLL_OPTION_COUNT - 1 ==> poll_option(k).secs < longer.secs
            &&& k < POLL_OPTION_COUNT - 1 ==> forall|i: int|
                0 <= i < POLL_OPTION_COUNT && poll_option(k).secs < #[trigger] poll_option(i).secs
                    ==> longer.secs <= poll_option(i).secs
        }),
{
    lemma_poll_options_offered();
    lemma_poll_option_found_at_its_index(k);
}

/// Releasing on a box toggles what that box shows and depends on nothing
/// else: the installed box uninstalls exactly when the daemon is installed
/// and installs otherwise, the running box stops exactly when the daemon is
/// running and starts otherwise, and the change-sync box stores the opposite
/// of its flag. The buttons ask for the same action whatever the external
/// state.
pub proof fn lemma_release_toggles_own_flag(e1: ExternalState, e2: ExternalState)
    ensures
        release_action(HomePageSelection::DaemonInstalledBox, e1) == HomepageAction::UninstallDaemon
            <==> e1.daemon_installed,
        release_action(HomePageSelection::DaemonInstalledBox, e1) == HomepageAction::InstallDaemon
            <==> !e1.daemon_installed,
        e1.daemon_installed == e2.daemon_installed ==> release_action(
            HomePageSelection::DaemonInstalledBox,
            e1,
        ) == release_action(HomePageSelection::DaemonInstalledBox, e2),
        release_action(HomePageSelection::DaemonRunningBox, e1) == HomepageAction::StopDaemon
            <==> e1.daemon_running,
        release_action(HomePageSelection::DaemonRunningBox, e1) == HomepageAction::StartDaemon
            <==> !e1.daemon_running,
        e1.daemon_running == e2.daemon_running ==> release_action(
            HomePageSelection::DaemonRunningBox,
            e1,
        ) == release_action(HomePageSelection::DaemonRunningBox, e2),
        release_action(HomePageSelection::FsnotifyBox, e1) == HomepageAction::SetSyncOnFileChange(
            !e1.fs_notify_enabled,
        ),
        release_action(HomePageSelection::ReinstallDaemon, e1) == HomepageAction::ReinstallDaemon,
        release_action(HomePageSelection::UninstallDaemon, e1) == HomepageAction::UninstallDaemon,
        release_action(HomePageSelection::ForceSyncButton, e1) == HomepageAction::ForceSync,
        release_action(HomePageSelection::PollTimeSelection, e1) == HomepageAction::Stay,
        release_action(HomePageSelection::Nothing, e1) == HomepageAction::Stay,
{
}

/// Each box of the view shows its own flag and the poll row the configured
/// interval, whatever is selected or pressed.
pub proof fn lemma_view_shows_own_flags(
    selection: HomePageSelection,
    pressed: bool,
    other_selection: HomePageSelection,
    other_pressed: bool,
    daemon_installed: bool,
    daemon_running: bool,
    poll_interval: Span,
    fs_notify_enabled: bool,
)
    ensures
        ({
            let v = view_of(
                selection,
                pressed,
                daemon_installed,
                daemon_running,
                poll_interval,
                fs_notify_enabled,
            );
            let w = view_of(
                other_selection,
                other_pressed,
                daemon_installed,
                daemon_running,
                poll_interval,
                fs_notify_enabled,
            );
            &&& v.installed_checked == daemon_installed
            &&& v.running_checked == daemon_running
            &&& v.fs_notify_checked == fs_notify_enabled
            &&& v.poll_interval == poll_interval
            &&& v.installed_checked == w.installed_checked
            &&& v.running_checked == w.running_checked
            &&& v.fs_notify_checked == w.fs_notify_checked
            &&& v.installed_selected <==> selection == HomePageSelection::DaemonInstalledBox
            &&& v.running_selected <==> selection == HomePageSelection::DaemonRunningBox
            &&& v.poll_selected <==> selection == HomePageSelection::PollTimeSelection
            &&& v.fs_notify_selected <==> selection == HomePageSelection::FsnotifyBox
            &&& v.reinstall_selected <==> selection == HomePageSelection::ReinstallDaemon
            &&& v.uninstall_selected <==> selection == HomePageSelection::UninstallDaemon
            &&& v.sync_selected <==> selection == HomePageSelection::ForceSyncButton
            &&& v.reinstall_pressed <==> (selection == HomePageSelection::ReinstallDaemon
                && pressed)
            &&& v.uninstall_pressed <==> (selection == HomePageSelection::UninstallDaemon
                && pressed)
            &&& v.sync_pressed <==> (selection == HomePageSelection::ForceSyncButton && pressed)
        }),
{
}

/// Below the bottom row nothing is selected, and above nothing there is
/// nothing either.
pub proof fn lemma_edges_of_the_column(s: HomePageSelection)
    ensures
        s.is_button() ==> s.moved_down() == HomePageSelection::Nothing,
        HomePageSelection::Nothing.moved_up() == HomePageSelection::Nothing,
{
}

/// A scrollable option is drawn in one colour throughout: blue when it is
/// selected, black otherwise.
pub proof fn lemma_scrollable_colours(is_selected: bool)
    ensures
        scrollable_colors_for(is_selected).label == scrollable_colors_for(is_selected).arrows,
        scrollable_colors_for(is_selected).arrows == scrollable_colors_for(is_selected).option,
        is_selected ==> scrollable_colors_for(is_selected).label == (Rgb { r: 0, g: 0, b: 255 }),
        !is_selected ==> scrollable_colors_for(is_selected).label == (Rgb { r: 0, g: 0, b: 0 }),
{
}

} // verus!
