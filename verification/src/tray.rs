//! The tray icon: its menu, what a click on it calls for, and what it shows
//! of the timer.

use crate::keyed::{ids_distinct, lookup, upsert, without, Keyed, KeyedList};
use crate::text::{joined, same_text};
use vstd::prelude::*;

verus! {

/// An entry of the tray's list of recent tasks.
#[derive(Debug)]
pub struct MenuItem {
    pub key: String,
    pub title: String,
}

/// Everything an entry holds.
pub struct MenuItemView {
    pub key: Seq<char>,
    pub title: Seq<char>,
}

impl View for MenuItem {
    type V = MenuItemView;

    open spec fn view(&self) -> MenuItemView {
        MenuItemView { key: self.key@, title: self.title@ }
    }
}

impl Keyed for MenuItem {
    open spec fn id_of(value: MenuItemView) -> Seq<char> {
        value.key
    }

    fn entity_id(&self) -> (id: &str) {
        self.key.as_str()
    }
}

/// The key under which the task `task_id` stands in the list of recent
/// tasks.
pub open spec fn recent_key(task_id: Seq<char>) -> Seq<char> {
    "recent_task_"@ + task_id
}

/// What the tray tells the window.
#[derive(Debug)]
pub enum TrayEvent {
    /// The timer runs or stands still.
    TimerStatusChanged { is_running: bool, session_type: Option<String>, pause_resume_text: &'static str },
    /// The numbers of tasks changed.
    TaskCountChanged { pending_tasks: u32, completed_today: u32 },
    /// A task joined the list of recent tasks.
    RecentTaskAdded { task_id: String, task_title: String },
    /// A task left the list of recent tasks.
    RecentTaskRemoved { task_id: String },
    /// A session ran out.
    TimerComplete { completed_session: String, next_action: &'static str },
}

impl TrayEvent {
    /// The name under which the window hears of the event.
    pub open spec fn name_text(self) -> Seq<char> {
        match self {
            TrayEvent::TimerStatusChanged { .. } => "tray-timer-status-changed"@,
            TrayEvent::TaskCountChanged { .. } => "tray-task-count-changed"@,
            TrayEvent::RecentTaskAdded { .. } => "tray-recent-task-added"@,
            TrayEvent::RecentTaskRemoved { .. } => "tray-recent-task-removed"@,
            TrayEvent::TimerComplete { .. } => "tray-timer-complete"@,
        }
    }

    /// The name under which the window hears of the event.
    pub fn name(&self) -> (name: &'static str)
        ensures
            name@ == self.name_text(),
    {
        match self {
            TrayEvent::TimerStatusChanged { .. } => "tray-timer-status-changed",
            TrayEvent::TaskCountChanged { .. } => "tray-task-count-changed",
            TrayEvent::RecentTaskAdded { .. } => "tray-recent-task-added",
            TrayEvent::RecentTaskRemoved { .. } => "tray-recent-task-removed",
            TrayEvent::TimerComplete { .. } => "tray-timer-complete",
        }
    }
}

/// What a click on an entry of the tray's menu calls for.
#[derive(Clone, Copy, Debug, PartialEq, Eq)]
pub enum MenuAction {
    /// Hide the window if it shows, else show it.
    ToggleWindow,
    /// Tell the window this event of the timer.
    EmitTimer(&'static str),
    /// Show the window, then tell it this event.
    ShowAndEmit(&'static str),
    /// Tell the window this event without showing it.
    Emit(&'static str),
    /// Show the window.
    ShowWindow,
    /// End the application.
    Quit,
    /// The entry is not known: say so and do nothing.
    Unknown,
    /// Nothing.
    Nothing,
}

/// What a click on the entry `menu_id` calls for.
pub open spec fn menu_action_of(menu_id: Seq<char>) -> MenuAction {
    if menu_id == "show_hide"@ {
        MenuAction::ToggleWindow
    } else if menu_id == "start_work"@ {
        MenuAction::EmitTimer("start-work-session")
    } else if menu_id == "start_short_break"@ {
        MenuAction::EmitTimer("start-short-break")
    } else if menu_id == "start_long_break"@ {
        MenuAction::EmitTimer("start-long-break")
    } else if menu_id == "pause_resume"@ {
        MenuAction::EmitTimer("pause-resume-timer")
    } else if menu_id == "stop_timer"@ {
        MenuAction::EmitTimer("stop-timer")
    } else if menu_id == "new_task"@ {
        MenuAction::ShowAndEmit("show-new-task-dialog")
    } else if menu_id == "view_tasks"@ {
        MenuAction::ShowAndEmit("navigate-to-tasks")
    } else if menu_id == "view_stats"@ {
        MenuAction::ShowAndEmit("navigate-to-statistics")
    } else if menu_id == "preferences"@ {
        MenuAction::ShowAndEmit("show-preferences")
    } else if menu_id == "about"@ {
        MenuAction::Emit("show-about-dialog")
    } else if menu_id == "quit"@ {
        MenuAction::Quit
    } else {
        MenuAction::Unknown
    }
}

/// What the pointer did to the tray icon.
#[derive(Debug)]
pub enum TrayClick {
    Left,
    Right,
    Double,
    /// An entry of the menu was chosen.
    MenuItem(String),
    /// Anything else.
    Other,
}

/// What the tray icon does about a click.
#[derive(Clone, Copy, Debug, PartialEq, Eq)]
pub enum TrayReaction {
    /// Hide the window if it shows, else show it.
    ToggleWindow,
    /// Show the window.
    ShowWindow,
    /// What the chosen entry calls for.
    Menu(MenuAction),
    /// Nothing; a right click opens the menu by itself.
    Nothing,
}

/// The tooltip of the tray icon for a state of the timer.
pub open spec fn tooltip_text(
    is_running: bool,
    session_type: Option<Seq<char>>,
    remaining_time: Option<Seq<char>>,
) -> Seq<char> {
    if is_running {
        match (session_type, remaining_time) {
            (Some(session), Some(time)) => "Pomodoro - "@ + session + " session: "@ + time
                + " remaining"@,
            _ => "Pomodoro - Timer running"@,
        }
    } else {
        "Pomodoro - Timer stopped"@
    }
}

/// The name of the icon for a state of the timer.
pub open spec fn icon_text(is_running: bool, session_type: Option<Seq<char>>) -> Seq<char> {
    if !is_running {
        "timer-stopped"@
    } else {
        match session_type {
            Some(session) => if session == "work"@ {
                "timer-work"@
            } else if session == "short_break"@ || session == "long_break"@ {
                "timer-break"@
            } else {
                "timer-running"@
            },
            None => "timer-running"@,
        }
    }
}

/// What is offered once a session of the kind named `session_type` ran out.
pub open spec fn next_action_text(session_type: Seq<char>) -> Seq<char> {
    if session_type == "work"@ {
        "Start Break"@
    } else if session_type == "short_break"@ || session_type == "long_break"@ {
        "Start Work Session"@
    } else {
        "Start Session"@
    }
}

/// What the entry that pauses and resumes the timer reads.
pub open spec fn pause_resume_text(is_running: bool) -> Seq<char> {
    if is_running {
        "Pause Timer"@
    } else {
        "Resume Timer"@
    }
}

/// What the tray icon is to show for a state of the timer.
#[derive(Debug)]
pub struct TrayUpdate {
    pub tooltip: String,
    pub status: TrayEvent,
    pub icon_name: &'static str,
}

/// The tray icon's own state: the list of recent tasks.
pub struct TrayManager {
    menu_items: KeyedList<MenuItem>,
}

impl TrayManager {
    /// The recent tasks, each under its key. No two of them share a key.
    pub closed spec fn menu(&self) -> Seq<MenuItemView> {
        self.menu_items@
    }

    pub fn new() -> (manager: Self)
        ensures
            manager.menu() == Seq::<MenuItemView>::empty(),
    {
        TrayManager { menu_items: KeyedList::new() }
    }

    /// The title under which the task `task_id` stands in the list of
    /// recent tasks.
    pub fn recent_task_title(&self, task_id: &str) -> (title: Option<String>)
        ensures
            match title {
                Some(t) => lookup::<MenuItem>(self.menu(), recent_key(task_id@)) matches Some(item)
                    && item.title == t@,
                None => lookup::<MenuItem>(self.menu(), recent_key(task_id@)) is None,
            },
            ids_distinct::<MenuItem>(self.menu()),
    {
        let key = joined("recent_task_", task_id);
        match self.menu_items.get(key.as_str()) {
            Some(item) => Some(item.title.clone()),
            None => None,
        }
    }

    /// What a click on the tray icon calls for.
    pub fn handle_system_tray_event(event: &TrayClick) -> (reaction: TrayReaction)
        ensures
            reaction == match *event {
                TrayClick::Left => TrayReaction::ToggleWindow,
                TrayClick::Right => TrayReaction::Nothing,
                TrayClick::Double => TrayReaction::ShowWindow,
                TrayClick::MenuItem(id) => TrayReaction::Menu(menu_action_of(id@)),
                TrayClick::Other => TrayReaction::Nothing,
            },
    {
        match event {
            TrayClick::Left => TrayReaction::ToggleWindow,
            TrayClick::Right => TrayReaction::Nothing,
            TrayClick::Double => TrayReaction::ShowWindow,
            TrayClick::MenuItem(id) => TrayReaction::Menu(TrayManager::handle_menu_click(id.as_str())),
            TrayClick::Other => TrayReaction::Nothing,
        }
    }

    /// What a click on the entry `menu_id` of the menu calls for.
    pub fn handle_menu_click(menu_id: &str) -> (action: MenuAction)
        ensures
            action == menu_action_of(menu_id@),
    {
        if same_text(menu_id, "show_hide") {
            MenuAction::ToggleWindow
        } else if same_text(menu_id, "start_work") {
            MenuAction::EmitTimer("start-work-session")
        } else if same_text(menu_id, "start_short_break") {
            MenuAction::EmitTimer("start-short-break")
        } else if same_text(menu_id, "start_long_break") {
            MenuAction::EmitTimer("start-long-break")
        } else if same_text(menu_id, "pause_resume") {
            MenuAction::EmitTimer("pause-resume-timer")
        } else if same_text(menu_id, "stop_timer") {
            MenuAction::EmitTimer("stop-timer")
        } else if same_text(menu_id, "new_task") {
            MenuAction::ShowAndEmit("show-new-task-dialog")
        } else if same_text(menu_id, "view_tasks") {
            MenuAction::ShowAndEmit("navigate-to-tasks")
        } else if same_text(menu_id, "view_stats") {
            MenuAction::ShowAndEmit("navigate-to-statistics")
        } else if same_text(menu_id, "preferences") {
            MenuAction::ShowAndEmit("show-preferences")
        } else if same_text(menu_id, "about") {
            MenuAction::Emit("show-about-dialog")
        } else if same_text(menu_id, "quit") {
            MenuAction::Quit
        } else {
            MenuAction::Unknown
        }
    }

    /// What the window is told when the timer starts or stops running.
    pub fn update_timer_status(&self, is_running: bool, session_type: Option<&str>) -> (event:
        TrayEvent)
        ensures
            event matches TrayEvent::TimerStatusChanged {
                is_running: running,
                session_type: session,
                pause_resume_text: text,
            } && running == is_running && session.deep_view() == (match session_type {
                Some(s) => Some(s@),
                None => None,
            }) && text@ == pause_resume_text(is_running),
    {
        TrayEvent::TimerStatusChanged {
            is_running,
            session_type: match session_type {
                Some(s) => Some(s.to_owned()),
                None => None,
            },
            pause_resume_text: if is_running {
                "Pause Timer"
            } else {
                "Resume Timer"
            },
        }
    }

    /// What the window is told when the numbers of tasks change.
    pub fn update_task_count(&self, pending_tasks: u32, completed_today: u32) -> (event: TrayEvent)
        ensures
            event == (TrayEvent::TaskCountChanged { pending_tasks, completed_today }),
    {
        TrayEvent::TaskCountChanged { pending_tasks, completed_today }
    }

    /// The line that stands for a notification of the tray.
    pub fn show_tray_notification(&self, title: &str, body: &str) -> (line: String)
        ensures
            line@ == "Tray notification: "@ + title@ + " - "@ + body@,
    {
        let mut line = joined("Tray notification: ", title);
        line.append(" - ");
        line.append(body);
        line
    }

    /// The tooltip of the tray icon for a state of the timer.
    pub fn tooltip(is_running: bool, session_type: Option<&str>, remaining_time: Option<&str>) -> (tooltip:
        String)
        ensures
            tooltip@ == tooltip_text(
                is_running,
                match session_type {
                    Some(s) => Some(s@),
                    None => None,
                },
                match remaining_time {
                    Some(t) => Some(t@),
                    None => None,
                },
            ),
    {
        if is_running {
            match (session_type, remaining_time) {
                (Some(session), Some(time)) => {
                    let mut tooltip = joined("Pomodoro - ", session);
                    tooltip.append(" session: ");
                    tooltip.append(time);
                    tooltip.append(" remaining");
                    tooltip
                },
                _ => "Pomodoro - Timer running".to_owned(),
            }
        } else {
            "Pomodoro - Timer stopped".to_owned()
        }
    }

    /// The name of the icon for a state of the timer.
    pub fn icon_name(is_running: bool, session_type: Option<&str>) -> (name: &'static str)
        ensures
            name@ == icon_text(
                is_running,
                match session_type {
                    Some(s) => Some(s@),
                    None => None,
                },
            ),
    {
        if !is_running {
            "timer-stopped"
        } else {
            match session_type {
                Some(session) => if same_text(session, "work") {
                    "timer-work"
                } else if same_text(session, "short_break") || same_text(session, "long_break") {
                    "timer-break"
                } else {
                    "timer-running"
                },
                None => "timer-running",
            }
        }
    }

    /// What the tray icon is to show for a state of the timer: its tooltip,
    /// what the window is told, and its icon.
    pub fn update_tray_for_timer_state(
        &self,
        is_running: bool,
        session_type: Option<&str>,
        remaining_time: Option<&str>,
    ) -> (update: TrayUpdate)
        ensures
            update.tooltip@ == tooltip_text(
                is_running,
                match session_type {
                    Some(s) => Some(s@),
                    None => None,
                },
                match remaining_time {
                    Some(t) => Some(t@),
                    None => None,
                },
            ),
            update.icon_name@ == icon_text(
                is_running,
                match session_type {
                    Some(s) => Some(s@),
                    None => None,
                },
            ),
            update.status matches TrayEvent::TimerStatusChanged {
                is_running: running,
                session_type: session,
                pause_resume_text: text,
            } && running == is_running && session.deep_view() == (match session_type {
                Some(s) => Some(s@),
                None => None,
            }) && text@ == pause_resume_text(is_running),
    {
        TrayUpdate {
            tooltip: TrayManager::tooltip(is_running, session_type, remaining_time),
            status: self.update_timer_status(is_running, session_type),
            icon_name: TrayManager::icon_name(is_running, session_type),
        }
    }

    /// Puts the task `task_id` on the list of recent tasks, under its key
    /// and with its title, in place of an entry for the same task; and what
    /// the window is told of it.
    pub fn add_recent_task_to_menu(&mut self, task_id: &str, task_title: &str) -> (event: TrayEvent)
        ensures
            final(self).menu() == upsert::<MenuItem>(
                old(self).menu(),
                MenuItemView { key: recent_key(task_id@), title: task_title@ },
            ),
            ids_distinct::<MenuItem>(final(self).menu()),
            event matches TrayEvent::RecentTaskAdded { task_id: id, task_title: title } && id@
                == task_id@ && title@ == task_title@,
    {
        let item = MenuItem { key: joined("recent_task_", task_id), title: task_title.to_owned() };
        self.menu_items.store(item);
        TrayEvent::RecentTaskAdded { task_id: task_id.to_owned(), task_title: task_title.to_owned() }
    }

    /// Takes the task `task_id` off the list of recent tasks; and what the
    /// window is told of it.
    pub fn remove_task_from_menu(&mut self, task_id: &str) -> (event: TrayEvent)
        ensures
            final(self).menu() == without::<MenuItem>(old(self).menu(), recent_key(task_id@)),
            ids_distinct::<MenuItem>(final(self).menu()),
            event matches TrayEvent::RecentTaskRemoved { task_id: id } && id@ == task_id@,
    {
        let key = joined("recent_task_", task_id);
        let _ = self.menu_items.remove(key.as_str());
        TrayEvent::RecentTaskRemoved { task_id: task_id.to_owned() }
    }

    /// What the window is told once a session of the kind named
    /// `session_type` ran out.
    pub fn show_timer_complete_actions(&self, session_type: &str) -> (event: TrayEvent)
        ensures
            event matches TrayEvent::TimerComplete { completed_session, next_action }
                && completed_session@ == session_type@ && next_action@ == next_action_text(
                session_type@,
            ),
    {
        let next_action = if same_text(session_type, "work") {
            "Start Break"
        } else if same_text(session_type, "short_break") || same_text(session_type, "long_break") {
            "Start Work Session"
        } else {
            "Start Session"
        };
        TrayEvent::TimerComplete { completed_session: session_type.to_owned(), next_action }
    }
}

/// What a click on the entry `menu_id` of the short menu calls for, the
/// menu that the tray has before the manager takes over.
pub open spec fn short_menu_action_of(menu_id: Seq<char>) -> MenuAction {
    if menu_id == "quit"@ {
        MenuAction::Quit
    } else if menu_id == "show"@ {
        MenuAction::ShowWindow
    } else if menu_id == "start_timer"@ {
        MenuAction::Emit("tray-start-timer")
    } else if menu_id == "pause_timer"@ {
        MenuAction::Emit("tray-pause-timer")
    } else {
        MenuAction::Nothing
    }
}

/// What a click on the tray icon with the short menu calls for.
pub fn handle_system_tray_event(event: &TrayClick) -> (reaction: TrayReaction)
    ensures
        reaction == match *event {
            TrayClick::Left => TrayReaction::ToggleWindow,
            TrayClick::MenuItem(id) => TrayReaction::Menu(short_menu_action_of(id@)),
            _ => TrayReaction::Nothing,
        },
{
    match event {
        TrayClick::Left => TrayReaction::ToggleWindow,
        TrayClick::MenuItem(id) => {
            let id = id.as_str();
            let action = if same_text(id, "quit") {
                MenuAction::Quit
            } else if same_text(id, "show") {
                MenuAction::ShowWindow
            } else if same_text(id, "start_timer") {
                MenuAction::Emit("tray-start-timer")
            } else if same_text(id, "pause_timer") {
                MenuAction::Emit("tray-pause-timer")
            } else {
                MenuAction::Nothing
            };
            TrayReaction::Menu(action)
        },
        _ => TrayReaction::Nothing,
    }
}

/// A line of a menu: an entry with its identifier and title, or a
/// separator.
#[derive(Clone, Copy, Debug, PartialEq, Eq)]
pub enum MenuLine {
    Entry { id: &'static str, title: &'static str },
    Separator,
}

/// A part of the tray's menu: a line, or a menu of its own under a title.
#[derive(Debug)]
pub enum MenuPart {
    Line(MenuLine),
    Submenu { title: &'static str, lines: Vec<MenuLine> },
}

/// What a part of the menu holds.
pub enum MenuPartView {
    Line(MenuLine),
    Submenu { title: &'static str, lines: Seq<MenuLine> },
}

impl View for MenuPart {
    type V = MenuPartView;

    open spec fn view(&self) -> MenuPartView {
        match *self {
            MenuPart::Line(line) => MenuPartView::Line(line),
            MenuPart::Submenu { title, lines } => MenuPartView::Submenu { title, lines: lines@ },
        }
    }
}

/// The parts of `menu`, in order.
pub open spec fn menu_view(menu: Seq<MenuPart>) -> Seq<MenuPartView> {
    menu.map_values(|p: MenuPart| p@)
}

/// The short menu: show, the two controls of the timer, quit.
pub open spec fn short_menu() -> Seq<MenuLine> {
    seq![
        MenuLine::Entry { id: "show", title: "Show" },
        MenuLine::Separator,
        MenuLine::Entry { id: "start_timer", title: "Start Timer" },
        MenuLine::Entry { id: "pause_timer", title: "Pause Timer" },
        MenuLine::Separator,
        MenuLine::Entry { id: "quit", title: "Quit" },
    ]
}

/// The menu of the tray: the window, the timer, the quick actions, the
/// preferences, quit.
pub open spec fn full_menu() -> Seq<MenuPartView> {
    seq![
        MenuPartView::Line(MenuLine::Entry { id: "show_hide", title: "Show/Hide Window" }),
        MenuPartView::Line(MenuLine::Separator),
        MenuPartView::Submenu {
            title: "Timer",
            lines: seq![
                MenuLine::Entry { id: "start_work", title: "Start Work Session" },
                MenuLine::Entry { id: "start_short_break", title: "Start Short Break" },
                MenuLine::Entry { id: "start_long_break", title: "Start Long Break" },
                MenuLine::Separator,
                MenuLine::Entry { id: "pause_resume", title: "Pause/Resume Timer" },
                MenuLine::Entry { id: "stop_timer", title: "Stop Timer" },
            ],
        },
        MenuPartView::Submenu {
            title: "Quick Actions",
            lines: seq![
                MenuLine::Entry { id: "new_task", title: "New Task" },
                MenuLine::Entry { id: "view_tasks", title: "View Tasks" },
                MenuLine::Entry { id: "view_stats", title: "View Statistics" },
            ],
        },
        MenuPartView::Line(MenuLine::Separator),
        MenuPartView::Line(MenuLine::Entry { id: "preferences", title: "Preferences" }),
        MenuPartView::Line(MenuLine::Entry { id: "about", title: "About" }),
        MenuPartView::Line(MenuLine::Separator),
        MenuPartView::Line(MenuLine::Entry { id: "quit", title: "Quit Pomodoro" }),
    ]
}

/// The short menu of the tray.
pub fn create_system_tray() -> (menu: Vec<MenuLine>)
    ensures
        menu@ == short_menu(),
{
    let mut menu: Vec<MenuLine> = Vec::new();
    menu.push(MenuLine::Entry { id: "show", title: "Show" });
    menu.push(MenuLine::Separator);
    menu.push(MenuLine::Entry { id: "start_timer", title: "Start Timer" });
    menu.push(MenuLine::Entry { id: "pause_timer", title: "Pause Timer" });
    menu.push(MenuLine::Separator);
    menu.push(MenuLine::Entry { id: "quit", title: "Quit" });
    assert(menu@ =~= short_menu());
    menu
}

impl TrayManager {
    /// The menu of the tray.
    pub fn create_system_tray() -> (menu: Vec<MenuPart>)
        ensures
            menu_view(menu@) == full_menu(),
    {
        let mut timer: Vec<MenuLine> = Vec::new();
        timer.push(MenuLine::Entry { id: "start_work", title: "Start Work Session" });
        timer.push(MenuLine::Entry { id: "start_short_break", title: "Start Short Break" });
        timer.push(MenuLine::Entry { id: "start_long_break", title: "Start Long Break" });
        timer.push(MenuLine::Separator);
        timer.push(MenuLine::Entry { id: "pause_resume", title: "Pause/Resume Timer" });
        timer.push(MenuLine::Entry { id: "stop_timer", title: "Stop Timer" });
        let mut quick: Vec<MenuLine> = Vec::new();
        quick.push(MenuLine::Entry { id: "new_task", title: "New Task" });
        quick.push(MenuLine::Entry { id: "view_tasks", title: "View Tasks" });
        quick.push(MenuLine::Entry { id: "view_stats", title: "View Statistics" });
        let mut menu: Vec<MenuPart> = Vec::new();
        menu.push(MenuPart::Line(MenuLine::Entry { id: "show_hide", title: "Show/Hide Window" }));
        menu.push(MenuPart::Line(MenuLine::Separator));
        menu.push(MenuPart::Submenu { title: "Timer", lines: timer });
        menu.push(MenuPart::Submenu { title: "Quick Actions", lines: quick });
        menu.push(MenuPart::Line(MenuLine::Separator));
        menu.push(MenuPart::Line(MenuLine::Entry { id: "preferences", title: "Preferences" }));
        menu.push(MenuPart::Line(MenuLine::Entry { id: "about", title: "About" }));
        menu.push(MenuPart::Line(MenuLine::Separator));
        menu.push(MenuPart::Line(MenuLine::Entry { id: "quit", title: "Quit Pomodoro" }));
        assert(timer@ =~= full_menu()[2]->lines);
        assert(quick@ =~= full_menu()[3]->lines);
        assert(menu_view(menu@) =~= full_menu());
        menu
    }
}

} // verus!
