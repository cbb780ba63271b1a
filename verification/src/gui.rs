use vstd::prelude::*;
use crate::hotkey::HotkeyAction;

verus! {

/// The part the user plays.
#[derive(Clone, Copy, PartialEq, Eq, Debug, Structural)]
pub enum Role {
    Caster,
    Player,
}

/// The screens of the application.
#[derive(Clone, Copy, PartialEq, Eq, Debug, Structural)]
pub enum Route {
    SelectRole,
    CasterDeviceSelection,
    CasterControls,
    CasterSettings,
    PlayerControls,
}

/// The screen that "back" leads to: the settings go back to the controls,
/// the controls to the device selection, the device selection and the
/// player to the role selection.
pub open spec fn parent_route(r: Route) -> Route {
    match r {
        Route::SelectRole => Route::SelectRole,
        Route::CasterDeviceSelection => Route::SelectRole,
        Route::CasterControls => Route::CasterDeviceSelection,
        Route::CasterSettings => Route::CasterControls,
        Route::PlayerControls => Route::SelectRole,
    }
}

/// How many steps back lead from a screen to the role selection.
pub open spec fn depth(r: Route) -> nat {
    match r {
        Route::SelectRole => 0,
        Route::CasterDeviceSelection => 1,
        Route::CasterControls => 2,
        Route::CasterSettings => 3,
        Route::PlayerControls => 1,
    }
}

/// The screen one step back from `r`.
pub fn route_back(r: Route) -> (p: Route)
    ensures
        p == parent_route(r),
{
    match r {
        Route::SelectRole => Route::SelectRole,
        Route::CasterDeviceSelection => Route::SelectRole,
        Route::CasterControls => Route::CasterDeviceSelection,
        Route::CasterSettings => Route::CasterControls,
        Route::PlayerControls => Route::SelectRole,
    }
}

/// Going back leads nearer the role selection, from any other screen.
pub proof fn law_back_leads_to_root(r: Route)
    ensures
        r != Route::SelectRole ==> depth(parent_route(r)) + 1 == depth(r),
        r == Route::SelectRole ==> parent_route(r) == Route::SelectRole,
{
}

/// The role a screen belongs to; the role selection belongs to none.
pub open spec fn screen_role(r: Route) -> Option<Role> {
    match r {
        Route::SelectRole => None,
        Route::CasterDeviceSelection => Some(Role::Caster),
        Route::CasterControls => Some(Role::Caster),
        Route::CasterSettings => Some(Role::Caster),
        Route::PlayerControls => Some(Role::Player),
    }
}

/// Going back never changes role: from a caster's screen it leads to a
/// caster's screen or to the role selection, likewise from a player's.
/// In particular the caster's controls go back to the device selection,
/// the caster's settings to the controls, and the first screen of each role
/// to the role selection.
pub proof fn law_back_keeps_the_role(r: Route)
    ensures
        parent_route(r) == Route::SelectRole || screen_role(parent_route(r)) == screen_role(r),
        r == Route::CasterControls ==> parent_route(r) == Route::CasterDeviceSelection,
        r == Route::CasterSettings ==> parent_route(r) == Route::CasterControls,
        r == Route::CasterDeviceSelection ==> parent_route(r) == Route::SelectRole,
        r == Route::PlayerControls ==> parent_route(r) == Route::SelectRole,
{
}

/// The current screen, and whether the current frame is its first.
pub struct Navigator {
    route: Route,
    first_route_render: bool,
}

impl Navigator {
    pub closed spec fn current(&self) -> Route {
        self.route
    }

    pub closed spec fn first_render(&self) -> bool {
        self.first_route_render
    }

    pub fn new() -> (n: Self)
        ensures
            n.current() == Route::SelectRole,
            n.first_render(),
    {
        Navigator { route: Route::SelectRole, first_route_render: true }
    }

    pub fn route(&self) -> (r: Route)
        ensures
            r == self.current(),
    {
        self.route
    }

    pub fn is_first_render(&self) -> (b: bool)
        ensures
            b == self.first_render(),
    {
        self.first_route_render
    }

    /// Goes to a screen, whose next frame is its first.
    pub fn route_to(&mut self, destination: Route)
        ensures
            final(self).current() == destination,
            final(self).first_render(),
    {
        self.first_route_render = true;
        self.route = destination;
    }

    /// Goes one screen back.
    pub fn go_back(&mut self)
        ensures
            final(self).current() == parent_route(old(self).current()),
            final(self).first_render(),
    {
        let p = route_back(self.route);
        self.route_to(p);
    }

    /// Goes back until the role selection.
    pub fn go_to_root(&mut self)
        ensures
            final(self).current() == Route::SelectRole,
            final(self).first_render() == (old(self).first_render() || old(self).current() != Route::SelectRole),
    {
        while self.route != Route::SelectRole
            invariant
                old(self).current() == Route::SelectRole ==> self.current() == Route::SelectRole
                    && self.first_render() == old(self).first_render(),
                old(self).current() != Route::SelectRole ==> self.first_render()
                    || (self.current() == old(self).current() && self.first_render() == old(self).first_render()),
            decreases depth(self.current()),
        {
            self.go_back();
        }
    }

    /// Ends a frame that showed `rendered`: unless the frame moved to
    /// another screen, the next frame is not the first of its screen.
    pub fn end_frame(&mut self, rendered: Route)
        ensures
            final(self).current() == old(self).current(),
            final(self).first_render() == (old(self).first_render() && old(self).current() != rendered),
    {
        if self.route == rendered {
            self.first_route_render = false;
        }
    }
}

/// What a triggered hotkey does in the user interface.
#[derive(Clone, Copy, PartialEq, Eq, Debug, Structural)]
pub enum UiCommand {
    StopPlayback,
    PlayPlayback,
    RouteToRoot,
    RouteBack,
    OpenSettings,
    SelectArea,
    Ignore,
}

/// The command of a hotkey on a screen: the playback keys work on the
/// player's screen only, area selection on the caster's controls only, the
/// others everywhere.
pub open spec fn hotkey_command_spec(action: HotkeyAction, route: Route) -> UiCommand {
    match action {
        HotkeyAction::StopPlayback => if route == Route::PlayerControls { UiCommand::StopPlayback } else { UiCommand::Ignore },
        HotkeyAction::PlayPlayback => if route == Route::PlayerControls { UiCommand::PlayPlayback } else { UiCommand::Ignore },
        HotkeyAction::BackToRoot => UiCommand::RouteToRoot,
        HotkeyAction::RouteBack => UiCommand::RouteBack,
        HotkeyAction::OpenSettings => UiCommand::OpenSettings,
        HotkeyAction::SelectArea => if route == Route::CasterControls { UiCommand::SelectArea } else { UiCommand::Ignore },
    }
}

/// The playback keys act on the player's screen and nowhere else, area
/// selection on the caster's controls and nowhere else, and each command
/// comes from its own action: a command other than `Ignore` is issued
/// exactly when its action is triggered on a screen where it applies.
pub proof fn law_commands_act_where_they_apply(action: HotkeyAction, route: Route)
    ensures
        (hotkey_command_spec(action, route) == UiCommand::StopPlayback)
            <==> (action == HotkeyAction::StopPlayback && route == Route::PlayerControls),
        (hotkey_command_spec(action, route) == UiCommand::PlayPlayback)
            <==> (action == HotkeyAction::PlayPlayback && route == Route::PlayerControls),
        (hotkey_command_spec(action, route) == UiCommand::SelectArea)
            <==> (action == HotkeyAction::SelectArea && route == Route::CasterControls),
        (hotkey_command_spec(action, route) == UiCommand::RouteBack) <==> action == HotkeyAction::RouteBack,
        (hotkey_command_spec(action, route) == UiCommand::RouteToRoot) <==> action == HotkeyAction::BackToRoot,
        (hotkey_command_spec(action, route) == UiCommand::OpenSettings) <==> action == HotkeyAction::OpenSettings,
{
}

/// The command of a triggered hotkey on the current screen.
pub fn hotkey_command(action: HotkeyAction, route: Route) -> (c: UiCommand)
    ensures
        c == hotkey_command_spec(action, route),
{
    match action {
        HotkeyAction::StopPlayback => if route == Route::PlayerControls { UiCommand::StopPlayback } else { UiCommand::Ignore },
        HotkeyAction::PlayPlayback => if route == Route::PlayerControls { UiCommand::PlayPlayback } else { UiCommand::Ignore },
        HotkeyAction::BackToRoot => UiCommand::RouteToRoot,
        HotkeyAction::RouteBack => UiCommand::RouteBack,
        HotkeyAction::OpenSettings => UiCommand::OpenSettings,
        HotkeyAction::SelectArea => if route == Route::CasterControls { UiCommand::SelectArea } else { UiCommand::Ignore },
    }
}

} // verus!
