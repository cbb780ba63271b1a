use policast::hotkey::{
    BindError, HotkeyAction, HotkeyManager, KeyCombo, KeyEvent, ManagerState, Modifiers, KEY_BACKSPACE, KEY_S,
    KEY_SPACE,
};

fn combo(modifiers: Modifiers, key: u32) -> KeyCombo {
    KeyCombo { modifiers, key }
}

fn press(modifiers: Modifiers, key: u32) -> KeyEvent {
    KeyEvent { key, pressed: true, repeat: false, modifiers }
}

const KEY_K: u32 = 53;

#[test]
fn default_bindings_are_the_three_documented() {
    let mut m = HotkeyManager::default();
    assert_eq!(m.state, ManagerState::Default);
    let mut b = m.bindings();
    b.sort_by_key(|(a, _)| format!("{:?}", a));
    assert_eq!(
        b,
        vec![
            (HotkeyAction::PlayPlayback, combo(Modifiers::none(), KEY_SPACE)),
            (HotkeyAction::RouteBack, combo(Modifiers::none(), KEY_BACKSPACE)),
            (HotkeyAction::StopPlayback, combo(Modifiers::mac_cmd(), KEY_S)),
        ]
    );
    let mut u = m.unbound_actions();
    u.sort_by_key(|a| format!("{:?}", a));
    assert_eq!(u, vec![HotkeyAction::BackToRoot, HotkeyAction::OpenSettings, HotkeyAction::SelectArea]);
}

#[test]
fn bind_then_unbind_restores_bindings() {
    let mut m = HotkeyManager::default();
    let before = {
        let mut b = m.bindings();
        b.sort_by_key(|(a, _)| format!("{:?}", a));
        b
    };
    assert_eq!(m.try_bind(combo(Modifiers::none(), KEY_K), HotkeyAction::OpenSettings), Ok(()));
    assert_eq!(m.bindings().len(), 4);
    assert!(!m.unbound_actions().contains(&HotkeyAction::OpenSettings));
    assert_eq!(m.try_unbind(HotkeyAction::OpenSettings), Ok(()));
    let mut after = m.bindings();
    after.sort_by_key(|(a, _)| format!("{:?}", a));
    assert_eq!(before, after);
    assert!(m.unbound_actions().contains(&HotkeyAction::OpenSettings));
}

#[test]
fn bind_refuses_a_taken_combination() {
    let mut m = HotkeyManager::default();
    assert_eq!(
        m.try_bind(combo(Modifiers::none(), KEY_SPACE), HotkeyAction::OpenSettings),
        Err(BindError::KeyComboAlreadyAssigned(HotkeyAction::PlayPlayback))
    );
    assert_eq!(m.bindings().len(), 3);
}

#[test]
fn bind_refuses_a_bound_action() {
    let mut m = HotkeyManager::default();
    assert_eq!(
        m.try_bind(combo(Modifiers::none(), KEY_K), HotkeyAction::RouteBack),
        Err(BindError::ActionAlreadyAssigned(combo(Modifiers::none(), KEY_BACKSPACE)))
    );
    assert_eq!(m.bindings().len(), 3);
}

#[test]
fn unbind_refuses_an_unbound_action() {
    let mut m = HotkeyManager::default();
    assert_eq!(m.try_unbind(HotkeyAction::SelectArea), Err(BindError::ActionAlreadyUnbinded));
}

#[test]
fn pressed_bound_keys_trigger_their_actions() {
    let mut m = HotkeyManager::default();
    let events = vec![
        press(Modifiers::none(), KEY_SPACE),
        KeyEvent { key: KEY_SPACE, pressed: false, repeat: false, modifiers: Modifiers::none() },
        press(Modifiers::none(), KEY_K),
        KeyEvent { key: KEY_S, pressed: true, repeat: true, modifiers: Modifiers::mac_cmd() },
        press(Modifiers::none(), KEY_S),
    ];
    assert_eq!(m.check_keyboard(&events), vec![HotkeyAction::PlayPlayback, HotkeyAction::StopPlayback]);
}

#[test]
fn binding_mode_binds_the_first_fresh_press() {
    let mut m = HotkeyManager::default();
    m.new_binding_mode(HotkeyAction::OpenSettings);
    assert_eq!(m.state, ManagerState::Binding(HotkeyAction::OpenSettings));
    let events = vec![
        KeyEvent { key: 60, pressed: true, repeat: true, modifiers: Modifiers::none() },
        press(Modifiers::none(), KEY_K),
        press(Modifiers::none(), 54),
    ];
    assert_eq!(m.check_keyboard(&events), vec![]);
    assert!(m.bindings().contains(&(HotkeyAction::OpenSettings, combo(Modifiers::none(), KEY_K))));
    assert_eq!(m.bindings().len(), 4);
    // the mode stays until it is changed
    assert_eq!(m.state, ManagerState::Binding(HotkeyAction::OpenSettings));
}

#[test]
fn binding_mode_ignores_a_taken_combination() {
    let mut m = HotkeyManager::default();
    m.new_binding_mode(HotkeyAction::SelectArea);
    let events = vec![press(Modifiers::none(), KEY_SPACE)];
    assert_eq!(m.check_keyboard(&events), vec![]);
    assert_eq!(m.bindings().len(), 3);
    assert!(m.unbound_actions().contains(&HotkeyAction::SelectArea));
}

#[test]
fn action_names() {
    assert_eq!(HotkeyAction::OpenSettings.name(), "OpenSettings");
    assert_eq!(HotkeyAction::BackToRoot.name(), "BackToRoot");
    assert_eq!(HotkeyAction::iter_all().len(), 6);
}

