use socli::action::{Action, Actions, Key};

#[test]
fn keys_of_actions() {
    assert_eq!(Action::Quit.keys(), vec![Key::Ctrl('c'), Key::Char('q')]);
    assert_eq!(Action::Tab.keys(), vec![Key::Tab]);
    assert_eq!(Action::PageDown.name(), "PageDown");
    assert_eq!(Action::iterator().len(), 7);
}

#[test]
fn conflicting_actions_are_refused() {
    assert!(Actions::try_new(vec![Action::Quit, Action::Quit]).is_none());
    let all = Actions::try_new(Action::iterator()).expect("no conflict");
    assert_eq!(all.actions().len(), 7);
}

#[test]
fn find_action_by_key() {
    let actions = Actions::try_new(vec![Action::Quit, Action::Up]).unwrap();
    assert_eq!(actions.find(Key::Char('q')), Some(&Action::Quit));
    assert_eq!(actions.find(Key::Up), Some(&Action::Up));
    assert_eq!(actions.find(Key::Down), None);
}
