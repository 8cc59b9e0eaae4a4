use vstd::prelude::*;

verus! {

/// A key press, as the input layer reports it.
#[derive(Debug, Clone, Copy, PartialEq, Eq, Structural, Hash)]
pub enum Key {
    Enter,
    Tab,
    Backspace,
    Esc,
    Left,
    Right,
    Up,
    Down,
    Ins,
    Delete,
    Home,
    End,
    PageUp,
    PageDown,
    Char(char),
    Ctrl(char),
    Alt(char),
    Unknown,
}

/// What the user can ask for.
#[derive(Debug, Clone, Copy, PartialEq, Eq, Structural)]
pub enum Action {
    Quit,
    Down,
    Up,
    PageUp,
    PageDown,
    Backspace,
    Tab,
}

/// The keys bound to `a`.
pub open spec fn action_keys(a: Action) -> Seq<Key> {
    match a {
        Action::Quit => seq![Key::Ctrl('c'), Key::Char('q')],
        Action::Down => seq![Key::Down],
        Action::Up => seq![Key::Up],
        Action::PageUp => seq![Key::PageUp],
        Action::PageDown => seq![Key::PageDown],
        Action::Backspace => seq![Key::Backspace],
        Action::Tab => seq![Key::Tab],
    }
}

/// The short name of `a`.
pub open spec fn action_name(a: Action) -> Seq<char> {
    match a {
        Action::Quit => "Quit"@,
        Action::Down => "Down"@,
        Action::Up => "Up"@,
        Action::PageUp => "PageUp"@,
        Action::PageDown => "PageDown"@,
        Action::Backspace => "Backspace"@,
        Action::Tab => "Tab"@,
    }
}

/// Every action, in declaration order.
pub open spec fn all_actions() -> Seq<Action> {
    seq![
        Action::Quit,
        Action::Down,
        Action::Up,
        Action::PageUp,
        Action::PageDown,
        Action::Backspace,
        Action::Tab,
    ]
}

/// Two positions of `actions` share a key.
pub open spec fn keys_conflict(actions: Seq<Action>) -> bool {
    exists|i: int, j: int|
        0 <= i < j < actions.len() && #[trigger] shares_key(actions[i], actions[j])
}

/// `a` and `b` are bound to a common key.
pub open spec fn shares_key(a: Action, b: Action) -> bool {
    exists|k: Key| action_keys(a).contains(k) && action_keys(b).contains(k)
}

impl Action {
    /// Every action.
    pub fn iterator() -> (r: Vec<Action>)
        ensures
            r@ == all_actions(),
    {
        vec![
            Action::Quit,
            Action::Down,
            Action::Up,
            Action::PageUp,
            Action::PageDown,
            Action::Backspace,
            Action::Tab,
        ]
    }

    /// The keys bound to the action.
    pub fn keys(&self) -> (r: Vec<Key>)
        ensures
            r@ == action_keys(*self),
    {
        match self {
            Action::Quit => vec![Key::Ctrl('c'), Key::Char('q')],
            Action::Down => vec![Key::Down],
            Action::Up => vec![Key::Up],
            Action::PageUp => vec![Key::PageUp],
            Action::PageDown => vec![Key::PageDown],
            Action::Backspace => vec![Key::Backspace],
            Action::Tab => vec![Key::Tab],
        }
    }

    /// The short name of the action.
    pub fn name(&self) -> (r: &'static str)
        ensures
            r@ == action_name(*self),
    {
        match self {
            Action::Quit => "Quit",
            Action::Down => "Down",
            Action::Up => "Up",
            Action::PageUp => "PageUp",
            Action::PageDown => "PageDown",
            Action::Backspace => "Backspace",
            Action::Tab => "Tab",
        }
    }

    /// Whether `key` is bound to the action.
    pub fn has_key(&self, key: Key) -> (r: bool)
        ensures
            r == action_keys(*self).contains(key),
    {
        let keys = self.keys();
        let mut i: usize = 0;
        while i < keys.len()
            invariant
                i <= keys@.len(),
                keys@ == action_keys(*self),
                forall|j: int| 0 <= j < i ==> keys@[j] != key,
            decreases keys@.len() - i,
        {
            if keys[i] == key {
                return true;
            }
            i = i + 1;
        }
        false
    }
}

/// The actions available in the current context; no key is bound to two of them.
#[derive(Debug)]
pub struct Actions(pub Vec<Action>);

/// Position of the first action of `actions` bound to `key`, or -1.
pub open spec fn first_with_key(actions: Seq<Action>, key: Key) -> int {
    if exists|i: int| 0 <= i < actions.len() && action_keys(actions[i]).contains(key) && forall|j: int|
        0 <= j < i ==> !action_keys(actions[j]).contains(key) {
        choose|i: int| 0 <= i < actions.len() && action_keys(actions[i]).contains(key) && forall|j: int|
            0 <= j < i ==> !action_keys(actions[j]).contains(key)
    } else {
        -1
    }
}

proof fn lemma_shares_key(a: Action, b: Action)
    ensures
        shares_key(a, b) <==> exists|i: int| 0 <= i < action_keys(a).len() && action_keys(b).contains(
            #[trigger] action_keys(a)[i],
        ),
{
    if shares_key(a, b) {
        let k = choose|k: Key| action_keys(a).contains(k) && action_keys(b).contains(k);
        let i = choose|i: int| 0 <= i < action_keys(a).len() && action_keys(a)[i] == k;
        assert(action_keys(b).contains(action_keys(a)[i]));
    }
    if exists|i: int| 0 <= i < action_keys(a).len() && action_keys(b).contains(#[trigger] action_keys(a)[i]) {
        let i = choose|i: int| 0 <= i < action_keys(a).len() && action_keys(b).contains(#[trigger] action_keys(a)[i]);
        assert(action_keys(a).contains(action_keys(a)[i]));
    }
}

/// Whether `a` and `b` are bound to a common key.
fn share_key(a: Action, b: Action) -> (r: bool)
    ensures
        r == shares_key(a, b),
{
    proof {
        lemma_shares_key(a, b);
    }
    let keys = a.keys();
    let mut i: usize = 0;
    while i < keys.len()
        invariant
            i <= keys@.len(),
            keys@ == action_keys(a),
            forall|j: int| 0 <= j < i ==> !action_keys(b).contains(#[trigger] keys@[j]),
        decreases keys@.len() - i,
    {
        if b.has_key(keys[i]) {
            return true;
        }
        i = i + 1;
    }
    false
}

impl Actions {
    /// The actions of `actions`, unless two positions of it share a key.
    pub fn try_new(actions: Vec<Action>) -> (r: Option<Actions>)
        ensures
            r is Some <==> !keys_conflict(actions@),
            r matches Some(a) ==> a.0@ == actions@,
    {
        let n = actions.len();
        let mut i: usize = 0;
        while i < n
            invariant
                n == actions@.len(),
                i <= n,
                forall|p: int, q: int| 0 <= p < q < n && p < i ==> !#[trigger] shares_key(actions@[p], actions@[q]),
            decreases n - i,
        {
            let mut j: usize = i + 1;
            while j < n
                invariant
                    n == actions@.len(),
                    i < n,
                    i + 1 <= j <= n,
                    forall|p: int, q: int| 0 <= p < q < n && p < i ==> !#[trigger] shares_key(actions@[p], actions@[q]),
                    forall|q: int| i < q < j ==> !#[trigger] shares_key(actions@[i as int], actions@[q]),
                decreases n - j,
            {
                if share_key(actions[i], actions[j]) {
                    return None;
                }
                j = j + 1;
            }
            i = i + 1;
        }
        Some(Actions(actions))
    }

    /// The first action bound to `key`.
    pub fn find(&self, key: Key) -> (r: Option<&Action>)
        ensures
            ({
                let i = first_with_key(self.0@, key);
                &&& i < 0 ==> r is None
                &&& i >= 0 ==> (r matches Some(a) && *a == self.0@[i])
            }),
    {
        let mut i: usize = 0;
        while i < self.0.len()
            invariant
                i <= self.0@.len(),
                forall|j: int| 0 <= j < i ==> !action_keys(self.0@[j]).contains(key),
            decreases self.0@.len() - i,
        {
            if self.0[i].has_key(key) {
                proof {
                    let k = choose|k: int| 0 <= k < self.0@.len() && action_keys(self.0@[k]).contains(key)
                        && forall|j: int| 0 <= j < k ==> !action_keys(self.0@[j]).contains(key);
                    assert(k == i);
                }
                return Some(&self.0[i]);
            }
            i = i + 1;
        }
        None
    }

    /// The actions, for a help view.
    pub fn actions(&self) -> (r: &[Action])
        ensures
            r@ == self.0@,
    {
        self.0.as_slice()
    }
}

} // verus!
