use vstd::prelude::*;

verus! {

/// A keyboard key that the library tracks.
#[derive(Clone, Copy, PartialEq, Eq, PartialOrd, Ord, Debug, Structural)]
pub enum KeyInput {
    A,
    B,
    C,
    D,
    E,
    F,
    G,
    H,
    I,
    J,
    K,
    L,
    M,
    N,
    O,
    P,
    Q,
    R,
    S,
    T,
    U,
    V,
    W,
    X,
    Y,
    Z,
    Digit0,
    Digit1,
    Digit2,
    Digit3,
    Digit4,
    Digit5,
    Digit6,
    Digit7,
    Digit8,
    Digit9,
    F1,
    F2,
    F3,
    F4,
    F5,
    F6,
    F7,
    F8,
    F9,
    F10,
    F11,
    F12,
    Up,
    Down,
    Left,
    Right,
    Escape,
    Space,
    Enter,
    Backspace,
    Delete,
    Tab,
    Home,
    End,
    PageUp,
    PageDown,
    Insert,
    Semicolon,
    Equal,
    Minus,
    Comma,
    Period,
    Slash,
    Backslash,
    Quote,
    BracketLeft,
    BracketRight,
    Backquote,
    Numpad0,
    Numpad1,
    Numpad2,
    Numpad3,
    Numpad4,
    Numpad5,
    Numpad6,
    Numpad7,
    Numpad8,
    Numpad9,
    NumpadAdd,
    NumpadSubtract,
    NumpadMultiply,
    NumpadDivide,
    /// Any key the library does not handle.
    Unknown,
}

/// A mouse button that the library tracks.
#[derive(Clone, Copy, PartialEq, Eq, PartialOrd, Ord, Debug, Structural)]
pub enum MouseInput {
    Left,
    Right,
    Middle,
    Back,
    Forward,
}

/// What one kind of button (keys or mouse buttons) looks like at a moment: the buttons that went
/// down during the current frame, those held down since an earlier frame, and those that went up
/// during the current frame.
#[verifier::reject_recursive_types(T)]
pub struct ButtonsView<T> {
    pub just_pressed: Set<T>,
    pub pressed: Set<T>,
    pub just_released: Set<T>,
}

impl<T> ButtonsView<T> {
    /// Nothing pressed, nothing released.
    pub open spec fn empty() -> Self {
        ButtonsView { just_pressed: Set::empty(), pressed: Set::empty(), just_released: Set::empty() }
    }

    /// A button is down when it went down this frame or is held from an earlier one.
    pub open spec fn is_down(self, b: T) -> bool {
        self.just_pressed.contains(b) || self.pressed.contains(b)
    }

    /// A press event: a button that is not down yet becomes "just pressed"; otherwise nothing changes.
    pub open spec fn press(self, b: T) -> Self {
        if self.is_down(b) {
            self
        } else {
            ButtonsView {
                just_pressed: self.just_pressed.insert(b),
                pressed: self.pressed,
                just_released: self.just_released,
            }
        }
    }

    /// A release event: a button held from an earlier frame becomes "just released"; otherwise
    /// (also for a button pressed during this very frame) nothing changes.
    pub open spec fn release(self, b: T) -> Self {
        if !self.pressed.contains(b) {
            self
        } else {
            ButtonsView {
                just_pressed: self.just_pressed,
                pressed: self.pressed.remove(b),
                just_released: self.just_released.insert(b),
            }
        }
    }

    /// The end of a frame: the buttons that went down are now held, and the per-frame sets empty.
    pub open spec fn advance(self) -> Self {
        ButtonsView {
            just_pressed: Set::empty(),
            pressed: self.pressed.union(self.just_pressed),
            just_released: Set::empty(),
        }
    }

    /// No held button is also reported as just pressed or just released.
    pub open spec fn consistent(self) -> bool {
        &&& self.just_pressed.disjoint(self.pressed)
        &&& self.just_released.disjoint(self.pressed)
    }
}

/// The abstract state of [`Input`].
pub struct InputView {
    pub keys: ButtonsView<KeyInput>,
    pub mouse: ButtonsView<MouseInput>,
}

/// The three lists that track one kind of button hold each button at most once, and no held button
/// appears among the just pressed or just released ones.
pub open spec fn lists_wf<T>(jp: Seq<T>, p: Seq<T>, jr: Seq<T>) -> bool {
    &&& jp.no_duplicates()
    &&& p.no_duplicates()
    &&& jr.no_duplicates()
    &&& jp.disjoint(p)
    &&& jr.disjoint(p)
}

/// The abstract state of three button lists.
pub open spec fn lists_view<T>(jp: Seq<T>, p: Seq<T>, jr: Seq<T>) -> ButtonsView<T> {
    ButtonsView { just_pressed: jp.to_set(), pressed: p.to_set(), just_released: jr.to_set() }
}

proof fn lemma_push_fresh<T>(s: Seq<T>, x: T)
    requires
        s.no_duplicates(),
        !s.contains(x),
    ensures
        s.push(x).no_duplicates(),
        s.push(x).to_set() == s.to_set().insert(x),
{
    assert forall|i: int, j: int|
        0 <= i < s.push(x).len() && 0 <= j < s.push(x).len() && i != j implies s.push(x)[i] != s.push(
            x,
        )[j] by {
        if i == s.len() as int {
            assert(s.contains(s[j]));
        } else if j == s.len() as int {
            assert(s.contains(s[i]));
        }
    }
    assert forall|y: T| s.push(x).to_set().contains(y) <==> s.to_set().insert(x).contains(y) by {
        if s.push(x).contains(y) {
            let k = choose|k: int| 0 <= k < s.push(x).len() && s.push(x)[k] == y;
            if k < s.len() {
                assert(s[k] == y);
            }
        }
        if s.contains(y) {
            let k = choose|k: int| 0 <= k < s.len() && s[k] == y;
            assert(s.push(x)[k] == y);
        }
        if y == x {
            assert(s.push(x)[s.len() as int] == y);
        }
    }
    assert(s.push(x).to_set() =~= s.to_set().insert(x));
}

proof fn lemma_remove_at<T>(s: Seq<T>, i: int)
    requires
        s.no_duplicates(),
        0 <= i < s.len(),
    ensures
        s.remove(i).no_duplicates(),
        s.remove(i).to_set() == s.to_set().remove(s[i]),
        forall|y: T| s.remove(i).contains(y) ==> s.contains(y),
{
    let r = s.remove(i);
    assert forall|a: int, b: int| 0 <= a < r.len() && 0 <= b < r.len() && a != b implies r[a]
        != r[b] by {
        let sa = if a < i { a } else { a + 1 };
        let sb = if b < i { b } else { b + 1 };
        assert(r[a] == s[sa]);
        assert(r[b] == s[sb]);
    }
    assert forall|y: T| r.contains(y) implies s.contains(y) && y != s[i] by {
        let k = choose|k: int| 0 <= k < r.len() && r[k] == y;
        let sk = if k < i { k } else { k + 1 };
        assert(s[sk] == y);
    }
    assert forall|y: T| s.contains(y) && y != s[i] implies r.contains(y) by {
        let k = choose|k: int| 0 <= k < s.len() && s[k] == y;
        if k < i {
            assert(r[k] == y);
        } else {
            assert(k != i);
            assert(r[k - 1] == y);
        }
    }
    assert(r.to_set() =~= s.to_set().remove(s[i]));
}

proof fn lemma_concat_disjoint<T>(a: Seq<T>, b: Seq<T>)
    requires
        a.no_duplicates(),
        b.no_duplicates(),
        a.disjoint(b),
    ensures
        (a + b).no_duplicates(),
        (a + b).to_set() == a.to_set().union(b.to_set()),
{
    let c = a + b;
    assert forall|i: int, j: int| 0 <= i < c.len() && 0 <= j < c.len() && i != j implies c[i]
        != c[j] by {
        if i < a.len() && j >= a.len() {
            assert(c[j] == b[j - a.len()]);
        } else if j < a.len() && i >= a.len() {
            assert(c[i] == b[i - a.len()]);
        } else if i >= a.len() && j >= a.len() {
            assert(c[i] == b[i - a.len()]);
            assert(c[j] == b[j - a.len()]);
        }
    }
    assert forall|y: T| c.contains(y) <==> (a.contains(y) || b.contains(y)) by {
        if c.contains(y) {
            let k = choose|k: int| 0 <= k < c.len() && c[k] == y;
            if k >= a.len() {
                assert(b[k - a.len()] == y);
            }
        }
        if a.contains(y) {
            let k = choose|k: int| 0 <= k < a.len() && a[k] == y;
            assert(c[k] == y);
        }
        if b.contains(y) {
            let k = choose|k: int| 0 <= k < b.len() && b[k] == y;
            assert(c[k + a.len()] == y);
        }
    }
    assert(c.to_set() =~= a.to_set().union(b.to_set()));
}

proof fn lemma_disjoint_sets<T>(a: Seq<T>, b: Seq<T>)
    requires
        a.disjoint(b),
    ensures
        a.to_set().disjoint(b.to_set()),
{
    assert forall|y: T| a.to_set().contains(y) implies !b.to_set().contains(y) by {
        if a.contains(y) && b.contains(y) {
            let i = choose|i: int| 0 <= i < a.len() && a[i] == y;
            let j = choose|j: int| 0 <= j < b.len() && b[j] == y;
            assert(a[i] != b[j]);
        }
    }
}

proof fn lemma_lists_consistent<T>(jp: Seq<T>, p: Seq<T>, jr: Seq<T>)
    requires
        lists_wf(jp, p, jr),
    ensures
        lists_view(jp, p, jr).consistent(),
{
    lemma_disjoint_sets(jp, p);
    lemma_disjoint_sets(jr, p);
}

/// Where `key` stands in `list`, if anywhere.
fn find_key(list: &Vec<KeyInput>, key: KeyInput) -> (r: Option<usize>)
    ensures
        r matches Some(i) ==> i < list@.len() && list@[i as int] == key,
        r is None ==> !list@.contains(key),
{
    let mut i: usize = 0;
    while i < list.len()
        invariant
            i <= list@.len(),
            forall|j: int| 0 <= j < i ==> list@[j] != key,
        decreases list@.len() - i,
    {
        if list[i] == key {
            return Some(i);
        }
        i += 1;
    }
    None
}

/// Where `button` stands in `list`, if anywhere.
fn find_mouse(list: &Vec<MouseInput>, button: MouseInput) -> (r: Option<usize>)
    ensures
        r matches Some(i) ==> i < list@.len() && list@[i as int] == button,
        r is None ==> !list@.contains(button),
{
    let mut i: usize = 0;
    while i < list.len()
        invariant
            i <= list@.len(),
            forall|j: int| 0 <= j < i ==> list@[j] != button,
        decreases list@.len() - i,
    {
        if list[i] == button {
            return Some(i);
        }
        i += 1;
    }
    None
}

/// The state of the keyboard keys and mouse buttons, frame by frame.
#[derive(Debug)]
pub struct Input {
    mouse_just_pressed: Vec<MouseInput>,
    mouse_pressed: Vec<MouseInput>,
    mouse_just_released: Vec<MouseInput>,
    keys_just_pressed: Vec<KeyInput>,
    keys_pressed: Vec<KeyInput>,
    keys_just_released: Vec<KeyInput>,
}

impl Input {
    /// Each list holds a button at most once, and no held button is also listed as just pressed
    /// or just released.
    pub closed spec fn wf(self) -> bool {
        &&& lists_wf(self.keys_just_pressed@, self.keys_pressed@, self.keys_just_released@)
        &&& lists_wf(self.mouse_just_pressed@, self.mouse_pressed@, self.mouse_just_released@)
    }
}

impl View for Input {
    type V = InputView;

    closed spec fn view(&self) -> InputView {
        InputView {
            keys: lists_view(self.keys_just_pressed@, self.keys_pressed@, self.keys_just_released@),
            mouse: lists_view(
                self.mouse_just_pressed@,
                self.mouse_pressed@,
                self.mouse_just_released@,
            ),
        }
    }
}

impl Input {
    /// A well-formed input state is consistent: no held key or button is also listed as just
    /// pressed or just released.
    pub proof fn lemma_consistent(&self)
        requires
            self.wf(),
        ensures
            self@.keys.consistent(),
            self@.mouse.consistent(),
    {
        lemma_lists_consistent(self.keys_just_pressed@, self.keys_pressed@, self.keys_just_released@);
        lemma_lists_consistent(
            self.mouse_just_pressed@,
            self.mouse_pressed@,
            self.mouse_just_released@,
        );
    }

    /// No key and no mouse button is down or has just been released.
    pub fn new() -> (input: Input)
        ensures
            input@.keys == ButtonsView::<KeyInput>::empty(),
            input@.mouse == ButtonsView::<MouseInput>::empty(),
            input.wf(),
            input@.keys.consistent(),
            input@.mouse.consistent(),
    {
        let input = Input {
            mouse_just_pressed: Vec::new(),
            mouse_pressed: Vec::new(),
            mouse_just_released: Vec::new(),
            keys_just_pressed: Vec::new(),
            keys_pressed: Vec::new(),
            keys_just_released: Vec::new(),
        };
        assert(input@.keys.just_pressed =~= Set::empty());
        assert(input@.keys.pressed =~= Set::empty());
        assert(input@.keys.just_released =~= Set::empty());
        assert(input@.mouse.just_pressed =~= Set::empty());
        assert(input@.mouse.pressed =~= Set::empty());
        assert(input@.mouse.just_released =~= Set::empty());
        proof {
            input.lemma_consistent();
        }
        input
    }

    /// Ends a frame: what went down is now held, and nothing is just pressed or just released.
    pub fn advance(&mut self)
        requires
            old(self).wf(),
        ensures
            final(self).wf(),
            final(self)@.keys == old(self)@.keys.advance(),
            final(self)@.mouse == old(self)@.mouse.advance(),
            final(self)@.keys.consistent(),
            final(self)@.mouse.consistent(),
    {
        proof {
            lemma_concat_disjoint(self.keys_pressed@, self.keys_just_pressed@);
            lemma_concat_disjoint(self.mouse_pressed@, self.mouse_just_pressed@);
        }
        self.keys_just_released.clear();
        self.keys_pressed.append(&mut self.keys_just_pressed);
        self.mouse_just_released.clear();
        self.mouse_pressed.append(&mut self.mouse_just_pressed);
        assert(self@.keys.just_pressed =~= Set::empty());
        assert(self@.keys.just_released =~= Set::empty());
        assert(self@.mouse.just_pressed =~= Set::empty());
        assert(self@.mouse.just_released =~= Set::empty());
        proof {
            self.lemma_consistent();
        }
    }

    fn press_mouse(&mut self, button: MouseInput)
        requires
            old(self).wf(),
        ensures
            final(self).wf(),
            final(self)@.mouse == old(self)@.mouse.press(button),
            final(self)@.keys == old(self)@.keys,
    {
        let held = find_mouse(&self.mouse_pressed, button);
        let fresh = find_mouse(&self.mouse_just_pressed, button);
        if held.is_some() || fresh.is_some() {
            proof {
                if held is Some {
                    assert(self.mouse_pressed@.contains(button));
                } else {
                    assert(self.mouse_just_pressed@.contains(button));
                }
            }
            return;
        }
        proof {
            lemma_push_fresh(self.mouse_just_pressed@, button);
        }
        self.mouse_just_pressed.push(button);
    }

    fn release_mouse(&mut self, button: MouseInput)
        requires
            old(self).wf(),
        ensures
            final(self).wf(),
            final(self)@.mouse == old(self)@.mouse.release(button),
            final(self)@.keys == old(self)@.keys,
    {
        match find_mouse(&self.mouse_pressed, button) {
            None => {},
            Some(i) => {
                proof {
                    lemma_remove_at(self.mouse_pressed@, i as int);
                    assert(!self.mouse_just_released@.contains(button)) by {
                        if self.mouse_just_released@.contains(button) {
                            let k = choose|k: int|
                                0 <= k < self.mouse_just_released@.len()
                                    && self.mouse_just_released@[k] == button;
                            assert(self.mouse_just_released@[k] != self.mouse_pressed@[i as int]);
                        }
                    }
                    lemma_push_fresh(self.mouse_just_released@, button);
                }
                self.mouse_pressed.remove(i);
                self.mouse_just_released.push(button);
            },
        }
    }

    /// Whether `mouse` went down during this frame.
    pub fn is_mouse_just_pressed(&self, mouse: MouseInput) -> (b: bool)
        ensures
            b == self@.mouse.just_pressed.contains(mouse),
    {
        find_mouse(&self.mouse_just_pressed, mouse).is_some()
    }

    /// Whether `mouse` is down: it went down this frame or is held from an earlier one.
    pub fn is_mouse_pressed(&self, mouse: MouseInput) -> (b: bool)
        ensures
            b == self@.mouse.is_down(mouse),
    {
        find_mouse(&self.mouse_just_pressed, mouse).is_some() || find_mouse(
            &self.mouse_pressed,
            mouse,
        ).is_some()
    }

    /// Whether `mouse` went up during this frame.
    pub fn is_mouse_just_released(&self, mouse: MouseInput) -> (b: bool)
        ensures
            b == self@.mouse.just_released.contains(mouse),
    {
        find_mouse(&self.mouse_just_released, mouse).is_some()
    }

    /// Whether `mouse` is up; the negation of [`Input::is_mouse_pressed`].
    pub fn is_mouse_released(&self, mouse: MouseInput) -> (b: bool)
        ensures
            b == !self@.mouse.is_down(mouse),
    {
        !self.is_mouse_pressed(mouse)
    }

    fn press_key(&mut self, key: KeyInput)
        requires
            old(self).wf(),
        ensures
            final(self).wf(),
            final(self)@.keys == old(self)@.keys.press(key),
            final(self)@.mouse == old(self)@.mouse,
    {
        let held = find_key(&self.keys_pressed, key);
        let fresh = find_key(&self.keys_just_pressed, key);
        if held.is_some() || fresh.is_some() {
            proof {
                if held is Some {
                    assert(self.keys_pressed@.contains(key));
                } else {
                    assert(self.keys_just_pressed@.contains(key));
                }
            }
            return;
        }
        proof {
            lemma_push_fresh(self.keys_just_pressed@, key);
        }
        self.keys_just_pressed.push(key);
    }

    fn release_key(&mut self, key: KeyInput)
        requires
            old(self).wf(),
        ensures
            final(self).wf(),
            final(self)@.keys == old(self)@.keys.release(key),
            final(self)@.mouse == old(self)@.mouse,
    {
        match find_key(&self.keys_pressed, key) {
            None => {},
            Some(i) => {
                proof {
                    lemma_remove_at(self.keys_pressed@, i as int);
                    assert(!self.keys_just_released@.contains(key)) by {
                        if self.keys_just_released@.contains(key) {
                            let k = choose|k: int|
                                0 <= k < self.keys_just_released@.len()
                                    && self.keys_just_released@[k] == key;
                            assert(self.keys_just_released@[k] != self.keys_pressed@[i as int]);
                        }
                    }
                    lemma_push_fresh(self.keys_just_released@, key);
                }
                self.keys_pressed.remove(i);
                self.keys_just_released.push(key);
            },
        }
    }

    /// Whether `key` went down during this frame.
    pub fn is_key_just_pressed(&self, key: KeyInput) -> (b: bool)
        ensures
            b == self@.keys.just_pressed.contains(key),
    {
        find_key(&self.keys_just_pressed, key).is_some()
    }

    /// Whether `key` is down: it went down this frame or is held from an earlier one.
    pub fn is_key_pressed(&self, key: KeyInput) -> (b: bool)
        ensures
            b == self@.keys.is_down(key),
    {
        find_key(&self.keys_just_pressed, key).is_some() || find_key(
            &self.keys_pressed,
            key,
        ).is_some()
    }

    /// Whether `key` went up during this frame.
    pub fn is_key_just_released(&self, key: KeyInput) -> (b: bool)
        ensures
            b == self@.keys.just_released.contains(key),
    {
        find_key(&self.keys_just_released, key).is_some()
    }

    /// Whether `key` is up; the negation of [`Input::is_key_pressed`].
    pub fn is_key_released(&self, key: KeyInput) -> (b: bool)
        ensures
            b == !self@.keys.is_down(key),
    {
        !self.is_key_pressed(key)
    }

    /// A mouse button event: `pressed` tells whether the button went down or up. A button the
    /// library does not track (`None`) is ignored.
    pub fn handle_mouse_input(&mut self, pressed: bool, button: Option<MouseInput>)
        requires
            old(self).wf(),
        ensures
            final(self).wf(),
            final(self)@.keys == old(self)@.keys,
            final(self)@.mouse == match button {
                None => old(self)@.mouse,
                Some(b) => if pressed {
                    old(self)@.mouse.press(b)
                } else {
                    old(self)@.mouse.release(b)
                },
            },
            final(self)@.mouse.consistent(),
    {
        match button {
            None => {},
            Some(b) => {
                if pressed {
                    self.press_mouse(b);
                } else {
                    self.release_mouse(b);
                }
            },
        }
        proof {
            self.lemma_consistent();
        }
    }

    /// A keyboard event: `pressed` tells whether the key went down or up. A key the library does
    /// not track (`None`) is ignored.
    pub fn handle_keyboard_input(&mut self, key: Option<KeyInput>, pressed: bool)
        requires
            old(self).wf(),
        ensures
            final(self).wf(),
            final(self)@.mouse == old(self)@.mouse,
            final(self)@.keys == match key {
                None => old(self)@.keys,
                Some(k) => if pressed {
                    old(self)@.keys.press(k)
                } else {
                    old(self)@.keys.release(k)
                },
            },
            final(self)@.keys.consistent(),
    {
        match key {
            None => {},
            Some(k) => {
                if pressed {
                    self.press_key(k);
                } else {
                    self.release_key(k);
                }
            },
        }
        proof {
            self.lemma_consistent();
        }
    }
}


impl Default for Input {
    fn default() -> (input: Input)
        ensures
            input.wf(),
            input@.keys == ButtonsView::<KeyInput>::empty(),
            input@.mouse == ButtonsView::<MouseInput>::empty(),
    {
        Input::new()
    }
}

/// Ending a frame changes no button from down to up or back: a button is down after
/// [`ButtonsView::advance`] exactly when it was down before.
pub proof fn lemma_advance_keeps_down<T>(v: ButtonsView<T>, b: T)
    ensures
        v.advance().is_down(b) == v.is_down(b),
{
}

/// Pressing a button that is already down, or releasing one that is not held, changes nothing;
/// so a second identical event is ignored.
pub proof fn lemma_events_idempotent<T>(v: ButtonsView<T>, b: T)
    ensures
        v.press(b).press(b) == v.press(b),
        v.release(b).release(b) == v.release(b),
{
    assert(v.press(b).is_down(b));
    assert(!v.release(b).pressed.contains(b));
}

/// A release that comes in the same frame as the press is ignored: the button stays down.
pub proof fn lemma_release_in_press_frame_ignored<T>(v: ButtonsView<T>, b: T)
    requires
        !v.is_down(b),
    ensures
        v.press(b).release(b) == v.press(b),
        v.press(b).release(b).is_down(b),
{
}

/// A full cycle: a button pressed in one frame, held into the next and then released is reported
/// as just released and is up.
pub proof fn lemma_press_hold_release<T>(v: ButtonsView<T>, b: T)
    requires
        !v.is_down(b),
    ensures
        v.press(b).just_pressed.contains(b),
        v.press(b).advance().pressed.contains(b),
        !v.press(b).advance().just_pressed.contains(b),
        v.press(b).advance().release(b).just_released.contains(b),
        !v.press(b).advance().release(b).is_down(b),
{
    assert(v.press(b).advance().pressed.contains(b));
}

/// An event for one button leaves every other button as it was.
pub proof fn lemma_events_independent<T>(v: ButtonsView<T>, b: T, c: T)
    requires
        b != c,
    ensures
        v.press(b).is_down(c) == v.is_down(c),
        v.press(b).just_pressed.contains(c) == v.just_pressed.contains(c),
        v.press(b).just_released.contains(c) == v.just_released.contains(c),
        v.release(b).is_down(c) == v.is_down(c),
        v.release(b).just_pressed.contains(c) == v.just_pressed.contains(c),
        v.release(b).just_released.contains(c) == v.just_released.contains(c),
{
}

/// Every event and the end of a frame keep the state consistent.
pub proof fn lemma_transitions_consistent<T>(v: ButtonsView<T>, b: T)
    requires
        v.consistent(),
    ensures
        v.press(b).consistent(),
        v.release(b).consistent(),
        v.advance().consistent(),
{
}

} // verus!
