use vstd::prelude::*;

verus! {

/// Whether bit `bit` (0 is the least significant) of `byte` is set.
pub open spec fn bit_set(byte: u8, bit: int) -> bool {
    0 <= bit < 8 && (byte & (1u8 << (bit as u8))) != 0
}

/// Whether `key` is pressed in the packed button bytes: bit `key % 8` of
/// byte `key / 8`.
pub open spec fn key_in_bytes(bytes: Seq<u8>, key: int) -> bool {
    0 <= key && key / 8 < bytes.len() && bit_set(bytes[key / 8], key % 8)
}

proof fn lemma_or_bit(x: u8, b: u8, c: u8)
    requires
        b < 8,
        c < 8,
    ensures
        ((x | (1u8 << b)) & (1u8 << c)) != 0 <==> (b == c || (x & (1u8 << c)) != 0),
{
    assert(((x | (1u8 << b)) & (1u8 << c)) != 0 <==> (b == c || (x & (1u8 << c)) != 0))
        by (bit_vector)
        requires
            b < 8,
            c < 8,
    ;
}

proof fn lemma_clear_bit(x: u8, b: u8, c: u8)
    requires
        b < 8,
        c < 8,
    ensures
        ((x & !(1u8 << b)) & (1u8 << c)) != 0 <==> (b != c && (x & (1u8 << c)) != 0),
{
    assert(((x & !(1u8 << b)) & (1u8 << c)) != 0 <==> (b != c && (x & (1u8 << c)) != 0))
        by (bit_vector)
        requires
            b < 8,
            c < 8,
    ;
}

proof fn lemma_zero_byte(c: u8)
    requires
        c < 8,
    ensures
        (0u8 & (1u8 << c)) == 0,
{
    assert((0u8 & (1u8 << c)) == 0) by (bit_vector);
}

/// The pressed state of `8 * SIZE` buttons, one bit per button.
pub struct Bindings<const SIZE: usize> {
    pub buttons: [u8; SIZE],
}

impl<const SIZE: usize> View for Bindings<SIZE> {
    type V = Set<int>;

    /// The set of pressed keys.
    open spec fn view(&self) -> Set<int> {
        Set::new(|key: int| key_in_bytes(self.buttons@, key))
    }
}

impl<const SIZE: usize> Bindings<SIZE> {
    /// Whether `key` names a button of this binding.
    pub open spec fn in_range(key: int) -> bool {
        0 <= key && key / 8 < SIZE
    }

    /// All buttons released.
    pub fn new() -> (res: Self)
        ensures
            res@ == Set::<int>::empty(),
            forall|i: int| 0 <= i < SIZE ==> res.buttons@[i] == 0u8,
    {
        let res = Self { buttons: [0u8; SIZE] };
        proof {
            assert forall|k: int| !key_in_bytes(res.buttons@, k) by {
                if 0 <= k && k / 8 < SIZE {
                    lemma_zero_byte((k % 8) as u8);
                }
            }
            assert(res@ =~= Set::<int>::empty());
        }
        res
    }

    /// Marks `key` as pressed; every other key keeps its state.
    pub fn set(&mut self, key: usize)
        requires
            Self::in_range(key as int),
        ensures
            final(self)@ == old(self)@.insert(key as int),
    {
        let i = key / 8;
        let byte = key % 8;
        let ghost old_bytes = self.buttons@;
        let b = self.buttons[i];
        self.buttons[i] = b | (1u8 << (byte as u8));
        proof {
            assert forall|k: int|
                key_in_bytes(self.buttons@, k) == (k == key || key_in_bytes(old_bytes, k)) by {
                if 0 <= k && k / 8 < SIZE {
                    lemma_or_bit(b, byte as u8, (k % 8) as u8);
                }
            }
            assert forall|k: int| #[trigger] self@.contains(k) == old(self)@.insert(key as int).contains(k) by {
                assert(self@.contains(k) == key_in_bytes(self.buttons@, k));
                assert(old(self)@.contains(k) == key_in_bytes(old_bytes, k));
            }
            assert(self@ =~= old(self)@.insert(key as int));
        }
    }

    /// Marks `key` as released; every other key keeps its state.
    pub fn unset(&mut self, key: usize)
        requires
            Self::in_range(key as int),
        ensures
            final(self)@ == old(self)@.remove(key as int),
    {
        let i = key / 8;
        let byte = key % 8;
        let ghost old_bytes = self.buttons@;
        let b = self.buttons[i];
        self.buttons[i] = b & !(1u8 << (byte as u8));
        proof {
            assert forall|k: int|
                key_in_bytes(self.buttons@, k) == (k != key && key_in_bytes(old_bytes, k)) by {
                if 0 <= k && k / 8 < SIZE {
                    lemma_clear_bit(b, byte as u8, (k % 8) as u8);
                }
            }
            assert(self@ =~= old(self)@.remove(key as int));
        }
    }

    /// Releases every button.
    pub fn reset(&mut self)
        ensures
            final(self)@ == Set::<int>::empty(),
            forall|i: int| 0 <= i < SIZE ==> final(self).buttons@[i] == 0u8,
    {
        *self = Self::new();
    }

    /// Whether `key` is pressed.
    pub fn down(&self, key: usize) -> (res: bool)
        requires
            Self::in_range(key as int),
        ensures
            res == self@.contains(key as int),
    {
        let i = key / 8;
        let byte = key % 8;
        let b = self.buttons[i];
        let res = b & (1u8 << (byte as u8)) > 0;
        proof {
            assert(((b & (1u8 << (byte as u8))) > 0) == ((b & (1u8 << (byte as u8))) != 0))
                by (bit_vector);
        }
        res
    }
}


/// The eight bits of `byte`, least significant first, as `'0'`/`'1'`.
pub open spec fn bits_text(byte: u8) -> Seq<char> {
    Seq::new(8, |j: int| if bit_set(byte, j) { '1' } else { '0' })
}

/// Each byte's bits followed by a `'|'` separator.
pub open spec fn bytes_text(bytes: Seq<u8>) -> Seq<char>
    decreases bytes.len(),
{
    if bytes.len() == 0 {
        Seq::empty()
    } else {
        bytes_text(bytes.drop_last()) + bits_text(bytes.last()) + seq!['|']
    }
}

impl<const SIZE: usize> Bindings<SIZE> {
    /// The textual form `|b0b1..b7|b8..b15|...`: a leading `'|'`, then for
    /// each byte its bits from least to most significant and a `'|'`.
    pub fn to_string(&self) -> (res: String)
        ensures
            res@ == seq!['|'] + bytes_text(self.buttons@),
    {
        let mut res = String::new();
        proof {
            reveal_strlit("|");
        }
        res.append("|");
        let mut i: usize = 0;
        while i < SIZE
            invariant
                0 <= i <= SIZE,
                self.buttons@.len() == SIZE,
                res@ == seq!['|'] + bytes_text(self.buttons@.take(i as int)),
            decreases SIZE - i,
        {
            let b = self.buttons[i];
            let ghost before = res@;
            let mut j: u8 = 0;
            while j < 8
                invariant
                    0 <= j <= 8,
                    res@ == before + bits_text(b).take(j as int),
                decreases 8 - j,
            {
                let ghost mid = res@;
                proof {
                    reveal_strlit("0");
                    reveal_strlit("1");
                }
                if b & (1u8 << j) != 0 {
                    res.append("1");
                    assert(res@ =~= mid + seq!['1']);
                } else {
                    res.append("0");
                    assert(res@ =~= mid + seq!['0']);
                }
                assert(res@ =~= before + (bits_text(b).take(j as int) + seq![bits_text(b)[j as int]]));
                assert(bits_text(b).take(j + 1) =~= bits_text(b).take(j as int) + seq![
                    bits_text(b)[j as int],
                ]);
                j = j + 1;
            }
            proof {
                assert(bits_text(b).take(8) =~= bits_text(b));
                let t = self.buttons@.take(i + 1);
                assert(t.drop_last() =~= self.buttons@.take(i as int));
                assert(t.last() == b);
                assert(bytes_text(t) == bytes_text(t.drop_last()) + bits_text(b) + seq!['|']);
            }
            let ghost mid = res@;
            proof {
                reveal_strlit("|");
            }
            res.append("|");
            assert(res@ =~= mid + seq!['|']);
            assert(res@ =~= seq!['|'] + bytes_text(self.buttons@.take(i + 1)));
            i = i + 1;
        }
        proof {
            assert(self.buttons@.take(SIZE as int) =~= self.buttons@);
        }
        res
    }
}

proof fn lemma_bytes_text(s: Seq<u8>)
    ensures
        bytes_text(s).len() == 9 * s.len(),
        forall|i: int, j: int|
            0 <= i < s.len() && 0 <= j < 8 ==> #[trigger] bytes_text(s)[9 * i + j] == bits_text(
                s[i],
            )[j],
        forall|i: int| 0 <= i < s.len() ==> #[trigger] bytes_text(s)[9 * i + 8] == '|',
    decreases s.len(),
{
    if s.len() > 0 {
        let p = s.drop_last();
        lemma_bytes_text(p);
        let t = bytes_text(s);
        assert(t == bytes_text(p) + bits_text(s.last()) + seq!['|']);
        assert forall|i: int, j: int| 0 <= i < s.len() && 0 <= j < 8 implies #[trigger] t[9 * i
            + j] == bits_text(s[i])[j] by {
            if i < s.len() - 1 {
                assert(9 * i + j < 9 * p.len()) by (nonlinear_arith)
                    requires
                        i < p.len(),
                        0 <= j < 8,
                ;
                assert(p[i] == s[i]);
            } else {
                assert(9 * i + j == 9 * p.len() + j) by (nonlinear_arith)
                    requires
                        i == p.len(),
                ;
            }
        }
        assert forall|i: int| 0 <= i < s.len() implies #[trigger] t[9 * i + 8] == '|' by {
            if i < s.len() - 1 {
                assert(9 * i + 8 < 9 * p.len()) by (nonlinear_arith)
                    requires
                        i < p.len(),
                ;
            } else {
                assert(9 * i + 8 == 9 * p.len() + 8) by (nonlinear_arith)
                    requires
                        i == p.len(),
                ;
            }
        }
    }
}

/// The text of a binding shows every key: it is `9 * SIZE + 1` characters
/// long, every ninth character from the first is `'|'`, and key `k` stands at
/// position `9 * (k / 8) + k % 8 + 1` as `'1'` when down and `'0'` when up.
pub proof fn law_text_shows_keys<const SIZE: usize>(b: Bindings<SIZE>, k: int, byte: int)
    requires
        Bindings::<SIZE>::in_range(k),
        0 <= byte < SIZE,
    ensures
        (seq!['|'] + bytes_text(b.buttons@)).len() == 9 * SIZE + 1,
        (seq!['|'] + bytes_text(b.buttons@))[0] == '|',
        (seq!['|'] + bytes_text(b.buttons@))[9 * byte + 9] == '|',
        (seq!['|'] + bytes_text(b.buttons@))[9 * (k / 8) + k % 8 + 1] == (if b@.contains(k) {
            '1'
        } else {
            '0'
        }),
{
    lemma_bytes_text(b.buttons@);
    let t = seq!['|'] + bytes_text(b.buttons@);
    assert(t[9 * byte + 9] == bytes_text(b.buttons@)[9 * byte + 8]);
    assert(t[9 * (k / 8) + k % 8 + 1] == bytes_text(b.buttons@)[9 * (k / 8) + k % 8]);
    assert(bytes_text(b.buttons@)[9 * (k / 8) + k % 8] == bits_text(b.buttons@[k / 8])[k % 8]);
}

/// Pressing a key makes it read as down and releasing it makes it read as
/// up; either leaves every other key as it was.
pub proof fn law_press_release_read<const SIZE: usize>(b: Bindings<SIZE>, key: int, other: int)
    requires
        other != key,
    ensures
        b@.insert(key).contains(key),
        !b@.remove(key).contains(key),
        b@.insert(key).contains(other) == b@.contains(other),
        b@.remove(key).contains(other) == b@.contains(other),
{
}

/// Releasing a key that was up before it was pressed gives back the same
/// keys; pressing a key twice is pressing it once.
pub proof fn law_release_undoes_press<const SIZE: usize>(b: Bindings<SIZE>, key: int)
    requires
        !b@.contains(key),
    ensures
        b@.insert(key).remove(key) == b@,
        b@.insert(key).insert(key) == b@.insert(key),
{
    assert(b@.insert(key).remove(key) =~= b@);
    assert(b@.insert(key).insert(key) =~= b@.insert(key));
}

/// Only keys of the binding can be down.
pub proof fn law_pressed_in_range<const SIZE: usize>(b: Bindings<SIZE>, key: int)
    requires
        b@.contains(key),
    ensures
        Bindings::<SIZE>::in_range(key),
{
}

/// Buttons of a keyboard, indexed by winit's `KeyCode` number.
pub type KeyboardBinding = Bindings<25>;

/// Buttons of a mouse, indexed as `mouse_button_index` assigns.
pub type MouseBinding = Bindings<1>;

/// winit `KeyCode::KeyA` as a key index.
pub const KEY_A: usize = 19;

/// winit `KeyCode::KeyD` as a key index.
pub const KEY_D: usize = 22;

/// winit `KeyCode::KeyS` as a key index.
pub const KEY_S: usize = 37;

/// winit `KeyCode::KeyW` as a key index.
pub const KEY_W: usize = 41;

/// winit `KeyCode::ControlLeft` as a key index.
pub const KEY_CONTROL_LEFT: usize = 55;

/// winit `KeyCode::ShiftLeft` as a key index.
pub const KEY_SHIFT_LEFT: usize = 60;

/// winit `KeyCode::Space` as a key index.
pub const KEY_SPACE: usize = 62;

/// winit `KeyCode::Escape` as a key index.
pub const KEY_ESCAPE: usize = 114;

/// winit `KeyCode::F11` as a key index.
pub const KEY_F11: usize = 169;

/// What the application does in answer to a key press.
#[derive(Clone, Copy, Debug, PartialEq, Eq, Structural)]
pub enum KeyAction {
    /// Leave the event loop.
    Exit,
    /// Switch the window between borderless fullscreen and windowed.
    ToggleFullscreen,
    /// Nothing beyond recording the key.
    Nothing,
}

/// The action bound to the key with index `code`.
pub open spec fn key_action_of(code: int) -> KeyAction {
    if code == KEY_ESCAPE {
        KeyAction::Exit
    } else if code == KEY_F11 {
        KeyAction::ToggleFullscreen
    } else {
        KeyAction::Nothing
    }
}

/// Only Escape exits and only F11 toggles fullscreen; every other key,
/// the movement keys among them, has no action beyond being recorded.
pub proof fn law_key_actions(code: int)
    ensures
        key_action_of(code) == KeyAction::Exit <==> code == KEY_ESCAPE,
        key_action_of(code) == KeyAction::ToggleFullscreen <==> code == KEY_F11,
        key_action_of(code) == KeyAction::Nothing <==> (code != KEY_ESCAPE && code != KEY_F11),
        key_action_of(KEY_W as int) == KeyAction::Nothing,
        key_action_of(KEY_A as int) == KeyAction::Nothing,
        key_action_of(KEY_S as int) == KeyAction::Nothing,
        key_action_of(KEY_D as int) == KeyAction::Nothing,
        key_action_of(KEY_SPACE as int) == KeyAction::Nothing,
        key_action_of(KEY_CONTROL_LEFT as int) == KeyAction::Nothing,
        key_action_of(KEY_SHIFT_LEFT as int) == KeyAction::Nothing,
{
}

/// Records a press of the key with index `code` and returns the action bound
/// to it.
pub fn key_pressed(keyboard: &mut KeyboardBinding, code: usize) -> (action: KeyAction)
    requires
        KeyboardBinding::in_range(code as int),
    ensures
        action == key_action_of(code as int),
        action == KeyAction::Exit <==> code == KEY_ESCAPE,
        action == KeyAction::ToggleFullscreen <==> code == KEY_F11,
        final(keyboard)@ == old(keyboard)@.insert(code as int),
{
    let action = if code == KEY_ESCAPE {
        KeyAction::Exit
    } else if code == KEY_F11 {
        KeyAction::ToggleFullscreen
    } else {
        KeyAction::Nothing
    };
    keyboard.set(code);
    action
}

/// Records a release of the key with index `code`.
pub fn key_released(keyboard: &mut KeyboardBinding, code: usize)
    requires
        KeyboardBinding::in_range(code as int),
    ensures
        final(keyboard)@ == old(keyboard)@.remove(code as int),
{
    keyboard.unset(code);
}

/// Releases every key and mouse button once the window loses focus.
pub fn focus_changed(focused: bool, keyboard: &mut KeyboardBinding, mouse: &mut MouseBinding)
    ensures
        focused ==> final(keyboard)@ == old(keyboard)@ && final(mouse)@ == old(mouse)@,
        !focused ==> final(keyboard)@ == Set::<int>::empty() && final(mouse)@ == Set::<int>::empty(),
{
    if !focused {
        keyboard.reset();
        mouse.reset();
    }
}

/// A mouse button as winit reports it.
#[derive(Clone, Copy, Debug, PartialEq, Eq, Structural)]
pub enum MouseButton {
    Left,
    Right,
    Middle,
    Back,
    Forward,
    Other(u16),
}

/// The button index of `button` in a `MouseBinding`.
pub open spec fn mouse_index_of(button: MouseButton) -> int {
    match button {
        MouseButton::Left => 0,
        MouseButton::Right => 1,
        MouseButton::Middle => 2,
        MouseButton::Back => 3,
        MouseButton::Forward => 4,
        MouseButton::Other(i) => 5 + i,
    }
}

/// The button index of `button`: the five named buttons take 0 to 4 and
/// `Other(i)` takes `5 + i`.
pub fn mouse_button_index(button: MouseButton) -> (res: usize)
    ensures
        res == mouse_index_of(button),
{
    match button {
        MouseButton::Left => 0,
        MouseButton::Right => 1,
        MouseButton::Middle => 2,
        MouseButton::Back => 3,
        MouseButton::Forward => 4,
        MouseButton::Other(i) => 5 + i as usize,
    }
}

/// What happens to the cursor when a mouse button changes state.
#[derive(Clone, Copy, Debug, PartialEq, Eq, Structural)]
pub enum CursorAction {
    /// Hide the cursor and confine it to the window.
    Grab,
    /// Show the cursor and let it leave the window.
    Release,
    /// Leave the cursor as it is.
    Keep,
}

/// Records a press of `button`; pressing the left button grabs the cursor.
pub fn mouse_pressed(mouse: &mut MouseBinding, button: MouseButton) -> (action: CursorAction)
    requires
        MouseBinding::in_range(mouse_index_of(button)),
    ensures
        action == (if button == MouseButton::Left { CursorAction::Grab } else { CursorAction::Keep }),
        final(mouse)@ == old(mouse)@.insert(mouse_index_of(button)),
{
    let action = match button {
        MouseButton::Left => CursorAction::Grab,
        _ => CursorAction::Keep,
    };
    let index = mouse_button_index(button);
    mouse.set(index);
    action
}

/// Records a release of `button`; releasing the left button frees the cursor.
pub fn mouse_released(mouse: &mut MouseBinding, button: MouseButton) -> (action: CursorAction)
    requires
        MouseBinding::in_range(mouse_index_of(button)),
    ensures
        action == (if button == MouseButton::Left { CursorAction::Release } else { CursorAction::Keep }),
        final(mouse)@ == old(mouse)@.remove(mouse_index_of(button)),
{
    let action = match button {
        MouseButton::Left => CursorAction::Release,
        _ => CursorAction::Keep,
    };
    let index = mouse_button_index(button);
    mouse.unset(index);
    action
}

/// Whether the camera should follow mouse motion: while the left button is
/// held.
pub fn drags_camera(mouse: &MouseBinding) -> (res: bool)
    ensures
        res == mouse@.contains(0),
{
    mouse.down(0)
}

/// The camera movement that the held keys ask for, each axis in -1..=1.
#[derive(Clone, Copy, Debug, PartialEq, Eq, Structural)]
pub struct MoveIntent {
    /// -1 for W, +1 for S (the camera looks down its negative axis).
    pub forward: i8,
    /// +1 for D, -1 for A.
    pub right: i8,
    /// +1 for Space, -1 for left Control.
    pub up: i8,
    /// Left Shift multiplies the speed by ten.
    pub boost: bool,
}

/// +1 for `plus` alone, -1 for `minus` alone, 0 for both or neither.
pub open spec fn axis(plus: bool, minus: bool) -> int {
    (if plus { 1int } else { 0int }) - (if minus { 1int } else { 0int })
}

/// Reads the movement keys of `input`.
pub fn move_intent(input: &KeyboardBinding) -> (res: MoveIntent)
    ensures
        res.forward == axis(input@.contains(KEY_S as int), input@.contains(KEY_W as int)),
        res.right == axis(input@.contains(KEY_D as int), input@.contains(KEY_A as int)),
        res.up == axis(input@.contains(KEY_SPACE as int), input@.contains(KEY_CONTROL_LEFT as int)),
        res.boost == input@.contains(KEY_SHIFT_LEFT as int),
{
    let mut forward: i8 = 0;
    let mut right: i8 = 0;
    let mut up: i8 = 0;
    if input.down(KEY_W) {
        forward = forward - 1;
    }
    if input.down(KEY_S) {
        forward = forward + 1;
    }
    if input.down(KEY_D) {
        right = right + 1;
    }
    if input.down(KEY_A) {
        right = right - 1;
    }
    if input.down(KEY_SPACE) {
        up = up + 1;
    }
    if input.down(KEY_CONTROL_LEFT) {
        up = up - 1;
    }
    let boost = input.down(KEY_SHIFT_LEFT);
    MoveIntent { forward, right, up, boost }
}

/// Each movement axis is +1 when only its positive key is held, -1 when only
/// its negative key is held, and 0 when both or neither are.
pub proof fn law_axis_signs(plus: bool, minus: bool)
    ensures
        axis(plus, minus) == 1 <==> plus && !minus,
        axis(plus, minus) == -1 <==> minus && !plus,
        axis(plus, minus) == 0 <==> plus == minus,
{
}

/// Different mouse buttons get different indices: the named buttons take
/// 0 to 4 in the order left, right, middle, back, forward, and every other
/// button comes after them.
pub proof fn law_mouse_indices_distinct(a: MouseButton, b: MouseButton)
    ensures
        a != b ==> mouse_index_of(a) != mouse_index_of(b),
        mouse_index_of(MouseButton::Left) == 0,
        mouse_index_of(MouseButton::Right) == 1,
        mouse_index_of(MouseButton::Middle) == 2,
        mouse_index_of(MouseButton::Back) == 3,
        mouse_index_of(MouseButton::Forward) == 4,
        a matches MouseButton::Other(i) ==> mouse_index_of(a) >= 5,
{
}

} // verus!
