//! The key table, which maps a chord in a mode to an editing action.

use crate::editor::Mode;
use crate::event::{Direction, EditorEvent, KeyCode, KeyEvent, KeyModifier};
use crate::text::chars_of;
use std::collections::HashMap;
use vstd::prelude::*;

verus! {

broadcast use {vstd::group_vstd_default, vstd::std_specs::hash::group_hash_axioms};

/// The bindings of one mode, each chord under its number.
type KeyMap = HashMap<u64, EditorEvent>;

/// The key table: the bindings of the three modes.
pub struct Mapper {
    nmaps: KeyMap,
    imaps: KeyMap,
    cmaps: KeyMap,
}

/// The number of a key code's kind.
pub open spec fn code_kind(code: KeyCode) -> int {
    match code {
        KeyCode::Backspace => 0,
        KeyCode::Enter => 1,
        KeyCode::Left => 2,
        KeyCode::Right => 3,
        KeyCode::Up => 4,
        KeyCode::Down => 5,
        KeyCode::Home => 6,
        KeyCode::End => 7,
        KeyCode::PageUp => 8,
        KeyCode::PageDown => 9,
        KeyCode::Tab => 10,
        KeyCode::BackTab => 11,
        KeyCode::Delete => 12,
        KeyCode::Insert => 13,
        KeyCode::F(_) => 14,
        KeyCode::Char(_) => 15,
        KeyCode::Null => 16,
        KeyCode::Esc => 17,
    }
}

/// The number that a key code carries: of a function key, of a character.
pub open spec fn code_arg(code: KeyCode) -> int {
    match code {
        KeyCode::F(n) => n as int,
        KeyCode::Char(c) => c as int,
        _ => 0,
    }
}

/// The number of a modifier.
pub open spec fn modifier_kind(modifier: KeyModifier) -> int {
    match modifier {
        KeyModifier::Shift => 0,
        KeyModifier::Alt => 1,
        KeyModifier::Control => 2,
        KeyModifier::NONE => 3,
    }
}

/// The number under which a chord is kept. Different chords have different
/// numbers.
pub open spec fn key_id(key: KeyEvent) -> int {
    (code_kind(key.code) * 4 + modifier_kind(key.modifier)) * 0x1_0000_0000 + code_arg(key.code)
}

/// Different chords have different numbers.
pub proof fn lemma_key_id_injective(a: KeyEvent, b: KeyEvent)
    requires
        key_id(a) == key_id(b),
    ensures
        a == b,
{
    assert(0 <= code_arg(a.code) < 0x1_0000_0000);
    assert(0 <= code_arg(b.code) < 0x1_0000_0000);
    assert(code_kind(a.code) * 4 + modifier_kind(a.modifier) == code_kind(b.code) * 4
        + modifier_kind(b.modifier));
    assert(code_kind(a.code) == code_kind(b.code));
    assert(code_arg(a.code) == code_arg(b.code));
    match a.code {
        KeyCode::Char(c) => {
            let d = b.code->Char_0;
            assert(c as int == d as int);
            assert(c == d);
        },
        _ => {},
    }
}

/// The number under which `key` is kept.
pub fn key_number(key: &KeyEvent) -> (n: u64)
    ensures
        n == key_id(*key),
{
    let kind: u64 = match key.code {
        KeyCode::Backspace => 0,
        KeyCode::Enter => 1,
        KeyCode::Left => 2,
        KeyCode::Right => 3,
        KeyCode::Up => 4,
        KeyCode::Down => 5,
        KeyCode::Home => 6,
        KeyCode::End => 7,
        KeyCode::PageUp => 8,
        KeyCode::PageDown => 9,
        KeyCode::Tab => 10,
        KeyCode::BackTab => 11,
        KeyCode::Delete => 12,
        KeyCode::Insert => 13,
        KeyCode::F(_) => 14,
        KeyCode::Char(_) => 15,
        KeyCode::Null => 16,
        KeyCode::Esc => 17,
    };
    let arg: u64 = match key.code {
        KeyCode::F(n) => n as u64,
        KeyCode::Char(c) => c as u64,
        _ => 0,
    };
    let modifier: u64 = match key.modifier {
        KeyModifier::Shift => 0,
        KeyModifier::Alt => 1,
        KeyModifier::Control => 2,
        KeyModifier::NONE => 3,
    };
    (kind * 4 + modifier) * 0x1_0000_0000 + arg
}

/// The chord of the key `code` held with `modifier`.
pub open spec fn chord(code: KeyCode, modifier: KeyModifier) -> KeyEvent {
    KeyEvent { code, modifier }
}

/// The chord of the character `c` with no modifier.
pub open spec fn plain(c: char) -> KeyEvent {
    KeyEvent { code: KeyCode::Char(c), modifier: KeyModifier::NONE }
}

/// The table `t` with the character `c`, held with `modifier`, bound in
/// `mode`: to inserting `c` in Insert mode, to appending `c` to the command
/// line in Command mode. Normal mode binds no character this way.
pub open spec fn char_bound(
    t: Map<(Mode, KeyEvent), EditorEvent>,
    mode: Mode,
    c: char,
    modifier: KeyModifier,
) -> Map<(Mode, KeyEvent), EditorEvent> {
    match mode {
        Mode::Insert => t.insert((mode, chord(KeyCode::Char(c), modifier)), EditorEvent::Insert(c)),
        Mode::Command => t.insert(
            (mode, chord(KeyCode::Char(c), modifier)),
            EditorEvent::CommandPush(c),
        ),
        Mode::Normal => t,
    }
}

/// The table `t` with each character of `keys` bound as `char_bound` says,
/// first to last.
pub open spec fn chars_bound(
    t: Map<(Mode, KeyEvent), EditorEvent>,
    mode: Mode,
    keys: Seq<char>,
    modifier: KeyModifier,
) -> Map<(Mode, KeyEvent), EditorEvent>
    decreases keys.len(),
{
    if keys.len() == 0 {
        t
    } else {
        char_bound(chars_bound(t, mode, keys.drop_last(), modifier), mode, keys.last(), modifier)
    }
}

/// The small letters.
pub const LETTERS: &'static str = "abcdefghijklmnopqrstuvwxyz";

/// The capital letters.
pub const CAPITALS: &'static str = "ABCDEFGHIJKLMNOPQRSTUVWXYZ";

/// The digits.
pub const DIGITS: &'static str = "0123456789";

/// The punctuation marks.
pub const MARKS: &'static str = "!@#$%^&*()_+-=[]{}\\|\"':;,.<>/?`~";

/// The table `t` with every printable character bound in `mode`: the small
/// letters, the capital letters held with shift, the digits and the
/// punctuation marks.
pub open spec fn printable_bound(t: Map<(Mode, KeyEvent), EditorEvent>, mode: Mode) -> Map<
    (Mode, KeyEvent),
    EditorEvent,
> {
    chars_bound(
        chars_bound(
            chars_bound(
                chars_bound(t, mode, LETTERS@, KeyModifier::NONE),
                mode,
                CAPITALS@,
                KeyModifier::Shift,
            ),
            mode,
            DIGITS@,
            KeyModifier::NONE,
        ),
        mode,
        MARKS@,
        KeyModifier::NONE,
    )
}

/// The table `t` with the bindings of Normal mode: Esc stops the editor,
/// `h` `j` `k` `l` move the cursor, `:` enters Command mode.
pub open spec fn normal_built(t: Map<(Mode, KeyEvent), EditorEvent>) -> Map<
    (Mode, KeyEvent),
    EditorEvent,
> {
    t.insert((Mode::Normal, chord(KeyCode::Esc, KeyModifier::NONE)), EditorEvent::Quit).insert(
        (Mode::Normal, plain('j')),
        EditorEvent::Cursor(Direction::Down(1)),
    ).insert((Mode::Normal, plain('k')), EditorEvent::Cursor(Direction::Up(1))).insert(
        (Mode::Normal, plain('h')),
        EditorEvent::Cursor(Direction::Left(1)),
    ).insert((Mode::Normal, plain('l')), EditorEvent::Cursor(Direction::Right(1))).insert(
        (Mode::Normal, plain(':')),
        EditorEvent::ModeCommand,
    ).insert(
        (Mode::Normal, chord(KeyCode::Char(':'), KeyModifier::Shift)),
        EditorEvent::ModeCommand,
    )
}

/// The table `t` with the bindings around Insert mode: `i` enters it from
/// Normal mode, Esc leaves it, Tab indents, Enter breaks the line, Backspace
/// deletes to the left, and the space and every printable character insert
/// themselves.
pub open spec fn insert_built(t: Map<(Mode, KeyEvent), EditorEvent>) -> Map<
    (Mode, KeyEvent),
    EditorEvent,
> {
    printable_bound(
        t.insert((Mode::Normal, plain('i')), EditorEvent::ModeInsert).insert(
            (Mode::Insert, chord(KeyCode::Tab, KeyModifier::NONE)),
            EditorEvent::Indent,
        ).insert(
            (Mode::Insert, chord(KeyCode::Esc, KeyModifier::NONE)),
            EditorEvent::ModeNormal,
        ).insert(
            (Mode::Insert, chord(KeyCode::Enter, KeyModifier::NONE)),
            EditorEvent::NewLine,
        ).insert((Mode::Insert, plain(' ')), EditorEvent::Insert(' ')).insert(
            (Mode::Insert, chord(KeyCode::Backspace, KeyModifier::NONE)),
            EditorEvent::Backspace,
        ),
        Mode::Insert,
    )
}

/// The table `t` with the bindings of Command mode: Esc leaves it,
/// Backspace drops the last character of the command line, every printable
/// character is appended to it, and Enter runs it.
pub open spec fn command_built(t: Map<(Mode, KeyEvent), EditorEvent>) -> Map<
    (Mode, KeyEvent),
    EditorEvent,
> {
    printable_bound(
        t.insert(
            (Mode::Command, chord(KeyCode::Esc, KeyModifier::NONE)),
            EditorEvent::ModeNormal,
        ).insert(
            (Mode::Command, chord(KeyCode::Backspace, KeyModifier::NONE)),
            EditorEvent::CommandPop,
        ),
        Mode::Command,
    ).insert((Mode::Command, chord(KeyCode::Enter, KeyModifier::NONE)), EditorEvent::CommandRun)
}

/// The editor's key table.
pub open spec fn key_table() -> Map<(Mode, KeyEvent), EditorEvent> {
    command_built(insert_built(normal_built(Map::empty())))
}

/// The bindings kept in `map`, by chord.
pub closed spec fn bindings_of(map: KeyMap) -> Map<KeyEvent, EditorEvent> {
    Map::new(|k: KeyEvent| map@.contains_key(key_id(k) as u64), |k: KeyEvent| map@[key_id(k) as u64])
}

impl View for Mapper {
    type V = Map<(Mode, KeyEvent), EditorEvent>;

    closed spec fn view(&self) -> Map<(Mode, KeyEvent), EditorEvent> {
        Map::new(
            |p: (Mode, KeyEvent)| bindings_of(self.spec_get_map(p.0)).contains_key(p.1),
            |p: (Mode, KeyEvent)| bindings_of(self.spec_get_map(p.0))[p.1],
        )
    }
}

impl Mapper {
    /// A table without bindings.
    pub fn new() -> (m: Self)
        ensures
            m@ == Map::<(Mode, KeyEvent), EditorEvent>::empty(),
    {
        let m = Self { nmaps: HashMap::new(), imaps: HashMap::new(), cmaps: HashMap::new() };
        assert(m@ =~= Map::<(Mode, KeyEvent), EditorEvent>::empty());
        m
    }

    /// The bindings of `mode`.
    closed spec fn spec_get_map(&self, mode: Mode) -> KeyMap {
        match mode {
            Mode::Normal => self.nmaps,
            Mode::Insert => self.imaps,
            Mode::Command => self.cmaps,
        }
    }

    /// The bindings of `mode`, to read.
    fn get_map(&self, mode: &Mode) -> (map: &KeyMap)
        ensures
            *map == self.spec_get_map(*mode),
    {
        match mode {
            Mode::Normal => &self.nmaps,
            Mode::Insert => &self.imaps,
            Mode::Command => &self.cmaps,
        }
    }

    /// The bindings of `mode`, to change: what is changed through the
    /// reference is changed in the table, and the other modes stay.
    fn get_map_mut(&mut self, mode: &Mode) -> (map: &mut KeyMap)
        ensures
            *map == old(self).spec_get_map(*mode),
            *final(self) == match *mode {
                Mode::Normal => (Mapper { nmaps: *final(map), ..*old(self) }),
                Mode::Insert => (Mapper { imaps: *final(map), ..*old(self) }),
                Mode::Command => (Mapper { cmaps: *final(map), ..*old(self) }),
            },
    {
        match mode {
            Mode::Normal => &mut self.nmaps,
            Mode::Insert => &mut self.imaps,
            Mode::Command => &mut self.cmaps,
        }
    }

    /// The action that `event` is bound to in `mode`, if it is bound.
    pub fn get_mapping(&self, mode: &Mode, event: &KeyEvent) -> (action: Option<&EditorEvent>)
        ensures
            action == if self@.contains_key((*mode, *event)) {
                Some(&self@[(*mode, *event)])
            } else {
                None
            },
    {
        let n = key_number(event);
        self.get_map(mode).get(&n)
    }

    /// Binds `key` in `mode` to `event`. A binding that `key` had in `mode`
    /// is replaced.
    pub fn insert_mapping(self, mode: &Mode, key: KeyEvent, event: EditorEvent) -> (m: Self)
        ensures
            m@ == self@.insert((*mode, key), event),
    {
        let n = key_number(&key);
        let ghost before = self;
        let mut m = self;
        m.get_map_mut(mode).insert(n, event);
        proof {
            assert forall|p: (Mode, KeyEvent)| p != (*mode, key) implies key_id(p.1) as u64 != n
                || p.0 != *mode by {
                if p.0 == *mode && key_id(p.1) as u64 == n {
                    lemma_key_id_injective(p.1, key);
                }
            }
            assert(m@ =~= before@.insert((*mode, key), event));
        }
        m
    }

    /// Binds each character of `keys`, held with `modifier`, in `mode`: in
    /// Insert mode to inserting it, in Command mode to appending it to the
    /// command line. In Normal mode nothing is bound.
    pub fn insert_mapping_chain(self, mode: &Mode, keys: &str, modifier: KeyModifier) -> (m: Self)
        ensures
            m@ == chars_bound(self@, *mode, keys@, modifier),
    {
        let chars = chars_of(keys);
        let mut m = self;
        let mut i: usize = 0;
        assert(chars@.take(0) == Seq::<char>::empty());
        while i < chars.len()
            invariant
                i <= chars.len(),
                m@ == chars_bound(self@, *mode, chars@.take(i as int), modifier),
            decreases chars.len() - i,
        {
            let c = chars[i];
            assert(chars@.take(i + 1).drop_last() == chars@.take(i as int));
            assert(chars@.take(i + 1).last() == c);
            match mode {
                Mode::Command => {
                    m = m.insert_mapping(
                        mode,
                        KeyEvent::new(KeyCode::Char(c), modifier),
                        EditorEvent::CommandPush(c),
                    );
                },
                Mode::Insert => {
                    m = m.insert_mapping(
                        mode,
                        KeyEvent::new(KeyCode::Char(c), modifier),
                        EditorEvent::Insert(c),
                    );
                },
                _ => {},
            }
            i += 1;
        }
        assert(chars@.take(i as int) == chars@);
        m
    }

    /// Binds every printable character in `mode`: the small letters, the
    /// capital letters held with shift, the digits and the punctuation marks.
    pub fn key_adder(self, mode: &Mode) -> (m: Self)
        ensures
            m@ == printable_bound(self@, *mode),
    {
        self.insert_mapping_chain(
            mode,
            LETTERS,
            KeyModifier::NONE,
        ).insert_mapping_chain(
            mode,
            CAPITALS,
            KeyModifier::Shift,
        ).insert_mapping_chain(mode, DIGITS, KeyModifier::NONE).insert_mapping_chain(
            mode,
            MARKS,
            KeyModifier::NONE,
        )
    }

    /// Adds the bindings of Normal mode.
    pub fn build_normal(self) -> (m: Self)
        ensures
            m@ == normal_built(self@),
    {
        self.insert_mapping(
            &Mode::Normal,
            KeyEvent::new(KeyCode::Esc, KeyModifier::NONE),
            EditorEvent::Quit,
        ).insert_mapping(
            &Mode::Normal,
            KeyEvent::new(KeyCode::Char('j'), KeyModifier::NONE),
            EditorEvent::Cursor(Direction::Down(1)),
        ).insert_mapping(
            &Mode::Normal,
            KeyEvent::new(KeyCode::Char('k'), KeyModifier::NONE),
            EditorEvent::Cursor(Direction::Up(1)),
        ).insert_mapping(
            &Mode::Normal,
            KeyEvent::new(KeyCode::Char('h'), KeyModifier::NONE),
            EditorEvent::Cursor(Direction::Left(1)),
        ).insert_mapping(
            &Mode::Normal,
            KeyEvent::new(KeyCode::Char('l'), KeyModifier::NONE),
            EditorEvent::Cursor(Direction::Right(1)),
        ).insert_mapping(
            &Mode::Normal,
            KeyEvent::new(KeyCode::Char(':'), KeyModifier::NONE),
            EditorEvent::ModeCommand,
        ).insert_mapping(
            &Mode::Normal,
            KeyEvent::new(KeyCode::Char(':'), KeyModifier::Shift),
            EditorEvent::ModeCommand,
        )
    }

    /// Adds the bindings around Insert mode.
    pub fn build_insert(self) -> (m: Self)
        ensures
            m@ == insert_built(self@),
    {
        self.insert_mapping(
            &Mode::Normal,
            KeyEvent::new(KeyCode::Char('i'), KeyModifier::NONE),
            EditorEvent::ModeInsert,
        ).insert_mapping(
            &Mode::Insert,
            KeyEvent::new(KeyCode::Tab, KeyModifier::NONE),
            EditorEvent::Indent,
        ).insert_mapping(
            &Mode::Insert,
            KeyEvent::new(KeyCode::Esc, KeyModifier::NONE),
            EditorEvent::ModeNormal,
        ).insert_mapping(
            &Mode::Insert,
            KeyEvent::new(KeyCode::Enter, KeyModifier::NONE),
            EditorEvent::NewLine,
        ).insert_mapping(
            &Mode::Insert,
            KeyEvent::new(KeyCode::Char(' '), KeyModifier::NONE),
            EditorEvent::Insert(' '),
        ).insert_mapping(
            &Mode::Insert,
            KeyEvent::new(KeyCode::Backspace, KeyModifier::NONE),
            EditorEvent::Backspace,
        ).key_adder(&Mode::Insert)
    }

    /// Adds the bindings of Command mode.
    pub fn build_command(self) -> (m: Self)
        ensures
            m@ == command_built(self@),
    {
        self.insert_mapping(
            &Mode::Command,
            KeyEvent::new(KeyCode::Esc, KeyModifier::NONE),
            EditorEvent::ModeNormal,
        ).insert_mapping(
            &Mode::Command,
            KeyEvent::new(KeyCode::Backspace, KeyModifier::NONE),
            EditorEvent::CommandPop,
        ).key_adder(&Mode::Command).insert_mapping(
            &Mode::Command,
            KeyEvent::new(KeyCode::Enter, KeyModifier::NONE),
            EditorEvent::CommandRun,
        )
    }
}

/// The editor's key table.
pub fn key_builder() -> (m: Mapper)
    ensures
        m@ == key_table(),
{
    Mapper::new().build_normal().build_insert().build_command()
}

/// Binding a character in a mode changes no binding of another mode and no
/// binding of a key that is not a character.
pub proof fn lemma_char_bound_elsewhere(
    t: Map<(Mode, KeyEvent), EditorEvent>,
    mode: Mode,
    c: char,
    modifier: KeyModifier,
    p: (Mode, KeyEvent),
)
    requires
        p.0 != mode || !(p.1.code is Char),
    ensures
        char_bound(t, mode, c, modifier).contains_key(p) == t.contains_key(p),
        t.contains_key(p) ==> char_bound(t, mode, c, modifier)[p] == t[p],
{
}

/// Binding characters in a mode changes no binding of another mode and no
/// binding of a key that is not a character.
pub proof fn lemma_chars_bound_elsewhere(
    t: Map<(Mode, KeyEvent), EditorEvent>,
    mode: Mode,
    keys: Seq<char>,
    modifier: KeyModifier,
    p: (Mode, KeyEvent),
)
    requires
        p.0 != mode || !(p.1.code is Char),
    ensures
        chars_bound(t, mode, keys, modifier).contains_key(p) == t.contains_key(p),
        t.contains_key(p) ==> chars_bound(t, mode, keys, modifier)[p] == t[p],
    decreases keys.len(),
{
    if keys.len() > 0 {
        lemma_chars_bound_elsewhere(t, mode, keys.drop_last(), modifier, p);
        lemma_chars_bound_step(t, mode, keys, modifier);
        lemma_char_bound_elsewhere(
            chars_bound(t, mode, keys.drop_last(), modifier),
            mode,
            keys.last(),
            modifier,
            p,
        );
    }
}

/// Binding the characters of `keys` is binding all but the last, and then
/// the last.
pub proof fn lemma_chars_bound_step(
    t: Map<(Mode, KeyEvent), EditorEvent>,
    mode: Mode,
    keys: Seq<char>,
    modifier: KeyModifier,
)
    requires
        keys.len() > 0,
    ensures
        chars_bound(t, mode, keys, modifier) == char_bound(
            chars_bound(t, mode, keys.drop_last(), modifier),
            mode,
            keys.last(),
            modifier,
        ),
{
}

/// Binding the printable characters in a mode changes no binding of another
/// mode and no binding of a key that is not a character.
pub proof fn lemma_printable_bound_elsewhere(
    t: Map<(Mode, KeyEvent), EditorEvent>,
    mode: Mode,
    p: (Mode, KeyEvent),
)
    requires
        p.0 != mode || !(p.1.code is Char),
    ensures
        printable_bound(t, mode).contains_key(p) == t.contains_key(p),
        t.contains_key(p) ==> printable_bound(t, mode)[p] == t[p],
{
    let a = chars_bound(t, mode, LETTERS@, KeyModifier::NONE);
    let b = chars_bound(a, mode, CAPITALS@, KeyModifier::Shift);
    let c = chars_bound(b, mode, DIGITS@, KeyModifier::NONE);
    lemma_chars_bound_elsewhere(t, mode, LETTERS@, KeyModifier::NONE, p);
    lemma_chars_bound_elsewhere(a, mode, CAPITALS@, KeyModifier::Shift, p);
    lemma_chars_bound_elsewhere(b, mode, DIGITS@, KeyModifier::NONE, p);
    lemma_chars_bound_elsewhere(
        c,
        mode,
        MARKS@,
        KeyModifier::NONE,
        p,
    );
}

/// The keys that change the mode or stop the editor, as the key table binds
/// them: in Normal mode `i` enters Insert mode, `:` enters Command mode and
/// Esc stops the editor; Esc leaves Insert mode and Command mode for Normal
/// mode; Enter runs the command line.
pub proof fn lemma_key_table_mode_keys()
    ensures
        key_table()[(Mode::Normal, plain('i'))] == EditorEvent::ModeInsert,
        key_table()[(Mode::Normal, plain(':'))] == EditorEvent::ModeCommand,
        key_table()[(Mode::Normal, chord(KeyCode::Esc, KeyModifier::NONE))] == EditorEvent::Quit,
        key_table()[(Mode::Insert, chord(KeyCode::Esc, KeyModifier::NONE))]
            == EditorEvent::ModeNormal,
        key_table()[(Mode::Command, chord(KeyCode::Esc, KeyModifier::NONE))]
            == EditorEvent::ModeNormal,
        key_table()[(Mode::Command, chord(KeyCode::Enter, KeyModifier::NONE))]
            == EditorEvent::CommandRun,
        key_table().contains_key((Mode::Normal, plain('i'))),
        key_table().contains_key((Mode::Normal, plain(':'))),
        key_table().contains_key((Mode::Normal, chord(KeyCode::Esc, KeyModifier::NONE))),
        key_table().contains_key((Mode::Insert, chord(KeyCode::Esc, KeyModifier::NONE))),
        key_table().contains_key((Mode::Command, chord(KeyCode::Esc, KeyModifier::NONE))),
        key_table().contains_key((Mode::Command, chord(KeyCode::Enter, KeyModifier::NONE))),
{
    let esc = chord(KeyCode::Esc, KeyModifier::NONE);
    let normal = normal_built(Map::empty());
    let before_insert = normal.insert((Mode::Normal, plain('i')), EditorEvent::ModeInsert).insert(
        (Mode::Insert, chord(KeyCode::Tab, KeyModifier::NONE)),
        EditorEvent::Indent,
    ).insert((Mode::Insert, esc), EditorEvent::ModeNormal).insert(
        (Mode::Insert, chord(KeyCode::Enter, KeyModifier::NONE)),
        EditorEvent::NewLine,
    ).insert((Mode::Insert, plain(' ')), EditorEvent::Insert(' ')).insert(
        (Mode::Insert, chord(KeyCode::Backspace, KeyModifier::NONE)),
        EditorEvent::Backspace,
    );
    let insert = insert_built(normal);
    let before_command = insert.insert((Mode::Command, esc), EditorEvent::ModeNormal).insert(
        (Mode::Command, chord(KeyCode::Backspace, KeyModifier::NONE)),
        EditorEvent::CommandPop,
    );
    lemma_printable_bound_elsewhere(before_insert, Mode::Insert, (Mode::Normal, plain('i')));
    lemma_printable_bound_elsewhere(before_insert, Mode::Insert, (Mode::Normal, plain(':')));
    lemma_printable_bound_elsewhere(before_insert, Mode::Insert, (Mode::Normal, esc));
    lemma_printable_bound_elsewhere(before_insert, Mode::Insert, (Mode::Insert, esc));
    lemma_printable_bound_elsewhere(before_command, Mode::Command, (Mode::Normal, plain('i')));
    lemma_printable_bound_elsewhere(before_command, Mode::Command, (Mode::Normal, plain(':')));
    lemma_printable_bound_elsewhere(before_command, Mode::Command, (Mode::Normal, esc));
    lemma_printable_bound_elsewhere(before_command, Mode::Command, (Mode::Insert, esc));
    lemma_printable_bound_elsewhere(before_command, Mode::Command, (Mode::Command, esc));
}

/// The action that a character is bound to in Insert mode and in Command
/// mode.
pub open spec fn char_action(mode: Mode, c: char) -> EditorEvent {
    if mode == Mode::Insert {
        EditorEvent::Insert(c)
    } else {
        EditorEvent::CommandPush(c)
    }
}

/// Whether the character `c`, held with `modifier`, is one of the printable
/// characters that `key_adder` binds.
pub open spec fn printable(c: char, modifier: KeyModifier) -> bool {
    ||| modifier == KeyModifier::NONE && LETTERS@.contains(c)
    ||| modifier == KeyModifier::Shift && CAPITALS@.contains(c)
    ||| modifier == KeyModifier::NONE && DIGITS@.contains(c)
    ||| modifier == KeyModifier::NONE && MARKS@.contains(c)
}

/// Binding one character binds it to its action and leaves the action of
/// every other character as it is.
pub proof fn lemma_char_bound_binds(
    t: Map<(Mode, KeyEvent), EditorEvent>,
    mode: Mode,
    bound: char,
    with: KeyModifier,
    c: char,
    modifier: KeyModifier,
)
    requires
        mode != Mode::Normal,
        (bound == c && with == modifier) || (t.contains_key((mode, chord(KeyCode::Char(c), modifier)))
            && t[(mode, chord(KeyCode::Char(c), modifier))] == char_action(mode, c)),
    ensures
        char_bound(t, mode, bound, with).contains_key((mode, chord(KeyCode::Char(c), modifier))),
        char_bound(t, mode, bound, with)[(mode, chord(KeyCode::Char(c), modifier))] == char_action(
            mode,
            c,
        ),
{
}

/// Binding the characters of `keys` binds each of them to its action, and
/// keeps a character that was bound to its action bound to it.
pub proof fn lemma_chars_bound_binds(
    t: Map<(Mode, KeyEvent), EditorEvent>,
    mode: Mode,
    keys: Seq<char>,
    with: KeyModifier,
    c: char,
    modifier: KeyModifier,
)
    requires
        mode != Mode::Normal,
        (keys.contains(c) && with == modifier) || (t.contains_key(
            (mode, chord(KeyCode::Char(c), modifier)),
        ) && t[(mode, chord(KeyCode::Char(c), modifier))] == char_action(mode, c)),
    ensures
        chars_bound(t, mode, keys, with).contains_key((mode, chord(KeyCode::Char(c), modifier))),
        chars_bound(t, mode, keys, with)[(mode, chord(KeyCode::Char(c), modifier))] == char_action(
            mode,
            c,
        ),
    decreases keys.len(),
{
    if keys.len() > 0 {
        let inner = chars_bound(t, mode, keys.drop_last(), with);
        lemma_chars_bound_step(t, mode, keys, with);
        if keys.last() == c && with == modifier {
        } else {
            if keys.contains(c) && with == modifier {
                let i = choose|i: int| 0 <= i < keys.len() && keys[i] == c;
                assert(keys.drop_last()[i] == c);
            }
            lemma_chars_bound_binds(t, mode, keys.drop_last(), with, c, modifier);
        }
        lemma_char_bound_binds(inner, mode, keys.last(), with, c, modifier);
    }
}

/// `key_adder` binds every printable character to its action.
pub proof fn lemma_printable_bound_binds(
    t: Map<(Mode, KeyEvent), EditorEvent>,
    mode: Mode,
    c: char,
    modifier: KeyModifier,
)
    requires
        mode != Mode::Normal,
        printable(c, modifier),
    ensures
        printable_bound(t, mode).contains_key((mode, chord(KeyCode::Char(c), modifier))),
        printable_bound(t, mode)[(mode, chord(KeyCode::Char(c), modifier))] == char_action(mode, c),
{
    let a = chars_bound(t, mode, LETTERS@, KeyModifier::NONE);
    let b = chars_bound(a, mode, CAPITALS@, KeyModifier::Shift);
    let d = chars_bound(b, mode, DIGITS@, KeyModifier::NONE);
    if modifier == KeyModifier::NONE && LETTERS@.contains(c) {
        lemma_chars_bound_binds(t, mode, LETTERS@, KeyModifier::NONE, c, modifier);
        lemma_chars_bound_binds(a, mode, CAPITALS@, KeyModifier::Shift, c, modifier);
        lemma_chars_bound_binds(b, mode, DIGITS@, KeyModifier::NONE, c, modifier);
    } else if modifier == KeyModifier::Shift && CAPITALS@.contains(c) {
        lemma_chars_bound_binds(a, mode, CAPITALS@, KeyModifier::Shift, c, modifier);
        lemma_chars_bound_binds(b, mode, DIGITS@, KeyModifier::NONE, c, modifier);
    } else if modifier == KeyModifier::NONE && DIGITS@.contains(c) {
        lemma_chars_bound_binds(b, mode, DIGITS@, KeyModifier::NONE, c, modifier);
    }
    lemma_chars_bound_binds(d, mode, MARKS@, KeyModifier::NONE, c, modifier);
}

/// No dead keys among the printable characters: the key table binds each of
/// them in Insert mode to inserting it, and in Command mode to appending it
/// to the command line.
pub proof fn lemma_key_table_printable(c: char, modifier: KeyModifier)
    requires
        printable(c, modifier),
    ensures
        key_table().contains_key((Mode::Insert, chord(KeyCode::Char(c), modifier))),
        key_table()[(Mode::Insert, chord(KeyCode::Char(c), modifier))] == EditorEvent::Insert(c),
        key_table().contains_key((Mode::Command, chord(KeyCode::Char(c), modifier))),
        key_table()[(Mode::Command, chord(KeyCode::Char(c), modifier))] == EditorEvent::CommandPush(
            c,
        ),
{
    let esc = chord(KeyCode::Esc, KeyModifier::NONE);
    let normal = normal_built(Map::empty());
    let before_insert = normal.insert((Mode::Normal, plain('i')), EditorEvent::ModeInsert).insert(
        (Mode::Insert, chord(KeyCode::Tab, KeyModifier::NONE)),
        EditorEvent::Indent,
    ).insert((Mode::Insert, esc), EditorEvent::ModeNormal).insert(
        (Mode::Insert, chord(KeyCode::Enter, KeyModifier::NONE)),
        EditorEvent::NewLine,
    ).insert((Mode::Insert, plain(' ')), EditorEvent::Insert(' ')).insert(
        (Mode::Insert, chord(KeyCode::Backspace, KeyModifier::NONE)),
        EditorEvent::Backspace,
    );
    let insert = insert_built(normal);
    let before_command = insert.insert((Mode::Command, esc), EditorEvent::ModeNormal).insert(
        (Mode::Command, chord(KeyCode::Backspace, KeyModifier::NONE)),
        EditorEvent::CommandPop,
    );
    lemma_printable_bound_binds(before_insert, Mode::Insert, c, modifier);
    lemma_printable_bound_elsewhere(
        before_command,
        Mode::Command,
        (Mode::Insert, chord(KeyCode::Char(c), modifier)),
    );
    lemma_printable_bound_binds(before_command, Mode::Command, c, modifier);
}

/// Whether `c` is a printable character of the basic Latin alphabet other
/// than the space: a letter, a digit or a punctuation mark.
pub open spec fn is_graphic(c: char) -> bool {
    '!' <= c <= '~'
}

/// The modifier with which a printable character is typed: shift for a
/// capital letter, none for any other.
pub open spec fn modifier_of(c: char) -> KeyModifier {
    if 'A' <= c <= 'Z' {
        KeyModifier::Shift
    } else {
        KeyModifier::NONE
    }
}

/// The four sets of characters that `key_adder` binds leave out no letter,
/// no digit and no punctuation mark.
pub proof fn lemma_graphic_is_printable(c: char)
    requires
        is_graphic(c),
    ensures
        printable(c, modifier_of(c)),
{
    reveal_strlit("abcdefghijklmnopqrstuvwxyz");
    reveal_strlit("ABCDEFGHIJKLMNOPQRSTUVWXYZ");
    reveal_strlit("0123456789");
    reveal_strlit("!@#$%^&*()_+-=[]{}\\|\"':;,.<>/?`~");
    if 'a' <= c <= 'z' {
        assert(LETTERS@[c as int - 'a' as int] == c);
    } else if 'A' <= c <= 'Z' {
        assert(CAPITALS@[c as int - 'A' as int] == c);
    } else if '0' <= c <= '9' {
        assert(DIGITS@[c as int - '0' as int] == c);
    } else {
        let i: int = if c == '!' {
            0
        } else if c == '@' {
            1
        } else if c == '#' {
            2
        } else if c == '$' {
            3
        } else if c == '%' {
            4
        } else if c == '^' {
            5
        } else if c == '&' {
            6
        } else if c == '*' {
            7
        } else if c == '(' {
            8
        } else if c == ')' {
            9
        } else if c == '_' {
            10
        } else if c == '+' {
            11
        } else if c == '-' {
            12
        } else if c == '=' {
            13
        } else if c == '[' {
            14
        } else if c == ']' {
            15
        } else if c == '{' {
            16
        } else if c == '}' {
            17
        } else if c == '\\' {
            18
        } else if c == '|' {
            19
        } else if c == '"' {
            20
        } else if c == '\'' {
            21
        } else if c == ':' {
            22
        } else if c == ';' {
            23
        } else if c == ',' {
            24
        } else if c == '.' {
            25
        } else if c == '<' {
            26
        } else if c == '>' {
            27
        } else if c == '/' {
            28
        } else if c == '?' {
            29
        } else if c == '`' {
            30
        } else {
            31
        };
        assert(MARKS@[i] == c);
    }
}

/// Every letter, digit and punctuation mark has a key: typed with its
/// modifier it inserts itself in Insert mode and is appended to the command
/// line in Command mode.
pub proof fn lemma_key_table_graphic(c: char)
    requires
        is_graphic(c),
    ensures
        key_table().contains_key((Mode::Insert, chord(KeyCode::Char(c), modifier_of(c)))),
        key_table()[(Mode::Insert, chord(KeyCode::Char(c), modifier_of(c)))] == EditorEvent::Insert(
            c,
        ),
        key_table().contains_key((Mode::Command, chord(KeyCode::Char(c), modifier_of(c)))),
        key_table()[(Mode::Command, chord(KeyCode::Char(c), modifier_of(c)))]
            == EditorEvent::CommandPush(c),
{
    lemma_graphic_is_printable(c);
    lemma_key_table_printable(c, modifier_of(c));
}

} // verus!
