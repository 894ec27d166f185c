//! What the keys do on each screen: the focus moves between panels, the console scrolls,
//! fields are edited, and some keys ask the program to act.
use vstd::prelude::*;
use crate::profiles::Profile;
use crate::text::{pop_char, push_char};

verus! {

/// A key press, as the screens tell keys apart.
#[derive(PartialEq, Eq, Structural, Debug, Clone, Copy)]
pub enum Key {
    Char(char),
    Tab,
    Left,
    Right,
    Up,
    Down,
    Enter,
    Backspace,
    F(u8),
    Other,
}

/// What the main screen asks the program to do after a key.
#[derive(PartialEq, Eq, Structural, Debug, Clone, Copy)]
pub enum MainAction {
    /// End the program.
    Quit,
    /// Empty the console.
    ClearHistory,
    /// Switch to the profile editor.
    OpenProfileEditor,
    /// Select the next version of the list.
    ListNext,
    /// Select the previous version of the list.
    ListPrevious,
    /// Install and start the selected version.
    Launch,
    /// Store the user name in the settings.
    SaveUserName,
    /// Switch to the settings screen.
    OpenSettings,
}

/// The panels of the main screen, in the order keys are handed to them.
#[derive(PartialEq, Eq, Structural, Debug, Clone, Copy)]
pub enum Panel {
    Console,
    User,
    Profiles,
    UserNameConf,
}

/// The state of the main screen: which panels have the focus, whether the console follows
/// its last lines, how far it is scrolled, and the user name being edited.
pub struct MainState {
    pub console: bool,
    pub user: bool,
    pub profiles: bool,
    pub user_name_conf: bool,
    pub anchor: bool,
    pub scroll_x: u16,
    pub scroll_y: u16,
    pub user_name: String,
}

/// The main screen's state with the user name taken by its characters.
#[verifier::ext_equal]
pub struct MainView {
    pub console: bool,
    pub user: bool,
    pub profiles: bool,
    pub user_name_conf: bool,
    pub anchor: bool,
    pub scroll_x: u16,
    pub scroll_y: u16,
    pub user_name: Seq<char>,
}

impl View for MainState {
    type V = MainView;

    open spec fn view(&self) -> MainView {
        MainView {
            console: self.console,
            user: self.user,
            profiles: self.profiles,
            user_name_conf: self.user_name_conf,
            anchor: self.anchor,
            scroll_x: self.scroll_x,
            scroll_y: self.scroll_y,
            user_name: self.user_name@,
        }
    }
}

/// Whether `p` has the focus in `v`.
pub open spec fn has_focus(v: MainView, p: Panel) -> bool {
    match p {
        Panel::Console => v.console,
        Panel::User => v.user,
        Panel::Profiles => v.profiles,
        Panel::UserNameConf => v.user_name_conf,
    }
}

/// Exactly one panel has the focus.
pub open spec fn one_focus(v: MainView) -> bool {
    (if v.console { 1int } else { 0 }) + (if v.user { 1int } else { 0 }) + (if v.profiles { 1int } else { 0 })
        + (if v.user_name_conf { 1int } else { 0 }) == 1
}

/// The console's key handler: Tab moves the focus to the profiles, the arrows scroll
/// (up and down also stop following the last lines), `a` follows them again, `c` empties
/// the console and `q` ends the program.
pub open spec fn console_on_key(v: MainView, key: Key) -> (MainView, Seq<MainAction>) {
    match key {
        Key::Tab => (MainView { profiles: true, console: false, ..v }, seq![]),
        Key::Left => (
            MainView { scroll_x: if v.scroll_x != 0 { (v.scroll_x - 1) as u16 } else { v.scroll_x }, ..v },
            seq![],
        ),
        Key::Right => (MainView { scroll_x: (v.scroll_x + 1) as u16, ..v }, seq![]),
        Key::Down => (MainView { anchor: false, scroll_y: (v.scroll_y + 1) as u16, ..v }, seq![]),
        Key::Char('a') => (MainView { anchor: true, ..v }, seq![]),
        Key::Up => (
            MainView {
                anchor: false,
                scroll_y: if v.scroll_y != 0 { (v.scroll_y - 1) as u16 } else { v.scroll_y },
                ..v
            },
            seq![],
        ),
        Key::Char('c') => (v, seq![MainAction::ClearHistory]),
        Key::Char('q') => (v, seq![MainAction::Quit]),
        _ => (v, seq![]),
    }
}

/// The user panel's key handler: `q` ends the program, right moves the focus to the
/// console, left to the profiles, down to the user name.
pub open spec fn user_on_key(v: MainView, key: Key) -> (MainView, Seq<MainAction>) {
    match key {
        Key::Char('q') => (v, seq![MainAction::Quit]),
        Key::Right => (MainView { console: true, user: false, ..v }, seq![]),
        Key::Left => (MainView { profiles: true, user: false, ..v }, seq![]),
        Key::Down => (MainView { user_name_conf: true, user: false, ..v }, seq![]),
        _ => (v, seq![]),
    }
}

/// The profiles panel's key handler: `q` ends the program, `c` opens the profile editor,
/// up and down move in the list, enter starts the selected version, right moves the focus
/// to the user panel.
pub open spec fn profiles_on_key(v: MainView, key: Key) -> (MainView, Seq<MainAction>) {
    match key {
        Key::Char('q') => (v, seq![MainAction::Quit]),
        Key::Char('c') => (v, seq![MainAction::OpenProfileEditor]),
        Key::Down => (v, seq![MainAction::ListNext]),
        Key::Up => (v, seq![MainAction::ListPrevious]),
        Key::Enter => (v, seq![MainAction::Launch]),
        Key::Right => (MainView { user: true, profiles: false, ..v }, seq![]),
        _ => (v, seq![]),
    }
}

/// The user name field's key handler: a character is typed at the end of the name and
/// backspace erases the last one, each time the name is saved; down moves the focus back
/// to the user panel.
pub open spec fn user_name_on_key(v: MainView, key: Key) -> (MainView, Seq<MainAction>) {
    match key {
        Key::Char(c) => (MainView { user_name: v.user_name.push(c), ..v }, seq![MainAction::SaveUserName]),
        Key::Backspace => (
            MainView {
                user_name: if v.user_name.len() > 0 { v.user_name.drop_last() } else { v.user_name },
                ..v
            },
            seq![MainAction::SaveUserName],
        ),
        Key::Down => (MainView { user: true, user_name_conf: false, ..v }, seq![]),
        _ => (v, seq![]),
    }
}

/// The handler of panel `p`.
pub open spec fn panel_on_key(p: Panel, v: MainView, key: Key) -> (MainView, Seq<MainAction>) {
    match p {
        Panel::Console => console_on_key(v, key),
        Panel::User => user_on_key(v, key),
        Panel::Profiles => profiles_on_key(v, key),
        Panel::UserNameConf => user_name_on_key(v, key),
    }
}

/// Actions after which the main screen does not go on: the program ends or leaves the screen.
pub open spec fn is_final(a: MainAction) -> bool {
    a == MainAction::Quit || a == MainAction::OpenProfileEditor
}

/// The actions so far end with one after which nothing else runs.
pub open spec fn stopped(acts: Seq<MainAction>) -> bool {
    acts.len() > 0 && is_final(acts.last())
}

/// Hands the key on to panel `p` if it had the focus when the key came and nothing has
/// stopped the screen yet.
pub open spec fn then_panel(
    prev: (MainView, Seq<MainAction>),
    focused: bool,
    p: Panel,
    key: Key,
) -> (MainView, Seq<MainAction>) {
    if !focused || stopped(prev.1) {
        prev
    } else {
        let r = panel_on_key(p, prev.0, key);
        (r.0, prev.1 + r.1)
    }
}

/// What a key does on the main screen: every panel that had the focus when it came handles
/// it, in the order console, user, profiles, user name; then F2 opens the settings.
pub open spec fn main_step(v: MainView, key: Key) -> (MainView, Seq<MainAction>) {
    let r1 = then_panel((v, seq![]), v.console, Panel::Console, key);
    let r2 = then_panel(r1, v.user, Panel::User, key);
    let r3 = then_panel(r2, v.profiles, Panel::Profiles, key);
    let r4 = then_panel(r3, v.user_name_conf, Panel::UserNameConf, key);
    if !stopped(r4.1) && key == Key::F(2) {
        (r4.0, r4.1.push(MainAction::OpenSettings))
    } else {
        r4
    }
}

/// Where the console is scrolled when it follows its last lines: the last 17 of
/// `history_len` lines are shown (the count is taken modulo 2^16, as the screen stores it).
pub open spec fn anchored_scroll(history_len: nat) -> u16 {
    if history_len < 17 {
        0
    } else {
        ((history_len % 65536) - 17) as u16
    }
}

/// Whatever key comes, exactly one panel of the main screen has the focus after it when
/// exactly one had it before.
pub proof fn law_one_focus_kept(v: MainView, key: Key)
    requires
        one_focus(v),
    ensures
        one_focus(main_step(v, key).0),
{
}

/// Entering the main screen for the first time gives exactly one panel, the profiles, the focus.
pub proof fn law_first_entry_one_focus(v: MainView)
    requires
        !v.console && !v.user && !v.profiles && !v.user_name_conf,
    ensures
        one_focus(MainView { profiles: true, ..v }),
        has_focus(MainView { profiles: true, ..v }, Panel::Profiles),
{
}

/// Exactly one field of the profile editor has the focus.
pub open spec fn one_field_focus(v: EditorView) -> bool {
    v.name_active != v.version_active
}

/// Whatever key comes, exactly one field of the editor has the focus after it when exactly
/// one had it before.
pub proof fn law_editor_one_focus_kept(v: EditorView, key: Key)
    requires
        one_field_focus(v),
    ensures
        one_field_focus(editor_step(v, key)),
{
}

/// With the console focused, up scrolls it one line back (never above the top) and stops it
/// following the last lines, down scrolls one line on, and down then up comes back to the
/// same line.
pub proof fn law_console_up_scrolls_back(v: MainView)
    requires
        v.console,
    ensures
        main_step(v, Key::Up).0.scroll_y == (if v.scroll_y > 0 { v.scroll_y - 1 } else { 0 }),
        !main_step(v, Key::Up).0.anchor,
        main_step(v, Key::Up).0.scroll_x == v.scroll_x,
        v.scroll_y < u16::MAX ==> main_step(v, Key::Down).0.scroll_y == v.scroll_y + 1,
        v.scroll_y < u16::MAX ==> main_step(main_step(v, Key::Down).0, Key::Up).0.scroll_y
            == v.scroll_y,
{
}

/// On the main screen, `q` ends the program and changes nothing else from whichever single
/// panel has the focus, unless that panel is the user name field, where it is typed.
pub proof fn law_q_quits(v: MainView)
    requires
        one_focus(v),
    ensures
        !v.user_name_conf ==> main_step(v, Key::Char('q')).1 == seq![MainAction::Quit],
        !v.user_name_conf ==> main_step(v, Key::Char('q')).0 == v,
        v.user_name_conf ==> main_step(v, Key::Char('q')).0.user_name == v.user_name.push('q'),
        v.user_name_conf ==> main_step(v, Key::Char('q')).1 == seq![MainAction::SaveUserName],
{
}

/// With the version field focused, backspace erases the version's last character (nothing
/// when it is empty), a character is added at its end, and a character then backspace
/// leaves the version as it was.
pub proof fn law_version_field_edits(v: EditorView, c: char)
    requires
        v.version_active,
    ensures
        editor_step(v, Key::Backspace).version == (if v.version.len() > 0 {
            v.version.drop_last()
        } else {
            v.version
        }),
        editor_step(v, Key::Char(c)).version == v.version.push(c),
        editor_step(editor_step(v, Key::Char(c)), Key::Backspace).version == v.version,
{
    assert(v.version.push(c).drop_last() =~= v.version);
}

/// With the name field focused, backspace erases the name's last character (nothing when it
/// is empty), a character is added at its end, and a character then backspace leaves the
/// name as it was.
pub proof fn law_name_field_edits(v: EditorView, c: char)
    requires
        v.name_active,
    ensures
        editor_step(v, Key::Backspace).name == (if v.name.len() > 0 {
            v.name.drop_last()
        } else {
            v.name
        }),
        editor_step(v, Key::Char(c)).name == v.name.push(c),
        editor_step(editor_step(v, Key::Char(c)), Key::Backspace).name == v.name,
{
    assert(v.name.push(c).drop_last() =~= v.name);
}

/// Whether the actions so far end with one after which nothing else runs.
fn stops(acts: &Vec<MainAction>) -> (res: bool)
    ensures
        res == stopped(acts@),
{
    if acts.len() == 0 {
        false
    } else {
        let last = acts[acts.len() - 1];
        last == MainAction::Quit || last == MainAction::OpenProfileEditor
    }
}

impl MainState {
    /// The main screen before any panel has the focus: the console follows its last lines,
    /// nothing is scrolled.
    pub fn new(user_name: String) -> (res: Self)
        ensures
            res@ == (MainView {
                console: false,
                user: false,
                profiles: false,
                user_name_conf: false,
                anchor: true,
                scroll_x: 0,
                scroll_y: 0,
                user_name: user_name@,
            }),
    {
        MainState {
            console: false,
            user: false,
            profiles: false,
            user_name_conf: false,
            anchor: true,
            scroll_x: 0,
            scroll_y: 0,
            user_name,
        }
    }

    /// Entering the main screen gives the profiles panel the focus; the other panels keep theirs.
    pub fn init_components(&mut self)
        ensures
            final(self)@ == (MainView { profiles: true, ..old(self)@ }),
    {
        self.profiles = true;
    }

    /// The console's handler.
    fn console_key(&mut self, key: Key) -> (res: Vec<MainAction>)
        requires
            key == Key::Right ==> old(self).scroll_x < u16::MAX,
            key == Key::Down ==> old(self).scroll_y < u16::MAX,
        ensures
            final(self)@ == console_on_key(old(self)@, key).0,
            res@ == console_on_key(old(self)@, key).1,
    {
        match key {
            Key::Tab => {
                self.profiles = true;
                self.console = false;
                Vec::new()
            },
            Key::Left => {
                if self.scroll_x != 0 {
                    self.scroll_x = self.scroll_x - 1;
                }
                Vec::new()
            },
            Key::Right => {
                self.scroll_x = self.scroll_x + 1;
                Vec::new()
            },
            Key::Down => {
                self.anchor = false;
                self.scroll_y = self.scroll_y + 1;
                Vec::new()
            },
            Key::Char('a') => {
                self.anchor = true;
                Vec::new()
            },
            Key::Up => {
                self.anchor = false;
                if self.scroll_y != 0 {
                    self.scroll_y = self.scroll_y - 1;
                }
                Vec::new()
            },
            Key::Char('c') => vec![MainAction::ClearHistory],
            Key::Char('q') => vec![MainAction::Quit],
            _ => Vec::new(),
        }
    }

    /// The user panel's handler.
    fn user_key(&mut self, key: Key) -> (res: Vec<MainAction>)
        ensures
            final(self)@ == user_on_key(old(self)@, key).0,
            res@ == user_on_key(old(self)@, key).1,
    {
        match key {
            Key::Char('q') => vec![MainAction::Quit],
            Key::Right => {
                self.console = true;
                self.user = false;
                Vec::new()
            },
            Key::Left => {
                self.profiles = true;
                self.user = false;
                Vec::new()
            },
            Key::Down => {
                self.user_name_conf = true;
                self.user = false;
                Vec::new()
            },
            _ => Vec::new(),
        }
    }

    /// The profiles panel's handler.
    fn profiles_key(&mut self, key: Key) -> (res: Vec<MainAction>)
        ensures
            final(self)@ == profiles_on_key(old(self)@, key).0,
            res@ == profiles_on_key(old(self)@, key).1,
    {
        match key {
            Key::Char('q') => vec![MainAction::Quit],
            Key::Char('c') => vec![MainAction::OpenProfileEditor],
            Key::Down => vec![MainAction::ListNext],
            Key::Up => vec![MainAction::ListPrevious],
            Key::Enter => vec![MainAction::Launch],
            Key::Right => {
                self.user = true;
                self.profiles = false;
                Vec::new()
            },
            _ => Vec::new(),
        }
    }

    /// The user name field's handler.
    fn user_name_key(&mut self, key: Key) -> (res: Vec<MainAction>)
        ensures
            final(self)@ == user_name_on_key(old(self)@, key).0,
            res@ == user_name_on_key(old(self)@, key).1,
    {
        match key {
            Key::Char(c) => {
                push_char(&mut self.user_name, c);
                vec![MainAction::SaveUserName]
            },
            Key::Backspace => {
                let _ = pop_char(&mut self.user_name);
                vec![MainAction::SaveUserName]
            },
            Key::Down => {
                self.user = true;
                self.user_name_conf = false;
                Vec::new()
            },
            _ => Vec::new(),
        }
    }

    /// Handles a key on the main screen; returns what the program is to do, in order.
    pub fn on_key(&mut self, key: Key) -> (res: Vec<MainAction>)
        requires
            old(self).console && key == Key::Right ==> old(self).scroll_x < u16::MAX,
            old(self).console && key == Key::Down ==> old(self).scroll_y < u16::MAX,
        ensures
            final(self)@ == main_step(old(self)@, key).0,
            res@ == main_step(old(self)@, key).1,
    {
        let ghost v = self@;
        let ghost r1 = then_panel((v, seq![]), v.console, Panel::Console, key);
        let ghost r2 = then_panel(r1, v.user, Panel::User, key);
        let ghost r3 = then_panel(r2, v.profiles, Panel::Profiles, key);
        let ghost r4 = then_panel(r3, v.user_name_conf, Panel::UserNameConf, key);
        let focus_console = self.console;
        let focus_user = self.user;
        let focus_profiles = self.profiles;
        let focus_user_name = self.user_name_conf;
        let mut acts: Vec<MainAction> = Vec::new();
        if focus_console {
            let mut a = self.console_key(key);
            acts.append(&mut a);
        }
        assert(self@ == r1.0 && acts@ == r1.1);
        if focus_user && !stops(&acts) {
            let mut a = self.user_key(key);
            acts.append(&mut a);
        }
        assert(self@ == r2.0 && acts@ == r2.1);
        if focus_profiles && !stops(&acts) {
            let mut a = self.profiles_key(key);
            acts.append(&mut a);
        }
        assert(self@ == r3.0 && acts@ == r3.1);
        if focus_user_name && !stops(&acts) {
            let mut a = self.user_name_key(key);
            acts.append(&mut a);
        }
        assert(self@ == r4.0 && acts@ == r4.1);
        if !stops(&acts) && key == Key::F(2) {
            acts.push(MainAction::OpenSettings);
        }
        acts
    }

    /// While the console follows its last lines, scrolls it so that the last 17 of
    /// `history_len` lines show; otherwise leaves it where it is.
    pub fn console_anchor_logic(&mut self, history_len: usize)
        requires
            !(old(self).anchor && history_len >= 17 && history_len % 65536 < 17),
        ensures
            final(self)@ == (if old(self).anchor {
                MainView { scroll_y: anchored_scroll(history_len as nat), ..old(self)@ }
            } else {
                old(self)@
            }),
    {
        if self.anchor {
            if history_len < 17 {
                self.scroll_y = 0;
            } else {
                assert((history_len as u16) == history_len % 65536) by (bit_vector);
                let low = #[verifier::truncate] (history_len as u16);
                self.scroll_y = low - 17;
            }
        }
    }
}

/// The profile editor: which of its two fields have the focus and the profile being written.
pub struct ProfileEditor {
    pub name_active: bool,
    pub version_active: bool,
    pub profile: Profile,
}

/// `p` is a blank profile: its texts are empty and its optional settings absent.
pub open spec fn is_blank(p: Profile) -> bool {
    &&& p.created@ == Seq::<char>::empty()
    &&& p.icon is None
    &&& p.lastUsed@ == Seq::<char>::empty()
    &&& p.lastVersionId@ == Seq::<char>::empty()
    &&& p.name@ == Seq::<char>::empty()
    &&& p.javaArgs is None
    &&& p.javaDir is None
    &&& p.gameDir is None
    &&& p.resolution is None
    &&& p.typ@ == Seq::<char>::empty()
}

/// The editor's state with the edited texts taken by their characters.
#[verifier::ext_equal]
pub struct EditorView {
    pub name_active: bool,
    pub version_active: bool,
    pub name: Seq<char>,
    pub version: Seq<char>,
}

impl View for ProfileEditor {
    type V = EditorView;

    open spec fn view(&self) -> EditorView {
        EditorView {
            name_active: self.name_active,
            version_active: self.version_active,
            name: self.profile.name@,
            version: self.profile.lastVersionId@,
        }
    }
}

/// `s` after typing `key` into it: a character is added at the end, backspace erases the last.
pub open spec fn typed(s: Seq<char>, key: Key) -> Seq<char> {
    match key {
        Key::Char(c) => s.push(c),
        Key::Backspace => if s.len() > 0 { s.drop_last() } else { s },
        _ => s,
    }
}

/// What a key does in the profile editor: the fields that had the focus when it came take
/// it in turn, the name field first; down in the name field moves the focus to the version.
pub open spec fn editor_step(v: EditorView, key: Key) -> EditorView {
    let after_name = if v.name_active {
        if key == Key::Down {
            EditorView { version_active: true, name_active: false, ..v }
        } else {
            EditorView { name: typed(v.name, key), ..v }
        }
    } else {
        v
    };
    if v.version_active {
        EditorView { version: typed(after_name.version, key), ..after_name }
    } else {
        after_name
    }
}

/// Types `key` into `s`.
fn type_into(s: &mut String, key: Key)
    ensures
        final(s)@ == typed(old(s)@, key),
{
    match key {
        Key::Char(c) => push_char(s, c),
        Key::Backspace => {
            let _ = pop_char(s);
        },
        _ => {},
    }
}

impl ProfileEditor {
    /// An editor for a blank profile in which no field has the focus yet.
    pub fn new() -> (res: Self)
        ensures
            !res.name_active,
            !res.version_active,
            is_blank(res.profile),
    {
        ProfileEditor { name_active: false, version_active: false, profile: Profile::default() }
    }

    /// Opening the editor starts a blank profile and gives the name field the focus; the
    /// version field keeps its own.
    pub fn enter(&mut self)
        ensures
            final(self).name_active,
            final(self).version_active == old(self).version_active,
            is_blank(final(self).profile),
    {
        self.profile = Profile::default();
        self.name_active = true;
    }

    /// Handles a key in the editor; returns whether it leaves the editor for the main screen
    /// (Tab does).
    pub fn on_key(&mut self, key: Key) -> (res: bool)
        ensures
            final(self)@ == editor_step(old(self)@, key),
            final(self).profile == (Profile {
                name: final(self).profile.name,
                lastVersionId: final(self).profile.lastVersionId,
                ..old(self).profile
            }),
            res == (key == Key::Tab),
    {
        let focus_name = self.name_active;
        let focus_version = self.version_active;
        if focus_name {
            if key == Key::Down {
                self.version_active = true;
                self.name_active = false;
            } else {
                type_into(&mut self.profile.name, key);
            }
        }
        if focus_version {
            type_into(&mut self.profile.lastVersionId, key);
        }
        key == Key::Tab
    }
}

/// Whether a key is handled: only when more than the debounce time has passed since the
/// last handled key (both times in nanoseconds).
pub fn key_is_due(elapsed_nanos: u128, debounce_nanos: u128) -> (res: bool)
    ensures
        res == (elapsed_nanos > debounce_nanos),
{
    elapsed_nanos > debounce_nanos
}

/// Whether a key leaves the settings screen for the main screen (F1 does); its only panel
/// ignores keys.
pub fn settings_leaves(key: Key) -> (res: bool)
    ensures
        res == (key == Key::F(1)),
{
    key == Key::F(1)
}

/// Whether a profile is being created or an existing one edited.
#[allow(non_camel_case_types, clippy::upper_case_acronyms)]
#[derive(PartialEq, Eq, Structural, Debug, Clone, Copy)]
pub enum Type {
    EDIT,
    NEW,
}

} // verus!
