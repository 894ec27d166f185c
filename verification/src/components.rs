//! Panels of the terminal interface: which one has the focus, its shortcuts, its key handler.
use vstd::prelude::*;

verus! {

/// A key handler: the function a panel runs on each key while it has the focus.
#[derive(Clone)]
pub struct Handle<F> {
    pub event: F,
}

impl<F> Handle<F> {
    /// A handler that runs `event`.
    pub fn new(event: F) -> (res: Self)
        ensures
            res.event == event,
    {
        Handle { event }
    }
}

/// The colour of a panel's border.
#[derive(PartialEq, Eq, Structural, Debug, Clone, Copy)]
pub enum BorderColor {
    White,
    Gray,
}

/// A panel of the interface: whether it has the focus, the shortcuts it shows while it has
/// it, and the handler its keys go to (none: keys are ignored).
#[derive(Clone)]
pub struct Component<S, F> {
    pub active: bool,
    pub shortcuts: Vec<Vec<S>>,
    pub key_event: Option<Handle<F>>,
}

impl<S, F> Component<S, F> {
    /// A panel without the focus that shows `shortcuts` and ignores keys.
    pub fn new(shortcuts: Vec<Vec<S>>) -> (res: Self)
        ensures
            !res.active,
            res.shortcuts == shortcuts,
            res.key_event is None,
    {
        Component { shortcuts, key_event: None, active: false }
    }

    /// Sends the panel's keys to `a`.
    pub fn set_key_handle(&mut self, a: Handle<F>)
        ensures
            *final(self) == (Component { key_event: Some(a), ..*old(self) }),
    {
        self.key_event = Some(a);
    }

    /// The border colour: white while the panel has the focus, gray otherwise.
    pub fn border(&self) -> (res: BorderColor)
        ensures
            res == (if self.active { BorderColor::White } else { BorderColor::Gray }),
    {
        if self.active {
            BorderColor::White
        } else {
            BorderColor::Gray
        }
    }

    /// The shortcuts the panel shows.
    pub fn get_shortcuts(self) -> (res: Vec<Vec<S>>)
        ensures
            res == self.shortcuts,
    {
        self.shortcuts
    }

    /// Gives the panel the focus, or takes it away.
    pub fn set_active(&mut self, active: bool)
        ensures
            *final(self) == (Component { active, ..*old(self) }),
    {
        self.active = active;
    }

    /// Whether the panel has the focus.
    pub fn active(self) -> (res: bool)
        ensures
            res == self.active,
    {
        self.active
    }

    /// Runs the panel's handler on `event`; returns whether there was one to run.
    pub fn launch_key_event<E>(&self, event: E) -> (res: bool) where F: Fn(E)
        requires
            self.key_event matches Some(h) ==> h.event.requires((event,)),
        ensures
            res == self.key_event is Some,
            self.key_event matches Some(h) ==> call_ensures(h.event, (event,), ()),
    {
        match &self.key_event {
            Some(h) => {
                (h.event)(event);
                true
            },
            None => false,
        }
    }
}

/// The positions, in order, of the panels that have the focus and a handler.
pub open spec fn handled_by<S, F>(components: Seq<Component<S, F>>) -> Seq<int> {
    Seq::new(components.len(), |i: int| i).filter(
        |i: int| components[i].active && components[i].key_event is Some,
    )
}

/// Sends `key_event` to the handler of every panel that has the focus, in order;
/// returns the positions of the panels whose handler ran.
pub fn key_controller<S, F, E: Copy>(components: Vec<Component<S, F>>, key_event: E) -> (res: Vec<usize>) where F: Fn(E)
    requires
        forall|i: int|
            0 <= i < components@.len() && (#[trigger] components@[i]).active
                ==> (components@[i].key_event matches Some(h) ==> h.event.requires((key_event,))),
    ensures
        res@.map_values(|j: usize| j as int) == handled_by(components@),
        forall|k: int| 0 <= k < res@.len() ==>
            call_ensures(components@[#[trigger] res@[k] as int].key_event.unwrap().event, (key_event,), ()),
{
    let mut res: Vec<usize> = Vec::new();
    let mut i: usize = 0;
    let ghost idx = Seq::new(components@.len(), |j: int| j);
    let ghost pred = |j: int| components@[j].active && components@[j].key_event is Some;
    while i < components.len()
        invariant
            i <= components@.len(),
            idx == Seq::new(components@.len(), |j: int| j),
            pred == (|j: int| components@[j].active && components@[j].key_event is Some),
            forall|j: int|
                0 <= j < components@.len() && (#[trigger] components@[j]).active
                    ==> (components@[j].key_event matches Some(h) ==> h.event.requires((key_event,))),
            res@.map_values(|j: usize| j as int) == idx.take(i as int).filter(pred),
            forall|k: int| 0 <= k < res@.len() ==>
                call_ensures(components@[#[trigger] res@[k] as int].key_event.unwrap().event, (key_event,), ()),
        decreases components@.len() - i,
    {
        let c = &components[i];
        let ghost before = res@;
        if c.active {
            if c.launch_key_event(key_event) {
                res.push(i);
            }
        }
        proof {
            reveal_with_fuel(Seq::<_>::filter, 1);
            assert(idx.take(i + 1).drop_last() =~= idx.take(i as int));
            assert(res@.map_values(|j: usize| j as int) =~= if pred(i as int) {
                before.map_values(|j: usize| j as int).push(i as int)
            } else {
                before.map_values(|j: usize| j as int)
            });
        }
        i = i + 1;
    }
    assert(idx.take(i as int) =~= idx);
    res
}

/// The shortcuts of the first panel that has the focus, or none when no panel has it.
pub open spec fn first_active_shortcuts<S, F>(components: Seq<Component<S, F>>) -> Seq<Vec<S>>
    decreases components.len(),
{
    if components.len() == 0 {
        Seq::empty()
    } else if components[0].active {
        components[0].shortcuts@
    } else {
        first_active_shortcuts(components.drop_first())
    }
}

/// The shortcuts to show: those of the first panel that has the focus.
pub fn shortcuts_controller<S, F>(components: Vec<Component<S, F>>) -> (res: Vec<Vec<S>>)
    ensures
        res@ == first_active_shortcuts(components@),
{
    let mut comps = components;
    let ghost all = comps@;
    let mut i: usize = 0;
    assert(all.skip(0) =~= all);
    while i < comps.len()
        invariant
            comps@ == all,
            all == components@,
            i <= all.len(),
            first_active_shortcuts(all.skip(i as int)) == first_active_shortcuts(all),
        decreases all.len() - i,
    {
        if comps[i].active {
            assert(all.skip(i as int)[0] == all[i as int]);
            let c = comps.swap_remove(i);
            assert(c == all[i as int]);
            return c.shortcuts;
        }
        assert(all.skip(i as int).drop_first() =~= all.skip(i + 1));
        i = i + 1;
    }
    Vec::new()
}

/// What a part of a shortcut hint shows.
#[derive(PartialEq, Eq, Structural, Debug, Clone, Copy)]
pub enum ShortcutPartKind {
    /// The key, drawn bold on the hint colours.
    Key,
    /// What the key does, drawn on the hint colours.
    Description,
    /// The gap after the hint, drawn plain.
    Gap,
}

/// A colour given by its red, green and blue components.
#[derive(PartialEq, Eq, Structural, Debug, Clone, Copy)]
pub struct Rgb(pub u8, pub u8, pub u8);

/// How a styled part of a shortcut hint is drawn: its background and foreground colours
/// and whether it is bold.
#[derive(PartialEq, Eq, Structural, Debug, Clone, Copy)]
pub struct HintStyle {
    pub bg: Rgb,
    pub fg: Rgb,
    pub bold: bool,
}

/// The background of shortcut hints: a strong blue.
pub open spec fn hint_bg() -> Rgb {
    Rgb(19, 78, 191)
}

/// The foreground of shortcut hints: an off-white.
pub open spec fn hint_fg() -> Rgb {
    Rgb(251, 251, 238)
}

/// The style of each part of a hint: the key bold on the hint colours, the description on
/// the hint colours without a modifier, the gap plain.
pub open spec fn hint_style(kind: ShortcutPartKind) -> Option<HintStyle> {
    match kind {
        ShortcutPartKind::Key => Some(HintStyle { bg: hint_bg(), fg: hint_fg(), bold: true }),
        ShortcutPartKind::Description => Some(HintStyle { bg: hint_bg(), fg: hint_fg(), bold: false }),
        ShortcutPartKind::Gap => None,
    }
}

/// A piece of text of a shortcut hint and how it is drawn (no style: plain).
#[derive(Debug, Clone)]
pub struct ShortcutPart {
    pub text: String,
    pub kind: ShortcutPartKind,
    pub style: Option<HintStyle>,
}

/// The hint for one shortcut: the key, bold on the hint colours; what it does, on the hint
/// colours; then a plain gap of two spaces.
pub fn shortcut(key: &str, description: &str) -> (res: Vec<ShortcutPart>)
    ensures
        res@.len() == 3,
        res@[0].text@ == key@ && res@[0].kind == ShortcutPartKind::Key,
        res@[1].text@ == description@ && res@[1].kind == ShortcutPartKind::Description,
        res@[2].text@ == seq![' ', ' '] && res@[2].kind == ShortcutPartKind::Gap,
        res@[0].style == Some(HintStyle { bg: Rgb(19, 78, 191), fg: Rgb(251, 251, 238), bold: true }),
        res@[1].style == Some(HintStyle { bg: Rgb(19, 78, 191), fg: Rgb(251, 251, 238), bold: false }),
        res@[2].style is None,
        forall|i: int| 0 <= i < 3 ==> (#[trigger] res@[i]).style == hint_style(res@[i].kind),
{
    let bg = Rgb(19, 78, 191);
    let fg = Rgb(251, 251, 238);
    let mut res = Vec::new();
    res.push(ShortcutPart {
        text: String::from_str(key),
        kind: ShortcutPartKind::Key,
        style: Some(HintStyle { bg, fg, bold: true }),
    });
    res.push(ShortcutPart {
        text: String::from_str(description),
        kind: ShortcutPartKind::Description,
        style: Some(HintStyle { bg, fg, bold: false }),
    });
    res.push(ShortcutPart { text: String::from_str("  "), kind: ShortcutPartKind::Gap, style: None });
    proof {
        reveal_strlit("  ");
    }
    res
}

/// An entry of a list on screen: the text it shows and the value it stands for.
#[derive(Clone)]
pub struct ListItemValued<T> {
    list_item: String,
    value: T,
}

impl<T> ListItemValued<T> {
    /// The text the entry shows.
    pub closed spec fn label(self) -> Seq<char> {
        self.list_item@
    }

    /// The value the entry stands for.
    pub closed spec fn item(self) -> T {
        self.value
    }

    /// An entry that shows `list_item` and stands for `value`.
    pub fn new(list_item: String, value: T) -> (res: Self)
        ensures
            res.label() == list_item@,
            res.item() == value,
    {
        Self { list_item, value }
    }

    /// The value the entry stands for.
    pub fn get_value(self) -> (res: T)
        ensures
            res == self.item(),
    {
        self.value
    }

    /// The text the entry shows.
    pub fn get_list_item(self) -> (res: String)
        ensures
            res@ == self.label(),
    {
        self.list_item
    }
}

/// A list with a selection that the arrows move, wrapping around at both ends.
pub struct StatefulList<T> {
    pub selected: Option<usize>,
    pub items: Vec<T>,
}

/// The selection after moving down: the first entry when nothing was selected, the first
/// again after the last.
pub open spec fn next_selection(selected: Option<usize>, len: nat) -> Option<usize> {
    match selected {
        Some(i) => if i >= len - 1 { Some(0usize) } else { Some((i + 1) as usize) },
        None => Some(0usize),
    }
}

/// The selection after moving up: the first entry when nothing was selected, the last
/// after the first.
pub open spec fn previous_selection(selected: Option<usize>, len: nat) -> Option<usize> {
    match selected {
        Some(i) => if i == 0 { Some((len - 1) as usize) } else { Some((i - 1) as usize) },
        None => Some(0usize),
    }
}

impl<T> StatefulList<T> {
    /// The list of `items` with nothing selected.
    pub fn with_items(items: Vec<T>) -> (res: Self)
        ensures
            res.selected is None,
            res.items == items,
    {
        StatefulList { selected: None, items }
    }

    /// Moves the selection down.
    pub fn next(&mut self)
        requires
            old(self).selected is Some ==> old(self).items@.len() > 0,
        ensures
            final(self).items == old(self).items,
            final(self).selected == next_selection(old(self).selected, old(self).items@.len()),
    {
        let i = match self.selected {
            Some(i) => if i >= self.items.len() - 1 { 0 } else { i + 1 },
            None => 0,
        };
        self.selected = Some(i);
    }

    /// Moves the selection up.
    pub fn previous(&mut self)
        requires
            old(self).selected == Some(0usize) ==> old(self).items@.len() > 0,
        ensures
            final(self).items == old(self).items,
            final(self).selected == previous_selection(old(self).selected, old(self).items@.len()),
    {
        let i = match self.selected {
            Some(i) => if i == 0 { self.items.len() - 1 } else { i - 1 },
            None => 0,
        };
        self.selected = Some(i);
    }
}

/// On a list that is not empty, moving down and up keeps the selection on an entry.
pub proof fn law_selection_stays_in_list(selected: Option<usize>, len: nat)
    requires
        len > 0,
        len <= usize::MAX,
        selected matches Some(i) ==> i < len,
    ensures
        next_selection(selected, len) matches Some(j) && j < len,
        previous_selection(selected, len) matches Some(j) && j < len,
{
}

/// On a list that is not empty, moving up undoes moving down from a selected entry.
pub proof fn law_previous_undoes_next(i: usize, len: nat)
    requires
        i < len <= usize::MAX,
    ensures
        previous_selection(next_selection(Some(i), len), len) == Some(i),
{
}

} // verus!
