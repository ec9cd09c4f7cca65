use vstd::prelude::*;

use crate::errors::ShortcutError;
use crate::privacy::chars_of;
use crate::types::pair_views;
use crate::vault::string_eq;

verus! {

/// `s` with every occurrence of `from`, scanned left to right, replaced by `to`.
pub open spec fn replace_all(s: Seq<char>, from: Seq<char>, to: Seq<char>) -> Seq<char>
    decreases s.len(),
{
    if s.len() == 0 {
        s
    } else if from.len() > 0 && from.len() <= s.len() && s.subrange(0, from.len() as int) == from {
        to + replace_all(s.subrange(from.len() as int, s.len() as int), from, to)
    } else {
        seq![s[0]] + replace_all(s.drop_first(), from, to)
    }
}

/// Key bindings as written on the platform: `Cmd` stands for `Ctrl` on macOS.
pub open spec fn adapt_keys(keys: Seq<char>, mac: bool) -> Seq<char> {
    if mac {
        replace_all(keys, "Ctrl+"@, "Cmd+"@)
    } else {
        keys
    }
}

/// The built-in bindings, as (action, keys) pairs.
pub open spec fn default_bindings() -> Seq<(Seq<char>, Seq<char>)> {
    seq![
        ("new_tab"@, "Ctrl+T"@),
        ("close_tab"@, "Ctrl+W"@),
        ("reload"@, "Ctrl+R"@),
        ("hard_reload"@, "Ctrl+Shift+R"@),
        ("back"@, "Alt+Left"@),
        ("forward"@, "Alt+Right"@),
        ("address_bar"@, "Ctrl+L"@),
        ("find"@, "Ctrl+F"@),
        ("bookmarks"@, "Ctrl+B"@),
        ("history"@, "Ctrl+H"@),
        ("downloads"@, "Ctrl+J"@),
        ("settings"@, "Ctrl+Comma"@),
        ("private_mode"@, "Ctrl+Shift+N"@),
        ("ai_assistant"@, "Ctrl+Shift+A"@),
        ("dev_tools"@, "F12"@),
        ("dev_tools_alt"@, "Ctrl+Shift+I"@),
        ("view_source"@, "Ctrl+U"@),
        ("print"@, "Ctrl+P"@),
        ("save_page"@, "Ctrl+S"@),
        ("fullscreen"@, "F11"@),
        ("stop_loading"@, "Escape"@),
        ("clear_data"@, "Ctrl+Shift+Delete"@),
        ("reopen_tab"@, "Ctrl+Shift+T"@),
        ("new_window"@, "Ctrl+N"@),
        ("zoom_in"@, "Ctrl+Plus"@),
        ("zoom_out"@, "Ctrl+Minus"@),
        ("zoom_reset"@, "Ctrl+0"@),
        ("next_tab"@, "Ctrl+Tab"@),
        ("prev_tab"@, "Ctrl+Shift+Tab"@),
        ("home"@, "Alt+Home"@)
    ]
}

/// The keys bound to `action`: those of its first binding.
pub open spec fn bound_keys(b: Seq<(Seq<char>, Seq<char>)>, action: Seq<char>) -> Option<Seq<char>>
    decreases b.len(),
{
    if b.len() == 0 {
        None
    } else if b[0].0 == action {
        Some(b[0].1)
    } else {
        bound_keys(b.drop_first(), action)
    }
}

/// The first action other than `exclude` bound to `keys`.
pub open spec fn first_bound_to(b: Seq<(Seq<char>, Seq<char>)>, keys: Seq<char>, exclude: Option<Seq<char>>) -> Option<Seq<char>>
    decreases b.len(),
{
    if b.len() == 0 {
        None
    } else if b[0].1 == keys && exclude != Some(b[0].0) {
        Some(b[0].0)
    } else {
        first_bound_to(b.drop_first(), keys, exclude)
    }
}

pub open spec fn adapted_pairs(b: Seq<(Seq<char>, Seq<char>)>, mac: bool) -> Seq<(Seq<char>, Seq<char>)> {
    b.map_values(|p: (Seq<char>, Seq<char>)| (p.0, adapt_keys(p.1, mac)))
}

fn binding(action: &str, keys: &str) -> (r: (String, String))
    ensures
        r.0@ == action@,
        r.1@ == keys@,
{
    (action.to_owned(), keys.to_owned())
}

/// `s` with every `Ctrl+` replaced by `Cmd+`.
fn ctrl_to_cmd(s: &str) -> (r: String)
    ensures
        r@ == replace_all(s@, "Ctrl+"@, "Cmd+"@),
{
    proof {
        reveal_strlit("Ctrl+");
        reveal_strlit("Cmd+");
    }
    let c = chars_of(s);
    let from = chars_of("Ctrl+");
    let to = chars_of("Cmd+");
    let n = c.len();
    let mut out: Vec<char> = Vec::new();
    let mut i: usize = 0;
    assert(c@.subrange(0, c@.len() as int) =~= c@);
    assert(from@.len() == 5);
    assert(to@.len() == 4);
    while i < c.len()
        invariant
            n == c@.len(),
            i <= c@.len(),
            c@ == s@,
            from@ == "Ctrl+"@,
            to@ == "Cmd+"@,
            from@.len() == 5,
            to@.len() == 4,
            replace_all(s@, from@, to@) == out@ + replace_all(c@.subrange(i as int, c@.len() as int), from@, to@),
        decreases c@.len() - i,
    {
        let ghost rest = c@.subrange(i as int, c@.len() as int);
        let mut matched = c.len() >= 5 && i <= c.len() - 5;
        let mut j: usize = 0;
        while matched && j < 5
            invariant
                n == c@.len(),
                i + 5 <= c@.len() || !matched,
                j <= 5,
                from@.len() == 5,
                rest == c@.subrange(i as int, c@.len() as int),
                matched ==> forall|t: int| 0 <= t < j ==> c@[i + t] == from@[t],
                !matched ==> !(5 <= rest.len() && rest.subrange(0, 5) == from@),
            decreases 5 - j + if matched { 1int } else { 0int },
        {
            if c[i + j] != from[j] {
                assert(rest.subrange(0, 5)[j as int] == c@[i + j]);
                matched = false;
            } else {
                j = j + 1;
            }
        }
        if matched {
            assert(rest.subrange(0, 5) =~= from@);
            out.push(to[0]);
            out.push(to[1]);
            out.push(to[2]);
            out.push(to[3]);
            assert(rest.subrange(5, rest.len() as int) =~= c@.subrange(i + 5, c@.len() as int));
            i = i + 5;
        } else {
            assert(rest.drop_first() =~= c@.subrange(i + 1, c@.len() as int));
            out.push(c[i]);
            i = i + 1;
        }
    }
    crate::errors::string_from_chars(&out)
}

/// Keyboard shortcuts, each action bound to one key combination.
pub struct ShortcutManager {
    shortcuts: Vec<(String, String)>,
    mac: bool,
}

impl View for ShortcutManager {
    type V = Seq<(Seq<char>, Seq<char>)>;

    closed spec fn view(&self) -> Seq<(Seq<char>, Seq<char>)> {
        pair_views(self.shortcuts@)
    }
}

impl ShortcutManager {
    pub closed spec fn is_mac(&self) -> bool {
        self.mac
    }

    /// A manager holding the default bindings; `mac` selects macOS key names.
    pub fn new(mac: bool) -> (r: Self)
        ensures
            r@ == adapted_pairs(default_bindings(), mac),
            r.is_mac() == mac,
    {
        let mut mgr = ShortcutManager { shortcuts: Vec::new(), mac };
        mgr.shortcuts = mgr.get_default_shortcuts();
        mgr
    }

    /// `keys` as written on this platform.
    pub fn adapt_for_platform(&self, keys: &str) -> (r: String)
        ensures
            r@ == adapt_keys(keys@, self.is_mac()),
    {
        if self.mac {
            ctrl_to_cmd(keys)
        } else {
            keys.to_owned()
        }
    }

    fn adapted(&self, action: &str, keys: &str) -> (r: (String, String))
        ensures
            r.0@ == action@,
            r.1@ == adapt_keys(keys@, self.is_mac()),
    {
        (action.to_owned(), self.adapt_for_platform(keys))
    }

    /// The built-in bindings, adapted to this platform.
    pub fn get_default_shortcuts(&self) -> (r: Vec<(String, String)>)
        ensures
            pair_views(r@) == adapted_pairs(default_bindings(), self.is_mac()),
    {
        let mut v: Vec<(String, String)> = Vec::new();
        v.push(self.adapted("new_tab", "Ctrl+T"));
        v.push(self.adapted("close_tab", "Ctrl+W"));
        v.push(self.adapted("reload", "Ctrl+R"));
        v.push(self.adapted("hard_reload", "Ctrl+Shift+R"));
        v.push(self.adapted("back", "Alt+Left"));
        v.push(self.adapted("forward", "Alt+Right"));
        v.push(self.adapted("address_bar", "Ctrl+L"));
        v.push(self.adapted("find", "Ctrl+F"));
        v.push(self.adapted("bookmarks", "Ctrl+B"));
        v.push(self.adapted("history", "Ctrl+H"));
        v.push(self.adapted("downloads", "Ctrl+J"));
        v.push(self.adapted("settings", "Ctrl+Comma"));
        v.push(self.adapted("private_mode", "Ctrl+Shift+N"));
        v.push(self.adapted("ai_assistant", "Ctrl+Shift+A"));
        v.push(self.adapted("dev_tools", "F12"));
        v.push(self.adapted("dev_tools_alt", "Ctrl+Shift+I"));
        v.push(self.adapted("view_source", "Ctrl+U"));
        v.push(self.adapted("print", "Ctrl+P"));
        v.push(self.adapted("save_page", "Ctrl+S"));
        v.push(self.adapted("fullscreen", "F11"));
        v.push(self.adapted("stop_loading", "Escape"));
        v.push(self.adapted("clear_data", "Ctrl+Shift+Delete"));
        v.push(self.adapted("reopen_tab", "Ctrl+Shift+T"));
        v.push(self.adapted("new_window", "Ctrl+N"));
        v.push(self.adapted("zoom_in", "Ctrl+Plus"));
        v.push(self.adapted("zoom_out", "Ctrl+Minus"));
        v.push(self.adapted("zoom_reset", "Ctrl+0"));
        v.push(self.adapted("next_tab", "Ctrl+Tab"));
        v.push(self.adapted("prev_tab", "Ctrl+Shift+Tab"));
        v.push(self.adapted("home", "Alt+Home"));
        assert(pair_views(v@) =~= adapted_pairs(default_bindings(), self.is_mac()));
        v
    }

    /// Index of the first binding of `action`.
    fn position_of(&self, action: &str) -> (r: Option<usize>)
        ensures
            r matches Some(i) ==> first_index(self@, action@, i as int),
            r is None ==> forall|j: int| 0 <= j < self@.len() ==> #[trigger] self@[j].0 != action@,
    {
        let mut i: usize = 0;
        while i < self.shortcuts.len()
            invariant
                i <= self@.len(),
                self@.len() == self.shortcuts@.len(),
                forall|j: int| 0 <= j < i ==> #[trigger] self@[j].0 != action@,
            decreases self@.len() - i,
        {
            if string_eq(self.shortcuts[i].0.as_str(), action) {
                return Some(i);
            }
            i = i + 1;
        }
        None
    }

    /// The keys bound to `action`.
    pub fn get_shortcut(&self, action: &str) -> (r: Option<&str>)
        ensures
            match r {
                Some(k) => bound_keys(self@, action@) == Some(k@),
                None => bound_keys(self@, action@) is None,
            },
    {
        match self.position_of(action) {
            Some(i) => {
                proof {
                    lemma_first_index_keys(self@, action@, i as int);
                }
                Some(self.shortcuts[i].1.as_str())
            },
            None => {
                proof {
                    lemma_no_index_keys(self@, action@);
                }
                None
            },
        }
    }

    /// Every binding, in the order they were made.
    pub fn list_shortcuts(&self) -> (r: &Vec<(String, String)>)
        ensures
            pair_views(r@) == self@,
    {
        &self.shortcuts
    }

    /// The first action other than `exclude_action` already bound to `keys` (as written on
    /// this platform).
    pub fn has_conflict(&self, keys: &str, exclude_action: Option<&str>) -> (r: Option<String>)
        ensures
            match r {
                Some(a) => first_bound_to(self@, adapt_keys(keys@, self.is_mac()), crate::vault::text_of(exclude_action)) == Some(a@),
                None => first_bound_to(self@, adapt_keys(keys@, self.is_mac()), crate::vault::text_of(exclude_action)) is None,
            },
    {
        let adapted = self.adapt_for_platform(keys);
        let ghost k = adapted@;
        let ghost ex = crate::vault::text_of(exclude_action);
        let mut i: usize = 0;
        assert(self@.subrange(0, self@.len() as int) =~= self@);
        while i < self.shortcuts.len()
            invariant
                i <= self@.len(),
                self@.len() == self.shortcuts@.len(),
                k == adapted@,
                k == adapt_keys(keys@, self.is_mac()),
                ex == crate::vault::text_of(exclude_action),
                first_bound_to(self@, k, ex) == first_bound_to(self@.subrange(i as int, self@.len() as int), k, ex),
            decreases self@.len() - i,
        {
            let ghost rest = self@.subrange(i as int, self@.len() as int);
            assert(rest.drop_first() =~= self@.subrange(i + 1, self@.len() as int));
            assert(rest[0] == self@[i as int]);
            assert(self@[i as int] == (self.shortcuts@[i as int].0@, self.shortcuts@[i as int].1@));
            let ghost pair = self@[i as int];
            let same = string_eq(self.shortcuts[i].1.as_str(), adapted.as_str());
            let excluded = match exclude_action {
                Some(e) => string_eq(self.shortcuts[i].0.as_str(), e),
                None => false,
            };
            assert(excluded == (ex == Some(pair.0)));
            assert(same == (pair.1 == k));
            if same && !excluded {
                let a = self.shortcuts[i].0.clone();
                return Some(a);
            }
            i = i + 1;
        }
        None
    }

    /// Binds `action` to `keys`, replacing its earlier binding. Empty keys and keys already
    /// bound to another action are refused.
    pub fn register_shortcut(&mut self, action: &str, keys: &str) -> (r: Result<(), ShortcutError>)
        ensures
            keys@.len() == 0 ==> (r matches Err(ShortcutError::InvalidKeys(_)) && final(self)@ == old(self)@),
            keys@.len() > 0 && first_bound_to(old(self)@, adapt_keys(keys@, old(self).is_mac()), Some(action@)) is Some
                ==> (r matches Err(ShortcutError::Conflict(_)) && final(self)@ == old(self)@),
            keys@.len() > 0 && first_bound_to(old(self)@, adapt_keys(keys@, old(self).is_mac()), Some(action@)) is None
                ==> (r is Ok && final(self)@ == set_binding(old(self)@, action@, adapt_keys(keys@, old(self).is_mac()))),
            final(self).is_mac() == old(self).is_mac(),
    {
        if keys.unicode_len() == 0 {
            return Err(ShortcutError::InvalidKeys("Keys cannot be empty".to_owned()));
        }
        if let Some(conflicting) = self.has_conflict(keys, Some(action)) {
            let mut msg = "'".to_owned();
            msg.append(keys);
            msg.append("' is already bound to '");
            msg.append(conflicting.as_str());
            msg.append("'");
            return Err(ShortcutError::Conflict(msg));
        }
        let adapted = self.adapt_for_platform(keys);
        let ghost b = self@;
        let ghost av = adapted@;
        match self.position_of(action) {
            Some(i) => {
                self.shortcuts.set(i, (action.to_owned(), adapted));
                proof {
                    lemma_set_binding_at(b, action@, av, i as int);
                }
                assert(self@ =~= b.update(i as int, (action@, av)));
            },
            None => {
                self.shortcuts.push((action.to_owned(), adapted));
                proof {
                    lemma_set_binding_absent(b, action@, av);
                }
                assert(self@ =~= b.push((action@, av)));
            },
        }
        Ok(())
    }

    /// Removes the binding of `action`.
    pub fn unregister_shortcut(&mut self, action: &str) -> (r: Result<(), ShortcutError>)
        ensures
            bound_keys(old(self)@, action@) is None ==> (r matches Err(ShortcutError::NotFound(a)) && a@ == action@ && final(self)@ == old(self)@),
            bound_keys(old(self)@, action@) is Some ==> (r is Ok && final(self)@ == remove_binding(old(self)@, action@)),
            final(self).is_mac() == old(self).is_mac(),
    {
        let ghost b = self@;
        match self.position_of(action) {
            Some(i) => {
                proof {
                    lemma_first_index_keys(b, action@, i as int);
                    lemma_remove_binding_at(b, action@, i as int);
                }
                let _ = self.shortcuts.remove(i);
                assert(self@ =~= b.remove(i as int));
                Ok(())
            },
            None => {
                proof {
                    lemma_no_index_keys(b, action@);
                }
                Err(ShortcutError::NotFound(action.to_owned()))
            },
        }
    }

    /// Restores the built-in bindings.
    pub fn reset_to_defaults(&mut self) -> (r: Result<(), ShortcutError>)
        ensures
            r is Ok,
            final(self)@ == adapted_pairs(default_bindings(), old(self).is_mac()),
            final(self).is_mac() == old(self).is_mac(),
    {
        self.shortcuts = self.get_default_shortcuts();
        Ok(())
    }
}

/// `i` is the first binding of `action`.
pub open spec fn first_index(b: Seq<(Seq<char>, Seq<char>)>, action: Seq<char>, i: int) -> bool {
    &&& 0 <= i < b.len()
    &&& b[i].0 == action
    &&& forall|j: int| 0 <= j < i ==> #[trigger] b[j].0 != action
}

/// The bindings with `action` bound to `keys`: its first binding replaced, or a new one
/// appended.
pub open spec fn set_binding(b: Seq<(Seq<char>, Seq<char>)>, action: Seq<char>, keys: Seq<char>) -> Seq<(Seq<char>, Seq<char>)>
    decreases b.len(),
{
    if b.len() == 0 {
        seq![(action, keys)]
    } else if b[0].0 == action {
        b.update(0, (action, keys))
    } else {
        seq![b[0]] + set_binding(b.drop_first(), action, keys)
    }
}

/// The bindings without the first binding of `action`.
pub open spec fn remove_binding(b: Seq<(Seq<char>, Seq<char>)>, action: Seq<char>) -> Seq<(Seq<char>, Seq<char>)>
    decreases b.len(),
{
    if b.len() == 0 {
        b
    } else if b[0].0 == action {
        b.drop_first()
    } else {
        seq![b[0]] + remove_binding(b.drop_first(), action)
    }
}

proof fn lemma_first_index_keys(b: Seq<(Seq<char>, Seq<char>)>, action: Seq<char>, i: int)
    requires
        first_index(b, action, i),
    ensures
        bound_keys(b, action) == Some(b[i].1),
    decreases b.len(),
{
    if i > 0 {
        assert(b[0].0 != action);
        assert forall|j: int| 0 <= j < i - 1 implies #[trigger] b.drop_first()[j].0 != action by {
            assert(b.drop_first()[j] == b[j + 1]);
        }
        lemma_first_index_keys(b.drop_first(), action, i - 1);
    }
}

proof fn lemma_no_index_keys(b: Seq<(Seq<char>, Seq<char>)>, action: Seq<char>)
    requires
        forall|j: int| 0 <= j < b.len() ==> #[trigger] b[j].0 != action,
    ensures
        bound_keys(b, action) is None,
    decreases b.len(),
{
    if b.len() > 0 {
        assert(b[0].0 != action);
        assert forall|j: int| 0 <= j < b.len() - 1 implies #[trigger] b.drop_first()[j].0 != action by {
            assert(b.drop_first()[j] == b[j + 1]);
        }
        lemma_no_index_keys(b.drop_first(), action);
    }
}

proof fn lemma_set_binding_at(b: Seq<(Seq<char>, Seq<char>)>, action: Seq<char>, keys: Seq<char>, i: int)
    requires
        first_index(b, action, i),
    ensures
        set_binding(b, action, keys) == b.update(i, (action, keys)),
    decreases b.len(),
{
    if i > 0 {
        assert(b[0].0 != action);
        assert forall|j: int| 0 <= j < i - 1 implies #[trigger] b.drop_first()[j].0 != action by {
            assert(b.drop_first()[j] == b[j + 1]);
        }
        lemma_set_binding_at(b.drop_first(), action, keys, i - 1);
        assert(seq![b[0]] + b.drop_first().update(i - 1, (action, keys)) =~= b.update(i, (action, keys)));
    }
}

proof fn lemma_set_binding_absent(b: Seq<(Seq<char>, Seq<char>)>, action: Seq<char>, keys: Seq<char>)
    requires
        forall|j: int| 0 <= j < b.len() ==> #[trigger] b[j].0 != action,
    ensures
        set_binding(b, action, keys) == b.push((action, keys)),
    decreases b.len(),
{
    if b.len() > 0 {
        assert(b[0].0 != action);
        assert forall|j: int| 0 <= j < b.len() - 1 implies #[trigger] b.drop_first()[j].0 != action by {
            assert(b.drop_first()[j] == b[j + 1]);
        }
        lemma_set_binding_absent(b.drop_first(), action, keys);
        assert(seq![b[0]] + b.drop_first().push((action, keys)) =~= b.push((action, keys)));
    } else {
        assert(seq![(action, keys)] =~= b.push((action, keys)));
    }
}

proof fn lemma_remove_binding_at(b: Seq<(Seq<char>, Seq<char>)>, action: Seq<char>, i: int)
    requires
        first_index(b, action, i),
    ensures
        remove_binding(b, action) == b.remove(i),
    decreases b.len(),
{
    if i > 0 {
        assert(b[0].0 != action);
        assert forall|j: int| 0 <= j < i - 1 implies #[trigger] b.drop_first()[j].0 != action by {
            assert(b.drop_first()[j] == b[j + 1]);
        }
        lemma_remove_binding_at(b.drop_first(), action, i - 1);
        assert(seq![b[0]] + b.drop_first().remove(i - 1) =~= b.remove(i));
    } else {
        assert(b.drop_first() =~= b.remove(0));
    }
}

} // verus!
