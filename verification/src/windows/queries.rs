//! What the window manager asks the pattern engine.

use vstd::prelude::*;

use crate::app_id::Patterns;
use crate::lists::{first_index, lemma_first_index, lemma_same_first};
use crate::string_map::{entry_index, lemma_entry_index};
use crate::string_map::{Entry, StringMap};
use crate::text::clone_opt;
use crate::text::{opt_view, or_empty, views};
use crate::windows::focus::{role_of_layer, role_of_window};
use crate::windows::scene::{has_key, is_layer, LayerWindow, Window};
use crate::windows::state::{ActiveView, Windows};

verus! {

/// Whether an identifier is one of a window's names.
pub open spec fn is_name(w: Window, id: Option<Seq<char>>) -> bool {
    id == opt_view(w.title) || id == opt_view(w.xdg_app_id) || id == opt_view(w.app_id)
}

/// Whether an identifier is one of a layer shell window's names.
pub open spec fn is_layer_name(w: LayerWindow, id: Option<Seq<char>>) -> bool {
    id == opt_view(w.title) || id == opt_view(w.xdg_app_id) || id == opt_view(w.app_id)
}

/// Whether an identifier is a name of one of the first windows.
pub open spec fn named_before(windows: Seq<Window>, n: int, id: Option<Seq<char>>) -> bool {
    exists|i: int| 0 <= i < n && is_name(#[trigger] windows[i], id)
}

/// Whether an identifier is a name of one of the first layer shell windows.
pub open spec fn layer_named_before(windows: Seq<LayerWindow>, n: int, id: Option<Seq<char>>) -> bool {
    exists|i: int| 0 <= i < n && is_layer_name(#[trigger] windows[i], id)
}

/// Whether a list holds an identifier.
pub open spec fn lists(ids: Seq<Option<String>>, id: Option<Seq<char>>) -> bool {
    exists|i: int| 0 <= i < ids.len() && opt_view(#[trigger] ids[i]) == id
}

proof fn lemma_push_lists(ids: Seq<Option<String>>, new: Option<String>)
    ensures
        forall|id: Option<Seq<char>>|
            #[trigger] lists(ids.push(new), id) <==> lists(ids, id) || opt_view(new) == id,
{
    let after = ids.push(new);
    assert forall|id: Option<Seq<char>>| #[trigger]
        lists(after, id) <==> lists(ids, id) || opt_view(new) == id by {
        if lists(ids, id) {
            let i = choose|i: int| 0 <= i < ids.len() && opt_view(#[trigger] ids[i]) == id;
            assert(opt_view(after[i]) == id);
        }
        if opt_view(new) == id {
            assert(opt_view(after[ids.len() as int]) == id);
        }
        if lists(after, id) {
            let i = choose|i: int| 0 <= i < after.len() && opt_view(#[trigger] after[i]) == id;
            if i < ids.len() {
                assert(opt_view(ids[i]) == id);
            }
        }
    }
}

fn push_names(
    title: &Option<String>,
    xdg_app_id: &Option<String>,
    app_id: &Option<String>,
    out: &mut Vec<Option<String>>,
)
    ensures
        forall|id: Option<Seq<char>>|
            #[trigger] lists(final(out)@, id) <==> lists(old(out)@, id) || id == opt_view(*title)
                || id == opt_view(*xdg_app_id) || id == opt_view(*app_id),
{
    let a = clone_opt(title);
    let b = clone_opt(xdg_app_id);
    let c = clone_opt(app_id);
    proof {
        lemma_push_lists(out@, a);
        lemma_push_lists(out@.push(a), b);
        lemma_push_lists(out@.push(a).push(b), c);
    }
    out.push(a);
    out.push(b);
    out.push(c);
}

fn push_windows(windows: &Vec<Window>, out: &mut Vec<Option<String>>)
    ensures
        forall|id: Option<Seq<char>>|
            #[trigger] lists(final(out)@, id) <==> lists(old(out)@, id) || named_before(
                windows@,
                windows.len() as int,
                id,
            ),
{
    let ghost start = out@;
    let mut i: usize = 0;
    while i < windows.len()
        invariant
            i <= windows.len(),
            forall|id: Option<Seq<char>>|
                #[trigger] lists(out@, id) <==> lists(start, id) || named_before(
                    windows@,
                    i as int,
                    id,
                ),
        decreases windows.len() - i,
    {
        let w = &windows[i];
        let ghost before = out@;
        push_names(&w.title, &w.xdg_app_id, &w.app_id, out);
        proof {
            assert forall|id: Option<Seq<char>>| #[trigger]
                lists(out@, id) <==> lists(start, id) || named_before(
                    windows@,
                    i as int + 1,
                    id,
                ) by {
                assert(lists(before, id) <==> lists(start, id) || named_before(
                    windows@,
                    i as int,
                    id,
                ));
                if is_name(windows@[i as int], id) {
                    assert(named_before(windows@, i as int + 1, id));
                }
                if named_before(windows@, i as int, id) {
                    let k = choose|k: int| 0 <= k < i && is_name(#[trigger] windows@[k], id);
                    assert(is_name(windows@[k], id));
                    assert(named_before(windows@, i as int + 1, id));
                }
                if named_before(windows@, i as int + 1, id) && !is_name(windows@[i as int], id) {
                    let k = choose|k: int| 0 <= k < i + 1 && is_name(#[trigger] windows@[k], id);
                    assert(is_name(windows@[k], id) && k < i);
                }
            }
        }
        i += 1;
    }
}

fn push_layer_names(windows: &Vec<LayerWindow>, out: &mut Vec<Option<String>>)
    ensures
        forall|id: Option<Seq<char>>|
            #[trigger] lists(final(out)@, id) <==> lists(old(out)@, id) || layer_named_before(
                windows@,
                windows.len() as int,
                id,
            ),
{
    let ghost start = out@;
    let mut i: usize = 0;
    while i < windows.len()
        invariant
            i <= windows.len(),
            forall|id: Option<Seq<char>>|
                #[trigger] lists(out@, id) <==> lists(start, id) || layer_named_before(
                    windows@,
                    i as int,
                    id,
                ),
        decreases windows.len() - i,
    {
        let w = &windows[i];
        let ghost before = out@;
        push_names(&w.title, &w.xdg_app_id, &w.app_id, out);
        proof {
            assert forall|id: Option<Seq<char>>| #[trigger]
                lists(out@, id) <==> lists(start, id) || layer_named_before(
                    windows@,
                    i as int + 1,
                    id,
                ) by {
                assert(lists(before, id) <==> lists(start, id) || layer_named_before(
                    windows@,
                    i as int,
                    id,
                ));
                if is_layer_name(windows@[i as int], id) {
                    assert(layer_named_before(windows@, i as int + 1, id));
                }
                if layer_named_before(windows@, i as int, id) {
                    let k = choose|k: int| 0 <= k < i && is_layer_name(#[trigger] windows@[k], id);
                    assert(is_layer_name(windows@[k], id));
                    assert(layer_named_before(windows@, i as int + 1, id));
                }
                if layer_named_before(windows@, i as int + 1, id) && !is_layer_name(
                    windows@[i as int],
                    id,
                ) {
                    let k = choose|k: int|
                        0 <= k < i + 1 && is_layer_name(#[trigger] windows@[k], id);
                    assert(is_layer_name(windows@[k], id) && k < i);
                }
            }
        }
        i += 1;
    }
}

/// Values of the first `n` entries of a map.
pub open spec fn entry_values(entries: Seq<Entry>, n: int) -> Seq<Seq<char>>
    decreases n,
{
    if n <= 0 {
        Seq::empty()
    } else {
        entry_values(entries, n - 1).push(entries[n - 1].value@)
    }
}

proof fn lemma_entry_values(entries: Seq<Entry>, n: int)
    requires
        0 <= n <= entries.len(),
    ensures
        entry_values(entries, n).len() == n,
        forall|i: int| 0 <= i < n ==> #[trigger] entry_values(entries, n)[i] == entries[i].value@,
    decreases n,
{
    if n > 0 {
        lemma_entry_values(entries, n - 1);
    }
}

/// Values of a map are listed.
proof fn lemma_value_listed(map: StringMap, key: Seq<char>)
    ensures
        map.lookup(key) matches Some(value) ==> entry_values(
            map.entries@,
            map.entries.len() as int,
        ).contains(value@),
{
    let all = entry_values(map.entries@, map.entries.len() as int);
    lemma_entry_values(map.entries@, map.entries.len() as int);
    lemma_entry_index(map.entries@, key, 0);
    if let Some(i) = entry_index(map.entries@, key, 0) {
        assert(all[i] == map.entries[i].value@);
    }
}

fn push_values(map: &StringMap, out: &mut Vec<String>)
    ensures
        views(final(out)@) == views(old(out)@) + entry_values(
            map.entries@,
            map.entries.len() as int,
        ),
{
    let ghost start = out@;
    let mut i: usize = 0;
    while i < map.entries.len()
        invariant
            i <= map.entries.len(),
            views(out@) == views(start) + entry_values(map.entries@, i as int),
        decreases map.entries.len() - i,
    {
        let ghost before = out@;
        out.push(map.entries[i].value.clone());
        assert(views(out@) =~= views(before).push(map.entries@[i as int].value@));
        i += 1;
    }
}

impl Windows {
    /// Whether a pattern might be tried on an identifier.
    pub open spec fn asked(&self, id: Option<Seq<char>>) -> bool {
        ||| id is None
        ||| id == Some(Seq::<char>::empty())
        ||| named_before(self.layouts.windows@, self.layouts.windows.len() as int, id)
        ||| named_before(self.layouts.loose@, self.layouts.loose.len() as int, id)
        ||| layer_named_before(self.layers.windows@, self.layers.windows.len() as int, id)
    }

    /// List all identifiers that a pattern might be tried on.
    pub fn identifiers(&self) -> (r: Vec<Option<String>>)
        ensures
            forall|id: Option<Seq<char>>| #[trigger] self.asked(id) <==> lists(r@, id),
    {
        let mut out: Vec<Option<String>> = Vec::new();
        let unknown: Option<String> = None;
        let empty: Option<String> = Some(String::new());
        proof {
            lemma_push_lists(out@, unknown);
            lemma_push_lists(out@.push(unknown), empty);
        }
        out.push(unknown);
        out.push(empty);
        assert(forall|id: Option<Seq<char>>|
            #[trigger] lists(out@, id) <==> id is None || id == Some(Seq::<char>::empty()));
        push_windows(&self.layouts.windows, &mut out);
        push_windows(&self.layouts.loose, &mut out);
        push_layer_names(&self.layers.windows, &mut out);
        out
    }

    /// Patterns which are stored.
    pub open spec fn stored_patterns(&self) -> Seq<Seq<char>> {
        entry_values(self.system_roles.entries@, self.system_roles.entries.len() as int)
            + entry_values(self.command_map.entries@, self.command_map.entries.len() as int)
            + entry_values(self.card_map.entries@, self.card_map.entries.len() as int)
    }

    /// List all patterns which are stored.
    pub fn patterns(&self) -> (r: Vec<String>)
        ensures
            views(r@) == self.stored_patterns(),
    {
        let mut out: Vec<String> = Vec::new();
        assert(views(out@) =~= Seq::<Seq<char>>::empty());
        push_values(&self.system_roles, &mut out);
        push_values(&self.command_map, &mut out);
        push_values(&self.card_map, &mut out);
        assert(views(out@) =~= self.stored_patterns());
        out
    }

    /// Whether patterns include all which are stored.
    pub open spec fn includes_stored(&self, bases: Seq<Seq<char>>) -> bool {
        forall|base: Seq<char>| #[trigger]
            self.stored_patterns().contains(base) ==> bases.contains(base)
    }

    /// Whether two tables of verdicts agree on everything that some patterns
    /// might be asked.
    pub open spec fn agree(&self, bases: Seq<Seq<char>>, a: Patterns, b: Patterns) -> bool {
        forall|base: Seq<char>, id: Option<Seq<char>>|
            bases.contains(base) && self.asked(id) ==> #[trigger] a.accepts(base, id) == b.accepts(
                base,
                id,
            )
    }

    /// Everything that is stored is among the patterns.
    pub proof fn lemma_stored(&self, bases: Seq<Seq<char>>, key: Seq<char>)
        requires
            self.includes_stored(bases),
        ensures
            self.system_roles.lookup(key) matches Some(base) ==> bases.contains(base@),
            self.command_map.lookup(key) matches Some(base) ==> bases.contains(base@),
            self.card_map.lookup(key) matches Some(base) ==> bases.contains(base@),
            forall|i: int|
                0 <= i < self.system_roles.entries.len() ==> bases.contains(
                    #[trigger] self.system_roles.entries@[i].value@,
                ),
    {
        let roles = entry_values(
            self.system_roles.entries@,
            self.system_roles.entries.len() as int,
        );
        let commands = entry_values(self.command_map.entries@, self.command_map.entries.len() as int);
        let cards = entry_values(self.card_map.entries@, self.card_map.entries.len() as int);
        let all = self.stored_patterns();
        lemma_value_listed(self.system_roles, key);
        lemma_value_listed(self.command_map, key);
        lemma_value_listed(self.card_map, key);
        lemma_entry_values(self.system_roles.entries@, self.system_roles.entries.len() as int);
        assert forall|base: Seq<char>|
            #![trigger bases.contains(base)]
            roles.contains(base) || commands.contains(base) || cards.contains(
                base,
            ) implies bases.contains(base) by {
            if roles.contains(base) {
                let k = choose|k: int| 0 <= k < roles.len() && roles[k] == base;
                assert(all[k] == base);
            } else if commands.contains(base) {
                let k = choose|k: int| 0 <= k < commands.len() && commands[k] == base;
                assert(all[roles.len() + k] == base);
            } else {
                let k = choose|k: int| 0 <= k < cards.len() && cards[k] == base;
                assert(all[roles.len() + commands.len() + k] == base);
            }
            assert(all.contains(base));
        }
        assert forall|i: int| 0 <= i < self.system_roles.entries.len() implies bases.contains(
            #[trigger] self.system_roles.entries@[i].value@,
        ) by {
            assert(roles[i] == self.system_roles.entries@[i].value@);
        }
    }

    proof fn lemma_window_names(&self, key: u64)
        ensures
            self.layouts.window(key) matches Some(w) ==> {
                &&& self.asked(opt_view(w.title))
                &&& self.asked(opt_view(w.app_id))
                &&& self.asked(opt_view(w.xdg_app_id))
                &&& self.asked(opt_view(w.final_id()))
                &&& self.asked(Some(or_empty(w.title)))
                &&& self.asked(Some(or_empty(w.app_id)))
                &&& self.asked(Some(or_empty(w.xdg_app_id)))
                &&& self.asked(Some(or_empty(w.final_id())))
            },
    {
        lemma_first_index(self.layouts.windows@, has_key(key), 0);
        lemma_first_index(self.layouts.loose@, has_key(key), 0);
        if let Some(w) = self.layouts.window(key) {
            let shown = first_index(self.layouts.windows@, has_key(key), 0);
            let (all, i) = if shown is Some {
                (self.layouts.windows@, shown->0)
            } else {
                (self.layouts.loose@, first_index(self.layouts.loose@, has_key(key), 0)->0)
            };
            assert(all[i] == w);
            assert(is_name(all[i], opt_view(w.title)));
            assert(is_name(all[i], opt_view(w.app_id)));
            assert(is_name(all[i], opt_view(w.xdg_app_id)));
            assert(named_before(all, all.len() as int, opt_view(w.title)));
            assert(named_before(all, all.len() as int, opt_view(w.app_id)));
            assert(named_before(all, all.len() as int, opt_view(w.xdg_app_id)));
        }
    }

    proof fn lemma_layer_names(&self, i: int)
        requires
            0 <= i < self.layers.windows.len(),
        ensures
            self.asked(opt_view(self.layers.windows[i].title)),
            self.asked(opt_view(self.layers.windows[i].app_id)),
            self.asked(opt_view(self.layers.windows[i].final_id())),
    {
        let all = self.layers.windows@;
        let w = all[i];
        assert(is_layer_name(all[i], opt_view(w.title)));
        assert(is_layer_name(all[i], opt_view(w.app_id)));
        assert(is_layer_name(all[i], opt_view(w.xdg_app_id)));
        assert(layer_named_before(all, all.len() as int, opt_view(w.title)));
        assert(layer_named_before(all, all.len() as int, opt_view(w.app_id)));
        assert(layer_named_before(all, all.len() as int, opt_view(w.xdg_app_id)));
    }

    proof fn lemma_same_key_named(
        &self,
        app: Seq<char>,
        bases: Seq<Seq<char>>,
        a: Patterns,
        b: Patterns,
        key: Option<u64>,
    )
        requires
            self.includes_stored(bases),
            self.agree(bases, a, b),
        ensures
            bases.contains(app) ==> self.key_named(app, a, key) == self.key_named(app, b, key),
            self.is_home(a, true, key) == self.is_home(b, true, key),
            self.is_home(a, false, key) == self.is_home(b, false, key),
    {
        self.lemma_stored(bases, "home"@);
        if let Some(key) = key {
            self.lemma_window_names(key);
        }
    }

    proof fn lemma_same_place(
        &self,
        app: Seq<char>,
        bases: Seq<Seq<char>>,
        a: Patterns,
        b: Patterns,
        from: int,
    )
        requires
            self.includes_stored(bases),
            self.agree(bases, a, b),
            0 <= from,
        ensures
            bases.contains(app) ==> self.app_place(app, a, from) == self.app_place(app, b, from),
            self.home_index(a, true, from) == self.home_index(b, true, from),
            self.home_index(a, false, from) == self.home_index(b, false, from),
        decreases self.layouts.layouts.len() - from,
    {
        if from < self.layouts.layouts.len() {
            self.lemma_same_key_named(app, bases, a, b, self.layouts.layouts[from].primary);
            self.lemma_same_key_named(app, bases, a, b, self.layouts.layouts[from].secondary);
            self.lemma_same_place(app, bases, a, b, from + 1);
        }
    }

    proof fn lemma_same_role(&self, bases: Seq<Seq<char>>, a: Patterns, b: Patterns)
        requires
            self.includes_stored(bases),
            self.agree(bases, a, b),
        ensures
            self.focused_role(a) == self.focused_role(b),
    {
        let entries = self.system_roles.entries@;
        self.lemma_stored(bases, "home"@);
        if let Some(w) = self.focused_window() {
            let key = match self.layouts.window(self.layouts.focus->0) {
                Some(_) => self.layouts.focus->0,
                None => self.layouts.pending_active.primary->0,
            };
            self.lemma_window_names(key);
            assert(self.layouts.window(key) == Some(w));
            lemma_same_first(entries, role_of_window(a, w), role_of_window(b, w), 0);
        } else if let Some(focus) = self.layers.focus {
            lemma_first_index(self.layers.windows@, is_layer(focus.surface), 0);
            if let Some(layer) = self.layers.layer(focus.surface) {
                let i = first_index(self.layers.windows@, is_layer(focus.surface), 0)->0;
                self.lemma_layer_names(i);
                lemma_same_first(
                    entries,
                    role_of_layer(a, layer),
                    role_of_layer(b, layer),
                    0,
                );
            }
        }
    }

    proof fn lemma_same_system_layer(&self, bases: Seq<Seq<char>>, a: Patterns, b: Patterns)
        requires
            self.includes_stored(bases),
            self.agree(bases, a, b),
        ensures
            self.from_system_layer(a) == self.from_system_layer(b),
    {
        self.lemma_stored(bases, "nav"@);
        self.lemma_stored(bases, "home"@);
        if let Some(handle) = self.activated {
            if let Some(surface) = self.layouts.wl_surface(handle) {
                let p = self.system_layer(a, surface);
                let q = self.system_layer(b, surface);
                assert forall|i: int| 0 <= i < self.layers.windows.len() implies p(
                    #[trigger] self.layers.windows@[i],
                ) == q(self.layers.windows@[i]) by {
                    self.lemma_layer_names(i);
                }
                lemma_same_first(self.layers.windows@, p, q, 0);
            }
        }
    }

    /// All decisions depend on the verdicts of the stored patterns alone, and on
    /// those of a pattern which names an application. Only the listed identifiers
    /// matter.
    pub proof fn law_listed_identifiers_suffice(
        &self,
        app: Seq<char>,
        bases: Seq<Seq<char>>,
        a: Patterns,
        b: Patterns,
        now: u64,
    )
        requires
            self.includes_stored(bases),
            self.agree(bases, a, b),
        ensures
            bases.contains(app) ==> {
                &&& self.is_active(app, a) == self.is_active(app, b)
                &&& self.app_place(app, a, 0) == self.app_place(app, b, 0)
                &&& self.with_app_focused(app, a, now) == self.with_app_focused(app, b, now)
                &&& self.app_focusing(app, a, now) == self.app_focusing(app, b, now)
                &&& self.with_app_toggled(app, a, now) == self.with_app_toggled(app, b, now)
                &&& self.app_toggling(app, a, now) == self.app_toggling(app, b, now)
            },
            self.home_place(a) == self.home_place(b),
            self.lost_place(a) == self.lost_place(b),
            self.with_focus(a, now) == self.with_focus(b, now),
            self.focusing(a) == self.focusing(b),
    {
        self.lemma_same_place(app, bases, a, b, 0);
        self.lemma_same_role(bases, a, b);
        self.lemma_same_system_layer(bases, a, b);
        if let Some(key) = self.layouts.focus {
            self.lemma_window_names(key);
        }
        if let ActiveView::Fullscreen(key) = self.view {
            self.lemma_same_key_named(app, bases, a, b, Some(key));
        }
        assert(bases.contains(app) ==> self.is_active(app, a) == self.is_active(app, b));
    }
}

/// Every name of every window is asked about, and so are a missing and an empty name.
pub proof fn law_all_names_are_asked(s: Windows, at: int)
    ensures
        s.asked(None),
        s.asked(Some(Seq::empty())),
        0 <= at < s.layouts.windows.len() ==> {
            let w = s.layouts.windows[at];
            &&& s.asked(opt_view(w.title))
            &&& s.asked(opt_view(w.xdg_app_id))
            &&& s.asked(opt_view(w.app_id))
        },
        0 <= at < s.layouts.loose.len() ==> {
            let w = s.layouts.loose[at];
            &&& s.asked(opt_view(w.title))
            &&& s.asked(opt_view(w.xdg_app_id))
            &&& s.asked(opt_view(w.app_id))
        },
        0 <= at < s.layers.windows.len() ==> {
            let w = s.layers.windows[at];
            &&& s.asked(opt_view(w.title))
            &&& s.asked(opt_view(w.xdg_app_id))
            &&& s.asked(opt_view(w.app_id))
        },
{
    let windows = s.layouts.windows@;
    let loose = s.layouts.loose@;
    let layers = s.layers.windows@;
    if 0 <= at < windows.len() {
        let w = windows[at];
        assert(is_name(windows[at], opt_view(w.title)));
        assert(is_name(windows[at], opt_view(w.xdg_app_id)));
        assert(is_name(windows[at], opt_view(w.app_id)));
        assert(named_before(windows, windows.len() as int, opt_view(w.title)));
        assert(named_before(windows, windows.len() as int, opt_view(w.xdg_app_id)));
        assert(named_before(windows, windows.len() as int, opt_view(w.app_id)));
    }
    if 0 <= at < loose.len() {
        let w = loose[at];
        assert(is_name(loose[at], opt_view(w.title)));
        assert(is_name(loose[at], opt_view(w.xdg_app_id)));
        assert(is_name(loose[at], opt_view(w.app_id)));
        assert(named_before(loose, loose.len() as int, opt_view(w.title)));
        assert(named_before(loose, loose.len() as int, opt_view(w.xdg_app_id)));
        assert(named_before(loose, loose.len() as int, opt_view(w.app_id)));
    }
    if 0 <= at < layers.len() {
        let w = layers[at];
        assert(is_layer_name(layers[at], opt_view(w.title)));
        assert(is_layer_name(layers[at], opt_view(w.xdg_app_id)));
        assert(is_layer_name(layers[at], opt_view(w.app_id)));
        assert(layer_named_before(layers, layers.len() as int, opt_view(w.title)));
        assert(layer_named_before(layers, layers.len() as int, opt_view(w.xdg_app_id)));
        assert(layer_named_before(layers, layers.len() as int, opt_view(w.app_id)));
    }
}

/// Nothing but names of windows is asked about.
pub proof fn law_only_names_are_asked(s: Windows, id: Seq<char>)
    requires
        s.asked(Some(id)),
        id.len() > 0,
        forall|i: int|
            0 <= i < s.layouts.loose.len() ==> opt_view((#[trigger] s.layouts.loose[i]).title)
                != Some(id) && opt_view(s.layouts.loose[i].xdg_app_id) != Some(id) && opt_view(
                s.layouts.loose[i].app_id,
            ) != Some(id),
        forall|i: int|
            0 <= i < s.layers.windows.len() ==> opt_view((#[trigger] s.layers.windows[i]).title)
                != Some(id) && opt_view(s.layers.windows[i].xdg_app_id) != Some(id) && opt_view(
                s.layers.windows[i].app_id,
            ) != Some(id),
    ensures
        exists|i: int|
            0 <= i < s.layouts.windows.len() && (opt_view((#[trigger] s.layouts.windows[i]).title)
                == Some(id) || opt_view(s.layouts.windows[i].xdg_app_id) == Some(id) || opt_view(
                s.layouts.windows[i].app_id,
            ) == Some(id)),
{
    let name = Some(id);
    let windows = s.layouts.windows@;
    let loose = s.layouts.loose@;
    let layers = s.layers.windows@;
    if named_before(loose, loose.len() as int, name) {
        let i = choose|i: int| 0 <= i < loose.len() && is_name(#[trigger] loose[i], name);
        assert(s.layouts.loose[i] == loose[i]);
    }
    if layer_named_before(layers, layers.len() as int, name) {
        let i = choose|i: int| 0 <= i < layers.len() && is_layer_name(#[trigger] layers[i], name);
        assert(s.layers.windows[i] == layers[i]);
    }
    assert(named_before(windows, windows.len() as int, name));
    let i = choose|i: int| 0 <= i < windows.len() && is_name(#[trigger] windows[i], name);
    assert(s.layouts.windows[i] == windows[i]);
}

/// The stored patterns are those of the roles, of the commands and of the cards.
pub proof fn law_stored_patterns(s: Windows, base: Seq<char>)
    ensures
        s.stored_patterns().contains(base) <==> {
            ||| exists|i: int|
                0 <= i < s.system_roles.entries.len() && (
                #[trigger] s.system_roles.entries[i]).value@ == base
            ||| exists|i: int|
                0 <= i < s.command_map.entries.len() && (
                #[trigger] s.command_map.entries[i]).value@ == base
            ||| exists|i: int|
                0 <= i < s.card_map.entries.len() && (#[trigger] s.card_map.entries[i]).value@
                    == base
        },
{
    let roles = entry_values(s.system_roles.entries@, s.system_roles.entries.len() as int);
    let commands = entry_values(s.command_map.entries@, s.command_map.entries.len() as int);
    let cards = entry_values(s.card_map.entries@, s.card_map.entries.len() as int);
    let all = s.stored_patterns();
    lemma_entry_values(s.system_roles.entries@, s.system_roles.entries.len() as int);
    lemma_entry_values(s.command_map.entries@, s.command_map.entries.len() as int);
    lemma_entry_values(s.card_map.entries@, s.card_map.entries.len() as int);
    if all.contains(base) {
        let k = choose|k: int| 0 <= k < all.len() && all[k] == base;
        if k < roles.len() {
            assert(roles[k] == base);
            assert(s.system_roles.entries[k].value@ == base);
        } else if k < roles.len() + commands.len() {
            assert(commands[k - roles.len()] == base);
            assert(s.command_map.entries[k - roles.len()].value@ == base);
        } else {
            let j = k - roles.len() - commands.len();
            assert(cards[j] == base);
            assert(s.card_map.entries[j].value@ == base);
        }
    }
    assert forall|i: int|
        0 <= i < s.system_roles.entries.len() && (#[trigger] s.system_roles.entries[i]).value@
            == base implies all.contains(base) by {
        assert(roles[i] == base);
        assert(all[i] == base);
    }
    assert forall|i: int|
        0 <= i < s.command_map.entries.len() && (#[trigger] s.command_map.entries[i]).value@
            == base implies all.contains(base) by {
        assert(commands[i] == base);
        assert(all[roles.len() + i] == base);
    }
    assert forall|i: int|
        0 <= i < s.card_map.entries.len() && (#[trigger] s.card_map.entries[i]).value@
            == base implies all.contains(base) by {
        assert(cards[i] == base);
        assert(all[roles.len() + commands.len() + i] == base);
    }
}

/// An identifier is listed if it is somewhere in the list.
pub proof fn law_listed_identifiers(ids: Seq<Option<String>>, id: Option<Seq<char>>, at: int)
    ensures
        0 <= at < ids.len() && opt_view(ids[at]) == id ==> lists(ids, id),
        lists(ids, id) ==> ids.len() > 0,
        ids.len() == 1 ==> (lists(ids, id) <==> opt_view(ids[0]) == id),
{
}

} // verus!
