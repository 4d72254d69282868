//! The live, filterable view of all services: one source list (the last full
//! fetch) and a filtered view recomputed deterministically from the source
//! list, the filter text and the activity-class filter. The selection index
//! is always valid, or `None` exactly when the filtered view is empty.

use vstd::prelude::*;
use crate::service::{Service, ServiceView, ServiceStateView, file_placeholder};
use crate::text::{seq_contains, lower_seq, seq_ends_with, contains_lower, str_ends_with, str_eq};
use crate::list_sync::{sorted_by_name, unique_names, dedup_first, has_name, normalize_listing,
    map_lookup, lookup_state};

verus! {

/// The activity-class filter cycled by the user: everything, only active,
/// only inactive (neither active nor failed), or only failed units.
#[derive(Clone, Copy, PartialEq, Eq, Structural)]
pub enum ActiveFilterState {
    All,
    Active,
    Inactive,
    Failed,
}

impl ActiveFilterState {
    /// The cycle followed by repeated filter keys.
    pub open spec fn next_spec(self) -> ActiveFilterState {
        match self {
            ActiveFilterState::All => ActiveFilterState::Active,
            ActiveFilterState::Active => ActiveFilterState::Inactive,
            ActiveFilterState::Inactive => ActiveFilterState::Failed,
            ActiveFilterState::Failed => ActiveFilterState::All,
        }
    }

    pub fn next(self) -> (r: ActiveFilterState)
        ensures
            r == self.next_spec(),
    {
        match self {
            ActiveFilterState::All => ActiveFilterState::Active,
            ActiveFilterState::Active => ActiveFilterState::Inactive,
            ActiveFilterState::Inactive => ActiveFilterState::Failed,
            ActiveFilterState::Failed => ActiveFilterState::All,
        }
    }

    /// The label shown beside the tab title.
    pub open spec fn label(self) -> Seq<char> {
        match self {
            ActiveFilterState::All => "all"@,
            ActiveFilterState::Active => "active"@,
            ActiveFilterState::Inactive => "inactive"@,
            ActiveFilterState::Failed => "failed"@,
        }
    }

    pub fn as_str(self) -> (r: &'static str)
        ensures
            r@ == self.label(),
    {
        match self {
            ActiveFilterState::All => "all",
            ActiveFilterState::Active => "active",
            ActiveFilterState::Inactive => "inactive",
            ActiveFilterState::Failed => "failed",
        }
    }
}

/// Does a unit's `active` value satisfy the activity-class filter?
pub open spec fn activity_matches(af: ActiveFilterState, active: Seq<char>) -> bool {
    match af {
        ActiveFilterState::All => true,
        ActiveFilterState::Active => active == "active"@,
        ActiveFilterState::Inactive => active != "active"@ && active != "failed"@,
        ActiveFilterState::Failed => active == "failed"@,
    }
}

/// Units outside the `.service` class are shown only when all units are
/// requested.
pub open spec fn scope_matches(show_all: bool, name: Seq<char>) -> bool {
    show_all || seq_ends_with(name, ".service"@)
}

/// The full filter predicate: case-insensitive name substring, activity
/// class, and unit class.
pub open spec fn passes_filter(
    s: Service,
    text: Seq<char>,
    af: ActiveFilterState,
    show_all: bool,
) -> bool {
    &&& seq_contains(lower_seq(s@.name), lower_seq(text))
    &&& activity_matches(af, s@.state.active)
    &&& scope_matches(show_all, s@.name)
}

/// The filtered view determined by the source list and the filter settings.
pub open spec fn filtered_view(
    svcs: Seq<Service>,
    text: Seq<char>,
    af: ActiveFilterState,
    show_all: bool,
) -> Seq<Service> {
    svcs.filter(|s: Service| passes_filter(s, text, af, show_all))
}

/// `sub` is obtained from `sup` by deleting elements, keeping relative order.
pub open spec fn is_subsequence_of(sub: Seq<Service>, sup: Seq<Service>) -> bool
    decreases sup.len(),
{
    if sub.len() == 0 {
        true
    } else if sup.len() == 0 {
        false
    } else {
        (sub.last() == sup.last() && is_subsequence_of(sub.drop_last(), sup.drop_last()))
            || is_subsequence_of(sub, sup.drop_last())
    }
}

/// The filtered view is a subsequence of the source list preserving relative
/// order, and every element of it satisfies the whole filter predicate.
pub proof fn lemma_filtered_is_subsequence(
    svcs: Seq<Service>,
    text: Seq<char>,
    af: ActiveFilterState,
    show_all: bool,
)
    ensures
        is_subsequence_of(filtered_view(svcs, text, af, show_all), svcs),
        forall|i: int|
            0 <= i < filtered_view(svcs, text, af, show_all).len() ==> passes_filter(
                #[trigger] filtered_view(svcs, text, af, show_all)[i],
                text,
                af,
                show_all,
            ),
    decreases svcs.len(),
{
    broadcast use vstd::seq_lib::group_filter_ensures;

    let pred = |s: Service| passes_filter(s, text, af, show_all);
    reveal(Seq::filter);
    if svcs.len() == 0 {
    } else {
        lemma_filtered_is_subsequence(svcs.drop_last(), text, af, show_all);
        let f = svcs.filter(pred);
        let ff = svcs.drop_last().filter(pred);
        if pred(svcs.last()) {
            assert(f == ff.push(svcs.last()));
            assert(f.last() == svcs.last());
            assert(f.drop_last() =~= ff);
        } else {
            assert(f == ff);
        }
    }
}

/// Toggling the unit-class filter twice leaves the filtered view exactly as
/// it was: same elements, same order.
pub proof fn lemma_toggle_filter_twice(
    svcs: Seq<Service>,
    text: Seq<char>,
    af: ActiveFilterState,
    show_all: bool,
)
    ensures
        filtered_view(svcs, text, af, !!show_all) == filtered_view(svcs, text, af, show_all),
{
}

/// A service whose `file` still holds the placeholder takes the state the
/// enrichment map carries for its name; anything else is left untouched, so
/// a directly fetched value is never overwritten by a stale background fetch.
pub open spec fn enriched_view(v: ServiceView, pairs: Seq<(String, String)>) -> ServiceView {
    if v.state.file == file_placeholder() && map_lookup(pairs, v.name) is Some {
        ServiceView {
            state: ServiceStateView { file: map_lookup(pairs, v.name)->0, ..v.state },
            ..v
        }
    } else {
        v
    }
}

/// The source list with `s` replacing its first namesake, or appended when
/// the name is new.
pub open spec fn replace_or_append(svcs: Seq<Service>, s: Service) -> Seq<Service>
    decreases svcs.len(),
{
    if svcs.len() == 0 {
        seq![s]
    } else if svcs[0]@.name == s@.name {
        seq![s] + svcs.drop_first()
    } else {
        seq![svcs[0]] + replace_or_append(svcs.drop_first(), s)
    }
}

/// A jump of `d` forward from `i` lands on `(i + d) % len`, computed without
/// a wide intermediate.
proof fn lemma_wrapped_jump(i: int, d: int, len: int)
    requires
        0 <= i < len,
        0 <= d,
    ensures
        ({
            let j = d % len;
            (if i + j < len {
                i + j
            } else {
                i + j - len
            }) == (i + d) % len
        }),
{
    let j = d % len;
    vstd::arithmetic::div_mod::lemma_mod_bound(d, len);
    vstd::arithmetic::div_mod::lemma_add_mod_noop(i, d, len);
    vstd::arithmetic::div_mod::lemma_small_mod(i as nat, len as nat);
    if i + j < len {
        vstd::arithmetic::div_mod::lemma_small_mod((i + j) as nat, len as nat);
    } else {
        vstd::arithmetic::div_mod::lemma_mod_add_multiples_vanish(i + j - len, len);
        vstd::arithmetic::div_mod::lemma_small_mod((i + j - len) as nat, len as nat);
    }
}

/// A jump of `d` backward from `i` lands on `(i - d) % len`, computed
/// without going below zero.
proof fn lemma_wrapped_jump_back(i: int, d: int, len: int)
    requires
        0 <= i < len,
        0 <= d,
    ensures
        ({
            let j = d % len;
            (if i >= j {
                i - j
            } else {
                i + (len - j)
            }) == (i - d) % len
        }),
{
    let j = d % len;
    vstd::arithmetic::div_mod::lemma_mod_bound(d, len);
    vstd::arithmetic::div_mod::lemma_sub_mod_noop(i, d, len);
    vstd::arithmetic::div_mod::lemma_small_mod(i as nat, len as nat);
    if i >= j {
        vstd::arithmetic::div_mod::lemma_small_mod((i - j) as nat, len as nat);
    } else {
        vstd::arithmetic::div_mod::lemma_mod_add_multiples_vanish(i - j, len);
        vstd::arithmetic::div_mod::lemma_small_mod((i + (len - j)) as nat, len as nat);
    }
}

/// The table owned by the UI thread: the authoritative service list, the
/// filtered view derived from it, and the selection.
pub struct ServiceTable {
    pub services: Vec<Service>,
    pub filtered_services: Vec<Service>,
    pub selected: Option<usize>,
    pub filter_text: String,
    pub active_filter_state: ActiveFilterState,
    pub show_all_units: bool,
}

impl ServiceTable {
    /// The standing invariant: the filtered view is exactly the filter of the
    /// source list, and the selection is in range or `None` exactly when the
    /// view is empty.
    pub open spec fn wf(self) -> bool {
        &&& self.filtered_services@ == filtered_view(
            self.services@,
            self.filter_text@,
            self.active_filter_state,
            self.show_all_units,
        )
        &&& match self.selected {
            Option::None => self.filtered_services@.len() == 0,
            Option::Some(i) => i < self.filtered_services@.len(),
        }
    }

    /// The selection, as the spec sees it after a view of length `len` was
    /// recomputed.
    pub open spec fn clamped_selection(old_sel: Option<usize>, len: nat) -> Option<usize> {
        if len == 0 {
            Option::None
        } else if old_sel is Some && (old_sel->0 as nat) < len {
            old_sel
        } else {
            Option::Some(0)
        }
    }

    pub fn new() -> (t: ServiceTable)
        ensures
            t.wf(),
            t.services@.len() == 0,
            t.filtered_services@.len() == 0,
            t.selected is None,
            t.filter_text@.len() == 0,
            t.active_filter_state == ActiveFilterState::All,
            t.show_all_units == false,
    {
        proof {
            reveal(Seq::filter);
        }
        ServiceTable {
            services: Vec::new(),
            filtered_services: Vec::new(),
            selected: None,
            filter_text: String::new(),
            active_filter_state: ActiveFilterState::All,
            show_all_units: false,
        }
    }

    /// Recomputes the filtered view and clamps the selection; the one place
    /// both derived pieces of state are rebuilt.
    fn recompute(&mut self)
        ensures
            final(self).services@ == old(self).services@,
            final(self).filter_text@ == old(self).filter_text@,
            final(self).active_filter_state == old(self).active_filter_state,
            final(self).show_all_units == old(self).show_all_units,
            final(self).filtered_services@ == filtered_view(
                old(self).services@,
                old(self).filter_text@,
                old(self).active_filter_state,
                old(self).show_all_units,
            ),
            final(self).selected == ServiceTable::clamped_selection(
                old(self).selected,
                final(self).filtered_services@.len(),
            ),
            final(self).wf(),
    {
        let ghost text = self.filter_text@;
        let af = self.active_filter_state;
        let show_all = self.show_all_units;
        let n = self.services.len();
        let mut out: Vec<Service> = Vec::new();
        let mut i: usize = 0;
        proof {
            reveal(Seq::filter);
            assert(self.services@.take(0) =~= Seq::<Service>::empty());
        }
        while i < n
            invariant
                0 <= i <= n,
                n == self.services@.len(),
                af == self.active_filter_state,
                show_all == self.show_all_units,
                text == self.filter_text@,
                out@ == filtered_view(self.services@.take(i as int), text, af, show_all),
            decreases n - i,
        {
            let s = &self.services[i];
            proof {
                reveal(Seq::filter);
                assert(self.services@.take(i + 1).drop_last() =~= self.services@.take(i as int));
                assert(self.services@.take(i + 1).last() == self.services@[i as int]);
            }
            let name_ok = contains_lower(s.name(), self.filter_text.as_str());
            let act = s.state().active();
            let act_ok = match af {
                ActiveFilterState::All => true,
                ActiveFilterState::Active => str_eq(act, "active"),
                ActiveFilterState::Inactive => !str_eq(act, "active") && !str_eq(act, "failed"),
                ActiveFilterState::Failed => str_eq(act, "failed"),
            };
            let scope_ok = show_all || str_ends_with(s.name(), ".service");
            if name_ok && act_ok && scope_ok {
                let u = self.services[i].clone();
                out.push(u);
            }
            i = i + 1;
        }
        proof {
            assert(self.services@.take(n as int) =~= self.services@);
        }
        let len = out.len();
        self.filtered_services = out;
        let sel = match self.selected {
            None => if len > 0 { Some(0usize) } else { None },
            Some(i) => {
                if i < len {
                    Some(i)
                } else if len > 0 {
                    Some(0usize)
                } else {
                    None
                }
            },
        };
        self.selected = sel;
    }

    /// Applies new filter text and recomputes the view. After it, the
    /// selection is `None` exactly when the filtered view is empty, and in
    /// range otherwise.
    pub fn refresh(&mut self, filter_text: &str)
        ensures
            final(self).services@ == old(self).services@,
            final(self).filter_text@ == filter_text@,
            final(self).active_filter_state == old(self).active_filter_state,
            final(self).show_all_units == old(self).show_all_units,
            final(self).filtered_services@ == filtered_view(
                old(self).services@,
                filter_text@,
                old(self).active_filter_state,
                old(self).show_all_units,
            ),
            final(self).selected == ServiceTable::clamped_selection(
                old(self).selected,
                final(self).filtered_services@.len(),
            ),
            final(self).wf(),
    {
        self.filter_text = filter_text.to_owned();
        self.recompute();
    }

    /// Replaces the source list with a fresh raw listing: deduplicated by
    /// name (first occurrence wins), sorted case-insensitively, and the
    /// filtered view and selection rebuilt.
    pub fn set_services(&mut self, units: &Vec<Service>)
        ensures
            sorted_by_name(final(self).services@),
            unique_names(final(self).services@),
            final(self).services@.to_multiset() == dedup_first(units@).to_multiset(),
            forall|n: Seq<char>| #[trigger]
                has_name(final(self).services@, n) <==> has_name(units@, n),
            final(self).filter_text@ == old(self).filter_text@,
            final(self).active_filter_state == old(self).active_filter_state,
            final(self).show_all_units == old(self).show_all_units,
            final(self).filtered_services@ == filtered_view(
                final(self).services@,
                old(self).filter_text@,
                old(self).active_filter_state,
                old(self).show_all_units,
            ),
            final(self).wf(),
    {
        self.services = normalize_listing(units);
        self.recompute();
    }

    /// Flips between showing every unit and only `.service` units, then
    /// rebuilds the view. Flipping twice restores the view exactly.
    pub fn toggle_show_all(&mut self)
        ensures
            final(self).show_all_units == !old(self).show_all_units,
            final(self).services@ == old(self).services@,
            final(self).filter_text@ == old(self).filter_text@,
            final(self).active_filter_state == old(self).active_filter_state,
            final(self).filtered_services@ == filtered_view(
                old(self).services@,
                old(self).filter_text@,
                old(self).active_filter_state,
                !old(self).show_all_units,
            ),
            final(self).wf(),
    {
        self.show_all_units = !self.show_all_units;
        self.recompute();
    }

    /// Advances the activity-class filter one step and rebuilds the view,
    /// selecting the first entry of the new view when it is not empty.
    pub fn cycle_activity_filter(&mut self)
        ensures
            final(self).active_filter_state == old(self).active_filter_state.next_spec(),
            final(self).services@ == old(self).services@,
            final(self).filter_text@ == old(self).filter_text@,
            final(self).show_all_units == old(self).show_all_units,
            final(self).filtered_services@ == filtered_view(
                old(self).services@,
                old(self).filter_text@,
                old(self).active_filter_state.next_spec(),
                old(self).show_all_units,
            ),
            final(self).selected == (if final(self).filtered_services@.len() == 0 {
                Option::<usize>::None
            } else {
                Option::<usize>::Some(0)
            }),
            final(self).wf(),
    {
        self.active_filter_state = self.active_filter_state.next();
        self.selected = None;
        self.recompute();
    }

    /// The service the selection points at, if any.
    pub fn get_selected_service(&self) -> (r: Option<Service>)
        requires
            self.wf(),
        ensures
            match self.selected {
                Option::Some(i) => r == Option::Some(self.filtered_services@[i as int]),
                Option::None => r is None,
            },
    {
        match self.selected {
            Some(i) => Some(self.filtered_services[i].clone()),
            None => None,
        }
    }

    /// Is the filtered view empty?
    pub fn is_filtered_list_empty(&self) -> (r: bool)
        ensures
            r == (self.filtered_services@.len() == 0),
    {
        self.filtered_services.len() == 0
    }

    pub fn get_active_filter_state(&self) -> (r: ActiveFilterState)
        ensures
            r == self.active_filter_state,
    {
        self.active_filter_state
    }

    /// Takes the `Service` a resolved action returned: it replaces the
    /// matching entry of the source list by name, or is appended when its
    /// name is new, and the filtered view is rebuilt — no full refetch.
    pub fn update_with_service(&mut self, s: Service)
        ensures
            final(self).services@ == replace_or_append(old(self).services@, s),
            final(self).filter_text@ == old(self).filter_text@,
            final(self).active_filter_state == old(self).active_filter_state,
            final(self).show_all_units == old(self).show_all_units,
            final(self).filtered_services@ == filtered_view(
                final(self).services@,
                old(self).filter_text@,
                old(self).active_filter_state,
                old(self).show_all_units,
            ),
            final(self).selected == ServiceTable::clamped_selection(
                old(self).selected,
                final(self).filtered_services@.len(),
            ),
            final(self).wf(),
    {
        let ghost svcs = self.services@;
        let n = self.services.len();
        let mut i: usize = 0;
        proof {
            assert(svcs.take(0) =~= Seq::<Service>::empty());
            assert(svcs.skip(0) =~= svcs);
            assert(replace_or_append(svcs, s) =~= svcs.take(0) + replace_or_append(
                svcs.skip(0),
                s,
            ));
        }
        let mut found = false;
        while !found && i < n
            invariant
                0 <= i <= n,
                n == svcs.len(),
                self.services@ == svcs,
                replace_or_append(svcs, s) == svcs.take(i as int) + replace_or_append(
                    svcs.skip(i as int),
                    s,
                ),
                found ==> i < n && svcs[i as int]@.name == s@.name,
            decreases n - i + (if found { 0int } else { 1int }),
        {
            if str_eq(self.services[i].name(), s.name()) {
                found = true;
            } else {
                proof {
                    assert(svcs.skip(i as int)[0] == svcs[i as int]);
                    assert(svcs.skip(i as int).drop_first() =~= svcs.skip(i + 1));
                    assert(svcs.take(i as int) + seq![svcs[i as int]] =~= svcs.take(i + 1));
                    assert(svcs.take(i as int) + (seq![svcs[i as int]] + replace_or_append(
                        svcs.skip(i + 1),
                        s,
                    )) =~= svcs.take(i + 1) + replace_or_append(svcs.skip(i + 1), s));
                }
                i = i + 1;
            }
        }
        if found {
            proof {
                assert(svcs.skip(i as int)[0] == svcs[i as int]);
                assert(svcs.skip(i as int).drop_first() =~= svcs.skip(i + 1));
                assert(replace_or_append(svcs.skip(i as int), s) =~= seq![s] + svcs.skip(i + 1));
                assert(svcs.take(i as int) + (seq![s] + svcs.skip(i + 1)) =~= svcs.update(
                    i as int,
                    s,
                ));
            }
            self.services.remove(i);
            self.services.insert(i, s);
            proof {
                assert(self.services@ =~= svcs.update(i as int, s)) by {
                    assert(self.services@ == svcs.remove(i as int).insert(i as int, s));
                    assert(svcs.remove(i as int).insert(i as int, s) =~= svcs.update(i as int, s));
                }
            }
        } else {
            proof {
                assert(svcs.skip(n as int).len() == 0);
                assert(replace_or_append(svcs.skip(n as int), s) == seq![s]);
                assert(svcs.take(n as int) + seq![s] =~= svcs.push(s));
                assert(replace_or_append(svcs, s) =~= svcs.push(s));
            }
            self.services.push(s);
        }
        self.recompute();
    }

    /// Merges the enrichment map produced by the background worker: only a
    /// `file` still holding the placeholder takes the mapped value, so a
    /// value obtained by a direct per-unit fetch is never overwritten.
    pub fn apply_enrichment(&mut self, states: &Vec<(String, String)>)
        ensures
            final(self).services@.len() == old(self).services@.len(),
            forall|i: int|
                0 <= i < old(self).services@.len() ==> (#[trigger] final(self).services@[i])@
                    == enriched_view(old(self).services@[i]@, states@),
            final(self).filter_text@ == old(self).filter_text@,
            final(self).active_filter_state == old(self).active_filter_state,
            final(self).show_all_units == old(self).show_all_units,
            final(self).filtered_services@ == filtered_view(
                final(self).services@,
                old(self).filter_text@,
                old(self).active_filter_state,
                old(self).show_all_units,
            ),
            final(self).wf(),
    {
        let ghost svcs = self.services@;
        let n = self.services.len();
        let mut out: Vec<Service> = Vec::new();
        let mut i: usize = 0;
        while i < n
            invariant
                0 <= i <= n,
                n == svcs.len(),
                self.services@ == svcs,
                out@.len() == i,
                forall|t: int|
                    0 <= t < i ==> (#[trigger] out@[t])@ == enriched_view(svcs[t]@, states@),
            decreases n - i,
        {
            let mut u = self.services[i].clone();
            if str_eq(u.state().file(), "...") {
                match lookup_state(states, u.name()) {
                    Some(v) => {
                        u.set_file_state(v);
                    },
                    None => {},
                }
            }
            out.push(u);
            i = i + 1;
        }
        self.services = out;
        self.recompute();
    }

    /// Moves the selection one row down, wrapping to the top past the last
    /// row. An empty view keeps no selection.
    pub fn select_next(&mut self)
        requires
            old(self).wf(),
        ensures
            *final(self) == (ServiceTable { selected: final(self).selected, ..*old(self) }),
            final(self).selected == (match old(self).selected {
                Option::Some(i) => if i + 1 < old(self).filtered_services@.len() {
                    Option::Some((i + 1) as usize)
                } else {
                    Option::Some(0usize)
                },
                Option::None => if old(self).filtered_services@.len() > 0 {
                    Option::Some(0usize)
                } else {
                    Option::<usize>::None
                },
            }),
            final(self).wf(),
    {
        let len = self.filtered_services.len();
        match self.selected {
            Some(i) => {
                if i + 1 < len {
                    self.selected = Some(i + 1);
                } else {
                    self.selected = Some(0);
                }
            },
            None => {
                if len > 0 {
                    self.selected = Some(0);
                }
            },
        }
    }

    /// Moves the selection one row up, wrapping to the bottom past the first
    /// row. An empty view keeps no selection.
    pub fn select_previous(&mut self)
        requires
            old(self).wf(),
        ensures
            *final(self) == (ServiceTable { selected: final(self).selected, ..*old(self) }),
            final(self).selected == (match old(self).selected {
                Option::Some(i) => if i == 0 {
                    Option::Some((old(self).filtered_services@.len() - 1) as usize)
                } else {
                    Option::Some((i - 1) as usize)
                },
                Option::None => if old(self).filtered_services@.len() > 0 {
                    Option::Some(0usize)
                } else {
                    Option::<usize>::None
                },
            }),
            final(self).wf(),
    {
        let len = self.filtered_services.len();
        match self.selected {
            Some(i) => {
                if i == 0 {
                    self.selected = Some(len - 1);
                } else {
                    self.selected = Some(i - 1);
                }
            },
            None => {
                if len > 0 {
                    self.selected = Some(0);
                }
            },
        }
    }

    /// Jumps the selection ten rows down, wrapping around the end of the
    /// view.
    pub fn select_page_down(&mut self)
        requires
            old(self).wf(),
        ensures
            *final(self) == (ServiceTable { selected: final(self).selected, ..*old(self) }),
            final(self).selected == (match old(self).selected {
                Option::Some(i) => Option::Some(
                    (((i + 10) as int) % (old(self).filtered_services@.len() as int)) as usize,
                ),
                Option::None => if old(self).filtered_services@.len() > 0 {
                    Option::Some(0usize)
                } else {
                    Option::<usize>::None
                },
            }),
            final(self).wf(),
    {
        let len = self.filtered_services.len();
        match self.selected {
            Some(i) => {
                let j = 10usize % len;
                let w = if i < len - j {
                    i + j
                } else {
                    i - (len - j)
                };
                proof {
                    lemma_wrapped_jump(i as int, 10, len as int);
                }
                self.selected = Some(w);
            },
            None => {
                if len > 0 {
                    self.selected = Some(0);
                }
            },
        }
    }

    /// Jumps the selection ten rows up, wrapping around the start of the
    /// view.
    pub fn select_page_up(&mut self)
        requires
            old(self).wf(),
        ensures
            *final(self) == (ServiceTable { selected: final(self).selected, ..*old(self) }),
            final(self).selected == (match old(self).selected {
                Option::Some(i) => Option::Some(
                    (((i - 10) as int) % (old(self).filtered_services@.len() as int)) as usize,
                ),
                Option::None => if old(self).filtered_services@.len() > 0 {
                    Option::Some(0usize)
                } else {
                    Option::<usize>::None
                },
            }),
            final(self).wf(),
    {
        let len = self.filtered_services.len();
        match self.selected {
            Some(i) => {
                let j = 10usize % len;
                let w = if i >= j {
                    i - j
                } else {
                    i + (len - j)
                };
                proof {
                    lemma_wrapped_jump_back(i as int, 10, len as int);
                }
                self.selected = Some(w);
            },
            None => {
                if len > 0 {
                    self.selected = Some(0);
                }
            },
        }
    }

    /// Points the selection at `index`, clamping it so the selection
    /// invariant keeps holding.
    pub fn set_selected_index(&mut self, index: usize)
        ensures
            *final(self) == (ServiceTable {
                selected: ServiceTable::clamped_selection(
                    Option::Some(index),
                    old(self).filtered_services@.len(),
                ),
                ..*old(self)
            }),
            old(self).wf() ==> final(self).wf(),
    {
        let len = self.filtered_services.len();
        if index < len {
            self.selected = Some(index);
        } else if len > 0 {
            self.selected = Some(0);
        } else {
            self.selected = None;
        }
    }
}

} // verus!
