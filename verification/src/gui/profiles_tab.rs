//! Profile management: the edits the Profiles section makes.
//!
//! The default profile is kept apart from the list; the section shows it as
//! the first row (index 0), locked, so index `n > 0` is `profiles[n - 1]`. The
//! order matters: the first profile that matches the active window wins.

use super::profile_at;
use crate::config::{ActionView, ButtonMap, ButtonMapView, Config, ConfigView, Profile, ProfileView};
use crate::text::push_decimal;
use crate::text::decimal;
use vstd::prelude::*;

verus! {

/// A freshly added profile: named "New profile", matching nothing, every
/// button passed through.
pub open spec fn new_profile_view() -> ProfileView {
    ProfileView {
        name: "New profile"@,
        match_processes: Seq::empty(),
        buttons: ButtonMapView {
            back: ActionView::PassThrough,
            forward: ActionView::PassThrough,
            middle: ActionView::PassThrough,
        },
    }
}

pub open spec fn with_profiles(cfg: ConfigView, profiles: Seq<ProfileView>) -> ConfigView {
    ConfigView { profiles, ..cfg }
}

/// Append a new profile at the end of the list.
pub fn add_profile(cfg: &mut Config)
    ensures
        final(cfg)@ == with_profiles(old(cfg)@, old(cfg)@.profiles.push(new_profile_view())),
{
    let p = Profile { name: "New profile".to_owned(), match_processes: Vec::new(), buttons: ButtonMap::default() };
    assert(p@.match_processes =~= Seq::<Seq<char>>::empty());
    cfg.profiles.push(p);
    assert(cfg@.profiles =~= old(cfg)@.profiles.push(new_profile_view()));
}

/// Delete the profile at row `idx` (the default row cannot be deleted), and
/// the row selected afterwards: the same one, or the default row when it no
/// longer exists.
pub fn delete_profile(cfg: &mut Config, idx: usize, selected: usize) -> (sel: usize)
    requires
        idx <= old(cfg).profiles@.len(),
    ensures
        idx == 0 ==> final(cfg)@ == old(cfg)@ && sel == selected,
        idx > 0 ==> final(cfg)@ == with_profiles(old(cfg)@, old(cfg)@.profiles.remove(idx - 1)),
        idx > 0 ==> sel == (if selected >= old(cfg)@.profiles.len() {
            0
        } else {
            selected
        }),
        idx > 0 ==> sel <= final(cfg)@.profiles.len(),
{
    if idx == 0 {
        return selected;
    }
    let ghost before = cfg.profiles@;
    cfg.profiles.remove(idx - 1);
    assert(cfg@.profiles =~= old(cfg)@.profiles.remove(idx - 1)) by {
        assert forall|k: int| 0 <= k < cfg@.profiles.len() implies #[trigger] cfg@.profiles[k]
            == old(cfg)@.profiles.remove(idx - 1)[k] by {
            if k < idx - 1 {
                assert(cfg.profiles@[k] == before[k]);
            } else {
                assert(cfg.profiles@[k] == before[k + 1]);
            }
        }
    }
    if selected > cfg.profiles.len() {
        0
    } else {
        selected
    }
}

/// The list with the neighbours at `a` and `a + 1` exchanged.
pub open spec fn swap_adjacent(s: Seq<ProfileView>, a: int) -> Seq<ProfileView> {
    s.update(a, s[a + 1]).update(a + 1, s[a])
}

/// Exchange the profiles at list positions `a` and `a + 1`.
fn swap_next(profiles: &mut Vec<Profile>, a: usize)
    requires
        a + 1 < old(profiles)@.len(),
    ensures
        crate::config::profiles_view(final(profiles)@) == swap_adjacent(
            crate::config::profiles_view(old(profiles)@),
            a as int,
        ),
{
    let ghost before = profiles@;
    let n = profiles.len();
    assert(a + 1 < n);
    let p = profiles.remove(a + 1);
    profiles.insert(a, p);
    assert(crate::config::profiles_view(profiles@) =~= swap_adjacent(
        crate::config::profiles_view(before),
        a as int,
    )) by {
        assert forall|k: int| 0 <= k < profiles@.len() implies #[trigger] profiles@[k] == (if k
            == a {
            before[a + 1]
        } else if k == a + 1 {
            before[a as int]
        } else {
            before[k]
        }) by {}
    }
}

/// The profiles after moving row `idx` one place up (rows 0 and 1 stay).
pub open spec fn moved_up(profiles: Seq<ProfileView>, idx: int) -> Seq<ProfileView> {
    if idx > 1 {
        swap_adjacent(profiles, idx - 2)
    } else {
        profiles
    }
}

/// The profiles after moving row `idx` one place down (the default row and
/// the last row stay).
pub open spec fn moved_down(profiles: Seq<ProfileView>, idx: int) -> Seq<ProfileView> {
    if idx > 0 && idx < profiles.len() {
        swap_adjacent(profiles, idx - 1)
    } else {
        profiles
    }
}

/// Move the profile at row `idx` one place up (earlier matches win). Returns
/// whether anything moved.
pub fn move_profile_up(cfg: &mut Config, idx: usize) -> (moved: bool)
    requires
        idx <= old(cfg).profiles@.len(),
    ensures
        moved == (idx > 1),
        final(cfg)@ == with_profiles(old(cfg)@, moved_up(old(cfg)@.profiles, idx as int)),
{
    if idx > 1 {
        swap_next(&mut cfg.profiles, idx - 2);
        true
    } else {
        assert(cfg@ == with_profiles(old(cfg)@, old(cfg)@.profiles));
        false
    }
}

/// Move the profile at row `idx` one place down. Returns whether anything
/// moved.
pub fn move_profile_down(cfg: &mut Config, idx: usize) -> (moved: bool)
    ensures
        moved == (idx > 0 && idx < old(cfg)@.profiles.len()),
        final(cfg)@ == with_profiles(old(cfg)@, moved_down(old(cfg)@.profiles, idx as int)),
{
    if idx > 0 && idx < cfg.profiles.len() {
        swap_next(&mut cfg.profiles, idx - 1);
        true
    } else {
        assert(cfg@ == with_profiles(old(cfg)@, old(cfg)@.profiles));
        false
    }
}

/// Moving a profile down and then back up restores the order.
pub proof fn lemma_move_down_then_up_restores(profiles: Seq<ProfileView>, idx: int)
    requires
        0 < idx < profiles.len(),
    ensures
        moved_up(moved_down(profiles, idx), idx + 1) == profiles,
{
    assert(moved_up(moved_down(profiles, idx), idx + 1) =~= profiles);
}

/// Moving a profile up and then back down restores the order.
pub proof fn lemma_move_up_then_down_restores(profiles: Seq<ProfileView>, idx: int)
    requires
        1 < idx <= profiles.len(),
    ensures
        moved_down(moved_up(profiles, idx), idx - 1) == profiles,
{
    assert(moved_down(moved_up(profiles, idx), idx - 1) =~= profiles);
}

pub open spec fn without_match(p: ProfileView, j: int) -> ProfileView {
    ProfileView { name: p.name, match_processes: p.match_processes.remove(j), buttons: p.buttons }
}

/// Whether row `idx` exists and lists a process at position `j`.
pub open spec fn has_match(cfg: ConfigView, idx: int, j: int) -> bool {
    profile_at(cfg, idx) matches Some(p) && 0 <= j < p.match_processes.len()
}

/// The configuration without the `j`-th process of row `idx`.
pub open spec fn match_removed(cfg: ConfigView, idx: int, j: int) -> ConfigView {
    if idx == 0 {
        ConfigView { default_profile: without_match(cfg.default_profile, j), ..cfg }
    } else {
        with_profiles(cfg, cfg.profiles.update(idx - 1, without_match(cfg.profiles[idx - 1], j)))
    }
}

/// Stop matching the `j`-th process of row `idx`. Returns whether it existed.
pub fn remove_match(cfg: &mut Config, idx: usize, j: usize) -> (removed: bool)
    ensures
        removed == has_match(old(cfg)@, idx as int, j as int),
        removed ==> final(cfg)@ == match_removed(old(cfg)@, idx as int, j as int),
        !removed ==> final(cfg)@ == old(cfg)@,
{
    if idx == 0 {
        if j < cfg.default_profile.match_processes.len() {
            let ghost before = cfg.default_profile.match_processes@;
            cfg.default_profile.match_processes.remove(j);
            assert(cfg@.default_profile.match_processes =~= old(cfg)@.default_profile.match_processes.remove(
                j as int,
            )) by {
                assert forall|k: int| 0 <= k < cfg.default_profile.match_processes@.len() implies
                    #[trigger] cfg.default_profile.match_processes@[k] == (if k < j {
                    before[k]
                } else {
                    before[k + 1]
                }) by {}
            }
            return true;
        }
        false
    } else if idx - 1 < cfg.profiles.len() {
        let i = idx - 1;
        if j < cfg.profiles[i].match_processes.len() {
            let mut p = cfg.profiles[i].clone();
            let ghost before = p.match_processes@;
            p.match_processes.remove(j);
            assert(p@.match_processes =~= old(cfg)@.profiles[i as int].match_processes.remove(j as int)) by {
                assert forall|k: int| 0 <= k < p.match_processes@.len() implies
                    #[trigger] p.match_processes@[k] == (if k < j {
                    before[k]
                } else {
                    before[k + 1]
                }) by {}
            }
            cfg.profiles.set(i, p);
            assert(cfg@.profiles =~= old(cfg)@.profiles.update(
                i as int,
                without_match(old(cfg)@.profiles[i as int], j as int),
            ));
            return true;
        }
        false
    } else {
        false
    }
}

/// The countdown shown while waiting for the user to click a window.
pub open spec fn pick_countdown_text(secs_left: u32) -> Seq<char> {
    "Click a window\u{2026} "@ + decimal(secs_left as nat) + "s"@
}

pub fn pick_countdown(secs_left: u32) -> (r: String)
    ensures
        r@ == pick_countdown_text(secs_left),
{
    let mut s = "Click a window\u{2026} ".to_owned();
    push_decimal(&mut s, secs_left);
    s.append("s");
    s
}

} // verus!
