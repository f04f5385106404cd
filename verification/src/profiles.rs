//! Per-app profile resolution and the wheel-input decision for the foreground
//! window. Finding the foreground process and its integrity level is the
//! program's job; the decisions on what it found are here.

use crate::config::{eq_ignore_ascii_case, ButtonMap, ButtonMapView, Config, ProfileView};
use vstd::prelude::*;

verus! {

/// Whether the wheel must be handed back to the device (native reports)
/// for a foreground window of integrity `target`, given our own integrity
/// `ours`.
///
/// `SendInput` cannot cross a UIPI boundary, so a higher target needs native
/// input. Unknown is not evidence that injection is allowed: it fails closed.
pub fn needs_native_wheel(ours: Option<u32>, target: Option<u32>) -> (r: bool)
    ensures
        r == (match (ours, target) {
            (Some(o), Some(t)) => t > o,
            _ => true,
        }),
{
    match (ours, target) {
        (Some(ours), Some(target)) => target > ours,
        _ => true,
    }
}

pub open spec fn is_path_separator(c: char) -> bool {
    c == '\\' || c == '/'
}

/// The part of `path` after its last `\` or `/` (all of it when it has none).
pub open spec fn basename_of(path: Seq<char>) -> Seq<char> {
    if exists|i: int| 0 <= i < path.len() && is_path_separator(#[trigger] path[i]) {
        let last = choose|i: int|
            0 <= i < path.len() && is_path_separator(#[trigger] path[i]) && forall|j: int|
                i < j < path.len() ==> !is_path_separator(#[trigger] path[j]);
        path.subrange(last + 1, path.len() as int)
    } else {
        path
    }
}

/// The executable name at the end of a full image path.
pub fn basename(path: &str) -> (r: String)
    ensures
        r@ == basename_of(path@),
{
    let n = path.unicode_len();
    let mut i = n;
    while i > 0 && !(path.get_char(i - 1) == '\\' || path.get_char(i - 1) == '/')
        invariant
            n == path@.len(),
            i <= n,
            forall|j: int| i <= j < n ==> !is_path_separator(#[trigger] path@[j]),
        decreases i,
    {
        i = i - 1;
    }
    let tail = path.substring_char(i, n);
    proof {
        if i > 0 {
            let k = (i - 1) as int;
            assert(is_path_separator(path@[k]));
            let last = choose|x: int|
                0 <= x < path@.len() && is_path_separator(#[trigger] path@[x]) && forall|j: int|
                    x < j < path@.len() ==> !is_path_separator(#[trigger] path@[j]);
            assert(forall|j: int| k < j < path@.len() ==> !is_path_separator(#[trigger] path@[j]));
            if last < k {
                assert(!is_path_separator(path@[k]));
            }
            if last > k {
                assert(!is_path_separator(path@[last]));
            }
        } else {
            assert(tail@ =~= path@);
        }
    }
    String::from_str(tail)
}

/// The button map for the foreground process among `profiles`: the first
/// profile that lists it, else `default`.
pub open spec fn resolve_in(profiles: Seq<ProfileView>, process: Seq<char>, default: ButtonMapView) -> ButtonMapView
    decreases profiles.len(),
{
    if profiles.len() == 0 {
        default
    } else if profiles[0].matches(process) {
        profiles[0].buttons
    } else {
        resolve_in(profiles.drop_first(), process, default)
    }
}

/// Pick the button mapping for the given foreground process: the first profile
/// whose `match_processes` contains it, else the default profile.
pub fn resolve_button_map(cfg: &Config, process: Option<&str>) -> (r: ButtonMap)
    ensures
        r@ == (match process {
            Some(p) => resolve_in(cfg@.profiles, p@, cfg@.default_profile.buttons),
            None => cfg@.default_profile.buttons,
        }),
{
    if let Some(proc) = process {
        let mut i: usize = 0;
        assert(cfg@.profiles.skip(0) =~= cfg@.profiles);
        while i < cfg.profiles.len()
            invariant
                process == Some(proc),
                i <= cfg.profiles.len(),
                cfg@.profiles.len() == cfg.profiles@.len(),
                resolve_in(cfg@.profiles.skip(i as int), proc@, cfg@.default_profile.buttons)
                    == resolve_in(cfg@.profiles, proc@, cfg@.default_profile.buttons),
            decreases cfg.profiles.len() - i,
        {
            let ghost rest = cfg@.profiles.skip(i as int);
            assert(cfg@.profiles[i as int] == cfg.profiles@[i as int]@);
            assert(rest[0] == cfg.profiles@[i as int]@);
            if cfg.profiles[i].matches(proc) {
                let r = cfg.profiles[i].buttons.clone();
                assert(rest.len() > 0);
                assert(rest[0].matches(proc@));
                assert(r@ == rest[0].buttons);
                assert(resolve_in(rest, proc@, cfg@.default_profile.buttons) == rest[0].buttons);
                return r;
            }
            assert(rest.drop_first() =~= cfg@.profiles.skip(i + 1));
            i = i + 1;
        }
        assert(cfg@.profiles.skip(i as int) =~= Seq::<ProfileView>::empty());
    }
    cfg.default_profile.buttons.clone()
}

/// First match wins: when profile `i` lists the process and no earlier one
/// does, its buttons are the ones in force; when none lists it, the default
/// profile's are.
pub proof fn lemma_first_match_wins(profiles: Seq<ProfileView>, process: Seq<char>, default: ButtonMapView)
    ensures
        forall|i: int|
            0 <= i < profiles.len() && #[trigger] profiles[i].matches(process) && (forall|j: int|
                0 <= j < i ==> !profiles[j].matches(process)) ==> resolve_in(profiles, process, default)
                == profiles[i].buttons,
        (forall|j: int| 0 <= j < profiles.len() ==> !profiles[j].matches(process)) ==> resolve_in(
            profiles,
            process,
            default,
        ) == default,
    decreases profiles.len(),
{
    if profiles.len() > 0 {
        let rest = profiles.drop_first();
        lemma_first_match_wins(rest, process, default);
        assert forall|i: int|
            0 <= i < profiles.len() && #[trigger] profiles[i].matches(process) && (forall|j: int|
                0 <= j < i ==> !profiles[j].matches(process)) implies resolve_in(
            profiles,
            process,
            default,
        ) == profiles[i].buttons by {
            if i > 0 {
                assert(!profiles[0].matches(process));
                assert(rest[i - 1] == profiles[i]);
                assert forall|j: int| 0 <= j < i - 1 implies !rest[j].matches(process) by {
                    assert(rest[j] == profiles[j + 1]);
                }
            }
        }
        if forall|j: int| 0 <= j < profiles.len() ==> !profiles[j].matches(process) {
            assert(!profiles[0].matches(process));
            assert forall|j: int| 0 <= j < rest.len() implies !rest[j].matches(process) by {
                assert(rest[j] == profiles[j + 1]);
            }
        }
    }
}

/// A process listed by a profile (at any position in its list) gets that
/// profile's buttons unless an earlier profile lists it too.
pub proof fn lemma_listed_process_gets_its_profile(
    profiles: Seq<ProfileView>,
    process: Seq<char>,
    default: ButtonMapView,
    i: int,
    k: int,
)
    requires
        0 <= i < profiles.len(),
        0 <= k < profiles[i].match_processes.len(),
        eq_ignore_ascii_case(profiles[i].match_processes[k], process),
        forall|j: int| 0 <= j < i ==> !(#[trigger] profiles[j]).matches(process),
    ensures
        resolve_in(profiles, process, default) == profiles[i].buttons,
{
    crate::config::lemma_listed_entry_matches(profiles[i], process, k);
    lemma_first_match_wins(profiles, process, default);
}

} // verus!
