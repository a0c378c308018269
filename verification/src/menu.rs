//! The main menu: which entries are on offer, and how the selection moves.
//!
//! The entries on offer follow from three facts alone: whether a credential
//! for the registry is at hand, whether the configuration file exists and
//! whether the environment file exists.

use vstd::prelude::*;
use crate::state::MenuSelection;

verus! {

/// Whether `entry` is on offer.
pub open spec fn is_available(
    entry: MenuSelection,
    credential: bool,
    config_exists: bool,
    env_exists: bool,
) -> bool {
    match entry {
        MenuSelection::GenerateConfig => !config_exists,
        MenuSelection::GenerateEnv => config_exists && !env_exists,
        MenuSelection::CheckUpdates => true,
        MenuSelection::UpdateToken => credential,
        MenuSelection::Proceed => env_exists && config_exists,
        MenuSelection::Cancel => true,
    }
}

/// Whether `entry` is on offer.
pub fn available(entry: MenuSelection, credential: bool, config_exists: bool, env_exists: bool) -> (r:
    bool)
    ensures
        r == is_available(entry, credential, config_exists, env_exists),
{
    match entry {
        MenuSelection::GenerateConfig => !config_exists,
        MenuSelection::GenerateEnv => config_exists && !env_exists,
        MenuSelection::CheckUpdates => true,
        MenuSelection::UpdateToken => credential,
        MenuSelection::Proceed => env_exists && config_exists,
        MenuSelection::Cancel => true,
    }
}

/// The entries on offer, in the order in which they are listed.
pub open spec fn listed_options(credential: bool, config_exists: bool, env_exists: bool) -> Seq<
    MenuSelection,
> {
    let first = if !config_exists {
        seq![MenuSelection::GenerateConfig]
    } else if !env_exists {
        seq![MenuSelection::GenerateEnv]
    } else {
        Seq::<MenuSelection>::empty()
    };
    let token = if credential {
        seq![MenuSelection::UpdateToken]
    } else {
        Seq::<MenuSelection>::empty()
    };
    let proceed = if env_exists && config_exists {
        seq![MenuSelection::Proceed]
    } else {
        Seq::<MenuSelection>::empty()
    };
    first + seq![MenuSelection::CheckUpdates] + token + proceed + seq![MenuSelection::Cancel]
}

/// The entries on offer, in the order in which they are listed.
pub fn menu_options(credential: bool, config_exists: bool, env_exists: bool) -> (options: Vec<
    MenuSelection,
>)
    ensures
        options@ == listed_options(credential, config_exists, env_exists),
        options@.len() >= 2,
        options@.no_duplicates(),
        forall|e: MenuSelection|
            options@.contains(e) <==> is_available(e, credential, config_exists, env_exists),
{
    let mut options: Vec<MenuSelection> = Vec::new();
    if !config_exists {
        options.push(MenuSelection::GenerateConfig);
    }
    if config_exists && !env_exists {
        options.push(MenuSelection::GenerateEnv);
    }
    options.push(MenuSelection::CheckUpdates);
    if credential {
        options.push(MenuSelection::UpdateToken);
    }
    if env_exists && config_exists {
        options.push(MenuSelection::Proceed);
    }
    options.push(MenuSelection::Cancel);
    proof {
        lemma_listed_options(credential, config_exists, env_exists);
    }
    options
}

/// The written-out list holds each entry on offer once, and no other entry.
pub proof fn lemma_listed_options(credential: bool, config_exists: bool, env_exists: bool)
    ensures
        listed_options(credential, config_exists, env_exists).len() >= 2,
        listed_options(credential, config_exists, env_exists).no_duplicates(),
        forall|e: MenuSelection|
            listed_options(credential, config_exists, env_exists).contains(e) <==> is_available(
                e,
                credential,
                config_exists,
                env_exists,
            ),
{
    let list = listed_options(credential, config_exists, env_exists);
    assert forall|e: MenuSelection| list.contains(e) <==> is_available(
        e,
        credential,
        config_exists,
        env_exists,
    ) by {
        if is_available(e, credential, config_exists, env_exists) {
            let at = position_in(list, e);
            if list.len() > 0 && list[0] == e {
                assert(list.contains(e));
            } else if list.len() > 1 && list[1] == e {
                assert(list.contains(e));
            } else if list.len() > 2 && list[2] == e {
                assert(list.contains(e));
            } else if list.len() > 3 && list[3] == e {
                assert(list.contains(e));
            } else if list.len() > 4 && list[4] == e {
                assert(list.contains(e));
            }
        }
    }
}

/// The first place at or after `from` at which `entry` stands in `options`, or
/// 0 if it stands at none.
pub open spec fn place_from(options: Seq<MenuSelection>, entry: MenuSelection, from: int) -> int
    decreases options.len() - from,
{
    if from < 0 || from >= options.len() {
        0
    } else if options[from] == entry {
        from
    } else {
        place_from(options, entry, from + 1)
    }
}

/// The place of `entry` in `options`, or 0 if it is not among them.
pub open spec fn position_in(options: Seq<MenuSelection>, entry: MenuSelection) -> int {
    place_from(options, entry, 0)
}

/// The search from `from` finds `entry` at `at` if it stands there and nowhere in between.
pub proof fn lemma_place_from(options: Seq<MenuSelection>, entry: MenuSelection, from: int, at: int)
    requires
        0 <= from <= at < options.len(),
        options[at] == entry,
        forall|k: int| from <= k < at ==> options[k] != entry,
    ensures
        place_from(options, entry, from) == at,
    decreases at - from,
{
    if from < at {
        lemma_place_from(options, entry, from + 1, at);
    }
}

/// The search always ends inside the list, and on the entry if the entry is in the list.
pub proof fn lemma_place_is_valid(options: Seq<MenuSelection>, entry: MenuSelection, from: int)
    requires
        0 <= from,
        options.len() > 0,
    ensures
        0 <= place_from(options, entry, from) < options.len(),
        (exists|k: int| from <= k < options.len() && options[k] == entry) ==> options[place_from(
            options,
            entry,
            from,
        )] == entry,
    decreases options.len() - from,
{
    if from < options.len() && options[from] != entry {
        lemma_place_is_valid(options, entry, from + 1);
    }
}

/// The selection once it is held to the entries on offer: it stays if it is
/// on offer, and otherwise falls back to the first entry.
pub open spec fn clamped(options: Seq<MenuSelection>, selection: MenuSelection) -> MenuSelection {
    if options.contains(selection) || options.len() == 0 {
        selection
    } else {
        options[0]
    }
}

/// The entry above the selection; above the first entry comes the last.
pub open spec fn entry_above(options: Seq<MenuSelection>, selection: MenuSelection) -> MenuSelection
    recommends
        options.len() > 0,
{
    let at = position_in(options, selection);
    if at == 0 {
        options[options.len() - 1]
    } else {
        options[at - 1]
    }
}

/// The entry below the selection; below the last entry comes the first.
pub open spec fn entry_below(options: Seq<MenuSelection>, selection: MenuSelection) -> MenuSelection
    recommends
        options.len() > 0,
{
    let at = position_in(options, selection);
    if at + 1 >= options.len() {
        options[0]
    } else {
        options[at + 1]
    }
}

/// The place of `entry` in `options`, or 0 if it is not among them.
pub fn position(options: &Vec<MenuSelection>, entry: MenuSelection) -> (at: usize)
    ensures
        at == position_in(options@, entry),
        options@.len() > 0 ==> at < options@.len(),
        options@.contains(entry) ==> options@[at as int] == entry,
        !options@.contains(entry) ==> at == 0,
{
    let mut i: usize = 0;
    while i < options.len()
        invariant
            i <= options.len(),
            forall|k: int| 0 <= k < i ==> options@[k] != entry,
        decreases options.len() - i,
    {
        if options[i] == entry {
            proof {
                lemma_place_from(options@, entry, 0, i as int);
            }
            return i;
        }
        i += 1;
    }
    proof {
        if options@.len() > 0 {
            lemma_place_is_valid(options@, entry, 0);
        }
        lemma_place_missing(options@, entry, 0);
    }
    0
}

/// The search for an entry that is not in the list gives 0.
pub proof fn lemma_place_missing(options: Seq<MenuSelection>, entry: MenuSelection, from: int)
    requires
        0 <= from,
        forall|k: int| from <= k < options.len() ==> options[k] != entry,
    ensures
        place_from(options, entry, from) == 0,
    decreases options.len() - from,
{
    if from < options.len() {
        lemma_place_missing(options, entry, from + 1);
    }
}

/// Holds the selection to the entries on offer.
pub fn clamp_selection(options: &Vec<MenuSelection>, selection: MenuSelection) -> (r: MenuSelection)
    ensures
        r == clamped(options@, selection),
        options@.len() > 0 ==> options@.contains(r),
{
    if options.len() == 0 {
        return selection;
    }
    let at = position(options, selection);
    if options[at] == selection {
        selection
    } else {
        options[0]
    }
}

/// Moves the selection up by one entry, from the first entry to the last.
pub fn select_above(options: &Vec<MenuSelection>, selection: MenuSelection) -> (r: MenuSelection)
    requires
        options@.len() > 0,
    ensures
        r == entry_above(options@, selection),
        options@.contains(r),
{
    let at = position(options, selection);
    if at == 0 {
        options[options.len() - 1]
    } else {
        options[at - 1]
    }
}

/// Moves the selection down by one entry, from the last entry to the first.
pub fn select_below(options: &Vec<MenuSelection>, selection: MenuSelection) -> (r: MenuSelection)
    requires
        options@.len() > 0,
    ensures
        r == entry_below(options@, selection),
        options@.contains(r),
{
    let at = position(options, selection);
    let next: usize = if at >= options.len() - 1 {
        0
    } else {
        at + 1
    };
    options[next]
}

/// Moving the selection never leaves the entries on offer, and it wraps at
/// both ends: up from the first entry gives the last, down from the last
/// entry gives the first.
pub proof fn lemma_cycling_stays_on_offer(
    credential: bool,
    config_exists: bool,
    env_exists: bool,
    selection: MenuSelection,
)
    ensures
        ({
            let options = listed_options(credential, config_exists, env_exists);
            &&& is_available(entry_above(options, selection), credential, config_exists, env_exists)
            &&& is_available(entry_below(options, selection), credential, config_exists, env_exists)
            &&& is_available(clamped(options, selection), credential, config_exists, env_exists)
            &&& selection == options[0] ==> entry_above(options, selection) == options.last()
            &&& selection == options.last() ==> entry_below(options, selection) == options[0]
        }),
{
    let options = listed_options(credential, config_exists, env_exists);
    lemma_listed_options(credential, config_exists, env_exists);
    lemma_place_is_valid(options, selection, 0);
    if selection == options.last() {
        let last = options.len() - 1;
        assert forall|k: int| 0 <= k < last implies options[k] != selection by {}
        lemma_place_from(options, selection, 0, last);
    }
}

} // verus!
