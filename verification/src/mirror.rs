//! Attribute updates for the external mirror. The ledger only ever writes
//! the mirror; the keys it owns cannot be set by a caller.
//!
//! An operation changes the ledger first and then hands out the update it
//! wants mirrored. Delivering the update is the caller's second step: a
//! delivery that fails leaves the ledger as the operation left it, and the
//! same update can be delivered again later.

use vstd::prelude::*;
use vstd::string::*;
use crate::stage::Stage;

verus! {

/// One mirrored attribute as plain text: key, then value.
pub type Entry = (Seq<char>, Seq<char>);

/// One attribute of the mirror.
#[derive(Clone, Debug, PartialEq, Eq)]
pub struct Trait {
    pub key: String,
    pub value: String,
}

impl View for Trait {
    type V = Entry;

    open spec fn view(&self) -> Entry {
        (self.key@, self.value@)
    }
}

/// The attributes of a list, as plain text.
pub open spec fn entries(traits: Seq<Trait>) -> Seq<Entry> {
    traits.map_values(|t: Trait| t@)
}

/// The character of a single decimal digit.
pub open spec fn digit(d: nat) -> char
    recommends
        d < 10,
{
    if d == 0 {
        '0'
    } else if d == 1 {
        '1'
    } else if d == 2 {
        '2'
    } else if d == 3 {
        '3'
    } else if d == 4 {
        '4'
    } else if d == 5 {
        '5'
    } else if d == 6 {
        '6'
    } else if d == 7 {
        '7'
    } else if d == 8 {
        '8'
    } else {
        '9'
    }
}

/// The decimal numeral of `n`: no sign, no leading zero, "0" for zero.
pub open spec fn decimal(n: nat) -> Seq<char>
    decreases n,
{
    if n < 10 {
        seq![digit(n)]
    } else {
        decimal(n / 10).push(digit(n % 10))
    }
}

/// Whether `key` is one of the keys only the ledger may write.
pub open spec fn reserved(key: Seq<char>) -> bool {
    key == "xp"@ || key == "stage"@ || key == "status"@ || key == "last_quest"@ || key
        == "quests_completed"@
}

/// The entries of `overlay` whose key is not reserved, in their order.
pub open spec fn unreserved(overlay: Seq<Entry>) -> Seq<Entry>
    decreases overlay.len(),
{
    if overlay.len() == 0 {
        Seq::empty()
    } else if reserved(overlay.last().0) {
        unreserved(overlay.drop_last())
    } else {
        unreserved(overlay.drop_last()).push(overlay.last())
    }
}

/// The update sent after an evolution to `stage` with `xp` experience: the
/// caller's overlay without reserved keys, then stage, xp and status.
pub open spec fn evolution_update(overlay: Seq<Entry>, stage: Stage, xp: u64) -> Seq<Entry> {
    unreserved(overlay) + seq![
        ("stage"@, decimal(stage.rank())),
        ("xp"@, decimal(xp as nat)),
        ("status"@, stage.label_text()),
    ]
}

/// The update sent after a quest reward: xp, stage, the quest's name and
/// the quest count.
pub open spec fn completion_update(
    xp: u64,
    stage: Stage,
    quest_name: Seq<char>,
    quests_completed: u32,
) -> Seq<Entry> {
    seq![
        ("xp"@, decimal(xp as nat)),
        ("stage"@, decimal(stage.rank())),
        ("last_quest"@, quest_name),
        ("quests_completed"@, decimal(quests_completed as nat)),
    ]
}

/// The attributes a newly initialized asset is minted with.
pub open spec fn initial_update() -> Seq<Entry> {
    seq![
        ("status"@, Stage::Dormant.label_text()),
        ("stage"@, decimal(0)),
        ("xp"@, decimal(0)),
    ]
}

fn digit_str(d: u64) -> (text: &'static str)
    requires
        d < 10,
    ensures
        text@ == seq![digit(d as nat)],
{
    proof {
        reveal_strlit("0");
        reveal_strlit("1");
        reveal_strlit("2");
        reveal_strlit("3");
        reveal_strlit("4");
        reveal_strlit("5");
        reveal_strlit("6");
        reveal_strlit("7");
        reveal_strlit("8");
        reveal_strlit("9");
    }
    let text = if d == 0 {
        "0"
    } else if d == 1 {
        "1"
    } else if d == 2 {
        "2"
    } else if d == 3 {
        "3"
    } else if d == 4 {
        "4"
    } else if d == 5 {
        "5"
    } else if d == 6 {
        "6"
    } else if d == 7 {
        "7"
    } else if d == 8 {
        "8"
    } else {
        "9"
    };
    text
}

fn push_decimal(text: &mut String, n: u64)
    ensures
        final(text)@ == old(text)@ + decimal(n as nat),
    decreases n,
{
    if n >= 10 {
        push_decimal(text, n / 10);
    }
    text.append(digit_str(n % 10));
}

/// Writes `n` as a decimal numeral.
pub fn decimal_string(n: u64) -> (text: String)
    ensures
        text@ == decimal(n as nat),
{
    let mut text = String::new();
    push_decimal(&mut text, n);
    text
}

impl Trait {
    /// An attribute with the given key and value.
    pub fn new(key: &str, value: String) -> (attribute: Trait)
        ensures
            attribute@ == (key@, value@),
    {
        Trait { key: String::from_str(key), value }
    }
}

/// Whether `key` is one of the keys only the ledger may write.
pub fn is_reserved(key: &String) -> (yes: bool)
    ensures
        yes == reserved(key@),
{
    *key == String::from_str("xp") || *key == String::from_str("stage") || *key
        == String::from_str("status") || *key == String::from_str("last_quest") || *key
        == String::from_str("quests_completed")
}

/// Copies from `overlay` every attribute whose key is not reserved,
/// keeping the order.
pub fn keep_unreserved(overlay: &Vec<Trait>) -> (kept: Vec<Trait>)
    ensures
        entries(kept@) == unreserved(entries(overlay@)),
{
    let mut kept: Vec<Trait> = Vec::new();
    let mut i: usize = 0;
    while i < overlay.len()
        invariant
            i <= overlay.len(),
            entries(kept@) == unreserved(entries(overlay@).take(i as int)),
        decreases overlay.len() - i,
    {
        proof {
            let prefix = entries(overlay@).take(i as int + 1);
            assert(prefix.drop_last() =~= entries(overlay@).take(i as int));
        }
        if !is_reserved(&overlay[i].key) {
            let copy = Trait { key: overlay[i].key.clone(), value: overlay[i].value.clone() };
            kept.push(copy);
        }
        i += 1;
    }
    assert(entries(overlay@).take(i as int) =~= entries(overlay@));
    kept
}

/// Builds the mirror update for an evolution to `stage` with `xp`
/// experience. Whatever the overlay says about a reserved key is dropped.
pub fn build_evolution_update(overlay: &Vec<Trait>, stage: Stage, xp: u64) -> (update: Vec<Trait>)
    ensures
        entries(update@) == evolution_update(entries(overlay@), stage, xp),
{
    let mut update = keep_unreserved(overlay);
    update.push(Trait::new("stage", decimal_string(stage.as_u8() as u64)));
    update.push(Trait::new("xp", decimal_string(xp)));
    update.push(Trait::new("status", stage.label()));
    update
}

/// Builds the mirror update for a quest reward.
pub fn build_completion_update(
    xp: u64,
    stage: Stage,
    quest_name: &String,
    quests_completed: u32,
) -> (update: Vec<Trait>)
    ensures
        entries(update@) == completion_update(xp, stage, quest_name@, quests_completed),
{
    let mut update: Vec<Trait> = Vec::new();
    update.push(Trait::new("xp", decimal_string(xp)));
    update.push(Trait::new("stage", decimal_string(stage.as_u8() as u64)));
    update.push(Trait::new("last_quest", quest_name.clone()));
    update.push(Trait::new("quests_completed", decimal_string(quests_completed as u64)));
    update
}

/// Builds the attributes of a newly initialized asset.
pub fn build_initial_update() -> (update: Vec<Trait>)
    ensures
        entries(update@) == initial_update(),
{
    let mut update: Vec<Trait> = Vec::new();
    update.push(Trait::new("status", Stage::Dormant.label()));
    update.push(Trait::new("stage", decimal_string(0)));
    update.push(Trait::new("xp", decimal_string(0)));
    update
}

/// Every entry with a reserved key in an evolution update is one of the
/// three the ledger wrote: nothing from the overlay can stand for them.
pub proof fn lemma_overlay_never_sets_reserved(overlay: Seq<Entry>, stage: Stage, xp: u64, i: int)
    requires
        0 <= i < evolution_update(overlay, stage, xp).len(),
        reserved(evolution_update(overlay, stage, xp)[i].0),
    ensures
        i >= evolution_update(overlay, stage, xp).len() - 3,
{
    lemma_unreserved_holds_none(overlay);
}

/// No entry of `unreserved(overlay)` has a reserved key, and each comes
/// from the overlay.
pub proof fn lemma_unreserved_holds_none(overlay: Seq<Entry>)
    ensures
        forall|i: int|
            0 <= i < unreserved(overlay).len() ==> !reserved((#[trigger] unreserved(overlay)[i]).0)
                && overlay.contains(unreserved(overlay)[i]),
        unreserved(overlay).len() <= overlay.len(),
    decreases overlay.len(),
{
    if overlay.len() > 0 {
        lemma_unreserved_holds_none(overlay.drop_last());
        let shorter = overlay.drop_last();
        assert forall|i: int| 0 <= i < unreserved(overlay).len() implies !reserved(
            (#[trigger] unreserved(overlay)[i]).0,
        ) && overlay.contains(unreserved(overlay)[i]) by {
            if i < unreserved(shorter).len() {
                let e = unreserved(shorter)[i];
                let k = choose|k: int| 0 <= k < shorter.len() && shorter[k] == e;
                assert(overlay[k] == e);
            } else {
                assert(overlay[overlay.len() - 1] == overlay.last());
            }
        }
    }
}

} // verus!
