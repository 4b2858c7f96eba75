//! The `Pokemon` value type: a name, hit points (`hp`), and optional mana
//! points (`mp`), with formatted views, an hp-based comparison, a single
//! hardcoded evolution, and a join helper over the display texts.

use rand::Rng;
use vstd::prelude::*;
use vstd::string::StringExecFns;

use crate::decimal::{append_i32, int_rep};

verus! {

/// A creature with a name, hit points, and optional mana points.
#[derive(Debug)]
pub struct Pokemon {
    pub name: String,
    pub hp: i32,
    pub mp: Option<i32>,
}

/// Raised when an operation is given an empty input sequence.
#[derive(Debug, PartialEq, Eq, Structural)]
pub enum ConcatError {
    EmptyInput,
}

/// The mana points that the formatted views show: an absent `mp` renders
/// as zero.
pub open spec fn mp_shown(p: Pokemon) -> int {
    match p.mp {
        Some(m) => m as int,
        None => 0,
    }
}

/// The text of the details view: `"<name>: <hp>hp <mp>mp"`.
pub open spec fn details_view(p: Pokemon) -> Seq<char> {
    p.name@ + ": "@ + int_rep(p.hp as int) + "hp "@ + int_rep(mp_shown(p)) + "mp"@
}

/// The hp-only equality notion behind `compare_to`: name and mp are not
/// considered.
pub open spec fn hp_equal(a: Pokemon, b: Pokemon) -> bool {
    a.hp == b.hp
}

impl Pokemon {
    /// Creates a Pokemon with the given name and hit points; mana points
    /// default to 5.
    pub fn new(name: &str, hp: i32) -> (p: Pokemon)
        ensures
            p.name@ == name@,
            p.hp == hp,
            p.mp == Some(5i32),
    {
        Pokemon { name: name.to_owned(), hp, mp: Some(5) }
    }

    /// Returns the details view, `"<name>: <hp>hp <mp>mp"`, with an absent
    /// `mp` shown as 0.
    pub fn details(&self) -> (r: String)
        ensures
            r@ == details_view(*self),
    {
        let mut s = self.name.clone();
        s.append(": ");
        append_i32(&mut s, self.hp);
        s.append("hp ");
        let m: i32 = match self.mp {
            Some(m) => m,
            None => 0,
        };
        append_i32(&mut s, m);
        s.append("mp");
        proof {
            assert(s@ =~= details_view(*self));
        }
        s
    }

    /// Returns the user-facing display text: the bare name.
    pub fn display_text(&self) -> (r: String)
        ensures
            r@ == self.name@,
    {
        self.name.clone()
    }

    /// Returns the current hit points.
    pub fn get_hp(&self) -> (r: i32)
        ensures
            r == self.hp,
    {
        self.hp
    }

    /// Returns a strength roll: a pseudo-random value in `[0, 100)`. The
    /// result is not deterministic; only the range is promised.
    pub fn strength(&self) -> (r: i32)
        ensures
            0 <= r < 100,
    {
        let i = random_below_100();
        i
    }

    /// Returns true iff both values' hit points are equal; name and mana
    /// points are not considered.
    pub fn compare_to(&self, other: &Pokemon) -> (r: bool)
        ensures
            r == hp_equal(*self, *other),
    {
        self.get_hp() == other.get_hp()
    }
}

/// Relies on rand::Rng::gen_range, which returns a value in the given range
/// and panics only on an empty one; `0..100` is not empty.
#[verifier::external_body]
fn random_below_100() -> (r: i32)
    ensures
        0 <= r < 100,
{
    rand::thread_rng().gen_range(0..100)
}

/// The greeting text for a value: `"hello <name>"`.
pub fn greeting(p: &Pokemon) -> (r: String)
    ensures
        r@ == "hello "@ + p.name@,
{
    let mut s = String::from_str("hello ");
    s.append(p.name.as_str());
    s
}

/// If the name is exactly "Taupiqueur", replaces it with "Triopikeur";
/// every other name, and the other fields, are left unchanged.
pub fn evolve(p: &mut Pokemon)
    ensures
        old(p).name@ == "Taupiqueur"@ ==> final(p).name@ == "Triopikeur"@,
        old(p).name@ != "Taupiqueur"@ ==> final(p).name@ == old(p).name@,
        final(p).hp == old(p).hp,
        final(p).mp == old(p).mp,
{
    let target = String::from_str("Taupiqueur");
    if p.name == target {
        p.name = String::from_str("Triopikeur");
    }
}

/// The items' display texts joined by `", "`.
pub open spec fn joined(items: Seq<Pokemon>) -> Seq<char>
    decreases items.len(),
{
    if items.len() == 0 {
        Seq::empty()
    } else if items.len() == 1 {
        items[0].name@
    } else {
        joined(items.drop_last()) + ", "@ + items.last().name@
    }
}

/// Joins the items' display texts with the separator `", "`. An empty input
/// is rejected with `ConcatError::EmptyInput`.
pub fn concat(items: &[Pokemon]) -> (r: Result<String, ConcatError>)
    ensures
        items@.len() == 0 ==> r == Err::<String, ConcatError>(ConcatError::EmptyInput),
        items@.len() > 0 ==> r is Ok && r->Ok_0@ == joined(items@),
{
    if items.len() == 0 {
        return Err(ConcatError::EmptyInput);
    }
    let mut s = items[0].display_text();
    let mut i: usize = 1;
    while i < items.len()
        invariant
            1 <= i <= items@.len(),
            s@ == joined(items@.subrange(0, i as int)),
        decreases items@.len() - i,
    {
        s.append(", ");
        s.append(items[i].name.as_str());
        proof {
            let prefix = items@.subrange(0, i + 1int);
            assert(prefix.drop_last() =~= items@.subrange(0, i as int));
            assert(prefix.last() == items@[i as int]);
        }
        i += 1;
    }
    proof {
        assert(items@.subrange(0, items@.len() as int) =~= items@);
    }
    Ok(s)
}

/// Law: a freshly constructed value's details view is
/// `"<name>: <hp>hp 5mp"`, since mana points default to 5.
pub proof fn lemma_new_details(p: Pokemon)
    requires
        p.mp == Some(5i32),
    ensures
        details_view(p) == p.name@ + ": "@ + int_rep(p.hp as int) + "hp 5mp"@,
{
    reveal_strlit("hp ");
    reveal_strlit("mp");
    reveal_strlit("hp 5mp");
    assert(int_rep(5) =~= seq!['5']);
    assert("hp "@ + int_rep(5) + "mp"@ =~= "hp 5mp"@);
    assert(details_view(p) =~= p.name@ + ": "@ + int_rep(p.hp as int) + "hp 5mp"@);
}

/// Law: the hp-only comparison is reflexive and symmetric; two values agree
/// in both directions exactly when their hit points are equal.
pub proof fn lemma_compare_reflexive_symmetric(a: Pokemon, b: Pokemon)
    ensures
        hp_equal(a, a),
        hp_equal(a, b) == hp_equal(b, a),
        a.hp == b.hp ==> hp_equal(a, b) && hp_equal(b, a),
        a.hp != b.hp ==> !hp_equal(a, b) && !hp_equal(b, a),
{
}

} // verus!
