use vstd::prelude::*;
use crate::address::{contains_address, Address};
use crate::ledger::Ingredient;

verus! {

/// Code of the category of basic recipes.
pub const RECIPE_TYPE_BASIC: u8 = 1;

/// Code of the category of advanced recipes.
pub const RECIPE_TYPE_ADVANCED: u8 = 2;

/// Code of the category of community recipes.
pub const RECIPE_TYPE_COMMUNITY: u8 = 3;

/// Code of the category of legendary recipes.
pub const RECIPE_TYPE_LEGENDARY: u8 = 4;

/// The highest discovery threshold.
pub const MAX_DISCOVERY_THRESHOLD: u8 = 95;

/// The score that the category of a recipe asks for: 30 for a basic, 40 for a
/// community, 50 for an advanced and 70 for a legendary recipe; 50 for a code
/// that names no category.
pub open spec fn base_threshold(recipe_type: u8) -> int {
    if recipe_type == RECIPE_TYPE_BASIC {
        30
    } else if recipe_type == RECIPE_TYPE_COMMUNITY {
        40
    } else if recipe_type == RECIPE_TYPE_LEGENDARY {
        70
    } else {
        50
    }
}

/// The score at which a secret recipe is discovered: the base of its
/// category plus one point for every five points of difficulty, 95 at most.
pub open spec fn discovery_threshold_spec(recipe_type: u8, difficulty: u8) -> int {
    let raw = base_threshold(recipe_type) + difficulty / 5;
    if raw < 95 { raw } else { 95 }
}

/// Computes the discovery threshold of a recipe.
pub fn calculate_discovery_threshold(recipe_type: u8, difficulty: u8) -> (threshold: u8)
    ensures
        threshold == discovery_threshold_spec(recipe_type, difficulty),
        30 <= threshold <= MAX_DISCOVERY_THRESHOLD,
{
    let base: u8 = if recipe_type == RECIPE_TYPE_BASIC {
        30
    } else if recipe_type == RECIPE_TYPE_COMMUNITY {
        40
    } else if recipe_type == RECIPE_TYPE_LEGENDARY {
        70
    } else {
        50
    };
    let raw: u8 = base + difficulty / 5;
    if raw < MAX_DISCOVERY_THRESHOLD { raw } else { MAX_DISCOVERY_THRESHOLD }
}

/// Whether a recipe asks for a kind of material.
pub open spec fn is_required(required: Seq<Ingredient>, kind: Address) -> bool {
    exists|j: int| 0 <= j < required.len() && (#[trigger] required[j]).material_mint == kind
}

/// How many of the first `n` requirements name a kind that was provided.
pub open spec fn covered_through(required: Seq<Ingredient>, provided: Seq<Address>, n: int) -> int
    decreases n,
{
    if n <= 0 {
        0
    } else {
        covered_through(required, provided, n - 1) + if provided.contains(
            required[n - 1].material_mint,
        ) {
            1int
        } else {
            0int
        }
    }
}

/// How many requirements name a kind that was provided.
pub open spec fn covered(required: Seq<Ingredient>, provided: Seq<Address>) -> int {
    covered_through(required, provided, required.len() as int)
}

/// Whether every provided kind is one that the recipe asks for.
pub open spec fn no_extras(required: Seq<Ingredient>, provided: Seq<Address>) -> bool {
    forall|i: int| 0 <= i < provided.len() ==> is_required(required, #[trigger] provided[i])
}

/// Whether the provided kinds are exactly the required ones: none omitted, none added.
pub open spec fn exact_match(required: Seq<Ingredient>, provided: Seq<Address>) -> bool {
    covered(required, provided) == required.len() && no_extras(required, provided)
}

/// The share of the requirements whose kind was provided, as a percentage
/// from 0 to 100, rounded down.
pub open spec fn match_ratio(required: Seq<Ingredient>, provided: Seq<Address>) -> int {
    if required.len() == 0 {
        0
    } else {
        covered(required, provided) * 100 / (required.len() as int)
    }
}

/// The score of a discovery attempt: the match ratio, ten points more for an
/// exact match, and one point for every two levels of the explorer.
pub open spec fn discovery_score_spec(explorer_level: u8, provided: Seq<Address>, required: Seq<Ingredient>) -> int {
    match_ratio(required, provided) + if exact_match(required, provided) {
        10int
    } else {
        0int
    } + explorer_level / 2
}

/// The number of covered requirements lies between zero and the number counted.
pub proof fn lemma_covered_bounds(required: Seq<Ingredient>, provided: Seq<Address>, n: int)
    requires
        0 <= n,
    ensures
        0 <= covered_through(required, provided, n) <= n,
    decreases n,
{
    if n > 0 {
        lemma_covered_bounds(required, provided, n - 1);
    }
}

/// The match ratio is a percentage, and the score fits in a byte.
pub proof fn lemma_score_bounds(explorer_level: u8, provided: Seq<Address>, required: Seq<Ingredient>)
    ensures
        0 <= match_ratio(required, provided) <= 100,
        0 <= discovery_score_spec(explorer_level, provided, required) <= 237,
        covered(required, provided) == required.len() && required.len() > 0 ==> match_ratio(
            required,
            provided,
        ) == 100,
{
    lemma_covered_bounds(required, provided, required.len() as int);
    let c = covered(required, provided);
    let l = required.len() as int;
    if l > 0 {
        assert(0 <= c * 100 / l <= 100) by (nonlinear_arith)
            requires
                0 <= c <= l,
                l > 0,
        ;
        if c == l {
            assert(l * 100 / l == 100) by (nonlinear_arith)
                requires
                    l > 0,
            ;
        }
    }
}

/// Whether a recipe asks for a kind of material.
pub fn requires_kind(required: &Vec<Ingredient>, kind: &Address) -> (found: bool)
    ensures
        found == is_required(required@, *kind),
{
    let mut j: usize = 0;
    while j < required.len()
        invariant
            j <= required.len(),
            forall|i: int| 0 <= i < j ==> (#[trigger] required@[i]).material_mint != *kind,
        decreases required.len() - j,
    {
        if required[j].material_mint.same(kind) {
            assert(required@[j as int].material_mint == *kind);
            return true;
        }
        j += 1;
    }
    false
}

/// Computes the score of a discovery attempt.
pub fn calculate_discovery_score(
    explorer_level: u8,
    provided_materials: &Vec<Address>,
    recipe_materials: &Vec<Ingredient>,
) -> (score: u8)
    ensures
        score == discovery_score_spec(explorer_level, provided_materials@, recipe_materials@),
{
    proof {
        lemma_score_bounds(explorer_level, provided_materials@, recipe_materials@);
    }
    let mut matched: usize = 0;
    let mut j: usize = 0;
    while j < recipe_materials.len()
        invariant
            j <= recipe_materials.len(),
            matched == covered_through(recipe_materials@, provided_materials@, j as int),
            matched <= j,
        decreases recipe_materials.len() - j,
    {
        if contains_address(provided_materials, &recipe_materials[j].material_mint) {
            matched += 1;
        }
        j += 1;
    }
    let mut extras: bool = false;
    let mut i: usize = 0;
    while i < provided_materials.len()
        invariant
            i <= provided_materials.len(),
            !extras <==> forall|k: int|
                0 <= k < i ==> is_required(recipe_materials@, #[trigger] provided_materials@[k]),
        decreases provided_materials.len() - i,
    {
        if !requires_kind(recipe_materials, &provided_materials[i]) {
            extras = true;
        }
        i += 1;
    }
    let ratio: u8 = if recipe_materials.len() == 0 {
        0
    } else {
        ((matched as u128) * 100 / (recipe_materials.len() as u128)) as u8
    };
    let exact: bool = matched == recipe_materials.len() && !extras;
    let bonus: u8 = if exact { 10 } else { 0 };
    ratio + bonus + explorer_level / 2
}

} // verus!
