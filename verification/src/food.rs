//! A kitchen of `Option` pipelines: finding ingredients and recipes,
//! peeling, chopping and cooking, with the absence of food carried
//! through every stage.

use vstd::prelude::*;

verus! {

/// What might be served.
#[derive(Debug, Clone, Copy, PartialEq, Eq, Structural)]
pub enum Food {
    Apple,
    Carrot,
    Potato,
    CordonBleu,
    Steak,
    Sushi,
}

/// A day a meal could happen.
#[derive(Debug, Clone, Copy, PartialEq, Eq, Structural)]
pub enum Day {
    Monday,
    Tuesday,
    Wednesday,
}

/// Food that has been peeled.
#[derive(Debug, Clone, Copy, PartialEq, Eq, Structural)]
pub struct Peeled(pub Food);

/// Food that has been chopped.
#[derive(Debug, Clone, Copy, PartialEq, Eq, Structural)]
pub struct Chopped(pub Food);

/// Food that has been cooked.
#[derive(Debug, Clone, Copy, PartialEq, Eq, Structural)]
pub struct Cooked(pub Food);

/// We have the ingredients for everything except sushi.
pub fn have_ingredients(food: Food) -> (r: Option<Food>)
    ensures
        r == if food == Food::Sushi {
            Option::<Food>::None
        } else {
            Option::<Food>::Some(food)
        },
{
    match food {
        Food::Sushi => None,
        _ => Some(food),
    }
}

/// We have a recipe for everything except cordon bleu.
pub fn have_recipe(food: Food) -> (r: Option<Food>)
    ensures
        r == if food == Food::CordonBleu {
            Option::<Food>::None
        } else {
            Option::<Food>::Some(food)
        },
{
    match food {
        Food::CordonBleu => None,
        _ => Some(food),
    }
}

/// A dish is cookable when we have both a recipe and the ingredients.
pub open spec fn cookable(food: Food) -> Option<Food> {
    if food == Food::CordonBleu || food == Food::Sushi {
        None
    } else {
        Some(food)
    }
}

/// Recipe and ingredients checked by nested matches.
pub fn cookable_v1(food: Food) -> (r: Option<Food>)
    ensures
        r == cookable(food),
{
    match have_recipe(food) {
        None => None,
        Some(f) => match have_ingredients(f) {
            None => None,
            Some(g) => Some(g),
        },
    }
}

/// Recipe and ingredients checked by chaining.
pub fn cookable_v2(food: Food) -> (r: Option<Food>)
    ensures
        r == cookable(food),
{
    have_recipe(food).and_then(have_ingredients)
}

/// Peels the food, if there is any.
pub fn peel(food: Option<Food>) -> (r: Option<Peeled>)
    ensures
        food is None ==> r is None,
        food matches Some(f) ==> r == Some(Peeled(f)),
{
    match food {
        Some(food) => Some(Peeled(food)),
        None => None,
    }
}

/// Chops the peeled food, if there is any.
pub fn chop(food: Option<Peeled>) -> (r: Option<Chopped>)
    ensures
        food is None ==> r is None,
        food matches Some(p) ==> r == Some(Chopped(p.0)),
{
    match food {
        Some(Peeled(food)) => Some(Chopped(food)),
        None => None,
    }
}

/// Cooks the chopped food, if there is any.
pub fn cook(food: Option<Chopped>) -> (r: Option<Cooked>)
    ensures
        food is None ==> r is None,
        food matches Some(c) ==> r == Some(Cooked(c.0)),
{
    match food {
        Some(Chopped(food)) => Some(Cooked(food)),
        None => None,
    }
}

/// All three stages in one pipeline.
pub fn process(food: Option<Food>) -> (r: Option<Cooked>)
    ensures
        food is None ==> r is None,
        food matches Some(f) ==> r == Some(Cooked(f)),
{
    cook(chop(peel(food)))
}

/// The princess accepts any gift but a snake; a snake would make her
/// scream, so it is ruled out up front.
pub fn give_princess(gift: &str)
    requires
        gift@ != "snake"@,
{
}

} // verus!
