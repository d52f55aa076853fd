use vstd::prelude::*;
use vstd::string::StringExecFns;

verus! {

/// A static catalogue entry: a fruit, its nutrients, and a fresh random id.
#[derive(Debug)]
pub struct Fruit {
    pub name: String,
    pub nutrients: Vec<String>,
    pub id: Option<String>,
}

/// Relies on uuid::Uuid::new_v4 and its hyphenated text form: a fresh
/// random UUID, always 36 characters. Nothing more is promised of a random
/// id.
#[verifier::external_body]
fn new_uuid_string() -> (r: String)
    ensures
        r@.len() == 36,
{
    uuid::Uuid::new_v4().to_string()
}

impl Fruit {
    /// Builds an entry under a fresh random 36-character id.
    pub fn new(name: String, nutrients: Vec<String>) -> (r: Self)
        ensures
            r.name@ == name@,
            r.nutrients == nutrients,
            r.id matches Some(u) ==> u@.len() == 36,
            r.id is Some,
    {
        Fruit { name, nutrients, id: Some(new_uuid_string()) }
    }
}

/// The names of the fixed catalogue, in order.
pub open spec fn catalogue_names() -> Seq<Seq<char>> {
    seq!["banana"@, "apple"@, "orange"@]
}

/// The nutrient list that the fixed catalogue holds for a name; the empty
/// list for a name outside the catalogue.
pub open spec fn catalogue_nutrients(name: Seq<char>) -> Seq<Seq<char>> {
    if name == "banana"@ {
        seq!["potassium"@, "vitamin B6"@]
    } else if name == "apple"@ {
        seq!["fiber"@, "vitamin C"@]
    } else if name == "orange"@ {
        seq!["vitamin C"@, "folate"@]
    } else {
        Seq::empty()
    }
}

/// Builds the fixed catalogue: banana, apple and orange, each with its two
/// nutrients and a fresh id.
pub fn get_all_fruits() -> (r: Vec<Fruit>)
    ensures
        r@.len() == 3,
        forall|i: int| 0 <= i < 3 ==> (#[trigger] r@[i]).name@ == catalogue_names()[i],
        forall|i: int| 0 <= i < 3 ==> (#[trigger] r@[i]).id is Some,
        r@[0].nutrients.deep_view() == seq!["potassium"@, "vitamin B6"@],
        r@[1].nutrients.deep_view() == seq!["fiber"@, "vitamin C"@],
        r@[2].nutrients.deep_view() == seq!["vitamin C"@, "folate"@],
{
    let banana = Fruit::new(
        String::from_str("banana"),
        vec![String::from_str("potassium"), String::from_str("vitamin B6")],
    );
    let apple = Fruit::new(
        String::from_str("apple"),
        vec![String::from_str("fiber"), String::from_str("vitamin C")],
    );
    let orange = Fruit::new(
        String::from_str("orange"),
        vec![String::from_str("vitamin C"), String::from_str("folate")],
    );
    let mut fruits: Vec<Fruit> = Vec::new();
    fruits.push(banana);
    fruits.push(apple);
    fruits.push(orange);
    proof {
        assert(fruits@[0].nutrients.deep_view() =~= seq!["potassium"@, "vitamin B6"@]);
        assert(fruits@[1].nutrients.deep_view() =~= seq!["fiber"@, "vitamin C"@]);
        assert(fruits@[2].nutrients.deep_view() =~= seq!["vitamin C"@, "folate"@]);
    }
    fruits
}

/// Looks a fruit up in the fixed catalogue by its exact name. `None` exactly
/// when the name is not in the catalogue; a found fruit carries the
/// catalogue's own nutrient list for that name.
pub fn get_single_fruit(fruit_name: &String) -> (r: Option<Fruit>)
    ensures
        r is Some <==> catalogue_names().contains(fruit_name@),
        r matches Some(f) ==> f.name@ == fruit_name@ && f.id is Some
            && f.nutrients.deep_view() == catalogue_nutrients(fruit_name@),
{
    let mut fruits = get_all_fruits();
    if fruits[0].name == *fruit_name {
        proof {
            assert(catalogue_names()[0] == fruit_name@);
        }
        return Some(fruits.remove(0));
    }
    if fruits[1].name == *fruit_name {
        proof {
            assert(catalogue_names()[1] == fruit_name@);
        }
        return Some(fruits.remove(1));
    }
    if fruits[2].name == *fruit_name {
        proof {
            assert(catalogue_names()[2] == fruit_name@);
        }
        return Some(fruits.remove(2));
    }
    proof {
        assert(forall|i: int| 0 <= i < 3 ==> catalogue_names()[i] != fruit_name@);
    }
    None
}

} // verus!
