use vstd::prelude::*;

use crate::text::{lowercase, spaces_to_underscores, text_eq, texts, to_lowercase, underscore_spaces};

verus! {

/// Monzo's spending categories that a pot can stand for, in the order in
/// which they are listed to the user.
pub open spec fn spending_categories() -> Seq<Seq<char>> {
    seq![
        "general"@,
        "eating_out"@,
        "expenses"@,
        "transport"@,
        "cash"@,
        "bills"@,
        "entertainment"@,
        "shopping"@,
        "holidays"@,
        "groceries"@,
        "family"@,
        "charity"@,
        "personal_care"@,
        "savings"@,
    ]
}

/// The spending categories as strings, in listing order.
pub fn spending_category_names() -> (v: Vec<String>)
    ensures
        texts(v@) == spending_categories(),
{
    let mut v: Vec<String> = Vec::new();
    v.push(String::from_str("general"));
    v.push(String::from_str("eating_out"));
    v.push(String::from_str("expenses"));
    v.push(String::from_str("transport"));
    v.push(String::from_str("cash"));
    v.push(String::from_str("bills"));
    v.push(String::from_str("entertainment"));
    v.push(String::from_str("shopping"));
    v.push(String::from_str("holidays"));
    v.push(String::from_str("groceries"));
    v.push(String::from_str("family"));
    v.push(String::from_str("charity"));
    v.push(String::from_str("personal_care"));
    v.push(String::from_str("savings"));
    proof {
        assert(texts(v@) =~= spending_categories());
    }
    v
}

/// Whether `name` is one of the spending categories.
pub fn is_spending_category(name: &str) -> (r: bool)
    ensures
        r == spending_categories().contains(name@),
{
    let names = spending_category_names();
    let mut i: usize = 0;
    while i < names.len()
        invariant
            texts(names@) == spending_categories(),
            i <= names.len(),
            forall|j: int| 0 <= j < i ==> spending_categories()[j] != name@,
        decreases names.len() - i,
    {
        if text_eq(names[i].as_str(), name) {
            proof {
                assert(spending_categories()[i as int] == name@);
            }
            return true;
        }
        proof {
            assert(texts(names@)[i as int] == names@[i as int]@);
        }
        i = i + 1;
    }
    false
}

/// A pot as the API lists it.
pub struct Pot {
    pub id: String,
    pub name: String,
    pub deleted: bool,
}

/// The category a pot stands for: its name with spaces turned into
/// underscores, in lowercase ("Eating out" stands for "eating_out").
pub open spec fn category_of(name: Seq<char>) -> Seq<char> {
    lowercase(spaces_to_underscores(name))
}

/// The category that a pot name stands for.
pub fn pot_category(name: &str) -> (r: String)
    ensures
        r@ == category_of(name@),
{
    let underscored = underscore_spaces(name);
    to_lowercase(underscored.as_str())
}

/// A pot covers spending: it is not deleted and its name stands for a
/// spending category.
pub open spec fn covers_spending(p: Pot) -> bool {
    !p.deleted && spending_categories().contains(category_of(p.name@))
}

/// The category-to-pot map that a list of pots gives: each covering pot
/// maps its category to its id, and a later pot of the same category wins.
pub open spec fn pot_map_of(pots: Seq<Pot>) -> Map<Seq<char>, Seq<char>>
    decreases pots.len(),
{
    if pots.len() == 0 {
        Map::empty()
    } else {
        let m = pot_map_of(pots.drop_last());
        let p = pots.last();
        if covers_spending(p) {
            m.insert(category_of(p.name@), p.id@)
        } else {
            m
        }
    }
}

/// The map that a list of (key, value) entries stands for; a later entry
/// wins over an earlier one with the same key.
pub open spec fn entries_map(e: Seq<(String, String)>) -> Map<Seq<char>, Seq<char>>
    decreases e.len(),
{
    if e.len() == 0 {
        Map::empty()
    } else {
        entries_map(e.drop_last()).insert(e.last().0@, e.last().1@)
    }
}

/// No key occurs twice among the entries.
pub open spec fn distinct_keys(e: Seq<(String, String)>) -> bool {
    forall|i: int, j: int| 0 <= i < j < e.len() ==> e[i].0@ != e[j].0@
}

proof fn lemma_entries_map_get(e: Seq<(String, String)>, k: Seq<char>)
    requires
        distinct_keys(e),
    ensures
        entries_map(e).contains_key(k) <==> exists|i: int| 0 <= i < e.len() && #[trigger] e[i].0@ == k,
        forall|i: int| 0 <= i < e.len() && #[trigger] e[i].0@ == k ==> entries_map(e)[k] == e[i].1@,
    decreases e.len(),
{
    if e.len() > 0 {
        let d = e.drop_last();
        lemma_entries_map_get(d, k);
        if entries_map(e).contains_key(k) && e.last().0@ != k {
            let i = choose|i: int| 0 <= i < d.len() && #[trigger] d[i].0@ == k;
            assert(e[i].0@ == k);
        }
        if exists|i: int| 0 <= i < e.len() && #[trigger] e[i].0@ == k {
            let i = choose|i: int| 0 <= i < e.len() && #[trigger] e[i].0@ == k;
            if i < e.len() - 1 {
                assert(d[i].0@ == k);
            }
        }
        assert forall|i: int| 0 <= i < e.len() && #[trigger] e[i].0@ == k implies entries_map(e)[k] == e[i].1@ by {
            if i < e.len() - 1 {
                assert(d[i].0@ == k);
            }
        }
    }
}

proof fn lemma_entries_map_len(e: Seq<(String, String)>)
    requires
        distinct_keys(e),
    ensures
        entries_map(e).dom().finite(),
        entries_map(e).dom().len() == e.len(),
    decreases e.len(),
{
    if e.len() > 0 {
        let d = e.drop_last();
        lemma_entries_map_len(d);
        lemma_entries_map_get(d, e.last().0@);
        if entries_map(d).contains_key(e.last().0@) {
            let i = choose|i: int| 0 <= i < d.len() && #[trigger] d[i].0@ == e.last().0@;
            assert(e[i].0@ == e[e.len() - 1].0@);
        }
    }
}

proof fn lemma_entries_map_update(e: Seq<(String, String)>, j: int, key: String, value: String)
    requires
        distinct_keys(e),
        0 <= j < e.len(),
        e[j].0@ == key@,
    ensures
        distinct_keys(e.update(j, (key, value))),
        entries_map(e.update(j, (key, value))) == entries_map(e).insert(key@, value@),
{
    let u = e.update(j, (key, value));
    assert forall|a: int, b: int| 0 <= a < b < u.len() implies u[a].0@ != u[b].0@ by {
        assert(u[a].0@ == e[a].0@);
        assert(u[b].0@ == e[b].0@);
    }
    assert forall|k: Seq<char>| #[trigger] entries_map(u).contains_key(k) == entries_map(e).insert(key@, value@).contains_key(k) by {
        lemma_entries_map_get(u, k);
        lemma_entries_map_get(e, k);
        if entries_map(u).contains_key(k) {
            let i = choose|i: int| 0 <= i < u.len() && #[trigger] u[i].0@ == k;
            assert(e[i].0@ == k);
        }
        if entries_map(e).contains_key(k) {
            let i = choose|i: int| 0 <= i < e.len() && #[trigger] e[i].0@ == k;
            assert(u[i].0@ == k);
        }
        if k == key@ {
            assert(u[j].0@ == k);
        }
    }
    assert forall|k: Seq<char>| #[trigger] entries_map(u).contains_key(k) implies entries_map(u)[k] == entries_map(e).insert(key@, value@)[k] by {
        lemma_entries_map_get(u, k);
        lemma_entries_map_get(e, k);
        let i = choose|i: int| 0 <= i < u.len() && #[trigger] u[i].0@ == k;
        assert(e[i].0@ == k);
        if k == key@ {
            assert(u[j].0@ == k);
        }
    }
    assert(entries_map(u) =~= entries_map(e).insert(key@, value@));
}

/// Inserts `key -> value`, replacing the value of an entry with that key.
fn insert_entry(e: &mut Vec<(String, String)>, key: String, value: String)
    requires
        distinct_keys(old(e)@),
    ensures
        distinct_keys(final(e)@),
        entries_map(final(e)@) == entries_map(old(e)@).insert(key@, value@),
{
    let mut j: usize = 0;
    while j < e.len()
        invariant
            e@ == old(e)@,
            distinct_keys(old(e)@),
            j <= e@.len(),
            forall|i: int| 0 <= i < j ==> e@[i].0@ != key@,
        decreases e@.len() - j,
    {
        if text_eq(e[j].0.as_str(), key.as_str()) {
            proof {
                lemma_entries_map_update(e@, j as int, key, value);
            }
            e.set(j, (key, value));
            return;
        }
        j = j + 1;
    }
    proof {
        let n = old(e)@.len();
        assert(old(e)@.push((key, value)).drop_last() =~= old(e)@);
    }
    e.push((key, value));
}

/// The spending categories mapped to the pots that cover them.
pub struct PotMap {
    entries: Vec<(String, String)>,
}

impl View for PotMap {
    type V = Map<Seq<char>, Seq<char>>;

    closed spec fn view(&self) -> Map<Seq<char>, Seq<char>> {
        entries_map(self.entries@)
    }
}

impl PotMap {
    #[verifier::type_invariant]
    closed spec fn keys_unique(self) -> bool {
        distinct_keys(self.entries@)
    }

    /// The map with no categories.
    pub fn new() -> (m: PotMap)
        ensures
            m@ == Map::<Seq<char>, Seq<char>>::empty(),
    {
        PotMap { entries: Vec::new() }
    }

    /// The pot that covers `category`, if any.
    pub fn lookup(&self, category: &str) -> (r: Option<String>)
        ensures
            r is None <==> !self@.contains_key(category@),
            r matches Some(id) ==> id@ == self@[category@],
    {
        proof {
            use_type_invariant(self);
            lemma_entries_map_get(self.entries@, category@);
        }
        let mut i: usize = 0;
        while i < self.entries.len()
            invariant
                distinct_keys(self.entries@),
                i <= self.entries@.len(),
                forall|j: int| 0 <= j < i ==> self.entries@[j].0@ != category@,
                self@.contains_key(category@) <==> exists|j: int| 0 <= j < self.entries@.len() && #[trigger] self.entries@[j].0@ == category@,
                forall|j: int| 0 <= j < self.entries@.len() && #[trigger] self.entries@[j].0@ == category@ ==> self@[category@] == self.entries@[j].1@,
            decreases self.entries@.len() - i,
        {
            if text_eq(self.entries[i].0.as_str(), category) {
                return Some(self.entries[i].1.clone());
            }
            i = i + 1;
        }
        None
    }

    /// How many categories are covered.
    pub fn len(&self) -> (n: usize)
        ensures
            self@.dom().finite(),
            n == self@.dom().len(),
    {
        proof {
            use_type_invariant(self);
            lemma_entries_map_len(self.entries@);
        }
        self.entries.len()
    }
}

/// The category-to-pot map that a list of pots gives when `categories[i]`
/// is the category that pot `i` stands for: each pot that is not deleted
/// and whose category is a spending category maps it to its id, and a
/// later pot of the same category wins.
pub open spec fn pot_map_with(pots: Seq<Pot>, categories: Seq<Seq<char>>) -> Map<Seq<char>, Seq<char>>
    decreases pots.len(),
{
    if pots.len() == 0 {
        Map::empty()
    } else {
        let m = pot_map_with(pots.drop_last(), categories.drop_last());
        let p = pots.last();
        let c = categories.last();
        if !p.deleted && spending_categories().contains(c) {
            m.insert(c, p.id@)
        } else {
            m
        }
    }
}

/// With each pot's category taken from its name, `pot_map_with` is the
/// map that the pots give.
proof fn lemma_pot_map_with_names(pots: Seq<Pot>, categories: Seq<Seq<char>>)
    requires
        categories.len() == pots.len(),
        forall|i: int| 0 <= i < pots.len() ==> #[trigger] categories[i] == category_of(pots[i].name@),
    ensures
        pot_map_with(pots, categories) == pot_map_of(pots),
    decreases pots.len(),
{
    if pots.len() > 0 {
        let d = categories.drop_last();
        assert forall|i: int| 0 <= i < pots.drop_last().len() implies #[trigger] d[i] == category_of(
            pots.drop_last()[i].name@,
        ) by {
            assert(d[i] == categories[i]);
        }
        lemma_pot_map_with_names(pots.drop_last(), d);
        assert(categories.last() == categories[pots.len() - 1]);
    }
}

/// Builds the category-to-pot map from the pots that the API lists and the
/// category each stands for (its name lowercased, spaces as underscores):
/// deleted pots and pots of no spending category are left out.
pub fn build_pot_map_from_categories(pots: &Vec<Pot>, categories: &Vec<String>) -> (m: PotMap)
    requires
        categories.len() == pots.len(),
    ensures
        m@ == pot_map_with(pots@, texts(categories@)),
{
    let mut entries: Vec<(String, String)> = Vec::new();
    let mut i: usize = 0;
    while i < pots.len()
        invariant
            i <= pots@.len(),
            categories@.len() == pots@.len(),
            distinct_keys(entries@),
            entries_map(entries@) == pot_map_with(pots@.take(i as int), texts(categories@).take(i as int)),
        decreases pots@.len() - i,
    {
        let p = &pots[i];
        proof {
            assert(pots@.take(i + 1).drop_last() =~= pots@.take(i as int));
            assert(pots@.take(i + 1).last() == pots@[i as int]);
            assert(texts(categories@).take(i + 1).drop_last() =~= texts(categories@).take(i as int));
            assert(texts(categories@).take(i + 1).last() == categories@[i as int]@);
        }
        if !p.deleted && is_spending_category(categories[i].as_str()) {
            insert_entry(&mut entries, categories[i].clone(), p.id.clone());
        }
        i = i + 1;
    }
    proof {
        assert(pots@.take(pots@.len() as int) =~= pots@);
        assert(texts(categories@).take(pots@.len() as int) =~= texts(categories@));
    }
    PotMap { entries }
}

/// Builds the category-to-pot map from the pots that the API lists: deleted
/// pots and pots whose name stands for no spending category are left out.
pub fn build_pot_map(pots: &Vec<Pot>) -> (m: PotMap)
    ensures
        m@ == pot_map_of(pots@),
{
    let mut categories: Vec<String> = Vec::new();
    let mut i: usize = 0;
    while i < pots.len()
        invariant
            i <= pots@.len(),
            categories@.len() == i,
            forall|j: int| 0 <= j < i ==> #[trigger] categories@[j]@ == category_of(pots@[j].name@),
        decreases pots@.len() - i,
    {
        categories.push(pot_category(pots[i].name.as_str()));
        i = i + 1;
    }
    let m = build_pot_map_from_categories(pots, &categories);
    proof {
        assert forall|j: int| 0 <= j < pots@.len() implies #[trigger] texts(categories@)[j] == category_of(
            pots@[j].name@,
        ) by {
            assert(texts(categories@)[j] == categories@[j]@);
        }
        lemma_pot_map_with_names(pots@, texts(categories@));
    }
    m
}

/// Law: every category that the pot map holds is a spending category.
pub proof fn lemma_pot_map_keys_are_spending_categories(pots: Seq<Pot>, k: Seq<char>)
    requires
        pot_map_of(pots).contains_key(k),
    ensures
        spending_categories().contains(k),
    decreases pots.len(),
{
    if pots.len() > 0 {
        let p = pots.last();
        if !(covers_spending(p) && category_of(p.name@) == k) {
            lemma_pot_map_keys_are_spending_categories(pots.drop_last(), k);
        }
    }
}

/// Law: whatever id the pot map gives for a category is the id of a pot in
/// the list that is not deleted and whose name stands for that category.
pub proof fn lemma_pot_map_ids_are_live_pots(pots: Seq<Pot>, k: Seq<char>)
    requires
        pot_map_of(pots).contains_key(k),
    ensures
        exists|i: int|
            0 <= i < pots.len() && #[trigger] covers_spending(pots[i]) && category_of(pots[i].name@) == k
                && pots[i].id@ == pot_map_of(pots)[k],
    decreases pots.len(),
{
    let last = pots.len() - 1;
    let p = pots[last];
    if covers_spending(p) && category_of(p.name@) == k {
        assert(covers_spending(pots[last]));
    } else {
        let d = pots.drop_last();
        lemma_pot_map_ids_are_live_pots(d, k);
        let i = choose|i: int|
            0 <= i < d.len() && #[trigger] covers_spending(d[i]) && category_of(d[i].name@) == k
                && d[i].id@ == pot_map_of(d)[k];
        assert(pots[i] == d[i]);
        assert(covers_spending(pots[i]));
    }
}

/// Law: a live pot whose name stands for a spending category is in the map,
/// and it is the one used for its category unless a later live pot stands
/// for the same category.
pub proof fn lemma_pot_map_uses_last_live_pot(pots: Seq<Pot>, i: int)
    requires
        0 <= i < pots.len(),
        covers_spending(pots[i]),
        forall|j: int|
            i < j < pots.len() && #[trigger] covers_spending(pots[j]) ==> category_of(pots[j].name@)
                != category_of(pots[i].name@),
    ensures
        pot_map_of(pots).contains_key(category_of(pots[i].name@)),
        pot_map_of(pots)[category_of(pots[i].name@)] == pots[i].id@,
    decreases pots.len(),
{
    if i < pots.len() - 1 {
        let d = pots.drop_last();
        assert(d[i] == pots[i]);
        assert forall|j: int| i < j < d.len() && #[trigger] covers_spending(d[j]) implies category_of(d[j].name@)
            != category_of(d[i].name@) by {
            assert(d[j] == pots[j]);
        }
        lemma_pot_map_uses_last_live_pot(d, i);
        assert(covers_spending(pots[pots.len() - 1]) ==> category_of(pots[pots.len() - 1].name@) != category_of(pots[i].name@));
    }
}

/// Law: a pot list with no live pot standing for a category gives a map
/// without that category.
pub proof fn lemma_pot_map_omits_uncovered_category(pots: Seq<Pot>, k: Seq<char>)
    requires
        forall|j: int| 0 <= j < pots.len() && #[trigger] covers_spending(pots[j]) ==> category_of(pots[j].name@) != k,
    ensures
        !pot_map_of(pots).contains_key(k),
{
    if pot_map_of(pots).contains_key(k) {
        lemma_pot_map_ids_are_live_pots(pots, k);
    }
}

} // verus!
