use vstd::prelude::*;
use vstd::string::StringExecFns;
use crate::element::Element;

verus! {

/// A rule mapping an unordered pair of input elements to one output element.
#[derive(Debug)]
pub struct Recipe {
    pub first: Element,
    pub second: Element,
    pub result: Element,
}

/// The order-independent recipe key: `(a1, b1)` and `(a2, b2)` name the same
/// unordered pair of element ids.
pub open spec fn key_matches(a1: Seq<char>, b1: Seq<char>, a2: Seq<char>, b2: Seq<char>) -> bool {
    (a1 == a2 && b1 == b2) || (a1 == b2 && b1 == a2)
}

/// The recipe's unordered input pair is `(a, b)`.
pub open spec fn pair_matches(r: Recipe, a: Seq<char>, b: Seq<char>) -> bool {
    key_matches(r.first.id@, r.second.id@, a, b)
}

impl Recipe {
    /// Builds a recipe from its two inputs and its output.
    pub fn new(first: Element, second: Element, result: Element) -> (r: Recipe)
        ensures
            r.first == first,
            r.second == second,
            r.result == result,
    {
        Recipe { first, second, result }
    }

    /// The ordered triple identifier `<first>_<second>_<result>`, by element ids.
    pub open spec fn spec_id(self) -> Seq<char> {
        self.first.id@ + "_"@ + self.second.id@ + "_"@ + self.result.id@
    }

    /// Renders this recipe's triple identifier.
    pub fn id(&self) -> (s: String)
        ensures
            s@ == self.spec_id(),
    {
        self.first.id.clone().concat("_").concat(self.second.id.as_str()).concat("_").concat(
            self.result.id.as_str(),
        )
    }

    /// An identical copy of this recipe.
    pub fn duplicate(&self) -> (r: Recipe)
        ensures
            r == *self,
    {
        Recipe {
            first: self.first.duplicate(),
            second: self.second.duplicate(),
            result: self.result.duplicate(),
        }
    }
}

/// Why a catalog registration was refused.
#[derive(Debug, PartialEq, Eq, Structural, Clone, Copy)]
pub enum CatalogError {
    /// An element with the same id is already registered.
    DuplicateId,
    /// A recipe with the same unordered input pair is already registered.
    DuplicateKey,
}

/// No two registered elements share an id.
pub open spec fn unique_ids(es: Seq<Element>) -> bool {
    forall|i: int, j: int|
        0 <= i < es.len() && 0 <= j < es.len() && i != j ==> es[i].id@ != es[j].id@
}

/// No two registered recipes share an unordered input pair, so a combination
/// resolves deterministically or not at all.
pub open spec fn unique_pairs(rs: Seq<Recipe>) -> bool {
    forall|i: int, j: int|
        0 <= i < rs.len() && 0 <= j < rs.len() && i != j ==> !pair_matches(
            rs[i],
            rs[j].first.id@,
            rs[j].second.id@,
        )
}

/// First-match recipe lookup by the unordered pair of ids `(a, b)`.
pub open spec fn spec_lookup(rs: Seq<Recipe>, a: Seq<char>, b: Seq<char>) -> Option<Recipe>
    decreases rs.len(),
{
    if rs.len() == 0 {
        None
    } else if pair_matches(rs[0], a, b) {
        Some(rs[0])
    } else {
        spec_lookup(rs.drop_first(), a, b)
    }
}

/// The result element of the recipe registered for the unordered pair
/// `(a, b)`, or `None` when there is none.
pub open spec fn spec_resolve(rs: Seq<Recipe>, a: Seq<char>, b: Seq<char>) -> Option<Element> {
    match spec_lookup(rs, a, b) {
        Some(r) => Some(r.result),
        None => None,
    }
}

/// An immutable registry of element definitions and crafting recipes. It is
/// populated once at startup and read-only afterwards.
#[derive(Debug)]
pub struct Catalog {
    pub elements: Vec<Element>,
    pub recipes: Vec<Recipe>,
}

impl Catalog {
    /// A well-formed catalog: element ids are unique and no two recipes share
    /// an unordered input pair.
    pub open spec fn wf(self) -> bool {
        unique_ids(self.elements@) && unique_pairs(self.recipes@)
    }

    /// An empty, well-formed catalog.
    pub fn new() -> (c: Catalog)
        ensures
            c.wf(),
            c.elements@.len() == 0,
            c.recipes@.len() == 0,
    {
        Catalog { elements: Vec::new(), recipes: Vec::new() }
    }

    /// Registers an element definition; fails with `DuplicateId` when an
    /// element with the same id is already present, leaving the catalog
    /// unchanged.
    pub fn register_element(&mut self, e: Element) -> (r: Result<(), CatalogError>)
        requires
            old(self).wf(),
        ensures
            final(self).wf(),
            final(self).recipes@ == old(self).recipes@,
            (exists|i: int| 0 <= i < old(self).elements@.len() && old(self).elements@[i].id@ == e.id@)
                ==> (r == Err::<(), CatalogError>(CatalogError::DuplicateId)
                    && final(self).elements@ == old(self).elements@),
            (forall|i: int| 0 <= i < old(self).elements@.len() ==> old(self).elements@[i].id@ != e.id@)
                ==> (r == Ok::<(), CatalogError>(())
                    && final(self).elements@ == old(self).elements@.push(e)),
    {
        if Self::has_element_id(&self.elements, &e.id) {
            Err(CatalogError::DuplicateId)
        } else {
            self.elements.push(e);
            Ok(())
        }
    }

    /// Registers a recipe under the order-independent key of its input pair;
    /// fails with `DuplicateKey` when a recipe with the same unordered input
    /// pair is already present, leaving the catalog unchanged.
    pub fn register_recipe(&mut self, r: Recipe) -> (res: Result<(), CatalogError>)
        requires
            old(self).wf(),
        ensures
            final(self).wf(),
            final(self).elements@ == old(self).elements@,
            (exists|i: int| 0 <= i < old(self).recipes@.len()
                && pair_matches(old(self).recipes@[i], r.first.id@, r.second.id@))
                ==> (res == Err::<(), CatalogError>(CatalogError::DuplicateKey)
                    && final(self).recipes@ == old(self).recipes@),
            (forall|i: int| 0 <= i < old(self).recipes@.len()
                ==> !pair_matches(old(self).recipes@[i], r.first.id@, r.second.id@))
                ==> (res == Ok::<(), CatalogError>(())
                    && final(self).recipes@ == old(self).recipes@.push(r)),
    {
        if Self::has_pair(&self.recipes, &r.first.id, &r.second.id) {
            Err(CatalogError::DuplicateKey)
        } else {
            proof {
                let rs = self.recipes@;
                assert forall|i: int, j: int|
                    0 <= i < rs.push(r).len() && 0 <= j < rs.push(r).len() && i
                        != j implies !pair_matches(
                    rs.push(r)[i],
                    rs.push(r)[j].first.id@,
                    rs.push(r)[j].second.id@,
                ) by {
                    if i < rs.len() && j < rs.len() {
                        assert(rs.push(r)[i] == rs[i]);
                        assert(rs.push(r)[j] == rs[j]);
                    } else if i == rs.len() {
                        assert(rs.push(r)[i] == r);
                        assert(rs.push(r)[j] == rs[j]);
                        assert(!pair_matches(rs[j], r.first.id@, r.second.id@));
                    } else {
                        assert(rs.push(r)[j] == r);
                        assert(rs.push(r)[i] == rs[i]);
                        assert(!pair_matches(rs[i], r.first.id@, r.second.id@));
                    }
                }
            }
            self.recipes.push(r);
            Ok(())
        }
    }

    /// Canonicalizes `(a_id, b_id)` into the order-independent key and returns
    /// the matching recipe, if any; no side effects.
    pub fn lookup_recipe(&self, a_id: &String, b_id: &String) -> (r: Option<Recipe>)
        ensures
            r == spec_lookup(self.recipes@, a_id@, b_id@),
    {
        let n = self.recipes.len();
        let mut k: usize = 0;
        while k < n
            invariant
                k <= n,
                n == self.recipes@.len(),
                forall|j: int| 0 <= j < k ==> !pair_matches(self.recipes@[j], a_id@, b_id@),
            decreases n - k,
        {
            let rec = &self.recipes[k];
            let hit = (rec.first.id == *a_id && rec.second.id == *b_id) || (rec.first.id == *b_id
                && rec.second.id == *a_id);
            if hit {
                proof {
                    lemma_lookup_first_match(self.recipes@, a_id@, b_id@, k as int);
                }
                return Some(rec.duplicate());
            }
            k = k + 1;
        }
        proof {
            lemma_lookup_none(self.recipes@, a_id@, b_id@);
        }
        None
    }

    /// Order-independent recipe resolution: the result element of the recipe
    /// registered for the unordered pair `(a, b)`, or `None` when the pair has
    /// no recipe. Pure; no state, no side effects.
    pub fn resolve(&self, a: &Element, b: &Element) -> (r: Option<Element>)
        ensures
            r == spec_resolve(self.recipes@, a.id@, b.id@),
    {
        match self.lookup_recipe(&a.id, &b.id) {
            Some(rec) => Some(rec.result),
            None => None,
        }
    }

    /// Whether some registered element has the id `id`.
    fn has_element_id(es: &Vec<Element>, id: &String) -> (b: bool)
        ensures
            b == (exists|i: int| 0 <= i < es@.len() && es@[i].id@ == id@),
    {
        let n = es.len();
        let mut k: usize = 0;
        while k < n
            invariant
                k <= n,
                n == es@.len(),
                forall|j: int| 0 <= j < k ==> es@[j].id@ != id@,
            decreases n - k,
        {
            if es[k].id == *id {
                return true;
            }
            k = k + 1;
        }
        false
    }

    /// Whether some registered recipe has the unordered input pair
    /// `(a_id, b_id)`.
    fn has_pair(rs: &Vec<Recipe>, a_id: &String, b_id: &String) -> (b: bool)
        ensures
            b == (exists|i: int| 0 <= i < rs@.len() && pair_matches(rs@[i], a_id@, b_id@)),
    {
        let n = rs.len();
        let mut k: usize = 0;
        while k < n
            invariant
                k <= n,
                n == rs@.len(),
                forall|j: int| 0 <= j < k ==> !pair_matches(rs@[j], a_id@, b_id@),
            decreases n - k,
        {
            let rec = &rs[k];
            let hit = (rec.first.id == *a_id && rec.second.id == *b_id) || (rec.first.id == *b_id
                && rec.second.id == *a_id);
            if hit {
                return true;
            }
            k = k + 1;
        }
        false
    }
}

/// The first match that `spec_lookup` returns is the match with the smallest
/// index.
proof fn lemma_lookup_first_match(rs: Seq<Recipe>, a: Seq<char>, b: Seq<char>, i: int)
    requires
        0 <= i < rs.len(),
        pair_matches(rs[i], a, b),
        forall|j: int| 0 <= j < i ==> !pair_matches(rs[j], a, b),
    ensures
        spec_lookup(rs, a, b) == Some(rs[i]),
    decreases i,
{
    if i == 0 {
    } else {
        assert(!pair_matches(rs[0], a, b));
        assert forall|j: int| 0 <= j < i - 1 implies !pair_matches(
            rs.drop_first()[j],
            a,
            b,
        ) by {
            assert(rs.drop_first()[j] == rs[j + 1]);
        }
        assert(rs.drop_first()[i - 1] == rs[i]);
        lemma_lookup_first_match(rs.drop_first(), a, b, i - 1);
    }
}

/// When no recipe matches, `spec_lookup` returns `None`.
proof fn lemma_lookup_none(rs: Seq<Recipe>, a: Seq<char>, b: Seq<char>)
    requires
        forall|j: int| 0 <= j < rs.len() ==> !pair_matches(rs[j], a, b),
    ensures
        spec_lookup(rs, a, b) is None,
    decreases rs.len(),
{
    if rs.len() == 0 {
    } else {
        assert forall|j: int| 0 <= j < rs.drop_first().len() implies !pair_matches(
            rs.drop_first()[j],
            a,
            b,
        ) by {
            assert(rs.drop_first()[j] == rs[j + 1]);
        }
        lemma_lookup_none(rs.drop_first(), a, b);
    }
}

/// When some recipe matches, `spec_lookup` returns one of the matches.
proof fn lemma_lookup_finds(rs: Seq<Recipe>, a: Seq<char>, b: Seq<char>)
    requires
        exists|i: int| 0 <= i < rs.len() && pair_matches(rs[i], a, b),
    ensures
        exists|j: int|
            0 <= j < rs.len() && pair_matches(rs[j], a, b) && spec_lookup(rs, a, b) == Some(rs[j]),
    decreases rs.len(),
{
    if pair_matches(rs[0], a, b) {
        assert(spec_lookup(rs, a, b) == Some(rs[0]));
    } else {
        let i = choose|i: int| 0 <= i < rs.len() && pair_matches(rs[i], a, b);
        assert(rs.drop_first()[i - 1] == rs[i]);
        lemma_lookup_finds(rs.drop_first(), a, b);
        let j = choose|j: int|
            0 <= j < rs.drop_first().len() && pair_matches(rs.drop_first()[j], a, b) && spec_lookup(
                rs.drop_first(),
                a,
                b,
            ) == Some(rs.drop_first()[j]);
        assert(rs.drop_first()[j] == rs[j + 1]);
        assert(pair_matches(rs[j + 1], a, b) && spec_lookup(rs, a, b) == Some(rs[j + 1]));
    }
}

/// Law: recipe resolution is commutative in its two inputs, for every pair of
/// ids: `resolve(a, b)` and `resolve(b, a)` return the same value.
pub proof fn lemma_resolve_commutative(rs: Seq<Recipe>, a: Seq<char>, b: Seq<char>)
    ensures
        spec_resolve(rs, a, b) == spec_resolve(rs, b, a),
    decreases rs.len(),
{
    if rs.len() == 0 {
    } else {
        lemma_resolve_commutative(rs.drop_first(), a, b);
    }
}

/// Law: a pair of ids with no registered recipe resolves to `None`.
pub proof fn lemma_resolve_unregistered(rs: Seq<Recipe>, a: Seq<char>, b: Seq<char>)
    requires
        forall|i: int| 0 <= i < rs.len() ==> !pair_matches(rs[i], a, b),
    ensures
        spec_resolve(rs, a, b) is None,
{
    lemma_lookup_none(rs, a, b);
}

/// Law: in a catalog whose recipes have unique unordered input pairs,
/// resolving the input pair of any registered recipe returns that recipe's
/// result.
pub proof fn lemma_resolve_round_trip(rs: Seq<Recipe>, r: Recipe)
    requires
        unique_pairs(rs),
        rs.contains(r),
    ensures
        spec_resolve(rs, r.first.id@, r.second.id@) == Some(r.result),
{
    let i = choose|i: int| 0 <= i < rs.len() && rs[i] == r;
    assert(pair_matches(rs[i], r.first.id@, r.second.id@));
    lemma_lookup_finds(rs, r.first.id@, r.second.id@);
    let j = choose|j: int|
        0 <= j < rs.len() && pair_matches(rs[j], r.first.id@, r.second.id@) && spec_lookup(
            rs,
            r.first.id@,
            r.second.id@,
        ) == Some(rs[j]);
    if i != j {
        assert(!pair_matches(rs[j], rs[i].first.id@, rs[i].second.id@));
    }
    assert(spec_lookup(rs, r.first.id@, r.second.id@) == Some(r));
}

} // verus!
