//! The inventory: a finite mapping from product name to product, kept as a
//! list of entries in which no name occurs twice.

use vstd::prelude::*;
use crate::product::{product_views, Product, ProductView};

verus! {

/// The mapping that a list of products stands for: each product under its
/// name, a later product replacing an earlier one of the same name.
pub open spec fn map_of(products: Seq<ProductView>) -> Map<Seq<char>, ProductView>
    decreases products.len(),
{
    if products.len() == 0 {
        Map::empty()
    } else {
        map_of(products.drop_last()).insert(products.last().name, products.last())
    }
}

/// No name occurs twice in the list.
pub open spec fn names_distinct(products: Seq<ProductView>) -> bool {
    forall|i: int, j: int| 0 <= i < j < products.len() ==> products[i].name != products[j].name
}

/// Some product of the list has this name.
pub open spec fn has_name(products: Seq<ProductView>, name: Seq<char>) -> bool {
    exists|i: int| 0 <= i < products.len() && #[trigger] products[i].name == name
}

/// The keys of `map_of` are the names in the list, and there are finitely
/// many.
pub proof fn lemma_map_of_keys(products: Seq<ProductView>)
    ensures
        map_of(products).dom().finite(),
        map_of(products).dom().len() <= products.len(),
        forall|name: Seq<char>| #[trigger]
            map_of(products).dom().contains(name) <==> has_name(products, name),
    decreases products.len(),
{
    if products.len() > 0 {
        let front = products.drop_last();
        lemma_map_of_keys(front);
        assert forall|name: Seq<char>| #[trigger]
            map_of(products).dom().contains(name) <==> has_name(products, name) by {
            if has_name(products, name) {
                let i = choose|i: int| 0 <= i < products.len() && #[trigger] products[i].name == name;
                if i < front.len() {
                    assert(front[i].name == name);
                    assert(has_name(front, name));
                }
            }
            if map_of(products).dom().contains(name) {
                if name == products.last().name {
                    assert(products[products.len() - 1].name == name);
                } else {
                    assert(has_name(front, name));
                    let i = choose|i: int| 0 <= i < front.len() && #[trigger] front[i].name == name;
                    assert(products[i].name == name);
                }
            }
        }
    }
}

/// Every product in `map_of` stands under its own name.
pub proof fn lemma_map_of_names(products: Seq<ProductView>)
    ensures
        forall|name: Seq<char>| #[trigger]
            map_of(products).dom().contains(name) ==> map_of(products)[name].name == name,
    decreases products.len(),
{
    if products.len() > 0 {
        let front = products.drop_last();
        lemma_map_of_names(front);
        assert forall|name: Seq<char>| #[trigger]
            map_of(products).dom().contains(name) implies map_of(products)[name].name == name by {
            if name != products.last().name {
                assert(map_of(front).dom().contains(name));
            }
        }
    }
}

/// In a list without repeated names, `map_of` holds each product under its
/// own name, and has as many keys as the list has products.
pub proof fn lemma_map_of_distinct(products: Seq<ProductView>)
    requires
        names_distinct(products),
    ensures
        map_of(products).dom().len() == products.len(),
        forall|i: int|
            0 <= i < products.len() ==> map_of(products).dom().contains(
                #[trigger] products[i].name,
            ) && map_of(products)[products[i].name] == products[i],
    decreases products.len(),
{
    if products.len() > 0 {
        let front = products.drop_last();
        let last = products.last();
        assert(names_distinct(front)) by {
            assert forall|i: int, j: int| 0 <= i < j < front.len() implies front[i].name
                != front[j].name by {
                assert(products[i].name != products[j].name);
            }
        }
        lemma_map_of_distinct(front);
        lemma_map_of_keys(front);
        assert(!has_name(front, last.name)) by {
            if has_name(front, last.name) {
                let i = choose|i: int| 0 <= i < front.len() && #[trigger] front[i].name == last.name;
                assert(products[i].name != products[products.len() - 1].name);
            }
        }
        assert forall|i: int| 0 <= i < products.len() implies map_of(products).dom().contains(
            #[trigger] products[i].name,
        ) && map_of(products)[products[i].name] == products[i] by {
            if i < front.len() {
                assert(front[i].name == products[i].name);
                assert(products[i].name != products[products.len() - 1].name);
            }
        }
    }
}

/// Appending a product puts it into the mapping under its name.
pub proof fn lemma_map_of_push(products: Seq<ProductView>, product: ProductView)
    ensures
        map_of(products.push(product)) == map_of(products).insert(product.name, product),
{
    assert(products.push(product).drop_last() =~= products);
}

/// Replacing a product by one of the same name, in a list without repeated
/// names, replaces it in the mapping.
pub proof fn lemma_map_of_update(products: Seq<ProductView>, i: int, product: ProductView)
    requires
        names_distinct(products),
        0 <= i < products.len(),
        products[i].name == product.name,
    ensures
        names_distinct(products.update(i, product)),
        map_of(products.update(i, product)) == map_of(products).insert(product.name, product),
{
    let after = products.update(i, product);
    assert(names_distinct(after)) by {
        assert forall|a: int, b: int| 0 <= a < b < after.len() implies after[a].name
            != after[b].name by {
            assert(products[a].name != products[b].name);
        }
    }
    lemma_map_of_keys(products);
    lemma_map_of_keys(after);
    lemma_map_of_distinct(products);
    lemma_map_of_distinct(after);
    let lhs = map_of(after);
    let rhs = map_of(products).insert(product.name, product);
    assert forall|name: Seq<char>| lhs.dom().contains(name) <==> rhs.dom().contains(name) by {
        if has_name(after, name) {
            let k = choose|k: int| 0 <= k < after.len() && #[trigger] after[k].name == name;
            assert(products[k].name == name);
        }
        if has_name(products, name) {
            let k = choose|k: int| 0 <= k < products.len() && #[trigger] products[k].name == name;
            assert(after[k].name == name);
        }
    }
    assert forall|name: Seq<char>| lhs.dom().contains(name) implies lhs[name] == rhs[name] by {
        let k = choose|k: int| 0 <= k < after.len() && #[trigger] after[k].name == name;
        assert(lhs[after[k].name] == after[k]);
        if k != i {
            assert(products[k].name == name);
            assert(map_of(products)[products[k].name] == products[k]);
            if k < i {
                assert(products[k].name != products[i].name);
            } else {
                assert(products[i].name != products[k].name);
            }
        }
    }
    assert(lhs =~= rhs);
}

/// Taking a product out of a list without repeated names takes its name out
/// of the mapping.
pub proof fn lemma_map_of_remove(products: Seq<ProductView>, i: int)
    requires
        names_distinct(products),
        0 <= i < products.len(),
    ensures
        names_distinct(products.remove(i)),
        map_of(products.remove(i)) == map_of(products).remove(products[i].name),
{
    let after = products.remove(i);
    assert(names_distinct(after)) by {
        assert forall|a: int, b: int| 0 <= a < b < after.len() implies after[a].name
            != after[b].name by {
            let a0 = if a < i { a } else { a + 1 };
            let b0 = if b < i { b } else { b + 1 };
            assert(products[a0].name != products[b0].name);
        }
    }
    lemma_map_of_keys(products);
    lemma_map_of_keys(after);
    lemma_map_of_distinct(products);
    lemma_map_of_distinct(after);
    let lhs = map_of(after);
    let rhs = map_of(products).remove(products[i].name);
    assert forall|name: Seq<char>| lhs.dom().contains(name) <==> rhs.dom().contains(name) by {
        if has_name(after, name) {
            let k = choose|k: int| 0 <= k < after.len() && #[trigger] after[k].name == name;
            let k0 = if k < i { k } else { k + 1 };
            assert(products[k0].name == name);
            if k0 < i {
                assert(products[k0].name != products[i].name);
            } else {
                assert(products[i].name != products[k0].name);
            }
        }
        if rhs.dom().contains(name) {
            let k = choose|k: int| 0 <= k < products.len() && #[trigger] products[k].name == name;
            assert(k != i);
            let k1 = if k < i { k } else { k - 1 };
            assert(after[k1].name == name);
        }
    }
    assert forall|name: Seq<char>| lhs.dom().contains(name) implies lhs[name] == rhs[name] by {
        let k = choose|k: int| 0 <= k < after.len() && #[trigger] after[k].name == name;
        let k0 = if k < i { k } else { k + 1 };
        assert(lhs[after[k].name] == after[k]);
        assert(map_of(products)[products[k0].name] == products[k0]);
    }
    assert(lhs =~= rhs);
}

/// The products of a store, each under its name.
#[derive(Debug)]
pub struct Inventory {
    entries: Vec<Product>,
}

impl View for Inventory {
    type V = Map<Seq<char>, ProductView>;

    closed spec fn view(&self) -> Map<Seq<char>, ProductView> {
        map_of(product_views(self.entries@))
    }
}

impl Inventory {
    #[verifier::type_invariant]
    spec fn well_formed(self) -> bool {
        names_distinct(product_views(self.entries@))
    }

    /// The mapping is finite, and every product stands under its own name.
    pub proof fn lemma_keys(self)
        ensures
            self@.dom().finite(),
            forall|name: Seq<char>| #[trigger]
                self@.dom().contains(name) ==> self@[name].name == name,
    {
        lemma_map_of_keys(product_views(self.entries@));
        lemma_map_of_names(product_views(self.entries@));
    }

    /// An inventory without products.
    pub fn new() -> (inventory: Self)
        ensures
            inventory@ == Map::<Seq<char>, ProductView>::empty(),
    {
        Inventory { entries: Vec::new() }
    }

    /// The place of the product named `key` among the entries.
    fn position(&self, key: &String) -> (place: Option<usize>)
        ensures
            match place {
                Some(i) => i < self.entries.len() && self.entries[i as int]@.name == key@,
                None => !self@.dom().contains(key@),
            },
            place.is_some() <==> self@.dom().contains(key@),
    {
        let mut i: usize = 0;
        while i < self.entries.len()
            invariant
                i <= self.entries.len(),
                forall|j: int| 0 <= j < i ==> self.entries[j]@.name != key@,
            decreases self.entries.len() - i,
        {
            if self.entries[i].name == *key {
                proof {
                    assert(product_views(self.entries@)[i as int].name == key@);
                    assert(has_name(product_views(self.entries@), key@));
                    lemma_map_of_keys(product_views(self.entries@));
                }
                return Some(i);
            }
            i += 1;
        }
        proof {
            let views = product_views(self.entries@);
            lemma_map_of_keys(views);
            if has_name(views, key@) {
                let k = choose|k: int| 0 <= k < views.len() && #[trigger] views[k].name == key@;
                assert(self.entries[k]@.name != key@);
            }
        }
        None
    }

    /// Whether a product of this name is held.
    pub fn contains_key(&self, name: &str) -> (held: bool)
        ensures
            held == self@.dom().contains(name@),
    {
        let key = name.to_owned();
        self.position(&key).is_some()
    }

    /// The product of this name, if one is held.
    pub fn get(&self, name: &str) -> (found: Option<&Product>)
        ensures
            found.is_some() == self@.dom().contains(name@),
            found.is_some() ==> found.unwrap()@ == self@[name@] && found.unwrap()@.name == name@,
    {
        proof {
            use_type_invariant(self);
            lemma_map_of_distinct(product_views(self.entries@));
        }
        let key = name.to_owned();
        match self.position(&key) {
            Some(i) => {
                proof {
                    assert(product_views(self.entries@)[i as int] == self.entries[i as int]@);
                }
                Some(&self.entries[i])
            },
            None => None,
        }
    }

    /// The number of products held.
    pub fn len(&self) -> (count: usize)
        ensures
            self@.dom().finite(),
            count == self@.dom().len(),
    {
        proof {
            use_type_invariant(self);
            lemma_map_of_keys(product_views(self.entries@));
            lemma_map_of_distinct(product_views(self.entries@));
        }
        self.entries.len()
    }

    /// Whether no product is held.
    pub fn is_empty(&self) -> (empty: bool)
        ensures
            empty == (self@ == Map::<Seq<char>, ProductView>::empty()),
    {
        proof {
            use_type_invariant(self);
            lemma_map_of_keys(product_views(self.entries@));
            lemma_map_of_distinct(product_views(self.entries@));
            if self.entries@.len() == 0 {
                assert(self@ =~= Map::<Seq<char>, ProductView>::empty());
            }
        }
        self.entries.len() == 0
    }

    /// Puts a product into the inventory under its name. A product of that
    /// name that was held before is replaced.
    pub fn insert(&mut self, product: Product)
        ensures
            final(self)@ == old(self)@.insert(product@.name, product@),
    {
        proof {
            use_type_invariant(&*self);
        }
        let place = self.position(&product.name);
        let mut entries: Vec<Product> = Vec::new();
        std::mem::swap(&mut entries, &mut self.entries);
        let ghost before = product_views(entries@);
        match place {
            Some(i) => {
                entries[i] = product;
                proof {
                    lemma_map_of_update(before, i as int, product@);
                    assert(product_views(entries@) =~= before.update(i as int, product@));
                }
            },
            None => {
                entries.push(product);
                proof {
                    lemma_map_of_push(before, product@);
                    lemma_map_of_keys(before);
                    assert(product_views(entries@) =~= before.push(product@));
                    assert(names_distinct(before.push(product@))) by {
                        assert forall|a: int, b: int| 0 <= a < b < before.len() + 1 implies
                            before.push(product@)[a].name != before.push(product@)[b].name by {
                            if b == before.len() {
                                if before[a].name == product@.name {
                                    assert(has_name(before, product@.name));
                                }
                            }
                        }
                    }
                }
            },
        }
        self.entries = entries;
    }

    /// Takes the product of this name out of the inventory and returns it;
    /// `None`, and nothing changes, when none is held.
    pub fn remove(&mut self, name: &str) -> (removed: Option<Product>)
        ensures
            removed.is_some() == old(self)@.dom().contains(name@),
            removed.is_some() ==> removed.unwrap()@ == old(self)@[name@] && removed.unwrap()@.name
                == name@,
            final(self)@ == old(self)@.remove(name@),
    {
        proof {
            use_type_invariant(&*self);
            lemma_map_of_distinct(product_views(self.entries@));
        }
        let key = name.to_owned();
        match self.position(&key) {
            Some(i) => {
                let mut entries: Vec<Product> = Vec::new();
                std::mem::swap(&mut entries, &mut self.entries);
                let ghost before = product_views(entries@);
                let product = entries.remove(i);
                proof {
                    lemma_map_of_remove(before, i as int);
                    assert(product_views(entries@) =~= before.remove(i as int));
                    assert(before[i as int] == product@);
                }
                self.entries = entries;
                Some(product)
            },
            None => {
                proof {
                    assert(self@.remove(name@) =~= self@);
                }
                None
            },
        }
    }

    /// The products held, each once, in no particular order.
    pub fn products(&self) -> (all: &Vec<Product>)
        ensures
            names_distinct(product_views(all@)),
            map_of(product_views(all@)) == self@,
            all@.len() == self@.dom().len(),
    {
        proof {
            use_type_invariant(self);
            lemma_map_of_distinct(product_views(self.entries@));
        }
        &self.entries
    }

    /// The inventory that a list of products stands for: each product under
    /// its name, a later product replacing an earlier one of the same name.
    pub fn from_products(products: Vec<Product>) -> (inventory: Self)
        ensures
            inventory@ == map_of(product_views(products@)),
    {
        let mut inventory = Inventory::new();
        let mut i: usize = 0;
        while i < products.len()
            invariant
                i <= products.len(),
                inventory@ == map_of(product_views(products@).take(i as int)),
            decreases products.len() - i,
        {
            let product = products[i].clone();
            proof {
                let views = product_views(products@);
                lemma_map_of_push(views.take(i as int), product@);
                assert(views.take(i as int).push(product@) =~= views.take(i + 1));
            }
            inventory.insert(product);
            i += 1;
        }
        proof {
            let views = product_views(products@);
            assert(views.take(products.len() as int) =~= views);
        }
        inventory
    }
}

} // verus!
