//! Shops a server has registered, and the operations on that list.

use vstd::prelude::*;

verus! {

/// A shop that can be voted for: a display name and a link.
#[derive(Clone, Debug, PartialEq, Eq)]
pub struct Shop {
    pub name: String,
    pub url: String,
}

/// Mathematical model of a `Shop`.
pub struct ShopView {
    pub name: Seq<char>,
    pub url: Seq<char>,
}

impl View for Shop {
    type V = ShopView;

    open spec fn view(&self) -> ShopView {
        ShopView { name: self.name@, url: self.url@ }
    }
}

impl DeepView for Shop {
    type V = ShopView;

    open spec fn deep_view(&self) -> ShopView {
        self@
    }
}

/// The list after adding `shop`: unchanged when an equal shop is already
/// listed, otherwise `shop` appended at the end.
pub open spec fn with_shop(shops: Seq<ShopView>, shop: ShopView) -> Seq<ShopView> {
    if shops.contains(shop) {
        shops
    } else {
        shops.push(shop)
    }
}

/// `i` is the first position of `shops` whose name is `name`.
pub open spec fn is_first_named(shops: Seq<ShopView>, name: Seq<char>, i: int) -> bool {
    &&& 0 <= i < shops.len()
    &&& shops[i].name == name
    &&& forall|j: int| 0 <= j < i ==> shops[j].name != name
}

/// The list after removing the first shop called `name`, if there is one.
pub open spec fn without_shop_named(shops: Seq<ShopView>, name: Seq<char>) -> Seq<ShopView> {
    if exists|i: int| is_first_named(shops, name, i) {
        shops.remove(choose|i: int| is_first_named(shops, name, i))
    } else {
        shops
    }
}

/// The text of the shop listing: one line `- <name>` per shop, in order.
pub open spec fn shop_list_text_of(shops: Seq<ShopView>) -> Seq<char>
    decreases shops.len(),
{
    if shops.len() == 0 {
        Seq::empty()
    } else {
        shop_list_text_of(shops.drop_last()) + "- "@ + shops.last().name + "\n"@
    }
}

impl Shop {
    /// Builds a shop from its name and link.
    pub fn new(name: String, url: String) -> (shop: Shop)
        ensures
            shop.name == name,
            shop.url == url,
    {
        Shop { name, url }
    }

    /// A copy of the shop with the same name and link.
    pub fn duplicate(&self) -> (copy: Shop)
        ensures
            copy@ == self@,
    {
        Shop { name: self.name.clone(), url: self.url.clone() }
    }

    /// Field-wise equality of two shops.
    pub fn same_as(&self, other: &Shop) -> (eq: bool)
        ensures
            eq == (self@ == other@),
    {
        self.name == other.name && self.url == other.url
    }
}

/// Whether `shops` lists a shop equal to `shop`.
pub fn contains_shop(shops: &Vec<Shop>, shop: &Shop) -> (found: bool)
    ensures
        found == shops.deep_view().contains(shop@),
{
    let ghost s = shops.deep_view();
    let mut i: usize = 0;
    while i < shops.len()
        invariant
            i <= shops.len(),
            s == shops.deep_view(),
            forall|j: int| 0 <= j < i ==> s[j] != shop@,
        decreases shops.len() - i,
    {
        if shops[i].same_as(shop) {
            assert(s[i as int] == shop@);
            return true;
        }
        i = i + 1;
    }
    false
}

/// Adds `shop` to the list unless an equal shop is already there.
pub fn add_shop(shops: &mut Vec<Shop>, shop: Shop)
    ensures
        final(shops).deep_view() == with_shop(old(shops).deep_view(), shop@),
{
    if !contains_shop(shops, &shop) {
        let ghost before = shops.deep_view();
        shops.push(shop);
        assert(shops.deep_view() =~= before.push(shop@));
    }
}

/// Removes the first shop called `name`; the list is unchanged when there
/// is none.
pub fn remove_shop(shops: &mut Vec<Shop>, name: &String)
    ensures
        final(shops).deep_view() == without_shop_named(old(shops).deep_view(), name@),
{
    let ghost s = shops.deep_view();
    let mut i: usize = 0;
    while i < shops.len()
        invariant
            i <= shops.len(),
            s == shops.deep_view(),
            s == old(shops).deep_view(),
            forall|j: int| 0 <= j < i ==> s[j].name != name@,
        decreases shops.len() - i,
    {
        if *name == shops[i].name {
            assert(is_first_named(s, name@, i as int));
            proof {
                let k = choose|k: int| is_first_named(s, name@, k);
                assert(k == i as int) by {
                    if k < i { assert(s[k].name != name@); }
                    if k > i { assert(s[i as int].name != name@); }
                }
            }
            shops.remove(i);
            assert(shops.deep_view() =~= s.remove(i as int));
            return;
        }
        i = i + 1;
    }
    assert(!exists|k: int| is_first_named(s, name@, k));
}

/// The listing shown by the `list` subcommand.
pub fn shop_list_text(shops: &Vec<Shop>) -> (text: String)
    ensures
        text@ == shop_list_text_of(shops.deep_view()),
{
    let ghost s = shops.deep_view();
    let mut text = String::new();
    let mut i: usize = 0;
    while i < shops.len()
        invariant
            i <= shops.len(),
            s == shops.deep_view(),
            text@ == shop_list_text_of(s.take(i as int)),
        decreases shops.len() - i,
    {
        assert(s.take(i + 1).drop_last() =~= s.take(i as int));
        text.append("- ");
        text.append(shops[i].name.as_str());
        text.append("\n");
        i = i + 1;
    }
    assert(s.take(shops.len() as int) =~= s);
    text
}

/// After a shop is added, the list contains it.
pub proof fn law_added_shop_is_listed(shops: Seq<ShopView>, shop: ShopView)
    ensures
        with_shop(shops, shop).contains(shop),
{
    if !shops.contains(shop) {
        assert(shops.push(shop)[shops.len() as int] == shop);
    }
}

/// Adding the same shop twice is the same as adding it once.
pub proof fn law_add_shop_idempotent(shops: Seq<ShopView>, shop: ShopView)
    ensures
        with_shop(with_shop(shops, shop), shop) == with_shop(shops, shop),
{
    law_added_shop_is_listed(shops, shop);
}

/// A list without repeated shops stays without repeated shops after an add.
pub proof fn law_add_shop_keeps_shops_distinct(shops: Seq<ShopView>, shop: ShopView)
    requires
        shops.no_duplicates(),
    ensures
        with_shop(shops, shop).no_duplicates(),
{
    if !shops.contains(shop) {
        let t = shops.push(shop);
        assert forall|i: int, j: int| 0 <= i < t.len() && 0 <= j < t.len() && i != j implies t[i]
            != t[j] by {
            if i == shops.len() {
                assert(t[j] == shops[j]);
            } else if j == shops.len() {
                assert(t[i] == shops[i]);
            }
        }
    }
}

/// Removing, by name, a shop that was just added under a name no listed shop
/// had gives back the list as it was.
pub proof fn law_remove_undoes_add(shops: Seq<ShopView>, shop: ShopView)
    requires
        forall|i: int| 0 <= i < shops.len() ==> shops[i].name != shop.name,
    ensures
        without_shop_named(with_shop(shops, shop), shop.name) == shops,
{
    assert(!shops.contains(shop));
    let t = shops.push(shop);
    let n = shops.len() as int;
    assert(is_first_named(t, shop.name, n));
    let k = choose|k: int| is_first_named(t, shop.name, k);
    assert(k == n) by {
        if k < n {
            assert(t[k] == shops[k]);
        }
    }
    assert(t.remove(n) =~= shops);
}

/// Removing by a name that no listed shop has leaves the list unchanged;
/// otherwise exactly one shop goes, the first one carrying that name, and
/// the others keep their order.
pub proof fn law_remove_drops_first_named_shop(shops: Seq<ShopView>, name: Seq<char>)
    ensures
        (forall|i: int| 0 <= i < shops.len() ==> shops[i].name != name) ==> without_shop_named(
            shops,
            name,
        ) == shops,
        (exists|i: int| 0 <= i < shops.len() && shops[i].name == name) ==> exists|i: int|
            #[trigger] is_first_named(shops, name, i) && without_shop_named(shops, name)
                == shops.remove(i) && without_shop_named(shops, name).len() == shops.len() - 1,
{
    if exists|i: int| 0 <= i < shops.len() && shops[i].name == name {
        let w = choose|i: int| 0 <= i < shops.len() && shops[i].name == name;
        lemma_first_named_exists(shops, name, w);
        let k = choose|k: int| is_first_named(shops, name, k);
        assert(is_first_named(shops, name, k));
    }
}

/// Some position of `shops` carries `name`, so a first one does.
proof fn lemma_first_named_exists(shops: Seq<ShopView>, name: Seq<char>, w: int)
    requires
        0 <= w < shops.len(),
        shops[w].name == name,
    ensures
        exists|i: int| is_first_named(shops, name, i),
    decreases w,
{
    if forall|j: int| 0 <= j < w ==> shops[j].name != name {
        assert(is_first_named(shops, name, w));
    } else {
        let j = choose|j: int| 0 <= j < w && shops[j].name == name;
        lemma_first_named_exists(shops, name, j);
    }
}

/// Adding a shop that was not listed adds its line at the end of the listing.
pub proof fn law_listing_after_add(shops: Seq<ShopView>, shop: ShopView)
    requires
        !shops.contains(shop),
    ensures
        shop_list_text_of(with_shop(shops, shop)) == shop_list_text_of(shops) + "- "@ + shop.name
            + "\n"@,
{
    assert(shops.push(shop).drop_last() =~= shops);
}

/// Removing by name takes out the first shop carrying that name and keeps
/// the shops before and after it in order; without such a shop the list
/// stays as it is.
pub proof fn law_remove_takes_out_first_with_name(shops: Seq<ShopView>, name: Seq<char>, i: int)
    requires
        0 <= i < shops.len(),
        shops[i].name == name,
        forall|j: int| 0 <= j < i ==> shops[j].name != name,
    ensures
        without_shop_named(shops, name) == shops.subrange(0, i) + shops.subrange(i + 1, shops.len() as int),
{
    assert(is_first_named(shops, name, i));
    let k = choose|k: int| is_first_named(shops, name, k);
    assert(k == i) by {
        if k < i {
            assert(shops[k].name != name);
        }
        if k > i {
            assert(shops[i].name != name);
        }
    }
    assert(shops.remove(i) =~= shops.subrange(0, i) + shops.subrange(i + 1, shops.len() as int));
}

/// The listing of no shops is empty, and each further shop adds the line
/// `- <name>` at the end.
pub proof fn law_listing_lines(shops: Seq<ShopView>, shop: ShopView)
    ensures
        shop_list_text_of(Seq::empty()) == Seq::<char>::empty(),
        shop_list_text_of(shops.push(shop)) == shop_list_text_of(shops) + "- "@ + shop.name + "\n"@,
{
    assert(shops.push(shop).drop_last() =~= shops);
}

/// Adding a shop that is not listed appends it after the listed ones.
pub proof fn law_add_appends_new_shop(shops: Seq<ShopView>, shop: ShopView)
    requires
        forall|i: int| 0 <= i < shops.len() ==> shops[i] != shop,
    ensures
        with_shop(shops, shop).len() == shops.len() + 1,
        with_shop(shops, shop).last() == shop,
        with_shop(shops, shop).drop_last() == shops,
{
    assert(shops.push(shop).drop_last() =~= shops);
}

} // verus!
