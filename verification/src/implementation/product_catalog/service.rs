//! The product catalog service.

use crate::errors::{fails_with, CommerceError, CommerceErrorView};
use crate::keyed::{
    distinct, find, found_under, position, position_found, position_is, put, put_keeps_distinct,
    Keyed,
};
use crate::ordering::{slot_by, sorted_by, sorted_by_len};
use crate::text::{in_order, lowercase, occurs_in, text_contains, text_in_order, to_lowercase};
use crate::types::product_catalog::{
    Category, CategoryId, CategoryView, PaginatedProducts, Product, ProductFilter,
    ProductFilterView, ProductId, ProductSortOrder, ProductView, Sku,
};
use crate::views::{
    clone_vec, filter_take_next, filter_take_none, seq_view, seq_view_insert, seq_view_push,
    seq_view_update, take_all,
};
use vstd::prelude::*;

verus! {

impl Keyed for ProductView {
    type Key = Seq<char>;

    open spec fn key(self) -> Seq<char> {
        self.id
    }
}

impl Keyed for CategoryView {
    type Key = Seq<char>;

    open spec fn key(self) -> Seq<char> {
        self.id
    }
}

/// The product that is sold under a SKU.
#[derive(Debug)]
pub struct SkuEntry {
    /// The SKU.
    pub sku: Sku,
    /// The product.
    pub product_id: ProductId,
}

/// The model of a [`SkuEntry`].
pub ghost struct SkuEntryView {
    pub sku: Seq<char>,
    pub product_id: Seq<char>,
}

impl View for SkuEntry {
    type V = SkuEntryView;

    open spec fn view(&self) -> SkuEntryView {
        SkuEntryView {
            sku: self.sku@,
            product_id: self.product_id@,
        }
    }
}

impl Clone for SkuEntry {
    fn clone(&self) -> (r: Self)
        ensures
            r@ == self@,
    {
        SkuEntry {
            sku: self.sku.clone(),
            product_id: self.product_id.clone(),
        }
    }
}

/// The categories that were added under a parent, in the order in which they were added.
#[derive(Debug)]
pub struct CategoryChildren {
    /// The parent.
    pub parent_id: CategoryId,
    /// The children.
    pub child_ids: Vec<CategoryId>,
}

/// The model of a [`CategoryChildren`].
pub ghost struct CategoryChildrenView {
    pub parent_id: Seq<char>,
    pub child_ids: Seq<Seq<char>>,
}

impl View for CategoryChildren {
    type V = CategoryChildrenView;

    open spec fn view(&self) -> CategoryChildrenView {
        CategoryChildrenView {
            parent_id: self.parent_id@,
            child_ids: seq_view(self.child_ids@),
        }
    }
}

impl Clone for CategoryChildren {
    fn clone(&self) -> (r: Self)
        ensures
            r@ == self@,
    {
        CategoryChildren {
            parent_id: self.parent_id.clone(),
            child_ids: clone_vec(&self.child_ids),
        }
    }
}

impl Keyed for SkuEntryView {
    type Key = Seq<char>;

    open spec fn key(self) -> Seq<char> {
        self.sku
    }
}

impl Keyed for CategoryChildrenView {
    type Key = Seq<char>;

    open spec fn key(self) -> Seq<char> {
        self.parent_id
    }
}

/// The model of the catalog: the products, the product sold under every
/// SKU, the categories, and the children of every category.
pub ghost struct CatalogView {
    pub products: Seq<ProductView>,
    pub by_sku: Seq<SkuEntryView>,
    pub categories: Seq<CategoryView>,
    pub children: Seq<CategoryChildrenView>,
}

// ============================================================================
// THE MODEL OF THE QUERIES
// ============================================================================
/// Whether one of the texts `wanted` is among the texts `had`.
pub open spec fn any_among(wanted: Seq<Seq<char>>, had: Seq<Seq<char>>) -> bool {
    exists|i: int| 0 <= i < wanted.len() && had.contains(#[trigger] wanted[i])
}

/// Whether a product matches a text query: the query in lowercase occurs in
/// the name, the description or the SKU in lowercase.
pub open spec fn mentions(product: ProductView, query: Seq<char>) -> bool {
    let wanted = lowercase(query);
    ||| occurs_in(wanted, lowercase(product.name))
    ||| occurs_in(wanted, lowercase(product.description))
    ||| occurs_in(wanted, lowercase(product.sku))
}

impl ProductFilterView {
    /// Whether a product passes the filter but for its text query: it has
    /// the status and the type asked for, one of the categories and one of
    /// the tags asked for, a price within the bounds, the vendor asked for,
    /// and it is featured, in stock and on sale where that is asked for.
    /// What the filter leaves open is not asked for.
    pub open spec fn admits_fields(self, product: ProductView) -> bool {
        &&& self.status is Some ==> product.status == self.status->Some_0
        &&& self.product_type is Some ==> product.product_type == self.product_type->Some_0
        &&& self.categories.len() > 0 ==> any_among(self.categories, product.categories)
        &&& self.min_price is Some ==> product.effective_price().amount >= self.min_price->Some_0
        &&& self.max_price is Some ==> product.effective_price().amount <= self.max_price->Some_0
        &&& self.tags.len() > 0 ==> any_among(self.tags, product.tags)
        &&& self.vendor_id is Some ==> product.vendor_id == self.vendor_id
        &&& self.featured_only ==> product.is_featured
        &&& self.in_stock_only ==> product.is_in_stock()
        &&& self.on_sale_only ==> product.is_on_sale()
    }

    /// Whether a product passes the filter: it passes but for the text
    /// query, and matches the text query if there is one.
    pub open spec fn admits(self, product: ProductView) -> bool {
        &&& self.admits_fields(product)
        &&& self.search_query is Some ==> mentions(product, self.search_query->Some_0)
    }
}

/// Selects the products that pass a filter.
pub open spec fn admitted(filter: ProductFilterView) -> spec_fn(ProductView) -> bool {
    |product: ProductView| filter.admits(product)
}

/// Selects the root categories.
pub open spec fn is_root() -> spec_fn(CategoryView) -> bool {
    |category: CategoryView| category.parent_id is None
}

/// Selects the products in one of the categories.
pub open spec fn in_categories(category_ids: Seq<Seq<char>>) -> spec_fn(ProductView) -> bool {
    |product: ProductView| any_among(product.categories, category_ids)
}

/// Selects the featured products that customers see.
pub open spec fn featured() -> spec_fn(ProductView) -> bool {
    |product: ProductView| product.is_featured && product.is_visible()
}

/// Selects the products on sale that customers see.
pub open spec fn on_sale() -> spec_fn(ProductView) -> bool {
    |product: ProductView| product.is_on_sale() && product.is_visible()
}

/// The order in which a listing shows products: by creation time from the
/// newest, by price upwards or downwards, by name, or the featured first.
/// Where sales and ratings are asked for, the newest come first.
pub open spec fn order_of(sort: ProductSortOrder) -> spec_fn(ProductView, ProductView) -> bool {
    |a: ProductView, b: ProductView|
        match sort {
            ProductSortOrder::Newest => a.created_at >= b.created_at,
            ProductSortOrder::PriceAsc => a.effective_price().amount <= b.effective_price().amount,
            ProductSortOrder::PriceDesc => a.effective_price().amount
                >= b.effective_price().amount,
            ProductSortOrder::NameAsc => in_order(a.name, b.name),
            ProductSortOrder::BestSelling => a.created_at >= b.created_at,
            ProductSortOrder::TopRated => a.created_at >= b.created_at,
            ProductSortOrder::Featured => a.is_featured || !b.is_featured,
        }
}

/// The first `most` items, or all if there are fewer.
pub open spec fn at_most<T>(s: Seq<T>, most: usize) -> Seq<T> {
    if most < s.len() {
        s.take(most as int)
    } else {
        s
    }
}

/// The page of a listing: the items from `page * page_size` on, no more
/// than `page_size` of them.
pub open spec fn page_of<T>(items: Seq<T>, page: usize, page_size: usize) -> Seq<T> {
    let start = page * page_size;
    if start < items.len() {
        items.subrange(start, page_end(items.len(), page, page_size))
    } else {
        Seq::empty()
    }
}

/// Where the page of a listing of `count` items ends.
pub open spec fn page_end(count: nat, page: usize, page_size: usize) -> int {
    if page * page_size + page_size < count {
        page * page_size + page_size
    } else {
        count as int
    }
}

/// The children of a category.
pub open spec fn children_of(children: Seq<CategoryChildrenView>, id: Seq<char>) -> Seq<Seq<char>> {
    match find(children, id) {
        Some(entry) => entry.child_ids,
        None => Seq::empty(),
    }
}

/// The number of steps that a walk through the hierarchy is given: one for
/// the start and one for every child that is entered, up to the bound of
/// `usize`.
pub open spec fn walk_budget(children: Seq<CategoryChildrenView>, n: nat) -> usize
    decreases n,
{
    if n == 0 {
        1
    } else {
        let so_far = walk_budget(children, (n - 1) as nat);
        if so_far + children[n - 1].child_ids.len() > usize::MAX {
            usize::MAX
        } else {
            (so_far + children[n - 1].child_ids.len()) as usize
        }
    }
}

/// A walk through the hierarchy, with the categories found so far and
/// those whose children are still to be visited: the category entered last
/// is visited first, and its children are found in their order. The walk
/// ends when nothing is left to visit, or after `steps` visits.
pub open spec fn walked(
    children: Seq<CategoryChildrenView>,
    found: Seq<Seq<char>>,
    pending: Seq<Seq<char>>,
    steps: nat,
) -> Seq<Seq<char>>
    decreases steps,
{
    if steps == 0 || pending.len() == 0 {
        found
    } else {
        let kids = children_of(children, pending.last());
        walked(children, found + kids, pending.drop_last() + kids, (steps - 1) as nat)
    }
}

/// A category and its descendants: what a walk from the category finds.
pub open spec fn descendants(children: Seq<CategoryChildrenView>, id: Seq<char>) -> Seq<Seq<char>> {
    walked(children, seq![id], seq![id], walk_budget(children, children.len()) as nat)
}

impl CatalogView {
    /// The invariant of the catalog: every table has at most one entry
    /// under a key.
    pub open spec fn wf(self) -> bool {
        &&& distinct(self.products)
        &&& distinct(self.by_sku)
        &&& distinct(self.categories)
        &&& distinct(self.children)
    }

    /// The catalog without entries.
    pub open spec fn empty() -> Self {
        CatalogView {
            products: Seq::empty(),
            by_sku: Seq::empty(),
            categories: Seq::empty(),
            children: Seq::empty(),
        }
    }

    /// The children table after a category was added: the category is the
    /// last child of its parent, if it has one.
    pub open spec fn children_with(self, category: CategoryView) -> Seq<CategoryChildrenView> {
        match category.parent_id {
            Some(parent_id) => put(
                self.children,
                CategoryChildrenView {
                    parent_id,
                    child_ids: children_of(self.children, parent_id).push(category.id),
                },
            ),
            None => self.children,
        }
    }

    /// The table of SKUs after a product was removed: the entry of its SKU
    /// goes.
    pub open spec fn skus_without(self, sku: Seq<char>) -> Seq<SkuEntryView> {
        if position(self.by_sku, sku) < self.by_sku.len() {
            self.by_sku.remove(position(self.by_sku, sku))
        } else {
            self.by_sku
        }
    }
}

// ============================================================================
// THE SERVICE
// ============================================================================
/// Product catalog service.
#[derive(Debug)]
pub struct ProductCatalog {
    /// The products, at most one under an identifier.
    products: Vec<Product>,
    /// The product under every SKU, at most one for a SKU.
    products_by_sku: Vec<SkuEntry>,
    /// The categories, at most one under an identifier.
    categories: Vec<Category>,
    /// The children of every category, at most one list for a category.
    category_children: Vec<CategoryChildren>,
}

impl View for ProductCatalog {
    type V = CatalogView;

    closed spec fn view(&self) -> CatalogView {
        CatalogView {
            products: seq_view(self.products@),
            by_sku: seq_view(self.products_by_sku@),
            categories: seq_view(self.categories@),
            children: seq_view(self.category_children@),
        }
    }
}

/// Whether a category is among the categories.
fn has_category(ids: &Vec<CategoryId>, id: &CategoryId) -> (r: bool)
    ensures
        r == seq_view(ids@).contains(id@),
{
    let mut i: usize = 0;
    while i < ids.len()
        invariant
            i <= ids.len(),
            forall|j: int| 0 <= j < i ==> seq_view(ids@)[j] != id@,
        decreases ids.len() - i,
    {
        if ids[i] == *id {
            assert(seq_view(ids@)[i as int] == id@);
            return true;
        }
        i += 1;
    }
    false
}

/// Whether one of the categories `wanted` is among the categories `had`.
fn any_category(wanted: &Vec<CategoryId>, had: &Vec<CategoryId>) -> (r: bool)
    ensures
        r == any_among(seq_view(wanted@), seq_view(had@)),
{
    let mut i: usize = 0;
    while i < wanted.len()
        invariant
            i <= wanted.len(),
            forall|j: int| 0 <= j < i ==> !seq_view(had@).contains(#[trigger] seq_view(wanted@)[j]),
        decreases wanted.len() - i,
    {
        if has_category(had, &wanted[i]) {
            assert(seq_view(had@).contains(seq_view(wanted@)[i as int]));
            return true;
        }
        i += 1;
    }
    false
}

/// Whether a tag is among the tags.
fn has_tag(tags: &Vec<String>, tag: &String) -> (r: bool)
    ensures
        r == seq_view(tags@).contains(tag@),
{
    let mut i: usize = 0;
    while i < tags.len()
        invariant
            i <= tags.len(),
            forall|j: int| 0 <= j < i ==> seq_view(tags@)[j] != tag@,
        decreases tags.len() - i,
    {
        if tags[i] == *tag {
            assert(seq_view(tags@)[i as int] == tag@);
            return true;
        }
        i += 1;
    }
    false
}

/// Whether one of the tags `wanted` is among the tags `had`.
fn any_tag(wanted: &Vec<String>, had: &Vec<String>) -> (r: bool)
    ensures
        r == any_among(seq_view(wanted@), seq_view(had@)),
{
    let mut i: usize = 0;
    while i < wanted.len()
        invariant
            i <= wanted.len(),
            forall|j: int| 0 <= j < i ==> !seq_view(had@).contains(#[trigger] seq_view(wanted@)[j]),
        decreases wanted.len() - i,
    {
        if has_tag(had, &wanted[i]) {
            assert(seq_view(had@).contains(seq_view(wanted@)[i as int]));
            return true;
        }
        i += 1;
    }
    false
}

/// Whether a product may stand before another in a listing.
fn precedes(a: &Product, b: &Product, sort: ProductSortOrder) -> (r: bool)
    ensures
        r == (order_of(sort))(a@, b@),
{
    match sort {
        ProductSortOrder::Newest => a.created_at >= b.created_at,
        ProductSortOrder::PriceAsc => a.effective_price().amount <= b.effective_price().amount,
        ProductSortOrder::PriceDesc => a.effective_price().amount >= b.effective_price().amount,
        ProductSortOrder::NameAsc => text_in_order(a.name.as_str(), b.name.as_str()),
        ProductSortOrder::BestSelling => a.created_at >= b.created_at,
        ProductSortOrder::TopRated => a.created_at >= b.created_at,
        ProductSortOrder::Featured => a.is_featured || !b.is_featured,
    }
}

/// The first `most` products.
fn cut(products: Vec<Product>, most: usize) -> (r: Vec<Product>)
    ensures
        seq_view(r@) == at_most(seq_view(products@), most),
{
    let mut products = products;
    if most < products.len() {
        let ghost before = seq_view(products@);
        products.truncate(most);
        assert(seq_view(products@) =~= before.take(most as int));
    }
    products
}

impl ProductCatalog {
    #[verifier::type_invariant]
    spec fn inv(&self) -> bool {
        self@.wf()
    }

    /// Creates a new product catalog.
    pub fn new() -> (r: Self)
        ensures
            r@ == CatalogView::empty(),
            r@.wf(),
    {
        let products: Vec<Product> = Vec::new();
        let products_by_sku: Vec<SkuEntry> = Vec::new();
        let categories: Vec<Category> = Vec::new();
        let category_children: Vec<CategoryChildren> = Vec::new();
        proof {
            assert(seq_view(products@) =~= Seq::<ProductView>::empty());
            assert(seq_view(products_by_sku@) =~= Seq::<SkuEntryView>::empty());
            assert(seq_view(categories@) =~= Seq::<CategoryView>::empty());
            assert(seq_view(category_children@) =~= Seq::<CategoryChildrenView>::empty());
        }
        ProductCatalog { products, products_by_sku, categories, category_children }
    }

    /// The place of a product in the table, or the table's length.
    fn product_index(&self, id: &ProductId) -> (i: usize)
        ensures
            i == position(self@.products, id@),
            i <= self.products.len(),
    {
        let mut i: usize = 0;
        while i < self.products.len()
            invariant
                i <= self.products.len(),
                forall|j: int| 0 <= j < i ==> seq_view(self.products@)[j].key() != id@,
            decreases self.products.len() - i,
        {
            if self.products[i].id == *id {
                proof {
                    position_is(self@.products, id@, i as int);
                }
                return i;
            }
            i += 1;
        }
        proof {
            position_is(self@.products, id@, i as int);
        }
        i
    }

    /// The place of a SKU in the table, or the table's length.
    fn sku_index(&self, sku: &Sku) -> (i: usize)
        ensures
            i == position(self@.by_sku, sku@),
            i <= self.products_by_sku.len(),
    {
        let mut i: usize = 0;
        while i < self.products_by_sku.len()
            invariant
                i <= self.products_by_sku.len(),
                forall|j: int| 0 <= j < i ==> seq_view(self.products_by_sku@)[j].key() != sku@,
            decreases self.products_by_sku.len() - i,
        {
            if self.products_by_sku[i].sku == *sku {
                proof {
                    position_is(self@.by_sku, sku@, i as int);
                }
                return i;
            }
            i += 1;
        }
        proof {
            position_is(self@.by_sku, sku@, i as int);
        }
        i
    }

    /// The place of a category in the table, or the table's length.
    fn category_index(&self, id: &CategoryId) -> (i: usize)
        ensures
            i == position(self@.categories, id@),
            i <= self.categories.len(),
    {
        let mut i: usize = 0;
        while i < self.categories.len()
            invariant
                i <= self.categories.len(),
                forall|j: int| 0 <= j < i ==> seq_view(self.categories@)[j].key() != id@,
            decreases self.categories.len() - i,
        {
            if self.categories[i].id == *id {
                proof {
                    position_is(self@.categories, id@, i as int);
                }
                return i;
            }
            i += 1;
        }
        proof {
            position_is(self@.categories, id@, i as int);
        }
        i
    }

    /// The place of the children of a category in the table, or the table's
    /// length.
    fn children_index(&self, id: &CategoryId) -> (i: usize)
        ensures
            i == position(self@.children, id@),
            i <= self.category_children.len(),
    {
        let mut i: usize = 0;
        while i < self.category_children.len()
            invariant
                i <= self.category_children.len(),
                forall|j: int| 0 <= j < i ==> seq_view(self.category_children@)[j].key() != id@,
            decreases self.category_children.len() - i,
        {
            if self.category_children[i].parent_id == *id {
                proof {
                    position_is(self@.children, id@, i as int);
                }
                return i;
            }
            i += 1;
        }
        proof {
            position_is(self@.children, id@, i as int);
        }
        i
    }

    // ========================================================================
    // CATEGORY OPERATIONS
    // ========================================================================
    /// Adds a category. It becomes the last child of its parent, if it has
    /// one.
    ///
    /// Fails without any change when there is a category under the
    /// identifier already.
    pub fn add_category(&mut self, category: Category) -> (r: Result<(), CommerceError>)
        ensures
            final(self)@.wf(),
            match find(old(self)@.categories, category@.id) {
                Some(_) => final(self)@ == old(self)@ && fails_with(
                    r,
                    CommerceErrorView::CategoryAlreadyExists(category@.id),
                ),
                None => r is Ok && final(self)@ == (CatalogView {
                    categories: old(self)@.categories.push(category@),
                    children: old(self)@.children_with(category@),
                    ..old(self)@
                }),
            },
    {
        proof {
            use_type_invariant(&*self);
            position_found(self@.categories, category@.id);
        }
        if self.category_index(&category.id) < self.categories.len() {
            return Err(CommerceError::CategoryAlreadyExists(category.id.to_string()));
        }
        if let Some(parent_id) = &category.parent_id {
            proof {
                position_found(self@.children, parent_id@);
            }
            let i = self.children_index(parent_id);
            let mut lists: Vec<CategoryChildren> = Vec::new();
            core::mem::swap(&mut self.category_children, &mut lists);
            if i < lists.len() {
                let mut child_ids = clone_vec(&lists[i].child_ids);
                let child = category.id.clone();
                proof {
                    seq_view_push(child_ids@, child);
                }
                child_ids.push(child);
                let entry = CategoryChildren { parent_id: parent_id.clone(), child_ids };
                proof {
                    put_keeps_distinct(seq_view(lists@), entry@);
                    seq_view_update(lists@, i as int, entry);
                }
                lists[i] = entry;
            } else {
                let mut child_ids: Vec<CategoryId> = Vec::new();
                child_ids.push(category.id.clone());
                let entry = CategoryChildren { parent_id: parent_id.clone(), child_ids };
                proof {
                    assert(entry@.child_ids =~= Seq::<Seq<char>>::empty().push(category@.id));
                    put_keeps_distinct(seq_view(lists@), entry@);
                    seq_view_push(lists@, entry);
                }
                lists.push(entry);
            }
            self.category_children = lists;
        }
        proof {
            use_type_invariant(&*self);
            position_found(self@.categories, category@.id);
            put_keeps_distinct(self@.categories, category@);
            seq_view_push(self.categories@, category);
        }
        let mut categories: Vec<Category> = Vec::new();
        core::mem::swap(&mut self.categories, &mut categories);
        categories.push(category);
        self.categories = categories;
        Ok(())
    }

    /// Gets a category by ID.
    pub fn get_category(&self, id: &CategoryId) -> (r: Result<Category, CommerceError>)
        ensures
            match find(self@.categories, id@) {
                Some(category) => r is Ok && r->Ok_0@ == category,
                None => fails_with(r, CommerceErrorView::CategoryNotFound(id@)),
            },
    {
        let i = self.category_index(id);
        if i < self.categories.len() {
            Ok(self.categories[i].clone())
        } else {
            Err(CommerceError::CategoryNotFound(id.to_string()))
        }
    }

    /// Gets all root categories (no parent), in the order in which they
    /// were added.
    pub fn get_root_categories(&self) -> (r: Result<Vec<Category>, CommerceError>)
        ensures
            r is Ok,
            seq_view(r->Ok_0@) == self@.categories.filter(is_root()),
    {
        let ghost all = self@.categories;
        proof {
            filter_take_none(all, is_root());
        }
        let mut found: Vec<Category> = Vec::new();
        assert(seq_view(found@) =~= Seq::<CategoryView>::empty());
        let mut i: usize = 0;
        while i < self.categories.len()
            invariant
                i <= self.categories.len(),
                all == self@.categories,
                seq_view(found@) == all.take(i as int).filter(is_root()),
            decreases self.categories.len() - i,
        {
            proof {
                filter_take_next(all, is_root(), i as int);
            }
            if self.categories[i].parent_id.is_none() {
                let category = self.categories[i].clone();
                proof {
                    seq_view_push(found@, category);
                }
                found.push(category);
            }
            i += 1;
        }
        proof {
            take_all(all);
        }
        Ok(found)
    }

    /// Gets child categories of a parent, in the order in which they were
    /// added.
    pub fn get_child_categories(&self, parent_id: &CategoryId) -> (r: Result<
        Vec<Category>,
        CommerceError,
    >)
        ensures
            r is Ok,
            seq_view(r->Ok_0@) == found_under(
                self@.categories,
                children_of(self@.children, parent_id@),
                children_of(self@.children, parent_id@).len(),
            ),
    {
        proof {
            position_found(self@.children, parent_id@);
        }
        let mut found: Vec<Category> = Vec::new();
        assert(seq_view(found@) =~= Seq::<CategoryView>::empty());
        let c = self.children_index(parent_id);
        if c >= self.category_children.len() {
            return Ok(found);
        }
        let ids = &self.category_children[c].child_ids;
        let ghost names = children_of(self@.children, parent_id@);
        assert(names == seq_view(ids@));
        let mut i: usize = 0;
        while i < ids.len()
            invariant
                i <= ids.len(),
                names == seq_view(ids@),
                seq_view(found@) == found_under(self@.categories, names, i as nat),
            decreases ids.len() - i,
        {
            proof {
                position_found(self@.categories, names[i as int]);
            }
            let at = self.category_index(&ids[i]);
            if at < self.categories.len() {
                let category = self.categories[at].clone();
                proof {
                    seq_view_push(found@, category);
                }
                found.push(category);
            }
            i += 1;
        }
        Ok(found)
    }

    // ========================================================================
    // PRODUCT OPERATIONS
    // ========================================================================
    /// Adds a product to the catalog.
    ///
    /// Fails without any change when there is a product under the
    /// identifier already, or one under the SKU.
    pub fn add_product(&mut self, product: Product) -> (r: Result<(), CommerceError>)
        ensures
            final(self)@.wf(),
            if find(old(self)@.products, product@.id) is Some {
                final(self)@ == old(self)@ && fails_with(
                    r,
                    CommerceErrorView::ProductAlreadyExists(product@.id),
                )
            } else if find(old(self)@.by_sku, product@.sku) is Some {
                final(self)@ == old(self)@ && fails_with(
                    r,
                    CommerceErrorView::SkuAlreadyExists(product@.sku),
                )
            } else {
                r is Ok && final(self)@ == (CatalogView {
                    products: old(self)@.products.push(product@),
                    by_sku: old(self)@.by_sku.push(
                        SkuEntryView { sku: product@.sku, product_id: product@.id },
                    ),
                    ..old(self)@
                })
            },
    {
        proof {
            use_type_invariant(&*self);
            position_found(self@.products, product@.id);
            position_found(self@.by_sku, product@.sku);
        }
        if self.product_index(&product.id) < self.products.len() {
            return Err(CommerceError::ProductAlreadyExists(product.id.to_string()));
        }
        if self.sku_index(&product.sku) < self.products_by_sku.len() {
            return Err(CommerceError::SkuAlreadyExists(product.sku.to_string()));
        }
        let entry = SkuEntry { sku: product.sku.clone(), product_id: product.id.clone() };
        proof {
            put_keeps_distinct(self@.by_sku, entry@);
            seq_view_push(self.products_by_sku@, entry);
        }
        let mut by_sku: Vec<SkuEntry> = Vec::new();
        core::mem::swap(&mut self.products_by_sku, &mut by_sku);
        by_sku.push(entry);
        self.products_by_sku = by_sku;
        proof {
            use_type_invariant(&*self);
            position_found(self@.products, product@.id);
            put_keeps_distinct(self@.products, product@);
            seq_view_push(self.products@, product);
        }
        let mut products: Vec<Product> = Vec::new();
        core::mem::swap(&mut self.products, &mut products);
        products.push(product);
        self.products = products;
        Ok(())
    }

    /// Gets a product by ID.
    pub fn get_product(&self, id: &ProductId) -> (r: Result<Product, CommerceError>)
        ensures
            match find(self@.products, id@) {
                Some(product) => r is Ok && r->Ok_0@ == product,
                None => fails_with(r, CommerceErrorView::ProductNotFound(id@)),
            },
    {
        let i = self.product_index(id);
        if i < self.products.len() {
            Ok(self.products[i].clone())
        } else {
            Err(CommerceError::ProductNotFound(id.to_string()))
        }
    }

    /// Gets a product by SKU.
    ///
    /// Fails when nothing is sold under the SKU, and when the product that
    /// is has left the catalog.
    pub fn get_product_by_sku(&self, sku: &Sku) -> (r: Result<Product, CommerceError>)
        ensures
            match find(self@.by_sku, sku@) {
                None => fails_with(r, CommerceErrorView::ProductNotFound(sku@)),
                Some(entry) => match find(self@.products, entry.product_id) {
                    Some(product) => r is Ok && r->Ok_0@ == product,
                    None => fails_with(r, CommerceErrorView::ProductNotFound(entry.product_id)),
                },
            },
    {
        proof {
            position_found(self@.by_sku, sku@);
        }
        let s = self.sku_index(sku);
        if s >= self.products_by_sku.len() {
            return Err(CommerceError::ProductNotFound(sku.to_string()));
        }
        self.get_product(&self.products_by_sku[s].product_id)
    }

    /// Updates a product: the product takes the place of the one under its
    /// identifier. The table of SKUs stays as it is.
    ///
    /// Fails without any change when there is no product under the
    /// identifier.
    pub fn update_product(&mut self, product: Product) -> (r: Result<(), CommerceError>)
        ensures
            final(self)@.wf(),
            match find(old(self)@.products, product@.id) {
                Some(_) => r is Ok && final(self)@ == (CatalogView {
                    products: put(old(self)@.products, product@),
                    ..old(self)@
                }),
                None => final(self)@ == old(self)@ && fails_with(
                    r,
                    CommerceErrorView::ProductNotFound(product@.id),
                ),
            },
    {
        proof {
            use_type_invariant(&*self);
            position_found(self@.products, product@.id);
            put_keeps_distinct(self@.products, product@);
        }
        let i = self.product_index(&product.id);
        if i >= self.products.len() {
            return Err(CommerceError::ProductNotFound(product.id.to_string()));
        }
        let mut products: Vec<Product> = Vec::new();
        core::mem::swap(&mut self.products, &mut products);
        proof {
            seq_view_update(products@, i as int, product);
        }
        products[i] = product;
        self.products = products;
        Ok(())
    }

    /// Removes a product, and the entry of its SKU.
    ///
    /// Fails without any change when there is no product under the
    /// identifier.
    pub fn remove_product(&mut self, id: &ProductId) -> (r: Result<Product, CommerceError>)
        ensures
            final(self)@.wf(),
            match find(old(self)@.products, id@) {
                Some(product) => r is Ok && r->Ok_0@ == product && final(self)@ == (CatalogView {
                    products: old(self)@.products.remove(position(old(self)@.products, id@)),
                    by_sku: old(self)@.skus_without(product.sku),
                    ..old(self)@
                }),
                None => final(self)@ == old(self)@ && fails_with(
                    r,
                    CommerceErrorView::ProductNotFound(id@),
                ),
            },
    {
        proof {
            use_type_invariant(&*self);
            position_found(self@.products, id@);
        }
        let i = self.product_index(id);
        if i >= self.products.len() {
            return Err(CommerceError::ProductNotFound(id.to_string()));
        }
        let mut products: Vec<Product> = Vec::new();
        core::mem::swap(&mut self.products, &mut products);
        let ghost before = seq_view(products@);
        let product = products.remove(i);
        assert(seq_view(products@) =~= before.remove(i as int));
        self.products = products;
        proof {
            use_type_invariant(&*self);
            position_found(self@.by_sku, product@.sku);
        }
        let s = self.sku_index(&product.sku);
        if s < self.products_by_sku.len() {
            let mut by_sku: Vec<SkuEntry> = Vec::new();
            core::mem::swap(&mut self.products_by_sku, &mut by_sku);
            let ghost skus = seq_view(by_sku@);
            let _ = by_sku.remove(s);
            assert(seq_view(by_sku@) =~= skus.remove(s as int));
            self.products_by_sku = by_sku;
        }
        Ok(product)
    }

    /// The products that pass a filter, in the order in which they were
    /// added.
    fn filtered(&self, filter: &ProductFilter) -> (r: Vec<Product>)
        ensures
            seq_view(r@) == self@.products.filter(admitted(filter@)),
    {
        let ghost all = self@.products;
        let ghost pick = admitted(filter@);
        proof {
            filter_take_none(all, pick);
        }
        let mut found: Vec<Product> = Vec::new();
        assert(seq_view(found@) =~= Seq::<ProductView>::empty());
        let mut i: usize = 0;
        while i < self.products.len()
            invariant
                i <= self.products.len(),
                all == self@.products,
                pick == admitted(filter@),
                seq_view(found@) == all.take(i as int).filter(pick),
            decreases self.products.len() - i,
        {
            proof {
                filter_take_next(all, pick, i as int);
            }
            if self.matches_filter(&self.products[i], filter) {
                let product = self.products[i].clone();
                proof {
                    seq_view_push(found@, product);
                }
                found.push(product);
            }
            i += 1;
        }
        proof {
            take_all(all);
        }
        found
    }

    /// Searches products with filters: the products that pass the filter,
    /// in the order asked for, and of them the page asked for.
    pub fn search_products(
        &self,
        filter: &ProductFilter,
        sort: ProductSortOrder,
        page: usize,
        page_size: usize,
    ) -> (r: Result<PaginatedProducts, CommerceError>)
        ensures
            r is Ok,
            ({
                let matching = self@.products.filter(admitted(filter@));
                let listed = sorted_by(matching, order_of(sort), matching.len());
                let result = r->Ok_0;
                &&& seq_view(result.products@) == page_of(listed, page, page_size)
                &&& result.total_count == matching.len()
                &&& result.page == page
                &&& result.page_size == page_size
                &&& result.has_next == (page_end(matching.len(), page, page_size)
                    < matching.len())
            }),
    {
        let mut listed = self.filtered(filter);
        let total_count = listed.len();
        self.sort_products(&mut listed, sort);
        let ghost sorted = seq_view(listed@);
        proof {
            sorted_by_len(
                self@.products.filter(admitted(filter@)),
                order_of(sort),
                self@.products.filter(admitted(filter@)).len(),
            );
        }
        let mut page_products: Vec<Product> = Vec::new();
        assert(seq_view(page_products@) =~= Seq::<ProductView>::empty());
        let end = match page.checked_mul(page_size) {
            Some(start) => {
                let end = match start.checked_add(page_size) {
                    Some(end) => if end < total_count {
                        end
                    } else {
                        total_count
                    },
                    None => total_count,
                };
                if start < total_count {
                    let mut i: usize = start;
                    while i < end
                        invariant
                            start <= i <= end <= listed.len(),
                            sorted == seq_view(listed@),
                            seq_view(page_products@) == sorted.subrange(start as int, i as int),
                        decreases end - i,
                    {
                        let product = listed[i].clone();
                        proof {
                            seq_view_push(page_products@, product);
                            assert(sorted.subrange(start as int, i + 1) =~= sorted.subrange(
                                start as int,
                                i as int,
                            ).push(sorted[i as int]));
                        }
                        page_products.push(product);
                        i += 1;
                    }
                }
                end
            },
            None => total_count,
        };
        Ok(
            PaginatedProducts {
                products: page_products,
                total_count,
                page,
                page_size,
                has_next: end < total_count,
            },
        )
    }

    /// Gets products by category, in the order in which they were added;
    /// with the subcategories, the products of the category and of its
    /// descendants.
    pub fn get_products_by_category(&self, category_id: &CategoryId, include_subcategories: bool)
        -> (r: Result<Vec<Product>, CommerceError>)
        ensures
            r is Ok,
            seq_view(r->Ok_0@) == self@.products.filter(
                in_categories(
                    if include_subcategories {
                        descendants(self@.children, category_id@)
                    } else {
                        seq![category_id@]
                    },
                ),
            ),
    {
        let category_ids = if include_subcategories {
            match self.get_descendant_categories(category_id) {
                Ok(ids) => ids,
                Err(e) => {
                    return Err(e);
                },
            }
        } else {
            let mut only: Vec<CategoryId> = Vec::new();
            only.push(category_id.clone());
            assert(seq_view(only@) =~= seq![category_id@]);
            only
        };
        let ghost all = self@.products;
        let ghost pick = in_categories(seq_view(category_ids@));
        proof {
            filter_take_none(all, pick);
        }
        let mut found: Vec<Product> = Vec::new();
        assert(seq_view(found@) =~= Seq::<ProductView>::empty());
        let mut i: usize = 0;
        while i < self.products.len()
            invariant
                i <= self.products.len(),
                all == self@.products,
                pick == in_categories(seq_view(category_ids@)),
                seq_view(found@) == all.take(i as int).filter(pick),
            decreases self.products.len() - i,
        {
            proof {
                filter_take_next(all, pick, i as int);
            }
            if any_category(&self.products[i].categories, &category_ids) {
                let product = self.products[i].clone();
                proof {
                    seq_view_push(found@, product);
                }
                found.push(product);
            }
            i += 1;
        }
        proof {
            take_all(all);
        }
        Ok(found)
    }

    /// Gets featured products: the first `limit` of the featured products
    /// that customers see, in the order in which they were added.
    pub fn get_featured_products(&self, limit: usize) -> (r: Result<Vec<Product>, CommerceError>)
        ensures
            r is Ok,
            seq_view(r->Ok_0@) == at_most(self@.products.filter(featured()), limit),
    {
        let ghost all = self@.products;
        proof {
            filter_take_none(all, featured());
        }
        let mut found: Vec<Product> = Vec::new();
        assert(seq_view(found@) =~= Seq::<ProductView>::empty());
        let mut i: usize = 0;
        while i < self.products.len()
            invariant
                i <= self.products.len(),
                all == self@.products,
                seq_view(found@) == all.take(i as int).filter(featured()),
            decreases self.products.len() - i,
        {
            proof {
                filter_take_next(all, featured(), i as int);
            }
            if self.products[i].is_featured && self.products[i].status.is_visible() {
                let product = self.products[i].clone();
                proof {
                    seq_view_push(found@, product);
                }
                found.push(product);
            }
            i += 1;
        }
        proof {
            take_all(all);
        }
        Ok(cut(found, limit))
    }

    /// Gets products on sale: the first `limit` of the products on sale
    /// that customers see, in the order in which they were added.
    pub fn get_sale_products(&self, limit: usize) -> (r: Result<Vec<Product>, CommerceError>)
        ensures
            r is Ok,
            seq_view(r->Ok_0@) == at_most(self@.products.filter(on_sale()), limit),
    {
        let ghost all = self@.products;
        proof {
            filter_take_none(all, on_sale());
        }
        let mut found: Vec<Product> = Vec::new();
        assert(seq_view(found@) =~= Seq::<ProductView>::empty());
        let mut i: usize = 0;
        while i < self.products.len()
            invariant
                i <= self.products.len(),
                all == self@.products,
                seq_view(found@) == all.take(i as int).filter(on_sale()),
            decreases self.products.len() - i,
        {
            proof {
                filter_take_next(all, on_sale(), i as int);
            }
            if self.products[i].is_on_sale() && self.products[i].status.is_visible() {
                let product = self.products[i].clone();
                proof {
                    seq_view_push(found@, product);
                }
                found.push(product);
            }
            i += 1;
        }
        proof {
            take_all(all);
        }
        Ok(cut(found, limit))
    }

    /// Gets related products: those of the related products of a product
    /// that are in the catalog, in their order.
    ///
    /// Fails when there is no product under the identifier.
    pub fn get_related_products(&self, product_id: &ProductId) -> (r: Result<
        Vec<Product>,
        CommerceError,
    >)
        ensures
            match find(self@.products, product_id@) {
                Some(product) => r is Ok && seq_view(r->Ok_0@) == found_under(
                    self@.products,
                    product.related_products,
                    product.related_products.len(),
                ),
                None => fails_with(r, CommerceErrorView::ProductNotFound(product_id@)),
            },
    {
        proof {
            position_found(self@.products, product_id@);
        }
        let p = self.product_index(product_id);
        if p >= self.products.len() {
            return Err(CommerceError::ProductNotFound(product_id.to_string()));
        }
        let ids = &self.products[p].related_products;
        let ghost names = seq_view(ids@);
        let mut found: Vec<Product> = Vec::new();
        assert(seq_view(found@) =~= Seq::<ProductView>::empty());
        let mut i: usize = 0;
        while i < ids.len()
            invariant
                i <= ids.len(),
                names == seq_view(ids@),
                seq_view(found@) == found_under(self@.products, names, i as nat),
            decreases ids.len() - i,
        {
            proof {
                position_found(self@.products, names[i as int]);
            }
            let at = self.product_index(&ids[i]);
            if at < self.products.len() {
                let product = self.products[at].clone();
                proof {
                    seq_view_push(found@, product);
                }
                found.push(product);
            }
            i += 1;
        }
        Ok(found)
    }

    // ========================================================================
    // HELPERS
    // ========================================================================
    /// Checks if a product matches the filter but for its text query.
    pub fn matches_fields(&self, product: &Product, filter: &ProductFilter) -> (r: bool)
        ensures
            r == filter@.admits_fields(product@),
    {
        if let Some(status) = filter.status {
            if product.status != status {
                return false;
            }
        }
        if let Some(product_type) = filter.product_type {
            if product.product_type != product_type {
                return false;
            }
        }
        if filter.categories.len() > 0 && !any_category(&filter.categories, &product.categories) {
            return false;
        }
        let price = product.effective_price().amount;
        if let Some(min) = filter.min_price {
            if price < min {
                return false;
            }
        }
        if let Some(max) = filter.max_price {
            if price > max {
                return false;
            }
        }
        if filter.tags.len() > 0 && !any_tag(&filter.tags, &product.tags) {
            return false;
        }
        if let Some(vendor_id) = &filter.vendor_id {
            match &product.vendor_id {
                Some(vendor) => {
                    if *vendor != *vendor_id {
                        return false;
                    }
                },
                None => {
                    return false;
                },
            }
        }
        if filter.featured_only && !product.is_featured {
            return false;
        }
        if filter.in_stock_only && !product.is_in_stock() {
            return false;
        }
        if filter.on_sale_only && !product.is_on_sale() {
            return false;
        }
        true
    }

    /// Checks if a product matches the filter.
    pub fn matches_filter(&self, product: &Product, filter: &ProductFilter) -> (r: bool)
        ensures
            r == filter@.admits(product@),
    {
        if !self.matches_fields(product, filter) {
            return false;
        }
        if let Some(query) = &filter.search_query {
            let query_lower = to_lowercase(query.as_str());
            let matches_name = text_contains(
                to_lowercase(product.name.as_str()).as_str(),
                query_lower.as_str(),
            );
            let matches_desc = text_contains(
                to_lowercase(product.description.as_str()).as_str(),
                query_lower.as_str(),
            );
            let matches_sku = text_contains(
                to_lowercase(product.sku.0.as_str()).as_str(),
                query_lower.as_str(),
            );
            if !matches_name && !matches_desc && !matches_sku {
                return false;
            }
        }
        true
    }

    /// Sorts products; those that the order does not tell apart stay as
    /// they stand.
    fn sort_products(&self, products: &mut Vec<Product>, sort: ProductSortOrder)
        ensures
            seq_view(final(products)@) == sorted_by(
                seq_view(old(products)@),
                order_of(sort),
                old(products)@.len(),
            ),
    {
        let ghost le = order_of(sort);
        let mut sorted: Vec<Product> = Vec::new();
        assert(seq_view(sorted@) =~= Seq::<ProductView>::empty());
        let mut i: usize = 0;
        while i < products.len()
            invariant
                i <= products.len(),
                *products == *old(products),
                le == order_of(sort),
                seq_view(sorted@) == sorted_by(seq_view(products@), le, i as nat),
            decreases products.len() - i,
        {
            let product = products[i].clone();
            let mut at: usize = 0;
            while at < sorted.len() && precedes(&sorted[at], &product, sort)
                invariant
                    at <= sorted.len(),
                    le == order_of(sort),
                    slot_by(seq_view(sorted@), product@, le, 0) == slot_by(
                        seq_view(sorted@),
                        product@,
                        le,
                        at as int,
                    ),
                decreases sorted.len() - at,
            {
                at += 1;
            }
            proof {
                seq_view_insert(sorted@, at as int, product);
            }
            sorted.insert(at, product);
            i += 1;
        }
        *products = sorted;
    }

    /// The number of steps that a walk through the hierarchy is given.
    fn walk_steps(&self) -> (steps: usize)
        ensures
            steps == walk_budget(self@.children, self@.children.len()),
    {
        let mut steps: usize = 1;
        let mut i: usize = 0;
        while i < self.category_children.len()
            invariant
                i <= self.category_children.len(),
                steps == walk_budget(self@.children, i as nat),
            decreases self.category_children.len() - i,
        {
            steps = steps.saturating_add(self.category_children[i].child_ids.len());
            i += 1;
        }
        steps
    }

    /// Gets all descendant category IDs: the category and what a walk from
    /// it through the hierarchy finds.
    pub fn get_descendant_categories(&self, category_id: &CategoryId) -> (r: Result<
        Vec<CategoryId>,
        CommerceError,
    >)
        ensures
            r is Ok,
            seq_view(r->Ok_0@) == descendants(self@.children, category_id@),
    {
        let mut result: Vec<CategoryId> = Vec::new();
        result.push(category_id.clone());
        let mut to_process: Vec<CategoryId> = Vec::new();
        to_process.push(category_id.clone());
        assert(seq_view(result@) =~= seq![category_id@]);
        assert(seq_view(to_process@) =~= seq![category_id@]);
        let mut steps = self.walk_steps();
        while steps > 0 && to_process.len() > 0
            invariant
                walked(self@.children, seq_view(result@), seq_view(to_process@), steps as nat)
                    == descendants(self@.children, category_id@),
            decreases steps,
        {
            let ghost found = seq_view(result@);
            let ghost pending = seq_view(to_process@);
            let current = match to_process.pop() {
                Some(current) => current,
                None => {
                    return Ok(result);
                },
            };
            assert(seq_view(to_process@) =~= pending.drop_last());
            assert(current@ == pending.last());
            proof {
                position_found(self@.children, current@);
            }
            let c = self.children_index(&current);
            if c < self.category_children.len() {
                let child_ids = &self.category_children[c].child_ids;
                let ghost kids = seq_view(child_ids@);
                let mut k: usize = 0;
                while k < child_ids.len()
                    invariant
                        k <= child_ids.len(),
                        kids == seq_view(child_ids@),
                        seq_view(result@) == found + kids.take(k as int),
                        seq_view(to_process@) == pending.drop_last() + kids.take(k as int),
                    decreases child_ids.len() - k,
                {
                    let one = child_ids[k].clone();
                    let other = child_ids[k].clone();
                    proof {
                        seq_view_push(result@, one);
                        seq_view_push(to_process@, other);
                        assert(kids.take(k + 1) =~= kids.take(k as int).push(kids[k as int]));
                        assert((found + kids.take(k as int)).push(kids[k as int]) =~= found
                            + kids.take(k + 1));
                        assert((pending.drop_last() + kids.take(k as int)).push(kids[k as int])
                            =~= pending.drop_last() + kids.take(k + 1));
                    }
                    result.push(one);
                    to_process.push(other);
                    k += 1;
                }
                proof {
                    take_all(kids);
                }
            } else {
                assert(found + Seq::<Seq<char>>::empty() =~= found);
                assert(pending.drop_last() + Seq::<Seq<char>>::empty() =~= pending.drop_last());
            }
            steps -= 1;
        }
        Ok(result)
    }
}

impl Default for ProductCatalog {
    fn default() -> (r: Self)
        ensures
            r@ == CatalogView::empty(),
    {
        ProductCatalog::new()
    }
}

} // verus!
