//! The category tree shown to the frontend, built from the two flat lists
//! of a category listing.
use vstd::prelude::*;
use crate::decimal::{i32_to_decimal, signed_decimal};

verus! {

/// A third-level category.
pub struct FrontendCate3Item {
    pub id: String,
    pub name: String,
}

/// A second-level category; its third-level list starts empty.
pub struct FrontendCate2Item {
    pub id: String,
    pub name: String,
    pub short_name: String,
    pub icon: String,
    pub cate3_list: Vec<FrontendCate3Item>,
}

/// A first-level category with the second-level ones under it.
pub struct FrontendCate1Item {
    pub id: String,
    pub name: String,
    pub cate2_list: Vec<FrontendCate2Item>,
}

/// The whole tree.
pub struct FrontendCategoryResponse {
    pub cate1_list: Vec<FrontendCate1Item>,
}

/// A first-level category as listed.
pub struct RawCate1 {
    pub id: i32,
    pub name: String,
}

/// A second-level category as listed, naming its parent.
pub struct RawCate2 {
    pub parent_id: i32,
    pub id: i32,
    pub name: String,
    pub short_name: String,
    pub icon: String,
}

/// The data part of a listing; either list may be absent.
pub struct CategoryData {
    pub cate1_info: Option<Vec<RawCate1>>,
    pub cate2_info: Option<Vec<RawCate2>>,
}

/// Why a listing gave no tree.
#[derive(Clone, Copy, PartialEq, Eq, Debug, Structural)]
pub enum CategoryError {
    /// The listing reported this nonzero error code.
    Api(i32),
    /// The listing reported success but held no data.
    MissingData(i32),
}

/// The second-level entries whose parent is `parent`, in listed order.
pub open spec fn children(raws: Seq<RawCate2>, parent: i32) -> Seq<RawCate2>
    decreases raws.len(),
{
    if raws.len() == 0 {
        Seq::empty()
    } else {
        let rest = children(raws.drop_last(), parent);
        if raws.last().parent_id == parent {
            rest.push(raws.last())
        } else {
            rest
        }
    }
}

/// `f` is the frontend form of `r`.
pub open spec fn cate2_from(f: FrontendCate2Item, r: RawCate2) -> bool {
    &&& f.id@ == signed_decimal(r.id as int)
    &&& f.name@ == r.name@
    &&& f.short_name@ == r.short_name@
    &&& f.icon@ == r.icon@
    &&& f.cate3_list@.len() == 0
}

/// `f` is the frontend form of `r`, holding the children of `r` from `all`.
pub open spec fn cate1_from(f: FrontendCate1Item, r: RawCate1, all: Seq<RawCate2>) -> bool {
    &&& f.id@ == signed_decimal(r.id as int)
    &&& f.name@ == r.name@
    &&& f.cate2_list@.len() == children(all, r.id).len()
    &&& forall|j: int|
        0 <= j < f.cate2_list@.len() ==> #[trigger] cate2_from(
            f.cate2_list@[j],
            children(all, r.id)[j],
        )
}

/// `t` is the tree for the lists `c1` and `c2`.
pub open spec fn tree_of(t: FrontendCategoryResponse, c1: Seq<RawCate1>, c2: Seq<RawCate2>) -> bool {
    &&& t.cate1_list@.len() == c1.len()
    &&& forall|i: int|
        0 <= i < c1.len() ==> #[trigger] cate1_from(t.cate1_list@[i], c1[i], c2)
}

fn convert_cate2(r: &RawCate2) -> (f: FrontendCate2Item)
    ensures
        cate2_from(f, *r),
{
    FrontendCate2Item {
        id: i32_to_decimal(r.id),
        name: r.name.clone(),
        short_name: r.short_name.clone(),
        icon: r.icon.clone(),
        cate3_list: Vec::new(),
    }
}

/// The first-level entry for `r`, with its children from `all`.
fn convert_cate1(r: &RawCate1, all: &Vec<RawCate2>) -> (f: FrontendCate1Item)
    ensures
        cate1_from(f, *r, all@),
{
    let mut list: Vec<FrontendCate2Item> = Vec::new();
    let mut j: usize = 0;
    while j < all.len()
        invariant
            j <= all@.len(),
            list@.len() == children(all@.take(j as int), r.id).len(),
            forall|k: int|
                0 <= k < list@.len() ==> #[trigger] cate2_from(
                    list@[k],
                    children(all@.take(j as int), r.id)[k],
                ),
        decreases all@.len() - j,
    {
        let ghost before = all@.take(j as int);
        assert(all@.take(j + 1).drop_last() =~= before);
        if all[j].parent_id == r.id {
            list.push(convert_cate2(&all[j]));
        }
        j = j + 1;
    }
    assert(all@.take(all@.len() as int) =~= all@);
    FrontendCate1Item { id: i32_to_decimal(r.id), name: r.name.clone(), cate2_list: list }
}

/// Puts each second-level category under the first-level one it names, in
/// listed order; first-level categories keep their order, and a
/// second-level one whose parent is not listed is left out.
pub fn build_category_tree(cate1: &Vec<RawCate1>, cate2: &Vec<RawCate2>) -> (t: FrontendCategoryResponse)
    ensures
        tree_of(t, cate1@, cate2@),
{
    let mut out: Vec<FrontendCate1Item> = Vec::new();
    let mut i: usize = 0;
    while i < cate1.len()
        invariant
            i <= cate1@.len(),
            out@.len() == i,
            forall|k: int| 0 <= k < i ==> #[trigger] cate1_from(out@[k], cate1@[k], cate2@),
        decreases cate1@.len() - i,
    {
        out.push(convert_cate1(&cate1[i], cate2));
        i = i + 1;
    }
    FrontendCategoryResponse { cate1_list: out }
}

/// The tree for a listing: an error for a nonzero code, or for a success
/// without data; otherwise the tree of its lists, an absent list counting
/// as empty.
pub fn categories_from_listing(error: i32, data: Option<CategoryData>) -> (r: Result<FrontendCategoryResponse, CategoryError>)
    ensures
        error != 0 ==> r == Err::<FrontendCategoryResponse, CategoryError>(CategoryError::Api(error)),
        error == 0 && data is None ==> r == Err::<FrontendCategoryResponse, CategoryError>(CategoryError::MissingData(error)),
        error == 0 && data is Some ==> r is Ok && tree_of(
            r->Ok_0,
            match data->Some_0.cate1_info { Some(v) => v@, None => Seq::empty() },
            match data->Some_0.cate2_info { Some(v) => v@, None => Seq::empty() },
        ),
{
    if error != 0 {
        return Err(CategoryError::Api(error));
    }
    match data {
        None => Err(CategoryError::MissingData(error)),
        Some(d) => {
            let c2: Vec<RawCate2> = match d.cate2_info {
                Some(v) => v,
                None => Vec::new(),
            };
            let c1: Vec<RawCate1> = match d.cate1_info {
                Some(v) => v,
                None => Vec::new(),
            };
            Ok(build_category_tree(&c1, &c2))
        },
    }
}

} // verus!
