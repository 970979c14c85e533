use vstd::prelude::*;
use vstd::string::StringExecFns;

verus! {

/// The name of the access method of the vector index.
pub open spec fn vector_access_method() -> Seq<char> {
    "diskann"@
}

/// A bitmap index scan, with the name of the access method of the index it
/// scans (`None` where the index or its access method cannot be found, or
/// the name is not valid text).
pub struct BitmapIndexScan {
    pub access_method: Option<String>,
}

/// A node of a query plan, as far as the search for bitmap-filtering
/// opportunities looks at it.
pub enum PlanNode {
    /// A bitmap heap scan.
    BitmapHeapScan,
    /// The union of the bitmaps of its child plans.
    BitmapOr(Vec<PlanNode>),
    /// The intersection of the bitmaps of its child plans.
    BitmapAnd(Vec<PlanNode>),
    /// A bitmap index scan (a leaf: an index scan has no subplans).
    BitmapIndexScan(BitmapIndexScan),
    /// Any other node, with its left and right subplans where it has them.
    Other { lefttree: Option<Box<PlanNode>>, righttree: Option<Box<PlanNode>> },
}

/// The index scan scans a vector index.
pub open spec fn scans_vector_index(scan: BitmapIndexScan) -> bool {
    scan.access_method matches Some(name) && name@ == vector_access_method()
}

/// Among the plans there is a bitmap index scan of a vector index, and one of
/// another index.
pub open spec fn mixes_vector_and_other_indexes(plans: Seq<PlanNode>) -> bool {
    &&& exists|i: int|
        0 <= i < plans.len() && (#[trigger] plans[i] matches PlanNode::BitmapIndexScan(scan)
            && scans_vector_index(scan))
    &&& exists|i: int|
        0 <= i < plans.len() && (#[trigger] plans[i] matches PlanNode::BitmapIndexScan(scan)
            && !scans_vector_index(scan))
}

/// The plan holds an opportunity for bitmap filtering: a bitmap AND of a
/// vector index scan and another index scan, reached through bitmap ORs and
/// the subplans of other nodes (not below a bitmap heap scan, an AND or an
/// index scan).
pub open spec fn has_filtering_opportunity(plan: PlanNode) -> bool
    decreases plan,
{
    match plan {
        PlanNode::BitmapHeapScan => false,
        PlanNode::BitmapOr(plans) => exists|i: int|
            0 <= i < plans.len() && has_filtering_opportunity(#[trigger] plans[i]),
        PlanNode::BitmapAnd(plans) => mixes_vector_and_other_indexes(plans@),
        PlanNode::BitmapIndexScan(_) => false,
        PlanNode::Other { lefttree, righttree } => {
            ||| lefttree matches Some(l) && has_filtering_opportunity(*l)
            ||| righttree matches Some(r) && has_filtering_opportunity(*r)
        },
    }
}

/// A bitmap index scan counts as a scan of a vector index exactly when the
/// name of its access method is the text "diskann": any other name, or none,
/// does not count.
pub proof fn lemma_vector_index_is_diskann(scan: BitmapIndexScan)
    ensures
        scans_vector_index(scan) <==> (scan.access_method matches Some(name) && name@
            == "diskann"@),
{
}

/// A bitmap AND holds the opportunity whenever some plan under it, at any
/// position, scans a "diskann" index and some plan, at any position, scans
/// an index of another (or unknown) access method.
pub proof fn lemma_and_mix_at_any_position(plans: Vec<PlanNode>, i: int, j: int)
    requires
        0 <= i < plans@.len(),
        0 <= j < plans@.len(),
        plans@[i] matches PlanNode::BitmapIndexScan(s) && s.access_method matches Some(n) && n@
            == "diskann"@,
        plans@[j] matches PlanNode::BitmapIndexScan(t) && !(t.access_method matches Some(m) && m@
            == "diskann"@),
    ensures
        mixes_vector_and_other_indexes(plans@),
        has_filtering_opportunity(PlanNode::BitmapAnd(plans)),
{
    assert(plans@[i] matches PlanNode::BitmapIndexScan(s) && scans_vector_index(s));
    assert(plans@[j] matches PlanNode::BitmapIndexScan(t) && !scans_vector_index(t));
}

/// A bitmap AND holds the opportunity only when it has both: a plan under it
/// that scans a "diskann" index, and one that scans an index of another (or
/// unknown) access method.
pub proof fn lemma_and_needs_both(plans: Vec<PlanNode>)
    requires
        has_filtering_opportunity(PlanNode::BitmapAnd(plans)),
    ensures
        exists|i: int|
            0 <= i < plans@.len() && (#[trigger] plans@[i] matches PlanNode::BitmapIndexScan(s)
                && s.access_method matches Some(n) && n@ == "diskann"@),
        exists|j: int|
            0 <= j < plans@.len() && (#[trigger] plans@[j] matches PlanNode::BitmapIndexScan(t)
                && !(t.access_method matches Some(m) && m@ == "diskann"@)),
{
    let i = choose|i: int|
        0 <= i < plans@.len() && (#[trigger] plans@[i] matches PlanNode::BitmapIndexScan(scan)
            && scans_vector_index(scan));
    let j = choose|j: int|
        0 <= j < plans@.len() && (#[trigger] plans@[j] matches PlanNode::BitmapIndexScan(scan)
            && !scans_vector_index(scan));
    assert(plans@[i] matches PlanNode::BitmapIndexScan(s) && s.access_method matches Some(n) && n@
        == "diskann"@);
    assert(plans@[j] matches PlanNode::BitmapIndexScan(t) && !(t.access_method matches Some(m)
        && m@ == "diskann"@));
}

/// Appending a plan under a bitmap AND that holds the opportunity keeps it.
pub proof fn lemma_and_append(plans: Seq<PlanNode>, extra: PlanNode)
    requires
        mixes_vector_and_other_indexes(plans),
    ensures
        mixes_vector_and_other_indexes(plans.push(extra)),
{
    let i = choose|i: int|
        0 <= i < plans.len() && (#[trigger] plans[i] matches PlanNode::BitmapIndexScan(scan)
            && scans_vector_index(scan));
    let j = choose|j: int|
        0 <= j < plans.len() && (#[trigger] plans[j] matches PlanNode::BitmapIndexScan(scan)
            && !scans_vector_index(scan));
    assert(plans.push(extra)[i] == plans[i]);
    assert(plans.push(extra)[j] == plans[j]);
}

/// An opportunity in a subplan of a node that is not a bitmap node is an
/// opportunity of the node, on either side; and the node holds one only
/// through a subplan.
pub proof fn lemma_subplan_opportunity_lifts(
    lefttree: Option<Box<PlanNode>>,
    righttree: Option<Box<PlanNode>>,
)
    ensures
        (lefttree matches Some(l) && has_filtering_opportunity(*l)) ==> has_filtering_opportunity(
            PlanNode::Other { lefttree, righttree },
        ),
        (righttree matches Some(r) && has_filtering_opportunity(*r)) ==> has_filtering_opportunity(
            PlanNode::Other { lefttree, righttree },
        ),
        has_filtering_opportunity(PlanNode::Other { lefttree, righttree }) ==> (lefttree matches Some(
            l,
        ) && has_filtering_opportunity(*l)) || (righttree matches Some(r)
            && has_filtering_opportunity(*r)),
{
}

/// An opportunity in any plan under a bitmap OR, at any position, is an
/// opportunity of the OR; and the OR holds one only through such a plan.
pub proof fn lemma_or_opportunity_lifts(plans: Vec<PlanNode>, i: int)
    requires
        0 <= i < plans@.len(),
    ensures
        has_filtering_opportunity(plans@[i]) ==> has_filtering_opportunity(
            PlanNode::BitmapOr(plans),
        ),
        has_filtering_opportunity(PlanNode::BitmapOr(plans)) ==> exists|k: int|
            0 <= k < plans@.len() && has_filtering_opportunity(#[trigger] plans@[k]),
{
    let node = PlanNode::BitmapOr(plans);
    vstd::std_specs::vec::axiom_vec_index_decreases(plans, i);
    assert(decreases_to!(node => node->BitmapOr_0));
    assert(has_filtering_opportunity(plans@[i]) ==> has_filtering_opportunity(plans[i]));
}

/// A bitmap heap scan and a bitmap index scan hold no opportunity of their own.
pub proof fn lemma_leaves_hold_none(scan: BitmapIndexScan)
    ensures
        !has_filtering_opportunity(PlanNode::BitmapHeapScan),
        !has_filtering_opportunity(PlanNode::BitmapIndexScan(scan)),
{
}

/// Whether a bitmap index scan scans a vector index: the access method of
/// its index is found and is the vector index's.
pub fn is_vector_index_scan(index_scan: &BitmapIndexScan) -> (is_vector: bool)
    ensures
        is_vector == scans_vector_index(*index_scan),
        is_vector == (index_scan.access_method matches Some(name) && name@ == "diskann"@),
{
    match &index_scan.access_method {
        None => false,
        Some(name) => {
            let vector_name = <String as StringExecFns>::from_str("diskann");
            name.eq(&vector_name)
        },
    }
}

/// Whether a bitmap heap scan holds an opportunity for bitmap filtering of
/// its own: it is not looked into, so never.
pub fn analyze_bitmap_heap_scan_for_vector_optimization() -> (found: bool)
    ensures
        !found,
{
    false
}

/// Whether the plans under a bitmap AND scan both a vector index and another
/// index: then the vector search can be filtered by the other indexes' bitmap.
pub fn analyze_bitmap_and_for_vector_optimization(bitmapplans: &Vec<PlanNode>) -> (found: bool)
    ensures
        found == mixes_vector_and_other_indexes(bitmapplans@),
{
    let mut has_vector_index = false;
    let mut has_other_indexes = false;
    let mut i: usize = 0;
    while i < bitmapplans.len()
        invariant
            i <= bitmapplans.len(),
            has_vector_index == exists|j: int|
                0 <= j < i && (#[trigger] bitmapplans@[j] matches PlanNode::BitmapIndexScan(scan)
                    && scans_vector_index(scan)),
            has_other_indexes == exists|j: int|
                0 <= j < i && (#[trigger] bitmapplans@[j] matches PlanNode::BitmapIndexScan(scan)
                    && !scans_vector_index(scan)),
        decreases bitmapplans.len() - i,
    {
        match &bitmapplans[i] {
            PlanNode::BitmapIndexScan(index_scan) => {
                if is_vector_index_scan(index_scan) {
                    has_vector_index = true;
                } else {
                    has_other_indexes = true;
                }
            },
            _ => {},
        }
        i = i + 1;
    }
    has_vector_index && has_other_indexes
}

/// Whether a plan holds an opportunity for bitmap filtering (see
/// `has_filtering_opportunity`); a missing plan holds none.
pub fn analyze_plan_for_bitmap_filtering(plan: Option<&PlanNode>) -> (found: bool)
    ensures
        found == (plan matches Some(p) && has_filtering_opportunity(*p)),
{
    match plan {
        None => false,
        Some(node) => analyze_plan_node(node),
    }
}

/// Whether the plan rooted at `plan` holds an opportunity for bitmap filtering.
fn analyze_plan_node(plan: &PlanNode) -> (found: bool)
    ensures
        found == has_filtering_opportunity(*plan),
    decreases plan,
{
    match plan {
        PlanNode::BitmapHeapScan => analyze_bitmap_heap_scan_for_vector_optimization(),
        PlanNode::BitmapOr(bitmapplans) => {
            let mut found = false;
            let mut i: usize = 0;
            while i < bitmapplans.len()
                invariant
                    i <= bitmapplans.len(),
                    *plan == PlanNode::BitmapOr(*bitmapplans),
                    found == exists|j: int|
                        0 <= j < i && has_filtering_opportunity(#[trigger] bitmapplans@[j]),
                decreases bitmapplans.len() - i,
            {
                proof {
                    vstd::std_specs::vec::axiom_vec_index_decreases(*bitmapplans, i as int);
                    assert(decreases_to!(*plan => (*plan)->BitmapOr_0));
                }
                let child_found = analyze_plan_node(&bitmapplans[i]);
                if child_found {
                    found = true;
                }
                i = i + 1;
            }
            found
        },
        PlanNode::BitmapAnd(bitmapplans) => analyze_bitmap_and_for_vector_optimization(bitmapplans),
        PlanNode::BitmapIndexScan(_) => false,
        PlanNode::Other { lefttree, righttree } => {
            let mut found = false;
            if let Some(left) = lefttree {
                let left_found = analyze_plan_node(left);
                found = found || left_found;
            }
            if let Some(right) = righttree {
                let right_found = analyze_plan_node(right);
                found = found || right_found;
            }
            found
        },
    }
}

} // verus!
