//! Tags and their templates: the kinds of value a template may declare, and the rule that
//! the value of a tag agrees with what its template declares.

use vstd::prelude::*;

verus! {

/// The kind of value that a tag template declares for its tags.
#[derive(Clone, Copy, Debug, PartialEq, Eq, Structural, Hash)]
pub enum TagValueTypeKind {
    String,
    Integer,
    Boolean,
}

impl TagValueTypeKind {
    /// The name of the kind, as messages and requests spell it.
    pub open spec fn spec_name(self) -> Seq<char> {
        match self {
            TagValueTypeKind::String => "string"@,
            TagValueTypeKind::Integer => "integer"@,
            TagValueTypeKind::Boolean => "boolean"@,
        }
    }

    /// The name of the kind, as messages and requests spell it.
    pub fn name(self) -> (name: &'static str)
        ensures
            name@ == self.spec_name(),
    {
        match self {
            TagValueTypeKind::String => "string",
            TagValueTypeKind::Integer => "integer",
            TagValueTypeKind::Boolean => "boolean",
        }
    }

    /// The column of the tag table that holds values of this kind.
    pub open spec fn spec_column_name(self) -> Seq<char> {
        match self {
            TagValueTypeKind::String => "value_string"@,
            TagValueTypeKind::Integer => "value_integer"@,
            TagValueTypeKind::Boolean => "value_boolean"@,
        }
    }

    /// The column of the tag table that holds values of this kind.
    pub fn into_column_name(self) -> (name: &'static str)
        ensures
            name@ == self.spec_column_name(),
    {
        match self {
            TagValueTypeKind::String => "value_string",
            TagValueTypeKind::Integer => "value_integer",
            TagValueTypeKind::Boolean => "value_boolean",
        }
    }
}

/// A tag template as validation sees it: its identity and the kind of value it declares, if
/// it declares any.
#[derive(Clone, Copy, Debug, PartialEq, Eq, Hash)]
pub struct TagTemplateCompact {
    pub uuid: u128,
    pub value_type: Option<TagValueTypeKind>,
}

/// A tag template as the relational store keeps it.
#[derive(Debug, Clone, PartialEq, Eq, Hash)]
pub struct TagTemplate {
    pub uuid: u128,
    pub name: String,
    pub description: Option<String>,
    pub value_type: Option<TagValueTypeKind>,
    pub created_at: chrono::NaiveDateTime,
}

/// What a new tag template is to hold.
#[derive(Debug, Clone, PartialEq, Eq, Hash)]
pub struct TagTemplatePostReqBody {
    pub name: String,
    pub description: Option<String>,
    pub value_type: Option<TagValueTypeKind>,
}

/// The answer to the creation of a tag template.
#[derive(Debug, Clone, Copy, PartialEq, Eq, Hash)]
pub struct TagTemplatePostRes {
    pub uuid: u128,
}

/// A page of tag templates.
#[derive(Debug, Clone, PartialEq, Eq, Hash)]
pub struct TagTemplateListRes {
    pub page: u32,
    pub items: Vec<TagTemplate>,
}

/// How many tag templates a page holds.
pub const TEMPLATE_PAGE_SIZE: u32 = 40;

/// The rows that a page of tag templates covers: how many rows to skip, and how many to
/// read at most.
#[derive(Debug, Clone, Copy, PartialEq, Eq, Structural, Hash)]
pub struct TemplatePage {
    pub page: u32,
    pub offset: i64,
    pub limit: i64,
}

/// The rows of the page that a request asks for. Pages are counted from zero, and a request
/// that names no page asks for the first.
pub fn plan_template_page(page: Option<u32>) -> (plan: TemplatePage)
    ensures
        plan.page == (match page {
            Some(number) => number,
            None => 0,
        }),
        plan.offset == plan.page * TEMPLATE_PAGE_SIZE,
        plan.limit == TEMPLATE_PAGE_SIZE,
{
    let number = match page {
        Some(number) => number,
        None => 0,
    };
    assert(number * 40 <= 0xffff_ffff * 40) by (nonlinear_arith)
        requires
            0 <= number <= 0xffff_ffff,
    ;
    TemplatePage {
        page: number,
        offset: number as i64 * TEMPLATE_PAGE_SIZE as i64,
        limit: TEMPLATE_PAGE_SIZE as i64,
    }
}

/// Puts the answer together from the page that was asked for and the templates that were
/// read.
pub fn list_templates(plan: TemplatePage, items: Vec<TagTemplate>) -> (answer: TagTemplateListRes)
    ensures
        answer.page == plan.page,
        answer.items == items,
{
    TagTemplateListRes { page: plan.page, items }
}

/// The template with identity `id` among `templates`; the first, should there be several.
pub open spec fn template_of(templates: Seq<TagTemplateCompact>, id: u128) -> Option<
    TagTemplateCompact,
>
    decreases templates.len(),
{
    if templates.len() == 0 {
        None
    } else if templates[0].uuid == id {
        Some(templates[0])
    } else {
        template_of(templates.skip(1), id)
    }
}

/// Looks up the template with identity `id`.
pub fn find_template(templates: &Vec<TagTemplateCompact>, id: u128) -> (found: Option<
    TagTemplateCompact,
>)
    ensures
        found == template_of(templates@, id),
{
    let mut index: usize = 0;
    assert(templates@.skip(0) =~= templates@);
    while index < templates.len()
        invariant
            index <= templates.len(),
            template_of(templates@, id) == template_of(templates@.skip(index as int), id),
        decreases templates.len() - index,
    {
        proof {
            assert(templates@.skip(index as int)[0] == templates@[index as int]);
            assert(templates@.skip(index as int).skip(1) =~= templates@.skip(index + 1));
        }
        if templates[index].uuid == id {
            return Some(templates[index]);
        }
        index = index + 1;
    }
    proof {
        assert(templates@.skip(index as int).len() == 0);
    }
    None
}

/// Something that follows a tag template: a tag, or a filter on tags.
pub trait Tagged {
    /// The identity of the template.
    spec fn template(&self) -> u128;

    /// The identity of the template.
    fn template_uuid(&self) -> (id: u128)
        ensures
            id == self.template(),
    ;
}

/// The template identities of a list of tags, in the order of the tags.
pub open spec fn template_ids<T: Tagged>(tags: Seq<T>) -> Seq<u128> {
    tags.map_values(|tag: T| tag.template())
}

/// Whether the identities stand in rising order; equal neighbours are allowed.
pub open spec fn is_rising(ids: Seq<u128>) -> bool {
    forall|i: int, j: int| 0 <= i < j < ids.len() ==> ids[i] <= ids[j]
}

/// Whether the identities stand in strictly rising order, so that none occurs twice.
pub open spec fn is_strictly_rising(ids: Seq<u128>) -> bool {
    forall|i: int, j: int| 0 <= i < j < ids.len() ==> ids[i] < ids[j]
}

/// Whether `id` occurs at two places of `ids`.
pub open spec fn occurs_twice(ids: Seq<u128>, id: u128) -> bool {
    exists|i: int, j: int| 0 <= i < j < ids.len() && ids[i] == id && ids[j] == id
}

/// Whether `after` holds the items of `before` in another order, `places[i]` being where
/// the item now at place `i` stood before: every old place is used, and none twice.
pub open spec fn is_rearrangement<T>(before: Seq<T>, after: Seq<T>, places: Seq<int>) -> bool {
    &&& places.len() == before.len()
    &&& after.len() == before.len()
    &&& forall|i: int|
        0 <= i < after.len() ==> 0 <= #[trigger] places[i] < before.len() && after[i]
            == before[places[i]]
    &&& forall|i: int, j: int|
        0 <= i < j < places.len() ==> #[trigger] places[i] != #[trigger] places[j]
    &&& forall|k: int| 0 <= k < before.len() ==> #[trigger] places.contains(k)
}

/// Whether `after` holds the items of `before`, each once, in some order.
pub open spec fn same_items<T>(before: Seq<T>, after: Seq<T>) -> bool {
    exists|places: Seq<int>| is_rearrangement(before, after, places)
}

/// Calls `sort_by_key` of the standard library on the tags, with the template identity as
/// the key. The sort rearranges the items and leaves their keys in rising order.
#[verifier::external_body]
fn sort_by_template<T: Tagged>(tags: &mut Vec<T>)
    ensures
        same_items(old(tags)@, final(tags)@),
        is_rising(template_ids(final(tags)@)),
{
    tags.sort_by_key(|tag| tag.template_uuid())
}

/// An identity that occurs twice in a rearranged list occurred twice before.
proof fn lemma_twice_after_is_twice_before<T: Tagged>(before: Seq<T>, after: Seq<T>, id: u128)
    requires
        same_items(before, after),
        occurs_twice(template_ids(after), id),
    ensures
        occurs_twice(template_ids(before), id),
{
    let places = choose|places: Seq<int>| is_rearrangement(before, after, places);
    let (i, j) = choose|i: int, j: int|
        0 <= i < j < template_ids(after).len() && template_ids(after)[i] == id && template_ids(
            after,
        )[j] == id;
    let a = places[i];
    let b = places[j];
    assert(after[i] == before[a]);
    assert(after[j] == before[b]);
    assert(a != b);
    if a < b {
        assert(template_ids(before)[a] == id && template_ids(before)[b] == id);
    } else {
        assert(template_ids(before)[b] == id && template_ids(before)[a] == id);
    }
}

/// An identity that occurred twice in a list occurs twice in every rearrangement of it.
proof fn lemma_twice_before_is_twice_after<T: Tagged>(before: Seq<T>, after: Seq<T>, id: u128)
    requires
        same_items(before, after),
        occurs_twice(template_ids(before), id),
    ensures
        occurs_twice(template_ids(after), id),
{
    let places = choose|places: Seq<int>| is_rearrangement(before, after, places);
    let (a, b) = choose|a: int, b: int|
        0 <= a < b < template_ids(before).len() && template_ids(before)[a] == id
            && template_ids(before)[b] == id;
    assert(places.contains(a));
    assert(places.contains(b));
    let i = choose|i: int| 0 <= i < places.len() && places[i] == a;
    let j = choose|j: int| 0 <= j < places.len() && places[j] == b;
    assert(after[i] == before[places[i]]);
    assert(after[j] == before[places[j]]);
    assert(i != j);
    if i < j {
        assert(template_ids(after)[i] == id && template_ids(after)[j] == id);
    } else {
        assert(template_ids(after)[j] == id && template_ids(after)[i] == id);
    }
}

/// Puts the tags in the order of their template identities and looks for a template that
/// occurs twice among them. The tags are the same as before, rearranged so that their
/// templates rise. The answer is the smallest identity that occurs twice, or `None` where no
/// identity does; the templates then rise strictly.
pub fn order_by_template<T: Tagged>(tags: &mut Vec<T>) -> (twice: Option<u128>)
    ensures
        same_items(old(tags)@, final(tags)@),
        is_rising(template_ids(final(tags)@)),
        match twice {
            None => {
                &&& is_strictly_rising(template_ids(final(tags)@))
                &&& forall|id: u128| !occurs_twice(template_ids(old(tags)@), id)
            },
            Some(id) => {
                &&& occurs_twice(template_ids(old(tags)@), id)
                &&& forall|other: u128|
                    occurs_twice(template_ids(old(tags)@), other) ==> id <= other
            },
        },
{
    sort_by_template(tags);
    let ghost before = old(tags)@;
    let ghost ids = template_ids(tags@);
    let mut index: usize = 1;
    while index < tags.len()
        invariant
            1 <= index,
            ids == template_ids(tags@),
            before == old(tags)@,
            same_items(before, tags@),
            is_rising(ids),
            forall|i: int, j: int| 0 <= i < j < index && j < ids.len() ==> ids[i] < ids[j],
        decreases tags.len() - index,
    {
        if tags[index - 1].template_uuid() == tags[index].template_uuid() {
            let id = tags[index].template_uuid();
            proof {
                assert(ids[index - 1] == id && ids[index as int] == id);
                assert(occurs_twice(ids, id));
                lemma_twice_after_is_twice_before(before, tags@, id);
                assert forall|other: u128|
                    occurs_twice(template_ids(before), other) implies id <= other by {
                    lemma_twice_before_is_twice_after(before, tags@, other);
                    let (i, j) = choose|i: int, j: int|
                        0 <= i < j < ids.len() && ids[i] == other && ids[j] == other;
                    if j < index {
                        assert(ids[i] < ids[j]);
                    } else {
                        assert(ids[index as int] <= ids[j] || j == index);
                    }
                }
            }
            return Some(id);
        }
        proof {
            assert forall|i: int, j: int| 0 <= i < j < index + 1 && j < ids.len() implies ids[i]
                < ids[j] by {
                if j == index {
                    assert(ids[i] <= ids[index - 1]);
                    assert(ids[index - 1] <= ids[index as int]);
                }
            }
        }
        index = index + 1;
    }
    proof {
        assert forall|id: u128| !occurs_twice(template_ids(before), id) by {
            if occurs_twice(template_ids(before), id) {
                lemma_twice_before_is_twice_after(before, tags@, id);
            }
        }
    }
    None
}

} // verus!
