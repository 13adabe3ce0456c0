//! Filters sent to the store and the paging computed around them.
use vstd::prelude::*;

verus! {

/// A stored value with an identifier.
pub trait Identifiable {
    /// The identifier of the value.
    spec fn id_of(&self) -> Seq<char>;

    /// The identifier of the value.
    fn get_id(&self) -> (r: &str)
        ensures
            r@ == self.id_of();
}

/// A value stored under a key of its own.
pub struct Keyed<T> {
    pub key: String,
    pub value: T,
}

impl<T> Identifiable for Keyed<T> {
    open spec fn id_of(&self) -> Seq<char> {
        self.key@
    }

    fn get_id(&self) -> (r: &str) {
        self.key.as_str()
    }
}

/// A filter over stored documents.
#[derive(Debug)]
pub enum Filter {
    /// Every document (`{}`).
    All,
    /// The document whose `_id` is the text (`{"_id": id}`).
    IdEquals(String),
    /// The document whose `_id` is the text, or the object id that the
    /// text encodes when it is one.
    IdOrObjectId(String),
    /// The documents whose `_id` is one of the texts (`{"_id": {"$in": ids}}`).
    IdIn(Vec<String>),
    /// The documents whose `_id` is greater than the text (`{"_id": {"$gt": id}}`).
    IdGreaterThan(String),
    /// The documents whose field holds the text (`{field: value}`).
    FieldEquals(String, String),
    /// The documents both filters select (`{"$and": [a, b]}`).
    And(Box<Filter>, Box<Filter>),
}

/// A page of a collection, by page number.
pub struct Page<T> {
    pub total_elements: i64,
    pub current_page: i64,
    pub next_page: Option<i64>,
    pub page_size: usize,
    pub content: Vec<T>,
}

/// A page of a collection walked in `_id` order: the first id shown and
/// the id the next page starts after.
pub struct CursorPage<T> {
    pub current: Option<String>,
    pub next: Option<String>,
    pub content: Vec<T>,
}

/// The page requested: its number (from 0) and size, and the filter.
pub struct Pageable {
    pub page: Option<i64>,
    pub limit: Option<i64>,
    pub filter: Option<Filter>,
}

/// How a numbered page is read.
#[derive(Debug)]
pub enum PagePlan {
    /// Nothing to read: the page starts past the end.
    Empty,
    /// Read up to `limit` documents after skipping `skip`.
    Fetch { skip: u64, limit: i64, page: i64 },
}

/// Page size used when none is requested.
pub open spec fn default_limit() -> i64 {
    10
}

/// The page size requested, `10` when none is.
pub open spec fn resolved_limit(p: Pageable) -> i64 {
    match p.limit {
        Some(l) => l,
        None => default_limit(),
    }
}

/// The page number requested, `0` when none is.
pub open spec fn resolved_page(p: Pageable) -> i64 {
    match p.page {
        Some(n) => n,
        None => 0,
    }
}

/// The filter of a cursor page: the documents after `next` in `_id`
/// order, within `main` when one is given.
pub open spec fn spec_cursor_filter(main: Option<Filter>, next: Option<String>) -> Filter {
    let cursor = match next {
        Some(id) => Filter::IdGreaterThan(id),
        None => Filter::All,
    };
    match main {
        Some(m) => Filter::And(Box::new(m), Box::new(cursor)),
        None => cursor,
    }
}

/// A cursor page never leaves its main filter: with a main filter `m`, the
/// cursor filter is the conjunction of `m` with the page's bound, on the
/// first page (no `next`) as on later ones; the bound selects every
/// document on the first page and the documents whose id is after `next`
/// on later ones. Without a main filter the cursor filter is the bound
/// alone.
pub proof fn law_cursor_filter_within_main(main: Option<Filter>, next: Option<String>)
    ensures
        main matches Some(m) ==> (spec_cursor_filter(main, next) matches Filter::And(a, b) && *a == m && (
        next is None ==> *b == Filter::All) && (next matches Some(id) ==> *b == Filter::IdGreaterThan(id))),
        main is None && next is None ==> spec_cursor_filter(main, next) == Filter::All,
        main is None ==> (next matches Some(id) ==> spec_cursor_filter(main, next) == Filter::IdGreaterThan(id)),
{
}

/// The filter of a cursor page: the documents after `next` in `_id`
/// order, within `main` when one is given.
pub fn cursor_filter(main: Option<Filter>, next: Option<String>) -> (r: Filter)
    ensures
        r == spec_cursor_filter(main, next),
{
    let cursor = match next {
        Some(id) => Filter::IdGreaterThan(id),
        None => Filter::All,
    };
    match main {
        Some(m) => Filter::And(Box::new(m), Box::new(cursor)),
        None => cursor,
    }
}

/// The number of documents to ask for when a cursor page holds up to
/// `limit`: one more, to learn where the next page starts.
pub fn cursor_fetch_limit(limit: i64) -> (r: i64)
    requires
        limit < i64::MAX,
    ensures
        r == limit + 1,
{
    limit + 1
}

/// The identifier of the first element, if any.
pub open spec fn first_id<T: Identifiable>(s: Seq<T>) -> Option<Seq<char>> {
    if s.len() > 0 {
        Some(s[0].id_of())
    } else {
        None
    }
}

fn first_id_of<T: Identifiable>(v: &Vec<T>) -> (r: Option<String>)
    ensures
        crate::text::opt_view(r) == first_id(v@),
{
    if v.len() > 0 {
        Some(String::from_str(v[0].get_id()))
    } else {
        None
    }
}

/// `r` is the cursor page made of `items`, read in `_id` order, for a
/// page size of `limit`.
pub open spec fn is_cursor_page<T: Identifiable>(items: Seq<T>, limit: i64, r: CursorPage<T>) -> bool {
    &&& items.len() < limit ==> {
        &&& r.content@ == items
        &&& r.next is None
        &&& crate::text::opt_view(r.current) == first_id(items)
    }
    &&& items.len() >= limit ==> {
        &&& items.len() == 0 ==> r.content@.len() == 0 && r.next is None && r.current is None
        &&& items.len() > 0 ==> {
            &&& r.content@ == items.drop_last()
            &&& crate::text::opt_view(r.next) == Some(items.last().id_of())
            &&& crate::text::opt_view(r.current) == first_id(items.drop_last())
        }
    }
}

/// A cursor page, read with one document more than its size, shows at most
/// its size; when it names a next page, what it shows is what was read
/// without the last document, whose id marks where the next page starts.
pub proof fn law_cursor_page_bounded<T: Identifiable>(items: Seq<T>, limit: i64, r: CursorPage<T>)
    requires
        is_cursor_page(items, limit, r),
        0 <= limit,
        items.len() <= limit + 1,
    ensures
        r.content@.len() <= limit,
        r.next is Some ==> r.content@.push(items.last()) == items && crate::text::opt_view(r.next)
            == Some(items.last().id_of()),
        r.next is None ==> r.content@ == items || items.len() == 0,
{
    if r.next is Some {
        assert(items.drop_last().push(items.last()) =~= items);
    }
}

/// The cursor page made of `items`, the documents read in `_id` order
/// (up to `limit + 1`): when fewer than `limit` came back, all of them,
/// and no next page; otherwise the last one is set aside and its id is
/// where the next page starts after. `current` is the id of the first
/// document shown.
pub fn finish_cursor_page<T: Identifiable>(items: Vec<T>, limit: i64) -> (r: CursorPage<T>)
    ensures
        is_cursor_page(items@, limit, r),
{
    let fewer = limit > 0 && (items.len() as u64) < (limit as u64);
    if fewer {
        let current = first_id_of(&items);
        return CursorPage { next: None, content: items, current };
    }
    let mut content = items;
    let next = match content.pop() {
        Some(last) => Some(String::from_str(last.get_id())),
        None => None,
    };
    let current = first_id_of(&content);
    CursorPage { next, current, content }
}

/// How the numbered page `pageable` is read from a collection holding
/// `count` matching documents: nothing to read when the page starts at or
/// past `count`, otherwise the page size and the number of documents
/// before the page (`limit * page`).
pub fn plan_page(pageable: &Pageable, count: i64) -> (r: PagePlan)
    requires
        i64::MIN <= resolved_limit(*pageable) * resolved_page(*pageable) <= i64::MAX,
    ensures
        count <= resolved_limit(*pageable) * resolved_page(*pageable) ==> r is Empty,
        count > resolved_limit(*pageable) * resolved_page(*pageable) ==> r == (PagePlan::Fetch {
            skip: (resolved_limit(*pageable) * resolved_page(*pageable)) as u64,
            limit: resolved_limit(*pageable),
            page: resolved_page(*pageable),
        }),
{
    let limit = match pageable.limit {
        Some(l) => l,
        None => 10,
    };
    let page = match pageable.page {
        Some(n) => n,
        None => 0,
    };
    let skip = limit * page;
    if count <= skip {
        PagePlan::Empty
    } else {
        PagePlan::Fetch { skip: skip as u64, limit, page }
    }
}

/// `r` is the page numbered `page`, of size `limit`, holding `content`,
/// in a collection of `count` matching documents.
pub open spec fn is_page<T>(count: i64, limit: i64, page: i64, content: Seq<T>, r: Page<T>) -> bool {
    &&& r.total_elements == count
    &&& r.current_page == page
    &&& r.next_page == (if count > limit * (page + 1) { Some((page + 1) as i64) } else { None })
    &&& r.page_size == content.len()
    &&& r.content@ == content
}

/// A page counts what it holds: its size is the number of documents in its
/// content, which is the content read, whatever size was requested.
pub proof fn law_page_size_is_content_len<T>(count: i64, limit: i64, page: i64, content: Seq<T>, r: Page<T>)
    requires
        is_page(count, limit, page, content, r),
    ensures
        r.page_size == r.content@.len(),
        r.content@ == content,
{
}

/// A page read as planned announces a next page exactly when documents
/// remain after it: when the collection holds more than the documents
/// skipped plus one page.
pub proof fn law_page_next<T>(pageable: Pageable, count: i64, plan: PagePlan, content: Seq<T>, r: Page<T>)
    requires
        i64::MIN <= resolved_limit(pageable) * resolved_page(pageable) <= i64::MAX,
        resolved_page(pageable) < i64::MAX,
        plan == (PagePlan::Fetch {
            skip: (resolved_limit(pageable) * resolved_page(pageable)) as u64,
            limit: resolved_limit(pageable),
            page: resolved_page(pageable),
        }),
        is_page(count, resolved_limit(pageable), resolved_page(pageable), content, r),
    ensures
        r.next_page is Some <==> count > resolved_limit(pageable) * resolved_page(pageable)
            + resolved_limit(pageable),
        r.next_page matches Some(n) ==> n == r.current_page + 1,
        r.total_elements == count,
{
    let l = resolved_limit(pageable);
    let p = resolved_page(pageable);
    assert(l * (p + 1) == l * p + l) by (nonlinear_arith);
}

impl<T> Page<T> {
    /// The page shown when the requested one starts past the end: no
    /// content, and every count zero.
    pub fn empty() -> (r: Page<T>)
        ensures
            r.total_elements == 0,
            r.current_page == 0,
            r.next_page is None,
            r.page_size == 0,
            r.content@.len() == 0,
    {
        Page { total_elements: 0, current_page: 0, next_page: None, page_size: 0, content: Vec::new() }
    }

    /// The page numbered `page`, of size `limit`, holding `content`, in a
    /// collection of `count` matching documents: there is a next page when
    /// documents remain past this one.
    pub fn finish(count: i64, limit: i64, page: i64, content: Vec<T>) -> (r: Page<T>)
        requires
            i64::MIN < page + 1 <= i64::MAX,
            i64::MIN <= limit * (page + 1) <= i64::MAX,
        ensures
            is_page(count, limit, page, content@, r),
    {
        let next_page = if count > limit * (page + 1) {
            Some(page + 1)
        } else {
            None
        };
        let page_size = content.len();
        Page { total_elements: count, content, current_page: page, next_page, page_size }
    }
}

} // verus!
