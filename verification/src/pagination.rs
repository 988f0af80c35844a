//! Reading a list that the server hands out page by page.
//!
//! A list endpoint answers with some items and the address of the next page;
//! on the last page that address is empty. A [`Pager`] gathers the items. The
//! caller fetches an address, hands the outcome to [`Pager::advance`] and is
//! told what to do next: fetch another page, or stop with the whole list, or
//! stop with the error of the page that could not be read. A failed read ends
//! the walk and hands out none of the items gathered before it.

use vstd::prelude::*;

verus! {

/// One page of a list: its items, and the address of the page after it, empty
/// when there is none.
#[derive(Debug, Clone)]
pub struct Batch<T> {
    pub items: Vec<T>,
    pub next: String,
}

/// The items gathered so far from the pages of one list.
#[derive(Debug)]
pub struct Pager<T> {
    items: Vec<T>,
}

/// What to do after a page was read.
#[derive(Debug)]
pub enum Step<T, E> {
    /// More pages follow: fetch `url` and hand the outcome to `pager`.
    Fetch { pager: Pager<T>, url: String },
    /// That was the last page: here is the whole list.
    Done(Vec<T>),
    /// The page could not be read. Nothing of the list is handed out.
    Failed(E),
}

/// How far a walk through the pages has come.
pub enum Progress<T, E> {
    /// The items in `gathered` are read, and the page at `url` is next.
    Fetch { gathered: Seq<T>, url: Seq<char> },
    /// The walk has ended with the whole list.
    Done(Seq<T>),
    /// The walk has ended with an error.
    Failed(E),
}

impl<T> View for Pager<T> {
    type V = Seq<T>;

    closed spec fn view(&self) -> Seq<T> {
        self.items@
    }
}

impl<T, E> View for Step<T, E> {
    type V = Progress<T, E>;

    open spec fn view(&self) -> Progress<T, E> {
        match self {
            Step::Fetch { pager, url } => Progress::Fetch { gathered: pager@, url: url@ },
            Step::Done(items) => Progress::Done(items@),
            Step::Failed(error) => Progress::Failed(*error),
        }
    }
}

/// The state of a walk that has read nothing yet and is about to fetch `url`.
pub open spec fn start<T, E>(url: Seq<char>) -> Progress<T, E> {
    Progress::Fetch { gathered: Seq::empty(), url }
}

/// Where a walk stands once the outcome of its next read is known.
pub open spec fn after_page<T, E>(gathered: Seq<T>, outcome: Result<Batch<T>, E>) -> Progress<
    T,
    E,
> {
    match outcome {
        Err(error) => Progress::Failed(error),
        Ok(page) => if page.next@.len() == 0 {
            Progress::Done(gathered + page.items@)
        } else {
            Progress::Fetch { gathered: gathered + page.items@, url: page.next@ }
        },
    }
}

/// Where a walk stands after a run of reads. Once the walk has ended, later
/// outcomes change nothing.
pub open spec fn after_pages<T, E>(
    from: Progress<T, E>,
    outcomes: Seq<Result<Batch<T>, E>>,
) -> Progress<T, E>
    decreases outcomes.len(),
{
    if outcomes.len() == 0 {
        from
    } else {
        match after_pages(from, outcomes.drop_last()) {
            Progress::Fetch { gathered, url } => after_page(gathered, outcomes.last()),
            ended => ended,
        }
    }
}

/// The items of all the pages, in the order of the pages.
pub open spec fn all_items<T>(pages: Seq<Batch<T>>) -> Seq<T> {
    pages.map_values(|page: Batch<T>| page.items@).flatten()
}

/// The pages as the outcomes of successful reads.
pub open spec fn read_ok<T, E>(pages: Seq<Batch<T>>) -> Seq<Result<Batch<T>, E>> {
    pages.map_values(|page: Batch<T>| Ok::<Batch<T>, E>(page))
}

/// Reading one more page adds that page's items at the end.
proof fn lemma_all_items_push<T>(pages: Seq<Batch<T>>, page: Batch<T>)
    ensures
        all_items(pages.push(page)) == all_items(pages) + page.items@,
{
    let items = |page: Batch<T>| page.items@;
    assert(pages.push(page).map_values(items) =~= pages.map_values(items).push(page.items@));
    pages.map_values(items).lemma_flatten_push(page.items@);
}

/// A run of reads can be taken in two parts: the second part goes on from
/// where the first one stopped.
pub proof fn lemma_after_pages_split<T, E>(
    from: Progress<T, E>,
    first: Seq<Result<Batch<T>, E>>,
    second: Seq<Result<Batch<T>, E>>,
)
    ensures
        after_pages(from, first + second) == after_pages(after_pages(from, first), second),
    decreases second.len(),
{
    if second.len() == 0 {
        assert(first + second =~= first);
    } else {
        lemma_after_pages_split(from, first, second.drop_last());
        assert((first + second).drop_last() =~= first + second.drop_last());
    }
}

/// A walk that has ended stays as it is, whatever is read afterwards.
pub proof fn lemma_ended_walk_stays<T, E>(from: Progress<T, E>, outcomes: Seq<Result<Batch<T>, E>>)
    requires
        !(from is Fetch),
    ensures
        after_pages(from, outcomes) == from,
    decreases outcomes.len(),
{
    if outcomes.len() > 0 {
        lemma_ended_walk_stays(from, outcomes.drop_last());
    }
}

/// As long as every page read names a page after it, the walk has gathered
/// the items of the pages read, in order, and asks for the page that the last
/// of them named.
pub proof fn lemma_walk_follows_the_cursor<T, E>(url: Seq<char>, pages: Seq<Batch<T>>)
    requires
        forall|i: int| 0 <= i < pages.len() ==> pages[i].next@.len() > 0,
    ensures
        after_pages(start::<T, E>(url), read_ok(pages)) == (Progress::<T, E>::Fetch {
            gathered: all_items(pages),
            url: if pages.len() == 0 {
                url
            } else {
                pages.last().next@
            },
        }),
    decreases pages.len(),
{
    if pages.len() == 0 {
        assert(all_items(pages) =~= Seq::<T>::empty());
    } else {
        let read = pages.drop_last();
        lemma_walk_follows_the_cursor::<T, E>(url, read);
        lemma_all_items_push(read, pages.last());
        assert(read.push(pages.last()) =~= pages);
        assert(read_ok::<T, E>(pages).drop_last() =~= read_ok::<T, E>(read));
    }
}

/// A walk over pages of which each names the next and the last names none
/// ends with the items of all the pages, in the order in which they came.
pub proof fn lemma_walk_gathers_every_page<T, E>(url: Seq<char>, pages: Seq<Batch<T>>)
    requires
        pages.len() > 0,
        forall|i: int| 0 <= i < pages.len() - 1 ==> pages[i].next@.len() > 0,
        pages.last().next@.len() == 0,
    ensures
        after_pages(start::<T, E>(url), read_ok(pages)) == Progress::<T, E>::Done(all_items(pages)),
{
    let read = pages.drop_last();
    lemma_walk_follows_the_cursor::<T, E>(url, read);
    lemma_all_items_push(read, pages.last());
    assert(read.push(pages.last()) =~= pages);
    assert(read_ok::<T, E>(pages).drop_last() =~= read_ok::<T, E>(read));
}

/// A read that fails ends the walk with its error, however many pages were
/// read before it and whatever would have come after it: none of the items
/// gathered so far is handed out.
pub proof fn lemma_failed_read_fails_the_walk<T, E>(
    url: Seq<char>,
    pages: Seq<Batch<T>>,
    error: E,
    later: Seq<Result<Batch<T>, E>>,
)
    requires
        forall|i: int| 0 <= i < pages.len() ==> pages[i].next@.len() > 0,
    ensures
        after_pages(start::<T, E>(url), read_ok(pages).push(Err(error)) + later)
            == Progress::<T, E>::Failed(error),
{
    let until = read_ok::<T, E>(pages).push(Err(error));
    lemma_walk_follows_the_cursor::<T, E>(url, pages);
    assert(until.drop_last() =~= read_ok::<T, E>(pages));
    assert(after_pages(start::<T, E>(url), until) == Progress::<T, E>::Failed(error));
    lemma_after_pages_split(start::<T, E>(url), until, later);
    lemma_ended_walk_stays(Progress::<T, E>::Failed(error), later);
}

impl<T> Pager<T> {
    /// A pager that has gathered nothing yet.
    pub fn new() -> (pager: Self)
        ensures
            pager@ == Seq::<T>::empty(),
    {
        Pager { items: Vec::new() }
    }

    /// Takes the outcome of reading the page that was asked for and says how
    /// the walk goes on.
    pub fn advance<E>(self, outcome: Result<Batch<T>, E>) -> (step: Step<T, E>)
        ensures
            step@ == after_page(self@, outcome),
    {
        match outcome {
            Err(error) => Step::Failed(error),
            Ok(page) => {
                let Batch { items, next } = page;
                let mut gathered = self.items;
                let mut items = items;
                gathered.append(&mut items);
                if next.as_str().is_empty() {
                    Step::Done(gathered)
                } else {
                    Step::Fetch { pager: Pager { items: gathered }, url: next }
                }
            },
        }
    }
}

} // verus!
