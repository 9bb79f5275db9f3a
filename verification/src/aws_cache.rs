//! The listing of the source, page by page, and the spool that it fills.
//!
//! The enumerator keeps one page at a time and works it off from the end, so
//! the entries of a page leave in the reverse of the order in which the source
//! gave them, while the pages follow each other as they came. It asks for the
//! next page only when the one in hand is used up, with the cursor that came
//! with that page. A page that could not be fetched ends the listing: what was
//! spooled before stays as it is, and nothing more is added.

use vstd::prelude::*;
use crate::backblaze::BlazeCache;
use crate::lines::{key_line, line_text, lines_text, lines_text_of_joined};

verus! {

/// How long to wait, in milliseconds, before each page after the first is
/// asked for.
pub const PAGE_DELAY_MILLIS: u64 = 1000;

/// One entry of the source's listing.
#[derive(Debug)]
pub struct ListedObject {
    pub key: Option<String>,
    pub size: Option<i64>,
}

/// One page of the source's listing: the entries in the order in which the
/// source gave them, and the cursor for the page after it. A page without a
/// cursor is the last.
#[derive(Debug)]
pub struct ListingPage {
    pub contents: Option<Vec<ListedObject>>,
    pub next_continuation_token: Option<String>,
}

/// What the enumerator hands out when asked for the next object.
#[derive(Debug)]
pub enum ListingStep {
    /// The next entry of the page in hand.
    Object(ListedObject),
    /// The page in hand is used up: fetch the next one with this cursor, after
    /// waiting this many milliseconds, and hand in the answer.
    Fetch { continuation_token: Option<String>, delay_millis: u64 },
    /// The listing is over.
    Finished,
}

/// The enumerator of the source's listing.
pub struct AWSTransferCache {
    started: bool,
    next_continuation_token: Option<String>,
    cache: Vec<ListedObject>,
}

/// The enumerator as the rules see it.
pub struct ListingModel {
    /// Whether an answer to the first request has been handed in.
    pub started: bool,
    /// The cursor that came with the page in hand.
    pub next_continuation_token: Option<String>,
    /// What is left of the page in hand. The last entry leaves first.
    pub cache: Seq<ListedObject>,
}

/// Holds the authorization that a run works under.
#[derive(Clone)]
pub struct Processor {
    blaze: BlazeCache,
}

/// Whether an entry goes to the spool: it has a key, and a size above zero.
pub open spec fn is_spooled(object: ListedObject) -> bool {
    object.key is Some && (object.size matches Some(size) && size > 0)
}

/// The spool line of an entry, or nothing for an entry that is left out.
pub open spec fn entry_text(object: ListedObject) -> Seq<u8> {
    if is_spooled(object) {
        line_text(object.key->0@)
    } else {
        Seq::empty()
    }
}

/// What the entries `entries` add to the spool: the line of each entry that
/// goes there, the last entry first.
pub open spec fn page_text(entries: Seq<ListedObject>) -> Seq<u8>
    decreases entries.len(),
{
    if entries.len() == 0 {
        Seq::empty()
    } else {
        entry_text(entries.last()) + page_text(entries.drop_last())
    }
}

/// The entries of a page. A page without a list of entries has none.
pub open spec fn entries_of(page: ListingPage) -> Seq<ListedObject> {
    match page.contents {
        Some(entries) => entries@,
        None => Seq::empty(),
    }
}

/// The spool that a listing fills, where `responses` are the answers to the
/// requests for pages, in the order in which they are made, and `None` stands
/// for a request that failed. The pages add to the spool in that order. The
/// listing ends with the first page that has no cursor, with the first request
/// that fails, or when no answer is left.
pub open spec fn spool_text(responses: Seq<Option<ListingPage>>) -> Seq<u8>
    decreases responses.len(),
{
    if responses.len() == 0 {
        Seq::empty()
    } else {
        match responses[0] {
            Some(page) => page_text(entries_of(page)) + if page.next_continuation_token is Some {
                spool_text(responses.drop_first())
            } else {
                Seq::empty()
            },
            None => Seq::empty(),
        }
    }
}

/// Whether the enumerator `m` will ask for another page once the one in hand
/// is used up.
spec fn wants_page(m: ListingModel) -> bool {
    !m.started || m.next_continuation_token is Some
}

/// What the enumerator `m` hands out next.
pub open spec fn next_step(m: ListingModel) -> ListingStep {
    if !m.started {
        ListingStep::Fetch { continuation_token: None, delay_millis: 0 }
    } else if m.cache.len() > 0 {
        ListingStep::Object(m.cache.last())
    } else if m.next_continuation_token is Some {
        ListingStep::Fetch {
            continuation_token: m.next_continuation_token,
            delay_millis: PAGE_DELAY_MILLIS,
        }
    } else {
        ListingStep::Finished
    }
}

/// The enumerator `m` after it has handed out its next step: an entry handed
/// out has left the page, and nothing else changes.
pub open spec fn after_step(m: ListingModel) -> ListingModel {
    if m.started && m.cache.len() > 0 {
        ListingModel { cache: m.cache.drop_last(), ..m }
    } else {
        m
    }
}

/// The enumerator after the answer to a request for a page is handed in.
/// A page replaces what was in hand, and its cursor the cursor. A request that
/// failed counts as an empty page without a cursor.
pub open spec fn after_response(response: Option<ListingPage>) -> ListingModel {
    match response {
        Some(page) => ListingModel {
            started: true,
            next_continuation_token: page.next_continuation_token,
            cache: entries_of(page),
        },
        None => ListingModel {
            started: true,
            next_continuation_token: None,
            cache: Seq::empty(),
        },
    }
}

/// What is still to come to the spool from the enumerator `m` where `rest` are
/// the answers to the requests that it has yet to make.
spec fn pending_text(m: ListingModel, rest: Seq<Option<ListingPage>>) -> Seq<u8> {
    if !m.started {
        spool_text(rest)
    } else {
        page_text(m.cache) + if m.next_continuation_token is Some {
            spool_text(rest)
        } else {
            Seq::empty()
        }
    }
}

/// The keys that the entries `entries` add to the spool: those of the entries
/// with a key and a size above zero, in the reverse of the entries' order.
pub open spec fn spooled_keys(entries: Seq<ListedObject>) -> Seq<Seq<char>> {
    entries.reverse().filter(|object: ListedObject| is_spooled(object)).map_values(
        |object: ListedObject| object.key->0@,
    )
}

/// What a run of pages adds to the spool: what each page adds, one page after
/// the other.
pub open spec fn pages_text(pages: Seq<ListingPage>) -> Seq<u8>
    decreases pages.len(),
{
    if pages.len() == 0 {
        Seq::empty()
    } else {
        page_text(entries_of(pages[0])) + pages_text(pages.drop_first())
    }
}

/// Whether every page of `pages` came with a cursor for the page after it.
pub open spec fn chained(pages: Seq<ListingPage>) -> bool {
    forall|i: int| 0 <= i < pages.len() ==> (#[trigger] pages[i]).next_continuation_token is Some
}

/// The answers to requests that all brought a page.
pub open spec fn fetched(pages: Seq<ListingPage>) -> Seq<Option<ListingPage>> {
    pages.map_values(|page: ListingPage| Some(page))
}

/// What a page adds to the spool is one line for each of its entries with a
/// key and a size above zero, in the reverse of the order in which the source
/// gave them, and nothing else.
pub proof fn page_text_lists_spooled_keys(entries: Seq<ListedObject>)
    ensures
        page_text(entries) == lines_text(spooled_keys(entries)),
    decreases entries.len(),
{
    let keep = |object: ListedObject| is_spooled(object);
    let key = |object: ListedObject| object.key->0@;
    if entries.len() == 0 {
        reveal(Seq::filter);
        assert(entries.reverse() =~= Seq::<ListedObject>::empty());
        assert(spooled_keys(entries) =~= Seq::<Seq<char>>::empty());
    } else {
        let init = entries.drop_last();
        let last = entries.last();
        page_text_lists_spooled_keys(init);
        assert(entries.reverse() =~= seq![last] + init.reverse());
        Seq::filter_distributes_over_add(seq![last], init.reverse(), keep);
        assert(seq![last].filter(keep) =~= if is_spooled(last) {
            seq![last]
        } else {
            Seq::<ListedObject>::empty()
        }) by {
            reveal(Seq::filter);
            assert(seq![last].drop_last() =~= Seq::<ListedObject>::empty());
            assert(Seq::<ListedObject>::empty().filter(keep) =~= Seq::<ListedObject>::empty());
        }
        let head = seq![last].filter(keep).map_values(key);
        assert(spooled_keys(entries) =~= head + spooled_keys(init));
        lines_text_of_joined(head, spooled_keys(init));
        if is_spooled(last) {
            assert(head =~= seq![last.key->0@]);
            assert(head.drop_last() =~= Seq::<Seq<char>>::empty());
            assert(lines_text(head.drop_last()) =~= Seq::<u8>::empty());
            assert(head.last() == last.key->0@);
            assert(lines_text(head) =~= line_text(last.key->0@));
        } else {
            assert(head =~= Seq::<Seq<char>>::empty());
        }
    }
}

/// Within a page the later entry comes first: what two runs of entries add
/// together is what the second adds and then what the first adds.
pub proof fn page_text_of_joined(first: Seq<ListedObject>, second: Seq<ListedObject>)
    ensures
        page_text(first + second) == page_text(second) + page_text(first),
    decreases second.len(),
{
    if second.len() == 0 {
        assert(first + second =~= first);
        assert(Seq::<u8>::empty() + page_text(first) =~= page_text(first));
    } else {
        assert((first + second).drop_last() =~= first + second.drop_last());
        assert((first + second).last() == second.last());
        page_text_of_joined(first, second.drop_last());
        assert(entry_text(second.last()) + (page_text(second.drop_last()) + page_text(first))
            =~= (entry_text(second.last()) + page_text(second.drop_last())) + page_text(first));
    }
}

/// Pages that each came with a cursor add to the spool one after the other,
/// in the order in which they came, and the listing goes on after them.
pub proof fn spool_text_of_chained_pages(pages: Seq<ListingPage>, rest: Seq<Option<ListingPage>>)
    requires
        chained(pages),
    ensures
        spool_text(fetched(pages) + rest) == pages_text(pages) + spool_text(rest),
    decreases pages.len(),
{
    if pages.len() == 0 {
        assert(fetched(pages) + rest =~= rest);
        assert(Seq::<u8>::empty() + spool_text(rest) =~= spool_text(rest));
    } else {
        let all = fetched(pages) + rest;
        assert(all[0] == Some(pages[0]));
        assert(all.drop_first() =~= fetched(pages.drop_first()) + rest);
        assert forall|i: int| 0 <= i < pages.drop_first().len() implies (
        #[trigger] pages.drop_first()[i]).next_continuation_token is Some by {
            assert(pages.drop_first()[i] == pages[i + 1]);
        }
        spool_text_of_chained_pages(pages.drop_first(), rest);
        assert(page_text(entries_of(pages[0])) + (pages_text(pages.drop_first()) + spool_text(rest))
            =~= (page_text(entries_of(pages[0])) + pages_text(pages.drop_first())) + spool_text(
            rest,
        ));
    }
}

/// A request that fails ends the listing and harms nothing: the spool holds
/// what the pages before it added, each entry once and as it was, and nothing
/// of what might have come after.
pub proof fn failed_request_truncates_spool(
    pages: Seq<ListingPage>,
    rest: Seq<Option<ListingPage>>,
)
    requires
        chained(pages),
    ensures
        spool_text(fetched(pages) + (seq![None] + rest)) == pages_text(pages),
{
    spool_text_of_chained_pages(pages, seq![None] + rest);
    assert(pages_text(pages) + Seq::<u8>::empty() =~= pages_text(pages));
}

/// The first page without a cursor is the last to add to the spool.
pub proof fn page_without_cursor_ends_spool(
    pages: Seq<ListingPage>,
    last: ListingPage,
    rest: Seq<Option<ListingPage>>,
)
    requires
        chained(pages),
        last.next_continuation_token is None,
    ensures
        spool_text(fetched(pages) + (seq![Some(last)] + rest)) == pages_text(pages) + page_text(
            entries_of(last),
        ),
{
    spool_text_of_chained_pages(pages, seq![Some(last)] + rest);
    assert(page_text(entries_of(last)) + Seq::<u8>::empty() =~= page_text(entries_of(last)));
}

/// The cursors are chained: once a page is used up, the next page is asked
/// for with the cursor that came with that page, after the fixed delay, and a
/// page that came without a cursor is not followed by another request.
pub proof fn used_up_page_asks_with_its_cursor(page: ListingPage)
    ensures
        ({
            let m = after_response(Some(page));
            let used_up = ListingModel { cache: Seq::empty(), ..m };
            next_step(used_up) == match page.next_continuation_token {
                Some(token) => ListingStep::Fetch {
                    continuation_token: Some(token),
                    delay_millis: PAGE_DELAY_MILLIS,
                },
                None => ListingStep::Finished,
            }
        }),
{
}

impl View for AWSTransferCache {
    type V = ListingModel;

    closed spec fn view(&self) -> ListingModel {
        ListingModel {
            started: self.started,
            next_continuation_token: self.next_continuation_token,
            cache: self.cache@,
        }
    }
}

impl Default for AWSTransferCache {
    /// An enumerator that has not asked for a page yet.
    fn default() -> (out: Self)
        ensures
            out@ == (ListingModel {
                started: false,
                next_continuation_token: None,
                cache: Seq::empty(),
            }),
    {
        AWSTransferCache { started: false, next_continuation_token: None, cache: Vec::new() }
    }
}

impl AWSTransferCache {
    /// Hands in the answer to a request for a page: the page, or `None` where
    /// the request failed. A failure is not passed on: it ends the listing.
    pub fn req_more_objects(&mut self, response: Option<ListingPage>)
        ensures
            final(self)@ == after_response(response),
    {
        self.started = true;
        match response {
            Some(page) => {
                self.next_continuation_token = page.next_continuation_token;
                self.cache = match page.contents {
                    Some(entries) => entries,
                    None => Vec::new(),
                };
            },
            None => {
                self.next_continuation_token = None;
                self.cache = Vec::new();
            },
        }
    }

    /// Hands out the next entry of the page in hand, the last one first. With
    /// the page used up it asks for the next page, first of all without a
    /// cursor and at once, later with the cursor of the page before and after
    /// a fixed delay. With the page used up and no cursor the listing is over.
    pub fn get_next_object(&mut self) -> (out: ListingStep)
        ensures
            out == next_step(old(self)@),
            final(self)@ == after_step(old(self)@),
    {
        if !self.started {
            return ListingStep::Fetch { continuation_token: None, delay_millis: 0 };
        }
        match self.cache.pop() {
            Some(object) => ListingStep::Object(object),
            None => match &self.next_continuation_token {
                Some(token) => ListingStep::Fetch {
                    continuation_token: Some(token.clone()),
                    delay_millis: PAGE_DELAY_MILLIS,
                },
                None => ListingStep::Finished,
            },
        }
    }
}

impl Processor {
    /// The authorization that the run works under.
    pub closed spec fn spec_blaze(&self) -> BlazeCache {
        self.blaze
    }

    pub fn new(blaze: BlazeCache) -> (out: Self)
        ensures
            out.spec_blaze() == blaze,
    {
        Processor { blaze }
    }

    /// The authorization that the run works under.
    pub fn blaze(&self) -> (out: &BlazeCache)
        ensures
            *out == self.spec_blaze(),
    {
        &self.blaze
    }
}

/// The spool line of an entry: its key and a line feed, for an entry with a
/// key and a size above zero, and nothing for any other.
pub fn spool_line(object: &ListedObject) -> (out: Option<Vec<u8>>)
    ensures
        out is Some <==> is_spooled(*object),
        out matches Some(line) ==> line@ == entry_text(*object),
{
    let size: i64 = match object.size {
        Some(size) => size,
        None => 0,
    };
    match &object.key {
        Some(key) => if size > 0 {
            Some(key_line(key.as_str()))
        } else {
            None
        },
        None => None,
    }
}

/// The enumerator has nothing more to give once it is out of entries and of
/// cursors.
proof fn pending_text_when_finished(m: ListingModel, rest: Seq<Option<ListingPage>>)
    requires
        next_step(m) == ListingStep::Finished,
    ensures
        pending_text(m, rest) == Seq::<u8>::empty(),
{
    assert(m.cache.len() == 0);
    assert(page_text(m.cache) + Seq::<u8>::empty() =~= Seq::<u8>::empty());
}

/// Handing out an entry moves its line from what is to come to what is there.
proof fn pending_text_after_object(m: ListingModel, rest: Seq<Option<ListingPage>>)
    requires
        next_step(m) is Object,
    ensures
        pending_text(m, rest) == entry_text(m.cache.last()) + pending_text(after_step(m), rest),
{
    let tail = if m.next_continuation_token is Some {
        spool_text(rest)
    } else {
        Seq::<u8>::empty()
    };
    assert((entry_text(m.cache.last()) + page_text(m.cache.drop_last())) + tail =~= entry_text(
        m.cache.last(),
    ) + (page_text(m.cache.drop_last()) + tail));
}

/// Handing in the answer to a request changes nothing in what is to come.
proof fn pending_text_after_fetch(m: ListingModel, rest: Seq<Option<ListingPage>>)
    requires
        next_step(m) is Fetch,
    ensures
        rest.len() > 0 ==> pending_text(m, rest) == pending_text(
            after_response(rest[0]),
            rest.drop_first(),
        ),
        rest.len() == 0 ==> pending_text(m, rest) == pending_text(after_response(None), rest),
{
    assert(m.started ==> m.cache.len() == 0);
    assert(Seq::<u8>::empty() + spool_text(rest) =~= spool_text(rest));
    assert(Seq::<u8>::empty() + Seq::<u8>::empty() =~= Seq::<u8>::empty());
    assert(page_text(Seq::<ListedObject>::empty()) =~= Seq::<u8>::empty());
}

/// Runs a whole listing and returns the spool that it fills. `responses` are
/// the answers to the requests for pages, in the order in which the requests
/// are made, `None` for a request that failed; where the answers run out, the
/// next request counts as failed.
///
/// The spool holds the key of every entry with a key and a size above zero,
/// of every page up to the end of the listing, and nothing else: each key on a
/// line of its own, the pages in the order in which they came, the entries of
/// each page in the reverse of theirs.
pub fn run_aws_cache(responses: Vec<Option<ListingPage>>) -> (spool: Vec<u8>)
    ensures
        spool@ == spool_text(responses@),
{
    let mut responses = responses;
    let ghost all = responses@;
    let mut aws_cache = AWSTransferCache::default();
    let mut spool: Vec<u8> = Vec::new();
    assert(spool@ + pending_text(aws_cache@, responses@) =~= spool_text(all));
    loop
        invariant
            spool@ + pending_text(aws_cache@, responses@) == spool_text(all),
        ensures
            spool@ == spool_text(all),
        decreases
            responses@.len() + (if wants_page(aws_cache@) { 1nat } else { 0nat }),
            aws_cache@.cache.len(),
    {
        let ghost before = aws_cache@;
        match aws_cache.get_next_object() {
            ListingStep::Object(object) => {
                proof {
                    pending_text_after_object(before, responses@);
                    assert(spool@ + (entry_text(object) + pending_text(aws_cache@, responses@))
                        =~= (spool@ + entry_text(object)) + pending_text(aws_cache@, responses@));
                }
                match spool_line(&object) {
                    Some(line) => {
                        let mut line = line;
                        spool.append(&mut line);
                    },
                    None => {
                        assert(spool@ + entry_text(object) =~= spool@);
                    },
                }
            },
            ListingStep::Fetch { continuation_token: _, delay_millis: _ } => {
                proof {
                    pending_text_after_fetch(before, responses@);
                }
                let response = if responses.len() > 0 {
                    responses.remove(0)
                } else {
                    None
                };
                aws_cache.req_more_objects(response);
            },
            ListingStep::Finished => {
                proof {
                    pending_text_when_finished(before, responses@);
                    assert(spool@ + Seq::<u8>::empty() =~= spool@);
                }
                break ;
            },
        }
    }
    spool
}

} // verus!
