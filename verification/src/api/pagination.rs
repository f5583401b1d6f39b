//! The rules of a paginated fetch: how large the next page is, where the
//! number of the next page stands in a link, and when the fetch is complete.

use vstd::prelude::*;
use vstd::string::*;
use vstd::utf8::encode_utf8;

verus! {

/// Page size of the trade and transaction listings.
pub const TRADE_DEFAULT_PAGE_SIZE: usize = 25;

/// Page size of the asset listing.
pub const ASSETS_DEFAULT_PAGE_SIZE: usize = 500;

/// The number of entities to ask for, when `fetched` are in hand already:
/// the default, or what is still missing up to the cap if that is less.
pub open spec fn page_size_for(fetched: nat, max_results: Option<usize>, default_size: nat) -> nat {
    match max_results {
        Some(cap) => if fetched + default_size > cap {
            if cap >= fetched {
                (cap - fetched) as nat
            } else {
                0
            }
        } else {
            default_size
        },
        None => default_size,
    }
}

/// Computes the size of the next page.
pub fn page_size(fetched: usize, max_results: Option<usize>, default_size: usize) -> (r: usize)
    ensures
        r == page_size_for(fetched as nat, max_results, default_size as nat),
        r <= default_size,
        max_results matches Some(cap) ==> fetched <= cap ==> fetched + r <= cap,
{
    match max_results {
        Some(cap) => {
            if fetched >= cap {
                0
            } else if default_size > cap - fetched {
                cap - fetched
            } else {
                default_size
            }
        },
        None => default_size,
    }
}

/// A byte that writes a decimal digit, `0` (48) to `9` (57).
pub open spec fn is_digit(b: u8) -> bool {
    48 <= b <= 57
}

/// Whether the bytes `page=` (112, 97, 103, 101, 61) and at least one digit
/// stand at `i`.
pub open spec fn token_at(s: Seq<u8>, i: int) -> bool {
    &&& 0 <= i
    &&& i + 5 < s.len()
    &&& s[i] == 112
    &&& s[i + 1] == 97
    &&& s[i + 2] == 103
    &&& s[i + 3] == 101
    &&& s[i + 4] == 61
    &&& is_digit(s[i + 5])
}

/// Whether `i` is the leftmost place where a page token stands.
pub open spec fn first_token(s: Seq<u8>, i: int) -> bool {
    &&& token_at(s, i)
    &&& forall|j: int| 0 <= j < i ==> !token_at(s, j)
}

/// The end of the run of digits that starts at `from`.
pub open spec fn run_end(s: Seq<u8>, from: int) -> int
    decreases s.len() - from,
{
    if 0 <= from < s.len() && is_digit(s[from]) {
        run_end(s, from + 1)
    } else {
        from
    }
}

/// The number that a run of digits writes.
pub open spec fn digits_value(digits: Seq<u8>) -> nat
    decreases digits.len(),
{
    if digits.len() == 0 {
        0
    } else {
        digits_value(digits.drop_last()) * 10 + (digits.last() - 48) as nat
    }
}

/// The page number in the bytes of a link: the number written by the
/// longest run of digits behind the leftmost `page=` that a digit follows.
/// There is none if no such place exists or if the number is too large for
/// a `usize`.
pub open spec fn page_number(s: Seq<u8>) -> Option<usize> {
    if exists|i: int| token_at(s, i) {
        let i = choose|i: int| first_token(s, i);
        let n = digits_value(s.subrange(i + 5, run_end(s, i + 5)));
        if n <= usize::MAX {
            Some(n as usize)
        } else {
            None
        }
    } else {
        None
    }
}

proof fn lemma_run_end_bounds(s: Seq<u8>, from: int)
    requires
        0 <= from <= s.len(),
    ensures
        from <= run_end(s, from) <= s.len(),
    decreases s.len() - from,
{
    if from < s.len() && is_digit(s[from]) {
        lemma_run_end_bounds(s, from + 1);
    }
}

proof fn lemma_digits_value_grows(s: Seq<u8>, a: int, b: int, c: int)
    requires
        0 <= a <= b <= c <= s.len(),
        forall|j: int| a <= j < c ==> is_digit(s[j]),
    ensures
        digits_value(s.subrange(a, b)) <= digits_value(s.subrange(a, c)),
    decreases c - b,
{
    if b < c {
        lemma_digits_value_grows(s, a, b, c - 1);
        assert(s.subrange(a, c).drop_last() =~= s.subrange(a, c - 1));
    }
}

proof fn lemma_run_is_digits(s: Seq<u8>, from: int)
    requires
        0 <= from <= s.len(),
    ensures
        forall|j: int| from <= j < run_end(s, from) ==> is_digit(s[j]),
    decreases s.len() - from,
{
    if from < s.len() && is_digit(s[from]) {
        lemma_run_is_digits(s, from + 1);
    }
}

/// Where the leftmost page token stands at `i`, the page number is the
/// number that the digits behind it write, if a `usize` holds it; where no
/// page token stands anywhere, there is no page number.
pub proof fn lemma_page_number(s: Seq<u8>, i: int)
    ensures
        first_token(s, i) ==> page_number(s) == if digits_value(
            s.subrange(i + 5, run_end(s, i + 5)),
        ) <= usize::MAX {
            Some(digits_value(s.subrange(i + 5, run_end(s, i + 5))) as usize)
        } else {
            None::<usize>
        },
        (forall|j: int| !token_at(s, j)) ==> page_number(s) is None,
{
    if first_token(s, i) {
        let c = choose|c: int| first_token(s, c);
        assert(first_token(s, c));
        assert(c == i);
    }
}

fn is_digit_byte(b: u8) -> (r: bool)
    ensures
        r == is_digit(b),
{
    48 <= b && b <= 57
}

/// Reads the digits that start at `start`, where a digit stands.
fn read_digits(s: &[u8], start: usize) -> (r: Option<usize>)
    requires
        start < s.len(),
        is_digit(s@[start as int]),
    ensures
        r == (if digits_value(s@.subrange(start as int, run_end(s@, start as int))) <= usize::MAX {
            Some(digits_value(s@.subrange(start as int, run_end(s@, start as int))) as usize)
        } else {
            None::<usize>
        }),
{
    let mut k: usize = start;
    let mut acc: usize = 0;
    while k < s.len() && is_digit_byte(s[k])
        invariant
            start <= k <= s.len(),
            forall|j: int| start <= j < k ==> is_digit(s@[j]),
            acc == digits_value(s@.subrange(start as int, k as int)),
            run_end(s@, start as int) == run_end(s@, k as int),
        decreases s.len() - k,
    {
        let d: usize = (s[k] - 48) as usize;
        proof {
            assert(s@.subrange(start as int, k + 1).drop_last() =~= s@.subrange(
                start as int,
                k as int,
            ));
        }
        if acc > (usize::MAX - d) / 10 {
            proof {
                lemma_run_end_bounds(s@, k + 1);
                lemma_run_is_digits(s@, k + 1);
                lemma_digits_value_grows(s@, start as int, k + 1, run_end(s@, start as int));
            }
            return None;
        }
        acc = acc * 10 + d;
        k += 1;
    }
    Some(acc)
}

/// The page number in a link, read in the bytes of its UTF-8 form.
pub open spec fn link_page(link: Seq<char>) -> Option<usize> {
    page_number(encode_utf8(link))
}

/// Reads the number of the next page out of a link, if the link holds one.
pub fn parse_page_token(link: &str) -> (r: Option<usize>)
    ensures
        r == link_page(link@),
{
    let s = link.as_bytes();
    let n: usize = s.len();
    if n < 6 {
        return None;
    }
    let mut i: usize = 0;
    while i <= n - 6
        invariant
            n == s@.len(),
            n >= 6,
            s@ == link.spec_bytes(),
            forall|j: int| 0 <= j < i ==> !token_at(s@, j),
        decreases n - i,
    {
        if s[i] == 112 && s[i + 1] == 97 && s[i + 2] == 103 && s[i + 3] == 101 && s[i + 4] == 61
            && is_digit_byte(s[i + 5]) {
            proof {
                lemma_page_number(s@, i as int);
            }
            return read_digits(s, i + 5);
        }
        i += 1;
    }
    None
}

/// The links of a page of a listing.
pub struct Links {
    /// The link to the page that follows, if there is one.
    pub next: Option<String>,
}

impl Links {
    /// The number of the page that follows, if the links name one.
    pub open spec fn page(self) -> Option<usize> {
        match self.next {
            Some(link) => link_page(link@),
            None => None,
        }
    }

    /// Reads the number of the page that follows.
    pub fn next_page(&self) -> (r: Option<usize>)
        ensures
            r == self.page(),
    {
        match &self.next {
            Some(link) => parse_page_token(link.as_str()),
            None => None,
        }
    }
}

/// How a fetch stands after a page was added.
pub enum Progress<T> {
    /// The fetch is complete; these are its entities.
    Done(Vec<T>),
    /// Another page is to be fetched.
    Next {
        /// The entities in hand.
        items: Vec<T>,
        /// The number of the page to fetch.
        page: usize,
    },
}

impl<T> Progress<T> {
    /// The entities in hand.
    pub open spec fn items(self) -> Seq<T> {
        match self {
            Progress::Done(items) => items@,
            Progress::Next { items, .. } => items@,
        }
    }

    /// How every fetch begins: nothing in hand, page 0 to be fetched.
    pub fn start() -> (r: Self)
        ensures
            r matches Progress::Next { items, page } && items@ == Seq::<T>::empty() && page == 0,
    {
        Progress::Next { items: Vec::new(), page: 0 }
    }
}

/// Whether a fetch with `total` entities in hand is complete: the cap is
/// reached or passed, or the last page named no successor.
pub open spec fn is_complete(total: nat, next: Option<usize>, max_results: Option<usize>) -> bool {
    ||| (max_results matches Some(cap) && total >= cap)
    ||| next is None
}

/// Whether `progress` is how a fetch stands once `page_items` were added
/// to `items`: it holds the entities of both, in this order; it is done
/// exactly if the fetch is complete; and if it is not done, it goes on at
/// the page that was named.
pub open spec fn follows<T>(
    progress: Progress<T>,
    items: Seq<T>,
    page_items: Seq<T>,
    next_page: Option<usize>,
    max_results: Option<usize>,
) -> bool {
    &&& progress.items() == items + page_items
    &&& progress is Done <==> is_complete(
        (items.len() + page_items.len()) as nat,
        next_page,
        max_results,
    )
    &&& progress matches Progress::Next { page, .. } ==> next_page == Some(page)
}

/// Adds a page to the entities in hand and decides how the fetch goes on.
/// The cap is looked at first: once it is reached, a named successor is
/// not fetched.
pub fn advance<T>(
    items: Vec<T>,
    page_items: Vec<T>,
    next_page: Option<usize>,
    max_results: Option<usize>,
) -> (r: Progress<T>)
    ensures
        follows(r, items@, page_items@, next_page, max_results),
{
    let mut items = items;
    let mut page_items = page_items;
    items.append(&mut page_items);
    if let Some(cap) = max_results {
        if items.len() >= cap {
            return Progress::Done(items);
        }
    }
    match next_page {
        Some(page) => Progress::Next { items, page },
        None => Progress::Done(items),
    }
}

/// A whole fetch against a source of pages, which answers a page number and
/// a page size with the entities of that page and, if there is one, the
/// number of the page that follows. The fetch starts with `items` in hand
/// at `page` and takes at most `rounds` pages; it has no result if it is
/// not complete by then.
pub open spec fn collect<T>(
    source: spec_fn(usize, nat) -> (Seq<T>, Option<usize>),
    items: Seq<T>,
    page: usize,
    max_results: Option<usize>,
    default_size: nat,
    rounds: nat,
) -> Option<Seq<T>>
    decreases rounds,
{
    if rounds == 0 {
        None
    } else {
        let served = source(page, page_size_for(items.len(), max_results, default_size));
        let total = items + served.0;
        if is_complete(total.len(), served.1, max_results) {
            Some(total)
        } else {
            collect(source, total, served.1.unwrap(), max_results, default_size, (rounds - 1) as nat)
        }
    }
}

/// The entities of a page and of every page after it, each asked for at
/// the default size, up to the first page that names no successor; nothing
/// if more than `rounds` pages would be needed.
pub open spec fn every_page<T>(
    source: spec_fn(usize, nat) -> (Seq<T>, Option<usize>),
    page: usize,
    default_size: nat,
    rounds: nat,
) -> Option<Seq<T>>
    decreases rounds,
{
    if rounds == 0 {
        None
    } else {
        let served = source(page, default_size);
        match served.1 {
            None => Some(served.0),
            Some(next) => match every_page(source, next, default_size, (rounds - 1) as nat) {
                Some(rest) => Some(served.0 + rest),
                None => None,
            },
        }
    }
}

/// Under a cap the page size is the default or what is missing up to the
/// cap, whichever is less: a page never asks for more than is needed to
/// reach the cap, and for nothing once the cap is reached.
pub proof fn lemma_page_size_within_quota(fetched: nat, cap: usize, default_size: nat)
    ensures
        page_size_for(fetched, Some(cap), default_size) <= default_size,
        fetched <= cap ==> fetched + page_size_for(fetched, Some(cap), default_size) <= cap,
        fetched <= cap ==> page_size_for(fetched, Some(cap), default_size) == if default_size
            < cap - fetched {
            default_size as int
        } else {
            cap - fetched
        },
        fetched >= cap ==> page_size_for(fetched, Some(cap), default_size) == 0,
{
}

/// A capped fetch against a source that never serves more than it was
/// asked for returns no more entities than the cap.
pub proof fn lemma_capped_fetch_within_cap<T>(
    source: spec_fn(usize, nat) -> (Seq<T>, Option<usize>),
    items: Seq<T>,
    page: usize,
    cap: usize,
    default_size: nat,
    rounds: nat,
)
    requires
        items.len() <= cap,
        forall|p: usize, n: nat| (#[trigger] source(p, n)).0.len() <= n,
    ensures
        collect(source, items, page, Some(cap), default_size, rounds) matches Some(all)
            ==> all.len() <= cap,
    decreases rounds,
{
    if rounds > 0 {
        let served = source(page, page_size_for(items.len(), Some(cap), default_size));
        let total = items + served.0;
        if !is_complete(total.len(), served.1, Some(cap)) {
            lemma_capped_fetch_within_cap(
                source,
                total,
                served.1.unwrap(),
                cap,
                default_size,
                (rounds - 1) as nat,
            );
        }
    }
}

/// A capped fetch against a source that holds enough, so that it serves
/// every page in full and always names a successor, returns exactly as many
/// entities as the cap says.
pub proof fn lemma_capped_fetch_exact<T>(
    source: spec_fn(usize, nat) -> (Seq<T>, Option<usize>),
    items: Seq<T>,
    page: usize,
    cap: usize,
    default_size: nat,
    rounds: nat,
)
    requires
        items.len() <= cap,
        forall|p: usize, n: nat| (#[trigger] source(p, n)).0.len() == n,
        forall|p: usize, n: nat| (#[trigger] source(p, n)).1 is Some,
    ensures
        collect(source, items, page, Some(cap), default_size, rounds) matches Some(all)
            ==> all.len() == cap,
    decreases rounds,
{
    if rounds > 0 {
        let served = source(page, page_size_for(items.len(), Some(cap), default_size));
        let total = items + served.0;
        if !is_complete(total.len(), served.1, Some(cap)) {
            lemma_capped_fetch_exact(
                source,
                total,
                served.1.unwrap(),
                cap,
                default_size,
                (rounds - 1) as nat,
            );
        }
    }
}

/// Such a fetch is complete after as many pages as it takes to reach the
/// cap at the default size, and one more.
pub proof fn lemma_capped_fetch_completes<T>(
    source: spec_fn(usize, nat) -> (Seq<T>, Option<usize>),
    items: Seq<T>,
    page: usize,
    cap: usize,
    default_size: nat,
    rounds: nat,
)
    requires
        items.len() <= cap,
        default_size > 0,
        rounds > cap - items.len(),
        forall|p: usize, n: nat| (#[trigger] source(p, n)).0.len() == n,
        forall|p: usize, n: nat| (#[trigger] source(p, n)).1 is Some,
    ensures
        collect(source, items, page, Some(cap), default_size, rounds) is Some,
    decreases rounds,
{
    let served = source(page, page_size_for(items.len(), Some(cap), default_size));
    let total = items + served.0;
    if !is_complete(total.len(), served.1, Some(cap)) {
        lemma_capped_fetch_completes(
            source,
            total,
            served.1.unwrap(),
            cap,
            default_size,
            (rounds - 1) as nat,
        );
    }
}

/// A fetch without a cap returns what is in hand and then every page up to
/// the first that names no successor, each asked for at the default size.
pub proof fn lemma_uncapped_fetch_exhausts<T>(
    source: spec_fn(usize, nat) -> (Seq<T>, Option<usize>),
    items: Seq<T>,
    page: usize,
    default_size: nat,
    rounds: nat,
)
    ensures
        collect(source, items, page, None, default_size, rounds) == match every_page(
            source,
            page,
            default_size,
            rounds,
        ) {
            Some(rest) => Some(items + rest),
            None => None,
        },
    decreases rounds,
{
    if rounds > 0 {
        let served = source(page, default_size);
        let total = items + served.0;
        match served.1 {
            None => {},
            Some(next) => {
                lemma_uncapped_fetch_exhausts(source, total, next, default_size, (rounds - 1) as nat);
                match every_page(source, next, default_size, (rounds - 1) as nat) {
                    Some(rest) => {
                        assert(total + rest =~= items + (served.0 + rest));
                    },
                    None => {},
                }
            },
        }
    }
}

/// One step of a fetch, as `advance` takes it, is one step of `collect`:
/// when the step is done its entities are the result of the fetch, and
/// when it is not, the fetch is the rest of the fetch from where the step
/// leaves it.
pub proof fn lemma_advance_is_a_step_of_collect<T>(
    source: spec_fn(usize, nat) -> (Seq<T>, Option<usize>),
    items: Seq<T>,
    page: usize,
    max_results: Option<usize>,
    default_size: nat,
    rounds: nat,
    progress: Progress<T>,
)
    requires
        rounds > 0,
        follows(
            progress,
            items,
            source(page, page_size_for(items.len(), max_results, default_size)).0,
            source(page, page_size_for(items.len(), max_results, default_size)).1,
            max_results,
        ),
    ensures
        collect(source, items, page, max_results, default_size, rounds) == match progress {
            Progress::Done(all) => Some(all@),
            Progress::Next { items: more, page: next } => collect(
                source,
                more@,
                next,
                max_results,
                default_size,
                (rounds - 1) as nat,
            ),
        },
{
}

} // verus!
