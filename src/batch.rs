//! Download specifications ("list", "all", "1,3,5" or a voice id) and the
//! batches of installations they ask for.

use vstd::prelude::*;
use crate::text::{chars_of, contains, has_infix, is_digit, lower_of, string_of_range, to_lower, trim, trimmed};
use crate::voice::{catalog, catalog_voice, Voice, CATALOG_LEN};

verus! {

// ------------------------------------------------------------ numbers

/// The value of a sequence of decimal digits.
pub open spec fn digits_value(s: Seq<char>) -> nat
    decreases s.len(),
{
    if s.len() == 0 {
        0
    } else {
        digits_value(s.drop_last()) * 10 + (((s.last() as u32) as int - 48) as nat)
    }
}

/// Every character is a decimal digit.
pub open spec fn all_digits(s: Seq<char>) -> bool {
    forall|i: int| 0 <= i < s.len() ==> is_digit(#[trigger] s[i])
}

/// The digits of an unsigned number, after an optional leading `+`.
pub open spec fn unsigned_digits(s: Seq<char>) -> Seq<char> {
    if s.len() > 0 && s[0] == '+' {
        s.drop_first()
    } else {
        s
    }
}

/// What `usize::from_str` gives: one or more decimal digits, optionally
/// after a `+`, whose value fits.
pub open spec fn parse_usize_spec(s: Seq<char>) -> Option<usize> {
    let d = unsigned_digits(s);
    if d.len() > 0 && all_digits(d) && digits_value(d) <= usize::MAX {
        Some(digits_value(d) as usize)
    } else {
        None
    }
}

proof fn lemma_prefix_value(s: Seq<char>, k: int)
    requires
        0 <= k <= s.len(),
    ensures
        digits_value(s.subrange(0, k)) <= digits_value(s),
    decreases s.len() - k,
{
    if k < s.len() {
        assert(s.drop_last().subrange(0, k) == s.subrange(0, k));
        lemma_prefix_value(s.drop_last(), k);
    } else {
        assert(s.subrange(0, k) == s);
    }
}

/// Reads an unsigned number as `usize::from_str` does.
pub fn parse_usize(s: &str) -> (r: Option<usize>)
    ensures
        r == parse_usize_spec(s@),
{
    let v = chars_of(s);
    let n = v.len();
    let start: usize = if n > 0 && v[0] == '+' {
        1
    } else {
        0
    };
    let ghost d = unsigned_digits(s@);
    assert(d == v@.subrange(start as int, n as int));
    if start == n {
        return None;
    }
    let mut acc: usize = 0;
    let mut i: usize = start;
    while i < n
        invariant
            v@ == s@,
            n == v.len(),
            start <= i <= n,
            d == v@.subrange(start as int, n as int),
            d == unsigned_digits(s@),
            forall|k: int| start <= k < i ==> is_digit(#[trigger] v@[k]),
            acc as nat == digits_value(v@.subrange(start as int, i as int)),
        decreases n - i,
    {
        let c = v[i];
        if !('0' <= c && c <= '9') {
            assert(d[i - start] == v@[i as int]);
            assert(!is_digit(d[i - start]));
            assert(!all_digits(d));
            return None;
        }
        let dig: usize = (c as u32 - 48) as usize;
        let ghost pre = v@.subrange(start as int, i + 1);
        assert(pre.drop_last() == v@.subrange(start as int, i as int));
        assert(digits_value(pre) == acc * 10 + dig);
        if acc > (usize::MAX - dig) / 10 {
            assert(acc * 10 + dig > usize::MAX) by (nonlinear_arith)
                requires
                    acc > (usize::MAX - dig) / 10,
                    dig <= 9,
            ;
            proof {
                assert(d.subrange(0, i + 1 - start) == pre);
                lemma_prefix_value(d, i + 1 - start);
                assert(digits_value(d) > usize::MAX);
            }
            return None;
        }
        assert(acc * 10 + dig <= usize::MAX) by (nonlinear_arith)
            requires
                acc <= (usize::MAX - dig) / 10,
                dig <= 9,
        ;
        acc = acc * 10 + dig;
        i = i + 1;
    }
    assert(v@.subrange(start as int, n as int) == d);
    Some(acc)
}

// ------------------------------------------------------------ splitting

/// The pieces of `s` between occurrences of `sep`, as `str::split` gives
/// them (the empty text is one empty piece).
pub open spec fn split_pieces(s: Seq<char>, sep: char) -> Seq<Seq<char>>
    decreases s.len(),
{
    if s.len() == 0 {
        seq![Seq::<char>::empty()]
    } else {
        let rest = split_pieces(s.drop_first(), sep);
        if s[0] == sep {
            seq![Seq::<char>::empty()] + rest
        } else {
            rest.update(0, seq![s[0]] + rest[0])
        }
    }
}

proof fn lemma_split_nonempty(s: Seq<char>, sep: char)
    ensures
        split_pieces(s, sep).len() >= 1,
    decreases s.len(),
{
    if s.len() > 0 {
        lemma_split_nonempty(s.drop_first(), sep);
    }
}

/// The pieces with the first one extended in front by `head`.
pub open spec fn with_head(pieces: Seq<Seq<char>>, head: Seq<char>) -> Seq<Seq<char>> {
    pieces.update(0, head + pieces[0])
}

/// Splits `s` at every `sep`.
pub fn split_on(s: &str, sep: char) -> (r: Vec<String>)
    ensures
        r.deep_view() == split_pieces(s@, sep),
{
    let v = chars_of(s);
    let n = v.len();
    let mut out: Vec<String> = Vec::new();
    let mut from: usize = 0;
    let mut i: usize = 0;
    assert(v@.subrange(0, n as int) == s@);
    assert(out.deep_view() =~= Seq::<Seq<char>>::empty());
    assert(with_head(split_pieces(s@, sep), Seq::empty()) =~= split_pieces(s@, sep)) by {
        lemma_split_nonempty(s@, sep);
        assert(Seq::<char>::empty() + split_pieces(s@, sep)[0] =~= split_pieces(s@, sep)[0]);
    }
    while i < n
        invariant
            v@ == s@,
            n == v.len(),
            from <= i <= n,
            split_pieces(s@, sep) == out.deep_view() + with_head(
                split_pieces(v@.subrange(i as int, n as int), sep),
                v@.subrange(from as int, i as int),
            ),
        decreases n - i,
    {
        let ghost tail = v@.subrange(i as int, n as int);
        let ghost rest = split_pieces(v@.subrange(i + 1, n as int), sep);
        let ghost cur = v@.subrange(from as int, i as int);
        proof {
            assert(tail.drop_first() == v@.subrange(i + 1, n as int));
            lemma_split_nonempty(v@.subrange(i + 1, n as int), sep);
        }
        if v[i] == sep {
            let piece = string_of_range(&v, from, i);
            let ghost before = out.deep_view();
            out.push(piece);
            proof {
                assert(out.deep_view() =~= before.push(cur));
                assert(with_head(split_pieces(tail, sep), cur) =~= seq![cur] + rest);
                assert(with_head(rest, v@.subrange(i + 1, i + 1)) =~= rest);
                assert(before + (seq![cur] + rest) =~= before.push(cur) + rest);
            }
            from = i + 1;
        } else {
            proof {
                let c = v@[i as int];
                assert(tail[0] == c);
                assert(split_pieces(tail, sep) == rest.update(0, seq![c] + rest[0]));
                assert(cur + (seq![c] + rest[0]) =~= cur.push(c) + rest[0]);
                assert(v@.subrange(from as int, i + 1) =~= cur.push(v@[i as int]));
                assert(with_head(split_pieces(tail, sep), cur) =~= with_head(
                    rest,
                    v@.subrange(from as int, i + 1),
                ));
            }
        }
        i = i + 1;
    }
    let piece = string_of_range(&v, from, n);
    let ghost before = out.deep_view();
    out.push(piece);
    proof {
        assert(v@.subrange(n as int, n as int) =~= Seq::<char>::empty());
        assert(out.deep_view() =~= before.push(v@.subrange(from as int, n as int)));
        assert(with_head(seq![Seq::<char>::empty()], v@.subrange(from as int, n as int)) =~= seq![
            v@.subrange(from as int, n as int),
        ]);
    }
    out
}

/// The numbers among comma-separated pieces, each trimmed; pieces that are
/// not numbers are left out.
pub open spec fn numbers_in(pieces: Seq<Seq<char>>) -> Seq<usize>
    decreases pieces.len(),
{
    if pieces.len() == 0 {
        Seq::empty()
    } else {
        (match parse_usize_spec(trimmed(pieces[0])) {
            Some(n) => seq![n],
            None => Seq::<usize>::empty(),
        }) + numbers_in(pieces.drop_first())
    }
}

/// The numbers of a comma-separated list, as `numbers_in` reads them.
pub fn parse_numbers(s: &str) -> (r: Vec<usize>)
    ensures
        r@ == numbers_in(split_pieces(s@, ',')),
{
    let pieces = split_on(s, ',');
    let ghost all = pieces.deep_view();
    let mut out: Vec<usize> = Vec::new();
    let mut i: usize = 0;
    assert(all.subrange(0, all.len() as int) == all);
    while i < pieces.len()
        invariant
            all == pieces.deep_view(),
            all == split_pieces(s@, ','),
            i <= pieces.len(),
            numbers_in(all) == out@ + numbers_in(all.subrange(i as int, all.len() as int)),
        decreases pieces.len() - i,
    {
        assert(all.subrange(i as int, all.len() as int).drop_first() == all.subrange(
            i + 1,
            all.len() as int,
        ));
        assert(all[i as int] == pieces@[i as int]@);
        let t = trim(pieces[i].as_str());
        let ghost before = out@;
        match parse_usize(t.as_str()) {
            Some(n) => {
                out.push(n);
                assert(before + (seq![n] + numbers_in(all.subrange(i + 1, all.len() as int)))
                    =~= out@ + numbers_in(all.subrange(i + 1, all.len() as int)));
            },
            None => {
                assert(Seq::<usize>::empty() + numbers_in(all.subrange(i + 1, all.len() as int))
                    =~= numbers_in(all.subrange(i + 1, all.len() as int)));
            },
        }
        i = i + 1;
    }
    assert(all.subrange(all.len() as int, all.len() as int) =~= Seq::<Seq<char>>::empty());
    assert(out@ + Seq::<usize>::empty() =~= out@);
    out
}

// ------------------------------------------------------------ requests

/// What a download specification asks for.
#[derive(Clone, Debug, PartialEq, Eq)]
pub enum DownloadRequest {
    /// Show the catalog.
    ShowCatalog,
    /// Install every voice of the catalog.
    All,
    /// Install voices by their 1-based catalog numbers.
    Numbers(Vec<usize>),
    /// Install the voice with this identifier.
    Single(String),
}

/// The request that specification `spec` makes, read in lower case.
pub open spec fn request_is(r: DownloadRequest, spec: Seq<char>) -> bool {
    let s = lower_of(spec);
    if s == "list"@ {
        r == DownloadRequest::ShowCatalog
    } else if s == "all"@ {
        r == DownloadRequest::All
    } else if has_infix(s, ","@) || all_digits(s) {
        r matches DownloadRequest::Numbers(v) && v@ == numbers_in(split_pieces(s, ','))
    } else {
        r matches DownloadRequest::Single(x) && x@ == s
    }
}

fn is_all_digits(s: &str) -> (r: bool)
    ensures
        r == all_digits(s@),
{
    let v = chars_of(s);
    let mut i: usize = 0;
    while i < v.len()
        invariant
            v@ == s@,
            i <= v.len(),
            forall|k: int| 0 <= k < i ==> is_digit(#[trigger] v@[k]),
        decreases v.len() - i,
    {
        if !('0' <= v[i] && v[i] <= '9') {
            return false;
        }
        i = i + 1;
    }
    true
}

/// Reads a download specification.
pub fn parse_download_spec(spec: &str) -> (r: DownloadRequest)
    ensures
        request_is(r, spec@),
{
    let s = to_lower(spec);
    if crate::text::same_text(s.as_str(), "list") {
        DownloadRequest::ShowCatalog
    } else if crate::text::same_text(s.as_str(), "all") {
        DownloadRequest::All
    } else if contains(s.as_str(), ",") || is_all_digits(s.as_str()) {
        DownloadRequest::Numbers(parse_numbers(s.as_str()))
    } else {
        DownloadRequest::Single(s)
    }
}

// ------------------------------------------------------------ batches

/// One entry of a batch.
#[derive(Clone, Copy, Debug)]
pub enum BatchItem {
    /// Install this voice.
    Install(Voice),
    /// This number names no voice of the catalog; it is reported and skipped.
    Invalid(usize),
}

/// The entry that catalog number `n` (counting from one) stands for.
pub open spec fn item_for(n: usize) -> BatchItem {
    if 1 <= n && n <= CATALOG_LEN {
        BatchItem::Install(catalog()[n - 1])
    } else {
        BatchItem::Invalid(n)
    }
}

/// The batch for a list of catalog numbers, in their order.
pub fn batch_for_numbers(numbers: &Vec<usize>) -> (r: Vec<BatchItem>)
    ensures
        r.len() == numbers.len(),
        forall|i: int| 0 <= i < numbers.len() ==> r[i] == item_for(#[trigger] numbers[i]),
{
    let mut out: Vec<BatchItem> = Vec::new();
    let mut i: usize = 0;
    while i < numbers.len()
        invariant
            i <= numbers.len(),
            out.len() == i,
            forall|k: int| 0 <= k < i ==> out[k] == item_for(#[trigger] numbers[k]),
        decreases numbers.len() - i,
    {
        let n = numbers[i];
        if 1 <= n && n <= CATALOG_LEN {
            out.push(BatchItem::Install(catalog_voice(n - 1)));
        } else {
            out.push(BatchItem::Invalid(n));
        }
        i = i + 1;
    }
    out
}

/// The batch that installs the whole catalog, in catalog order.
pub fn batch_all() -> (r: Vec<BatchItem>)
    ensures
        r.len() == CATALOG_LEN,
        forall|i: int| 0 <= i < CATALOG_LEN ==> r[i] == BatchItem::Install(#[trigger] catalog()[i]),
{
    let mut out: Vec<BatchItem> = Vec::new();
    let mut i: usize = 0;
    while i < CATALOG_LEN
        invariant
            i <= CATALOG_LEN,
            out.len() == i,
            forall|k: int| 0 <= k < i ==> out[k] == BatchItem::Install(#[trigger] catalog()[k]),
        decreases CATALOG_LEN - i,
    {
        out.push(BatchItem::Install(catalog_voice(i)));
        i = i + 1;
    }
    out
}

/// How many entries were installed: those that name a voice and succeeded;
/// invalid entries never count, whatever their outcome says.
pub open spec fn successes(items: Seq<BatchItem>, outcomes: Seq<bool>) -> nat
    decreases items.len(),
{
    if items.len() == 0 || outcomes.len() == 0 {
        0
    } else {
        (if items[0] is Install && outcomes[0] {
            1nat
        } else {
            0nat
        }) + successes(items.drop_first(), outcomes.drop_first())
    }
}

/// Counts the successes of a batch, given each entry's outcome.
pub fn count_successes(items: &Vec<BatchItem>, outcomes: &Vec<bool>) -> (r: usize)
    requires
        items.len() == outcomes.len(),
    ensures
        r == successes(items@, outcomes@),
{
    let n = items.len();
    let mut i: usize = n;
    let mut count: usize = 0;
    while i > 0
        invariant
            n == items.len() == outcomes.len(),
            i <= n,
            count == successes(items@.subrange(i as int, n as int), outcomes@.subrange(i as int, n as int)),
            count <= n - i,
        decreases i,
    {
        let ghost it = items@.subrange(i - 1, n as int);
        let ghost oc = outcomes@.subrange(i - 1, n as int);
        assert(it.drop_first() == items@.subrange(i as int, n as int));
        assert(oc.drop_first() == outcomes@.subrange(i as int, n as int));
        let ok = match items[i - 1] {
            BatchItem::Install(_) => outcomes[i - 1],
            BatchItem::Invalid(_) => false,
        };
        if ok {
            count = count + 1;
        }
        i = i - 1;
    }
    assert(items@.subrange(0, n as int) == items@);
    assert(outcomes@.subrange(0, n as int) == outcomes@);
    count
}

} // verus!
