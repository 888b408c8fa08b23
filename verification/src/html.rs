//! Reading the two kinds of page: the index with its entries, and a detail
//! page with its code sample.

use vstd::prelude::*;
use vstd::utf8::encode_utf8;
use select::predicate::Predicate;
use crate::error::Mismatch;
use crate::error::ScrapeError;
use crate::error::ScrapeErrorView;
use crate::model::is_reserved;
use crate::model::is_reserved_name;
use crate::model::Candidate;
use crate::model::CandidateView;

verus! {

/// Attribute and value that mark the container of the index entries.
pub const CONTAINER: (&'static str, &'static str) = ("id", "constants");

/// Attribute and value that mark one entry inside the container.
pub const ENTRY: (&'static str, &'static str) = ("class", "constant");

/// Element that holds an entry's hyperlink.
pub const LINK_TAG: &'static str = "a";

/// Attribute that holds a hyperlink's target.
pub const TARGET_ATTR: &'static str = "href";

/// Element that holds a code sample.
pub const SAMPLE_TAG: &'static str = "code";

/// Class that marks a code sample as written in Dart.
pub const SAMPLE_CLASS: &'static str = "language-dart";

/// The most bytes that a page may hold. The parser keeps text in buffers of
/// at most 2^31 bytes, and a byte of the page may come to three bytes in a
/// buffer: a page of up to a third of 2^31 bytes fills none beyond that.
pub const PAGE_LIMIT: usize = 715_827_882;

/// Whether `text` is short enough to be parsed as a page.
pub open spec fn fits_page(text: Seq<char>) -> bool {
    encode_utf8(text).len() <= PAGE_LIMIT
}

/// The text of a page, short enough to be parsed.
#[derive(Debug, PartialEq, Eq)]
pub struct Page {
    text: String,
}

impl View for Page {
    type V = Seq<char>;

    closed spec fn view(&self) -> Seq<char> {
        self.text@
    }
}

impl Clone for Page {
    fn clone(&self) -> (copy: Page)
        ensures
            copy@ == self@,
    {
        proof {
            use_type_invariant(self);
        }
        Page { text: self.text.clone() }
    }
}

impl Page {
    #[verifier::type_invariant]
    spec fn well_formed(&self) -> bool {
        fits_page(self.text@)
    }

    /// Makes a page of a text, unless the text is too long for one.
    pub fn new(text: String) -> (made: Option<Page>)
        ensures
            match made {
                Some(page) => page@ == text@ && fits_page(text@),
                None => !fits_page(text@),
            },
    {
        if text.as_str().as_bytes().len() <= PAGE_LIMIT {
            Some(Page { text })
        } else {
            None
        }
    }

    /// The text of the page.
    pub fn text(&self) -> (text: &str)
        ensures
            text@ == self@,
            fits_page(text@),
    {
        proof {
            use_type_invariant(self);
        }
        self.text.as_str()
    }
}

/// What an entry shows of its first hyperlink: nothing where it has none,
/// else the link's text and, where it has one, its target.
pub type RawEntry = Option<(String, Option<String>)>;

/// Mathematical value of a [`RawEntry`].
pub type EntryView = Option<(Seq<char>, Option<Seq<char>>)>;

/// What the document parsed from `html` shows of its entries: nothing where
/// no element carries the attribute `anchor.0` with the value `anchor.1`;
/// else, for each element that carries `entry.0` with the value `entry.1` and
/// lies below such an anchor, in document order, the text and the `target`
/// attribute of the first `link_tag` element below it.
pub uninterp spec fn linked_entries(
    html: Seq<char>,
    anchor: (Seq<char>, Seq<char>),
    entry: (Seq<char>, Seq<char>),
    link_tag: Seq<char>,
    target: Seq<char>,
) -> Option<Seq<Option<(Seq<char>, Option<Seq<char>>)>>>;

/// The text of the first `tag` element of class `class` in the document
/// parsed from `html`, if there is one.
pub uninterp spec fn first_element_text(html: Seq<char>, tag: Seq<char>, class: Seq<char>) -> Option<
    Seq<char>,
>;

/// Parses `html` with `select::document::Document::from` and walks it with
/// `Document::find`, `Node::find`, `Node::text` and `Node::attr` under the
/// predicates `Attr`, `Name` and `Predicate::descendant`. The contract only
/// gives the outcome its name: the same arguments give the same entries.
/// The text must fit a page: the parser panics where one of its buffers
/// would grow beyond 2^31 bytes, which no text within [`PAGE_LIMIT`] brings
/// about. The parser descends as deep as the elements of the text nest: the
/// stack for that is taken for granted, as memory is.
#[verifier::external_body]
fn select_linked_entries(
    html: &str,
    anchor: (&str, &str),
    entry: (&str, &str),
    link_tag: &str,
    target: &str,
) -> (scan: Option<Vec<RawEntry>>)
    requires
        fits_page(html@),
    ensures
        scan.deep_view() == linked_entries(
            html@,
            (anchor.0@, anchor.1@),
            (entry.0@, entry.1@),
            link_tag@,
            target@,
        ),
{
    let doc = select::document::Document::from(html);
    let below = select::predicate::Attr(anchor.0, anchor.1).descendant(
        select::predicate::Attr(entry.0, entry.1),
    );
    doc.find(select::predicate::Attr(anchor.0, anchor.1)).next().map(|_| {
        doc.find(below).map(|node| {
            node.find(select::predicate::Name(link_tag)).next().map(|link| {
                (link.text(), link.attr(target).map(|value| value.to_string()))
            })
        }).collect()
    })
}

/// Parses `html` with `select::document::Document::from` and takes the text
/// (`Node::text`) of the first node that `Document::find` gives under the
/// predicates `Name` and `Class`. The contract only gives the outcome its
/// name: the same arguments give the same text. The text must fit a page:
/// the parser panics where one of its buffers would grow beyond 2^31 bytes,
/// which no text within [`PAGE_LIMIT`] brings about. The parser descends as
/// deep as the elements of the text nest: the stack for that is taken for
/// granted, as memory is.
#[verifier::external_body]
fn select_first_text(html: &str, tag: &str, class: &str) -> (text: Option<String>)
    requires
        fits_page(html@),
    ensures
        text.deep_view() == first_element_text(html@, tag@, class@),
{
    let doc = select::document::Document::from(html);
    let wanted = select::predicate::Name(tag).and(select::predicate::Class(class));
    doc.find(wanted).next().map(|node| node.text())
}

/// The entries of the index page `html`, as the page shows them.
pub open spec fn index_entries(html: Seq<char>) -> Option<Seq<EntryView>> {
    linked_entries(
        html,
        (CONTAINER.0@, CONTAINER.1@),
        (ENTRY.0@, ENTRY.1@),
        LINK_TAG@,
        TARGET_ATTR@,
    )
}

/// The code sample of the detail page `html`, if it has one.
pub open spec fn code_sample(html: Seq<char>) -> Option<Seq<char>> {
    first_element_text(html, SAMPLE_TAG@, SAMPLE_CLASS@)
}

/// What is wrong with an entry, if anything. An entry needs a hyperlink;
/// unless the text of the hyperlink is a reserved name, the hyperlink needs
/// a target too.
pub open spec fn entry_fault(e: EntryView) -> Option<Mismatch> {
    match e {
        None => Some(Mismatch::Link),
        Some((text, target)) => if !is_reserved(text) && target is None {
            Some(Mismatch::Target)
        } else {
            None
        },
    }
}

/// Whether the entry at position `i` is at fault.
pub open spec fn faulty_at(entries: Seq<EntryView>, i: int) -> bool {
    0 <= i < entries.len() && entry_fault(entries[i]) is Some
}

/// Whether no entry is at fault, so that the page is laid out as expected.
pub open spec fn fault_free(entries: Seq<EntryView>) -> bool {
    forall|i: int| !faulty_at(entries, i)
}

/// The fault of the first entry that has one.
pub open spec fn first_fault(entries: Seq<EntryView>) -> Option<Mismatch> {
    if exists|i: int| faulty_at(entries, i) {
        let i = choose|i: int|
            faulty_at(entries, i) && forall|k: int| 0 <= k < i ==> !faulty_at(entries, k);
        entry_fault(entries[i])
    } else {
        None
    }
}

/// Whether an entry carries one of the reserved names.
pub open spec fn names_reserved(e: EntryView) -> bool {
    e matches Some((text, _)) && is_reserved(text)
}

/// The name and the target of an entry's hyperlink, as a candidate.
pub open spec fn as_candidate(e: EntryView) -> CandidateView {
    match e {
        Some((text, Some(target))) => CandidateView { name: text, link: target },
        Some((text, None)) => CandidateView { name: text, link: Seq::empty() },
        None => CandidateView { name: Seq::empty(), link: Seq::empty() },
    }
}

/// The entries that stand for icons, as candidates: all but those with a
/// reserved name, in the order of the entries.
pub open spec fn icon_entries(entries: Seq<EntryView>) -> Seq<CandidateView> {
    entries.filter(|e: EntryView| !names_reserved(e)).map_values(|e: EntryView| as_candidate(e))
}

/// What a scan of the index comes to: what the page lacks, or else its
/// entries without the reserved names, in page order.
pub open spec fn listing(scan: Option<Seq<EntryView>>) -> Result<Seq<CandidateView>, Mismatch> {
    match scan {
        None => Err(Mismatch::Container),
        Some(entries) => match first_fault(entries) {
            Some(what) => Err(what),
            None => Ok(icon_entries(entries)),
        },
    }
}

/// The candidate that an entry stands for: none for a reserved name, and
/// none for an entry that is at fault.
spec fn entry_candidate(e: EntryView) -> Option<CandidateView> {
    match e {
        Some((text, Some(target))) => if !is_reserved(text) {
            Some(CandidateView { name: text, link: target })
        } else {
            None
        },
        _ => None,
    }
}

/// The candidates that entries stand for, in the order of the entries.
spec fn candidates_of(entries: Seq<EntryView>) -> Seq<CandidateView> {
    entries.filter_map(|e: EntryView| entry_candidate(e))
}

/// One more entry adds its candidate, if it stands for one.
proof fn lemma_candidates_of_next(entries: Seq<EntryView>, i: int)
    requires
        0 <= i < entries.len(),
    ensures
        candidates_of(entries.take(i + 1)) == match entry_candidate(entries[i]) {
            Some(c) => candidates_of(entries.take(i)).push(c),
            None => candidates_of(entries.take(i)),
        },
{
    let pick = |e: EntryView| entry_candidate(e);
    entries.lemma_filter_map_take_succ(pick, i);
    match entry_candidate(entries[i]) {
        Some(c) => {
            assert(entries.take(i).filter_map(pick) + seq![c] =~= entries.take(i).filter_map(
                pick,
            ).push(c));
        },
        None => {
            assert(entries.take(i).filter_map(pick) + Seq::<CandidateView>::empty()
                =~= entries.take(i).filter_map(pick));
        },
    }
}

/// Of entries without fault, the candidates are the entries that stand for
/// icons.
proof fn lemma_candidates_are_icon_entries(entries: Seq<EntryView>)
    requires
        fault_free(entries),
    ensures
        candidates_of(entries) == icon_entries(entries),
    decreases entries.len(),
{
    let pick = |e: EntryView| entry_candidate(e);
    let keep = |e: EntryView| !names_reserved(e);
    let turn = |e: EntryView| as_candidate(e);
    reveal(Seq::filter);
    if entries.len() == 0 {
        assert(entries.filter_map(pick) =~= entries.filter(keep).map_values(turn));
    } else {
        let rest = entries.drop_last();
        let last = entries.last();
        assert forall|i: int| !faulty_at(rest, i) by {
            if faulty_at(rest, i) {
                assert(rest[i] == entries[i]);
                assert(faulty_at(entries, i));
            }
        }
        lemma_candidates_are_icon_entries(rest);
        assert(rest.filter_map(pick) == rest.filter(keep).map_values(turn));
        assert(!faulty_at(entries, entries.len() - 1));
        assert(entry_fault(last) is None);
        if keep(last) {
            assert(pick(last) == Some(turn(last)));
            assert(entries.filter(keep) == rest.filter(keep).push(last));
            assert(rest.filter(keep).push(last).map_values(turn) =~= rest.filter(keep).map_values(
                turn,
            ).push(turn(last)));
            assert(entries.filter_map(pick) =~= rest.filter_map(pick).push(turn(last)));
        } else {
            assert(pick(last) is None);
        }
    }
}

/// The entry at `i` is the first at fault where none before it is.
proof fn lemma_first_fault_at(entries: Seq<EntryView>, i: int)
    requires
        faulty_at(entries, i),
        forall|k: int| 0 <= k < i ==> !faulty_at(entries, k),
    ensures
        first_fault(entries) == entry_fault(entries[i]),
{
    let c = choose|c: int|
        faulty_at(entries, c) && forall|k: int| 0 <= k < c ==> !faulty_at(entries, k);
    if c < i {
        assert(!faulty_at(entries, c));
    }
    if i < c {
        assert(!faulty_at(entries, i));
    }
}

/// Below an entry at fault there is a first one.
proof fn lemma_least_fault(entries: Seq<EntryView>, i: int)
    requires
        faulty_at(entries, i),
    ensures
        exists|m: int|
            faulty_at(entries, m) && forall|k: int| 0 <= k < m ==> !faulty_at(entries, k),
    decreases i,
{
    if exists|k: int| 0 <= k < i && faulty_at(entries, k) {
        let k = choose|k: int| 0 <= k < i && faulty_at(entries, k);
        lemma_least_fault(entries, k);
    } else {
        assert(faulty_at(entries, i) && forall|k: int| 0 <= k < i ==> !faulty_at(entries, k));
    }
}

/// A scan has no first fault exactly where no entry is at fault.
pub proof fn lemma_first_fault_none(entries: Seq<EntryView>)
    ensures
        first_fault(entries) is None <==> fault_free(entries),
{
    if exists|i: int| faulty_at(entries, i) {
        let i = choose|i: int| faulty_at(entries, i);
        lemma_least_fault(entries, i);
    }
}

/// An entry with a reserved name changes nothing in the listing of a page
/// that is laid out as expected, wherever in the page it stands: with such
/// an entry put in at any position, the same candidates are listed.
pub proof fn lemma_reserved_entry_is_left_out(
    entries: Seq<EntryView>,
    reserved: EntryView,
    at: int,
)
    requires
        fault_free(entries),
        names_reserved(reserved),
        0 <= at <= entries.len(),
    ensures
        listing(Some(entries)) == Ok::<Seq<CandidateView>, Mismatch>(icon_entries(entries)),
        listing(Some(entries.insert(at, reserved))) == listing(Some(entries)),
{
    let keep = |e: EntryView| !names_reserved(e);
    let with = entries.insert(at, reserved);
    assert(entry_fault(reserved) is None);
    let before = entries.take(at);
    let after = entries.skip(at);
    assert forall|i: int| !faulty_at(with, i) by {
        if 0 <= i < with.len() {
            if i < at {
                assert(with[i] == entries[i]);
                assert(!faulty_at(entries, i));
            } else if i > at {
                assert(with[i] == entries[i - 1]);
                assert(!faulty_at(entries, i - 1));
            }
        }
    }
    lemma_first_fault_none(entries);
    lemma_first_fault_none(with);
    assert(with =~= before + seq![reserved] + after);
    assert(entries =~= before + after);
    Seq::filter_distributes_over_add(before, seq![reserved], keep);
    Seq::filter_distributes_over_add(before + seq![reserved], after, keep);
    Seq::filter_distributes_over_add(before, after, keep);
    assert(seq![reserved].filter(keep) =~= Seq::<EntryView>::empty()) by {
        reveal_with_fuel(Seq::filter, 2);
    }
    assert(with.filter(keep) =~= entries.filter(keep));
}

/// Reads one entry: its fault, or else the candidate it stands for, if any.
fn read_entry(e: &RawEntry) -> (read: Result<Option<Candidate>, Mismatch>)
    ensures
        match read {
            Ok(c) => entry_fault(e.deep_view()) is None && c.deep_view() == entry_candidate(
                e.deep_view(),
            ),
            Err(what) => entry_fault(e.deep_view()) == Some(what),
        },
{
    match e {
        None => Err(Mismatch::Link),
        Some((text, target)) => {
            if is_reserved_name(text.as_str()) {
                Ok(None)
            } else {
                match target {
                    None => Err(Mismatch::Target),
                    Some(link) => Ok(Some(Candidate::assemble(text.clone(), link.clone()))),
                }
            }
        },
    }
}

/// Turns a scan of the index into candidates: every entry whose name is not
/// reserved, in page order. The scan is refused where the container is
/// missing, and at the first entry without a hyperlink or, its name not
/// being reserved, without a target.
pub fn candidates_from_scan(scan: Option<Vec<RawEntry>>) -> (listed: Result<
    Vec<Candidate>,
    ScrapeError,
>)
    ensures
        match listed {
            Ok(found) => listing(scan.deep_view()) == Ok::<Seq<CandidateView>, Mismatch>(
                found.deep_view(),
            ),
            Err(e) => listing(scan.deep_view()) is Err && e@ == ScrapeErrorView::StructuralMismatch(
                listing(scan.deep_view())->Err_0,
            ),
        },
{
    let entries = match scan {
        None => {
            return Err(ScrapeError::StructuralMismatch(Mismatch::Container));
        },
        Some(entries) => entries,
    };
    let ghost shown = entries.deep_view();
    assert(scan.deep_view() == Some(shown));
    let mut found: Vec<Candidate> = Vec::new();
    let mut i: usize = 0;
    assert(found.deep_view() =~= candidates_of(shown.take(0)));
    while i < entries.len()
        invariant
            i <= entries.len(),
            shown == entries.deep_view(),
            shown.len() == entries.len(),
            scan.deep_view() == Some(shown),
            forall|k: int| 0 <= k < i ==> !faulty_at(shown, k),
            found.deep_view() == candidates_of(shown.take(i as int)),
        decreases entries.len() - i,
    {
        assert(shown[i as int] == entries[i as int].deep_view());
        proof {
            lemma_candidates_of_next(shown, i as int);
        }
        let ghost before = found.deep_view();
        match read_entry(&entries[i]) {
            Err(what) => {
                proof {
                    lemma_first_fault_at(shown, i as int);
                }
                return Err(ScrapeError::StructuralMismatch(what));
            },
            Ok(None) => {},
            Ok(Some(c)) => {
                found.push(c);
                assert(found.deep_view() =~= before.push(c@));
            },
        }
        i = i + 1;
    }
    assert(shown.take(i as int) =~= shown);
    proof {
        lemma_candidates_are_icon_entries(shown);
    }
    Ok(found)
}

/// Lists the candidates of an index page: the entries of its container,
/// without the reserved names, each with the link that its hyperlink gives.
/// A page without the container, or with an entry that lacks what a
/// candidate needs, is refused as a structural mismatch.
pub fn list_constant_nodes(page: &Page) -> (listed: Result<Vec<Candidate>, ScrapeError>)
    ensures
        match listed {
            Ok(found) => listing(index_entries(page@)) == Ok::<Seq<CandidateView>, Mismatch>(
                found.deep_view(),
            ),
            Err(e) => listing(index_entries(page@)) is Err && e@
                == ScrapeErrorView::StructuralMismatch(listing(index_entries(page@))->Err_0),
        },
{
    candidates_from_scan(
        select_linked_entries(page.text(), CONTAINER, ENTRY, LINK_TAG, TARGET_ATTR),
    )
}

/// Finds the code sample of a detail page and returns its text.
pub fn find_code_sample(page: &Page) -> (sample: Option<String>)
    ensures
        sample.deep_view() == code_sample(page@),
{
    select_first_text(page.text(), SAMPLE_TAG, SAMPLE_CLASS)
}

} // verus!
